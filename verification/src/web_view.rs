//! Which file a web view loads for a bundled document resource: the rule on
//! resource paths, and where the file is taken from.
use vstd::prelude::*;

verus! {

/// Whether a `..` component starts at position `i` of the path `p`.
pub open spec fn is_parent_component_at(p: Seq<char>, i: int) -> bool {
    &&& 0 <= i
    &&& i + 1 < p.len()
    &&& p[i] == '.'
    &&& p[i + 1] == '.'
    &&& (i == 0 || p[i - 1] == '/')
    &&& (i + 2 == p.len() || p[i + 2] == '/')
}

/// Whether the path `p` starts with a `.` component (a `.` further on does
/// not count: it is dropped when the path is split into components).
pub open spec fn starts_with_current_dir(p: Seq<char>) -> bool {
    &&& p.len() >= 1
    &&& p[0] == '.'
    &&& (p.len() == 1 || p[1] == '/')
}

/// Whether `p` may name a document resource: a non-empty relative path whose
/// components are all plain names, so that no `.` leads it and no `..` lets
/// it leave the resource directory.
pub open spec fn is_resource_path_spec(p: Seq<char>) -> bool {
    &&& p.len() > 0
    &&& p[0] != '/'
    &&& !starts_with_current_dir(p)
    &&& forall|i: int| 0 <= i < p.len() ==> !#[trigger] is_parent_component_at(p, i)
}

/// A resource path never leaves the resource directory: a path with a `..`
/// component anywhere, an absolute path, an empty path, and a path led by a
/// `.` component are all refused; a single plain name without `/` or a leading
/// `.` is accepted.
pub proof fn law_resource_paths_stay_inside(p: Seq<char>, i: int)
    ensures
        is_parent_component_at(p, i) ==> !is_resource_path_spec(p),
        p.len() > 0 && p[0] == '/' ==> !is_resource_path_spec(p),
        p.len() == 0 ==> !is_resource_path_spec(p),
        starts_with_current_dir(p) ==> !is_resource_path_spec(p),
        p.len() > 0 && p[0] != '.' && (forall|j: int| 0 <= j < p.len() ==> p[j] != '/')
            ==> is_resource_path_spec(p),
{
}

/// Whether `path` may name a document resource (see `is_resource_path_spec`).
/// A web view refuses any other resource path.
pub fn is_resource_path(path: &str) -> (r: bool)
    ensures
        r == is_resource_path_spec(path@),
{
    let n = path.unicode_len();
    if n == 0 {
        return false;
    }
    let first = path.get_char(0);
    if first == '/' {
        return false;
    }
    if first == '.' && (n == 1 || path.get_char(1) == '/') {
        return false;
    }
    let mut i: usize = 0;
    while i < n
        invariant
            n == path@.len(),
            i <= n,
            forall|j: int| 0 <= j < i ==> !#[trigger] is_parent_component_at(path@, j),
        decreases n - i,
    {
        if i + 1 < n && path.get_char(i) == '.' && path.get_char(i + 1) == '.' && (i == 0
            || path.get_char(i - 1) == '/') && (i + 2 == n || path.get_char(i + 2) == '/') {
            assert(is_parent_component_at(path@, i as int));
            return false;
        }
        i += 1;
    }
    true
}

/// Where a document resource is loaded from.
#[derive(Debug, Clone, Copy, PartialEq, Eq, Structural)]
pub enum DocumentSource {
    /// The file of that name in the application bundle's resources.
    Bundle,
    /// The development path given beside the resource.
    Development,
}

/// Where the resource is loaded from: the bundle when the file was found
/// there, or else the development path when one is given. `None` when it is
/// in neither, which a web view refuses.
pub fn document_source(found_in_bundle: bool, has_development_path: bool) -> (r: Option<
    DocumentSource,
>)
    ensures
        r == (if found_in_bundle {
            Some(DocumentSource::Bundle)
        } else if has_development_path {
            Some(DocumentSource::Development)
        } else {
            None
        }),
{
    if found_in_bundle {
        Some(DocumentSource::Bundle)
    } else if has_development_path {
        Some(DocumentSource::Development)
    } else {
        None
    }
}

/// Why the developer tools of a web view were not opened.
#[derive(Debug, Clone, Copy, PartialEq, Eq, Structural)]
pub enum DevToolsRefusal {
    /// The web view is not inspectable.
    NotInspectable,
    /// This build cannot open Web Inspector programmatically (a release build
    /// without the `devtools` feature).
    Unsupported,
}

/// Whether opening the developer tools goes ahead: only for an inspectable web
/// view, and only in a build that can open Web Inspector.
pub fn dev_tools_decision(inspectable: bool, inspector_available: bool) -> (r: Result<
    (),
    DevToolsRefusal,
>)
    ensures
        r == (if !inspectable {
            Err(DevToolsRefusal::NotInspectable)
        } else if !inspector_available {
            Err(DevToolsRefusal::Unsupported)
        } else {
            Ok(())
        }),
{
    if !inspectable {
        Err(DevToolsRefusal::NotInspectable)
    } else if !inspector_available {
        Err(DevToolsRefusal::Unsupported)
    } else {
        Ok(())
    }
}

} // verus!
