//! The model behind `FilePicker`: how a request configures the open or save
//! panel, which file types it admits, and what a finished panel reports.
use vstd::prelude::*;

verus! {

/// `NSModalResponseOK`.
pub const NS_MODAL_RESPONSE_OK: isize = 1;

/// `NSModalResponseCancel`.
pub const NS_MODAL_RESPONSE_CANCEL: isize = 0;

/// `NSModalResponseAbort`.
pub const NS_MODAL_RESPONSE_ABORT: isize = -1001;

/// What a file picker request asks for.
#[derive(Debug, Clone, Copy, PartialEq, Eq, Structural)]
pub enum FilePickerMode {
    OpenFile,
    OpenFiles,
    SaveFile,
    SelectFolder,
}

/// How the native panel is configured for a mode.
#[derive(Debug, Clone, Copy, PartialEq, Eq, Structural)]
pub struct PanelOptions {
    /// A save panel rather than an open panel.
    pub save_panel: bool,
    pub can_choose_files: bool,
    pub can_choose_directories: bool,
    pub allows_multiple_selection: bool,
}

/// The panel configuration of a mode: saving uses a save panel; opening uses
/// an open panel that chooses files, several of them for `OpenFiles`, or a
/// single folder for `SelectFolder`.
pub open spec fn options_for(mode: FilePickerMode) -> PanelOptions {
    match mode {
        FilePickerMode::SaveFile => PanelOptions {
            save_panel: true,
            can_choose_files: false,
            can_choose_directories: false,
            allows_multiple_selection: false,
        },
        _ => PanelOptions {
            save_panel: false,
            can_choose_files: mode != FilePickerMode::SelectFolder,
            can_choose_directories: mode == FilePickerMode::SelectFolder,
            allows_multiple_selection: mode == FilePickerMode::OpenFiles,
        },
    }
}

/// Opening a file or files chooses files and no directories, selecting a
/// folder chooses a directory and no files, only `OpenFiles` selects several,
/// and only saving uses a save panel, which chooses neither.
pub proof fn law_panel_options(mode: FilePickerMode)
    ensures
        options_for(mode).save_panel == (mode == FilePickerMode::SaveFile),
        options_for(mode).can_choose_files == (mode == FilePickerMode::OpenFile || mode
            == FilePickerMode::OpenFiles),
        options_for(mode).can_choose_directories == (mode == FilePickerMode::SelectFolder),
        options_for(mode).allows_multiple_selection == (mode == FilePickerMode::OpenFiles),
{
}

/// The panel configuration of a mode.
pub fn panel_options(mode: FilePickerMode) -> (r: PanelOptions)
    ensures
        r == options_for(mode),
{
    match mode {
        FilePickerMode::SaveFile => PanelOptions {
            save_panel: true,
            can_choose_files: false,
            can_choose_directories: false,
            allows_multiple_selection: false,
        },
        FilePickerMode::OpenFile => PanelOptions {
            save_panel: false,
            can_choose_files: true,
            can_choose_directories: false,
            allows_multiple_selection: false,
        },
        FilePickerMode::OpenFiles => PanelOptions {
            save_panel: false,
            can_choose_files: true,
            can_choose_directories: false,
            allows_multiple_selection: true,
        },
        FilePickerMode::SelectFolder => PanelOptions {
            save_panel: false,
            can_choose_files: false,
            can_choose_directories: true,
            allows_multiple_selection: false,
        },
    }
}

/// One file type filter of a request.
#[derive(Debug, Clone)]
pub struct FileFilter {
    pub name: String,
    /// The file name extensions the filter admits.
    pub extensions: Vec<String>,
    /// Whether the filter admits every file.
    pub all_files: bool,
}

/// The extensions of all filters, in order.
pub open spec fn all_extensions(filters: Seq<FileFilter>) -> Seq<Seq<char>>
    decreases filters.len(),
{
    if filters.len() == 0 {
        Seq::empty()
    } else {
        all_extensions(filters.drop_last()) + filters.last().extensions@.map_values(
            |e: String| e@,
        )
    }
}

/// The file types the panel admits: every file (`None`) when some filter
/// admits every file or no filter names an extension, otherwise the
/// extensions of all filters.
pub open spec fn allowed_types_of(filters: Seq<FileFilter>) -> Option<Seq<Seq<char>>> {
    if (exists|i: int| 0 <= i < filters.len() && #[trigger] filters[i].all_files)
        || all_extensions(filters).len() == 0 {
        None
    } else {
        Some(all_extensions(filters))
    }
}

/// A filter that admits every file makes the panel admit every file; so does a
/// set of filters without any extension. Otherwise every extension of every
/// filter is admitted, in order, and nothing else.
pub proof fn law_allowed_types(filters: Seq<FileFilter>, i: int, k: int)
    ensures
        (0 <= i < filters.len() && filters[i].all_files) ==> allowed_types_of(filters) is None,
        allowed_types_of(filters) is Some ==> allowed_types_of(filters).unwrap().len() > 0,
        (0 <= i < filters.len() && 0 <= k < filters[i].extensions@.len() && (forall|j: int|
            0 <= j < filters.len() ==> !#[trigger] filters[j].all_files)) ==> (allowed_types_of(
            filters) is Some && allowed_types_of(filters).unwrap().contains(
            filters[i].extensions@[k]@,
        )),
        forall|e: Seq<char>|
            #![trigger all_extensions(filters).contains(e)]
            all_extensions(filters).contains(e) ==> exists|j: int, l: int|
                0 <= j < filters.len() && 0 <= l < filters[j].extensions@.len()
                    && #[trigger] filters[j].extensions@[l]@ == e,
{
    lemma_all_extensions_members(filters, i, k);
}

proof fn lemma_all_extensions_members(filters: Seq<FileFilter>, i: int, k: int)
    ensures
        (0 <= i < filters.len() && 0 <= k < filters[i].extensions@.len()) ==> all_extensions(
            filters,
        ).contains(filters[i].extensions@[k]@),
        forall|e: Seq<char>|
            #![trigger all_extensions(filters).contains(e)]
            all_extensions(filters).contains(e) ==> exists|j: int, l: int|
                0 <= j < filters.len() && 0 <= l < filters[j].extensions@.len()
                    && #[trigger] filters[j].extensions@[l]@ == e,
    decreases filters.len(),
{
    if filters.len() > 0 {
        let d = filters.drop_last();
        let last = filters.last();
        let tail = last.extensions@.map_values(|e: String| e@);
        lemma_all_extensions_members(d, i, k);
        let all = all_extensions(filters);
        assert(all == all_extensions(d) + tail);
        if 0 <= i < d.len() && 0 <= k < filters[i].extensions@.len() {
            assert(filters[i] == d[i]);
            let e = filters[i].extensions@[k]@;
            let m = choose|m: int| 0 <= m < all_extensions(d).len() && all_extensions(d)[m] == e;
            assert(all[m] == e);
        }
        if i == d.len() && 0 <= k < filters[i].extensions@.len() {
            assert(filters[i] == last);
            assert(all[all_extensions(d).len() + k] == tail[k]);
        }
        assert forall|e: Seq<char>| all.contains(e) implies exists|j: int, l: int|
            0 <= j < filters.len() && 0 <= l < filters[j].extensions@.len()
                && #[trigger] filters[j].extensions@[l]@ == e by {
            let m = choose|m: int| 0 <= m < all.len() && all[m] == e;
            if m < all_extensions(d).len() {
                assert(all_extensions(d)[m] == e);
                assert(all_extensions(d).contains(e));
                let (j, l) = choose|j: int, l: int|
                    0 <= j < d.len() && 0 <= l < d[j].extensions@.len()
                        && #[trigger] d[j].extensions@[l]@ == e;
                assert(filters[j] == d[j]);
            } else {
                let l = m - all_extensions(d).len();
                assert(tail[l] == e);
                assert(filters[filters.len() - 1] == last);
                assert(filters[filters.len() - 1].extensions@[l]@ == e);
            }
        }
    }
}

/// The file types the panel admits (`None` admits every file).
pub fn allowed_file_types(filters: &[FileFilter]) -> (r: Option<Vec<String>>)
    ensures
        match r {
            None => allowed_types_of(filters@) is None,
            Some(v) => allowed_types_of(filters@) == Some(v.deep_view()),
        },
{
    let mut extensions: Vec<String> = Vec::new();
    let mut any_all = false;
    let mut i: usize = 0;
    proof {
        assert(filters@.take(0) =~= Seq::<FileFilter>::empty());
    }
    while i < filters.len()
        invariant
            i <= filters@.len(),
            extensions.deep_view() == all_extensions(filters@.take(i as int)),
            any_all == exists|j: int| 0 <= j < i && #[trigger] filters@[j].all_files,
        decreases filters@.len() - i,
    {
        let filter = &filters[i];
        if filter.all_files {
            any_all = true;
        }
        let ghost start = extensions.deep_view();
        let mut k: usize = 0;
        while k < filter.extensions.len()
            invariant
                k <= filter.extensions@.len(),
                extensions.deep_view() == start + filter.extensions@.take(k as int).map_values(
                    |e: String| e@,
                ),
            decreases filter.extensions@.len() - k,
        {
            let ghost before = extensions.deep_view();
            extensions.push(filter.extensions[k].clone());
            proof {
                assert(extensions.deep_view() =~= before.push(filter.extensions@[k as int]@));
                assert(filter.extensions@.take(k + 1).map_values(|e: String| e@)
                    =~= filter.extensions@.take(k as int).map_values(|e: String| e@).push(
                    filter.extensions@[k as int]@,
                ));
            }
            k += 1;
        }
        proof {
            assert(filter.extensions@.take(k as int) =~= filter.extensions@);
            assert(filters@.take(i + 1).drop_last() =~= filters@.take(i as int));
            assert(filters@.take(i + 1).last() == *filter);
        }
        i += 1;
    }
    proof {
        assert(filters@.take(i as int) =~= filters@);
    }
    if any_all || extensions.len() == 0 {
        None
    } else {
        Some(extensions)
    }
}

/// What a selected URL offers: whether it is a file URL and its path.
#[derive(Debug, Clone)]
pub struct SelectedUrl {
    pub is_file: bool,
    pub path: Option<String>,
}

/// What a finished panel selected.
#[derive(Debug, Clone, PartialEq, Eq)]
pub enum FilePickerOutcome {
    Cancelled,
    Selected(Vec<String>),
}

/// Why a panel produced no usable selection.
#[derive(Debug, Clone, PartialEq, Eq)]
pub enum FilePickerError {
    /// A selected URL is not a file-system path.
    NonFilesystemSelection,
    /// AppKit aborted the panel.
    Aborted,
    /// AppKit returned a modal response other than OK, cancel or abort.
    UnexpectedResponse(isize),
}

/// Whether a URL stands for a file-system path.
pub open spec fn is_filesystem(url: SelectedUrl) -> bool {
    url.is_file && url.path is Some
}

/// The paths of the selected URLs; the selection is usable only when every
/// URL is a file-system path, and an empty one counts as cancelled.
pub fn paths_result(urls: &[SelectedUrl]) -> (r: Result<FilePickerOutcome, FilePickerError>)
    ensures
        (exists|i: int| 0 <= i < urls@.len() && !is_filesystem(#[trigger] urls@[i])) ==> r == Err::<
            FilePickerOutcome,
            FilePickerError,
        >(FilePickerError::NonFilesystemSelection),
        (forall|i: int| 0 <= i < urls@.len() ==> is_filesystem(#[trigger] urls@[i])) ==> match r {
            Ok(FilePickerOutcome::Cancelled) => urls@.len() == 0,
            Ok(FilePickerOutcome::Selected(paths)) => urls@.len() > 0 && paths@.len()
                == urls@.len() && forall|i: int|
                0 <= i < urls@.len() ==> Some(#[trigger] paths@[i]) == urls@[i].path,
            Err(_) => false,
        },
{
    let mut paths: Vec<String> = Vec::new();
    let mut i: usize = 0;
    while i < urls.len()
        invariant
            i <= urls@.len(),
            paths@.len() == i,
            forall|j: int| 0 <= j < i ==> is_filesystem(#[trigger] urls@[j]),
            forall|j: int| 0 <= j < i ==> Some(#[trigger] paths@[j]) == urls@[j].path,
        decreases urls@.len() - i,
    {
        let url = &urls[i];
        if !url.is_file {
            return Err(FilePickerError::NonFilesystemSelection);
        }
        match &url.path {
            Some(p) => paths.push(p.clone()),
            None => return Err(FilePickerError::NonFilesystemSelection),
        }
        i += 1;
    }
    if paths.len() == 0 {
        Ok(FilePickerOutcome::Cancelled)
    } else {
        Ok(FilePickerOutcome::Selected(paths))
    }
}

/// How AppKit finished a panel.
#[derive(Debug, Clone, Copy, PartialEq, Eq, Structural)]
pub enum ModalResponse {
    Accepted,
    Cancelled,
    Aborted,
    Unexpected(isize),
}

/// The meaning of a raw `NSModalResponse`.
pub open spec fn response_of(raw: isize) -> ModalResponse {
    if raw == NS_MODAL_RESPONSE_OK {
        ModalResponse::Accepted
    } else if raw == NS_MODAL_RESPONSE_CANCEL {
        ModalResponse::Cancelled
    } else if raw == NS_MODAL_RESPONSE_ABORT {
        ModalResponse::Aborted
    } else {
        ModalResponse::Unexpected(raw)
    }
}

/// The meaning of a raw `NSModalResponse`.
pub fn modal_response(raw: isize) -> (r: ModalResponse)
    ensures
        r == response_of(raw),
{
    if raw == NS_MODAL_RESPONSE_OK {
        ModalResponse::Accepted
    } else if raw == NS_MODAL_RESPONSE_CANCEL {
        ModalResponse::Cancelled
    } else if raw == NS_MODAL_RESPONSE_ABORT {
        ModalResponse::Aborted
    } else {
        ModalResponse::Unexpected(raw)
    }
}

/// What an open panel that finished with `response` reports: its URLs when it
/// was accepted, cancellation, or the failure.
pub fn open_result(response: isize, urls: &[SelectedUrl]) -> (r: Result<
    FilePickerOutcome,
    FilePickerError,
>)
    ensures
        response_of(response) == ModalResponse::Cancelled ==> r == Ok::<
            FilePickerOutcome,
            FilePickerError,
        >(FilePickerOutcome::Cancelled),
        response_of(response) == ModalResponse::Aborted ==> r == Err::<
            FilePickerOutcome,
            FilePickerError,
        >(FilePickerError::Aborted),
        response_of(response) == ModalResponse::Unexpected(response) ==> r == Err::<
            FilePickerOutcome,
            FilePickerError,
        >(FilePickerError::UnexpectedResponse(response)),
        response_of(response) == ModalResponse::Accepted ==> ((exists|i: int|
            0 <= i < urls@.len() && !is_filesystem(#[trigger] urls@[i])) ==> r == Err::<
            FilePickerOutcome,
            FilePickerError,
        >(FilePickerError::NonFilesystemSelection)) && ((forall|i: int|
            0 <= i < urls@.len() ==> is_filesystem(#[trigger] urls@[i])) ==> match r {
            Ok(FilePickerOutcome::Cancelled) => urls@.len() == 0,
            Ok(FilePickerOutcome::Selected(paths)) => urls@.len() > 0 && paths@.len()
                == urls@.len() && forall|i: int|
                0 <= i < urls@.len() ==> Some(#[trigger] paths@[i]) == urls@[i].path,
            Err(_) => false,
        }),
{
    match modal_response(response) {
        ModalResponse::Accepted => paths_result(urls),
        ModalResponse::Cancelled => Ok(FilePickerOutcome::Cancelled),
        ModalResponse::Aborted => Err(FilePickerError::Aborted),
        ModalResponse::Unexpected(raw) => Err(FilePickerError::UnexpectedResponse(raw)),
    }
}

/// What a save panel that finished with `response` reports: its URL when it
/// was accepted (no URL is not a file-system selection), cancellation, or the
/// failure.
pub fn save_result(response: isize, url: Option<&SelectedUrl>) -> (r: Result<
    FilePickerOutcome,
    FilePickerError,
>)
    ensures
        response_of(response) == ModalResponse::Cancelled ==> r == Ok::<
            FilePickerOutcome,
            FilePickerError,
        >(FilePickerOutcome::Cancelled),
        response_of(response) == ModalResponse::Aborted ==> r == Err::<
            FilePickerOutcome,
            FilePickerError,
        >(FilePickerError::Aborted),
        response_of(response) == ModalResponse::Unexpected(response) ==> r == Err::<
            FilePickerOutcome,
            FilePickerError,
        >(FilePickerError::UnexpectedResponse(response)),
        response_of(response) == ModalResponse::Accepted ==> match url {
            None => r == Err::<FilePickerOutcome, FilePickerError>(
                FilePickerError::NonFilesystemSelection,
            ),
            Some(u) => if is_filesystem(*u) {
                match r {
                    Ok(FilePickerOutcome::Selected(paths)) => paths@.len() == 1 && Some(paths@[0])
                        == u.path,
                    _ => false,
                }
            } else {
                r == Err::<FilePickerOutcome, FilePickerError>(
                    FilePickerError::NonFilesystemSelection,
                )
            },
        },
{
    match modal_response(response) {
        ModalResponse::Accepted => match url {
            Some(u) => {
                let copy = SelectedUrl {
                    is_file: u.is_file,
                    path: match &u.path {
                        Some(p) => Some(p.clone()),
                        None => None,
                    },
                };
                let single = [copy];
                let r = paths_result(&single);
                proof {
                    assert(single@.len() == 1);
                    assert(single@[0] == *u);
                    if !is_filesystem(*u) {
                        assert(!is_filesystem(single@[0]));
                    }
                }
                r
            },
            None => Err(FilePickerError::NonFilesystemSelection),
        },
        ModalResponse::Cancelled => Ok(FilePickerOutcome::Cancelled),
        ModalResponse::Aborted => Err(FilePickerError::Aborted),
        ModalResponse::Unexpected(raw) => Err(FilePickerError::UnexpectedResponse(raw)),
    }
}

} // verus!
