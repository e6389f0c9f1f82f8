//! The target side of a drag once it is over a drop target: the operation
//! last decided, whether a drop goes ahead, and what reading the dropped data
//! gives.
use vstd::prelude::*;

use crate::drag::{native_operation, operation_bit, DragDataType, DragOperation};

verus! {

/// The drag state of one drop target.
#[derive(Debug, Clone, Copy, PartialEq, Eq, Structural)]
pub struct DropSession {
    /// The operation decided when the drag last entered or moved.
    pub last_operation: Option<DragOperation>,
}

impl DropSession {
    pub fn new() -> (s: Self)
        ensures
            s.last_operation is None,
    {
        DropSession { last_operation: None }
    }

    /// Records the operation decided as the drag enters or moves, and
    /// returns the `NSDragOperation` to answer AppKit with.
    pub fn record(&mut self, operation: Option<DragOperation>) -> (raw: usize)
        ensures
            final(self).last_operation == operation,
            raw == (match operation {
                Some(op) => operation_bit(op),
                None => 0,
            }),
    {
        self.last_operation = operation;
        native_operation(operation)
    }

    /// The drag left the target: nothing is decided any more.
    pub fn exit(&mut self)
        ensures
            final(self).last_operation is None,
    {
        self.last_operation = None;
    }

    /// Whether the target accepts the drop: an operation was decided.
    pub fn prepare(&self) -> (r: bool)
        ensures
            r == (self.last_operation is Some),
    {
        self.last_operation.is_some()
    }

    /// Performs the drop: returns the decided operation to report with the
    /// drop, if there is one, and forgets it.
    pub fn perform(&mut self) -> (r: Option<DragOperation>)
        ensures
            r == old(self).last_operation,
            final(self).last_operation is None,
    {
        let r = self.last_operation;
        self.last_operation = None;
        r
    }
}

/// Why dropped data could not be read.
#[derive(Debug, Clone, Copy, PartialEq, Eq, Structural)]
pub enum DragReadError {
    /// The pasteboard holds no data of this type.
    Unavailable(DragDataType),
}

/// The paths of the dropped file items, in order: those whose file URL
/// yielded a path.
pub open spec fn present_paths(paths: Seq<Option<String>>) -> Seq<Seq<char>>
    decreases paths.len(),
{
    if paths.len() == 0 {
        Seq::empty()
    } else {
        let rest = present_paths(paths.drop_last());
        match paths.last() {
            Some(p) => rest.push(p@),
            None => rest,
        }
    }
}

/// The dropped files: the paths of the file items that have one, or
/// `Unavailable(Files)` when none has.
pub fn dropped_files(paths: &[Option<String>]) -> (r: Result<Vec<String>, DragReadError>)
    ensures
        match r {
            Ok(v) => v.deep_view() == present_paths(paths@) && v@.len() > 0,
            Err(e) => e == DragReadError::Unavailable(DragDataType::Files) && present_paths(
                paths@,
            ).len() == 0,
        },
{
    let mut out: Vec<String> = Vec::new();
    let mut i: usize = 0;
    proof {
        assert(paths@.take(0) =~= Seq::<Option<String>>::empty());
    }
    while i < paths.len()
        invariant
            i <= paths@.len(),
            out.deep_view() == present_paths(paths@.take(i as int)),
        decreases paths@.len() - i,
    {
        proof {
            assert(paths@.take(i + 1).drop_last() =~= paths@.take(i as int));
            assert(paths@.take(i + 1).last() == paths@[i as int]);
        }
        match &paths[i] {
            Some(p) => {
                let ghost before = out.deep_view();
                out.push(p.clone());
                proof {
                    assert(out.deep_view() =~= before.push(p@));
                }
            },
            None => {},
        }
        i += 1;
    }
    proof {
        assert(paths@.take(i as int) =~= paths@);
    }
    if out.len() == 0 {
        Err(DragReadError::Unavailable(DragDataType::Files))
    } else {
        Ok(out)
    }
}

/// The dropped text: the pasteboard's string, or `Unavailable(Text)`.
pub fn dropped_text(value: Option<String>) -> (r: Result<String, DragReadError>)
    ensures
        match value {
            Some(v) => r == Ok::<String, DragReadError>(v),
            None => r == Err::<String, DragReadError>(DragReadError::Unavailable(DragDataType::Text)),
        },
{
    match value {
        Some(v) => Ok(v),
        None => Err(DragReadError::Unavailable(DragDataType::Text)),
    }
}

} // verus!
