//! The backend marker and the direction of the AppKit list view.
use vstd::prelude::*;

verus! {

/// `NSUserInterfaceLayoutOrientationHorizontal`.
pub const ORIENTATION_HORIZONTAL: isize = 0;

/// `NSUserInterfaceLayoutOrientationVertical`.
pub const ORIENTATION_VERTICAL: isize = 1;

/// The AppKit backend: it creates native elements for the portable components.
#[derive(Debug, Clone, Copy, PartialEq, Eq, Structural)]
pub struct AppkitBackend;

/// The axis along which an AppKit list view arranges its children.
#[derive(Debug, Clone, Copy, PartialEq, Eq, Structural)]
pub enum ListViewDirection {
    Horizontal,
    Vertical,
}

impl ListViewDirection {
    /// The stack view orientation that lays children out in this direction.
    pub fn orientation(self) -> (r: isize)
        ensures
            r == (match self {
                ListViewDirection::Horizontal => ORIENTATION_HORIZONTAL,
                ListViewDirection::Vertical => ORIENTATION_VERTICAL,
            }),
    {
        match self {
            ListViewDirection::Horizontal => ORIENTATION_HORIZONTAL,
            ListViewDirection::Vertical => ORIENTATION_VERTICAL,
        }
    }
}

} // verus!
