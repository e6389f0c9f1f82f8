//! Whether a button keeps AppKit's native bezel. The padding's lengths are
//! floating point and stay with the caller; the decision only reads which
//! sides were given a length.
use vstd::prelude::*;

verus! {

/// The appearance a button's style asks for.
#[derive(Debug, Clone, Copy, PartialEq, Eq, Structural)]
pub enum Appearance {
    /// Native unless the style sets a padding.
    Auto,
    /// Always the native bezel.
    Native,
    /// Never the native bezel (the style's `None`).
    Plain,
}

/// One side of a padding: left to the control, or given a length.
#[derive(Debug, Clone, Copy, PartialEq, Eq, Structural)]
pub enum PaddingSide {
    Auto,
    Length,
}

/// The four sides of a button's padding.
#[derive(Debug, Clone, Copy, PartialEq, Eq, Structural)]
pub struct Padding {
    pub top: PaddingSide,
    pub bottom: PaddingSide,
    pub left: PaddingSide,
    pub right: PaddingSide,
}

impl Padding {
    /// Whether no side of the padding was given a length.
    pub open spec fn is_unspecified(self) -> bool {
        &&& self.top == PaddingSide::Auto
        &&& self.bottom == PaddingSide::Auto
        &&& self.left == PaddingSide::Auto
        &&& self.right == PaddingSide::Auto
    }
}

/// Whether the button uses the native bezel: always for `Native`, never for
/// `Plain`, and for `Auto` only when no side of the padding has a length.
pub fn uses_native_appearance(appearance: Appearance, padding: Padding) -> (r: bool)
    ensures
        r == (match appearance {
            Appearance::Native => true,
            Appearance::Plain => false,
            Appearance::Auto => padding.is_unspecified(),
        }),
{
    match appearance {
        Appearance::Native => true,
        Appearance::Plain => false,
        Appearance::Auto => padding.top == PaddingSide::Auto && padding.bottom == PaddingSide::Auto
            && padding.left == PaddingSide::Auto && padding.right == PaddingSide::Auto,
    }
}

} // verus!
