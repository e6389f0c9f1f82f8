//! The symbolic traits a resolved font asks the font manager for. Sizes and
//! weights on AppKit's scale are floating point and stay with the caller.
use vstd::prelude::*;

verus! {

/// `NSItalicFontMask`.
pub const ITALIC_FONT_MASK: usize = 1;

/// `NSBoldFontMask`.
pub const BOLD_FONT_MASK: usize = 2;

/// The slant a font style asks for.
#[derive(Debug, Clone, Copy, PartialEq, Eq, Structural)]
pub enum FontStyle {
    Normal,
    Italic,
}

/// Whether a font with these props keeps the base font as it is: no
/// family, size, weight or style is asked for.
pub fn keeps_base_font(
    has_family: bool,
    has_size: bool,
    weight: Option<u16>,
    style: Option<FontStyle>,
) -> (r: bool)
    ensures
        r == (!has_family && !has_size && weight is None && style is None),
{
    !has_family && !has_size && weight.is_none() && style.is_none()
}

/// The trait mask asked for, starting from the base font's `traits`: a
/// style sets or clears the italic bit, and a weight sets the bold bit when it
/// is at least `bold_weight` (the weight of `FontWeight::Bold`) and clears it
/// otherwise. The other bits are kept.
pub fn font_traits(traits: usize, style: Option<FontStyle>, weight: Option<u16>, bold_weight: u16) -> (r:
    usize)
    ensures
        (r & !(ITALIC_FONT_MASK | BOLD_FONT_MASK)) == (traits & !(ITALIC_FONT_MASK | BOLD_FONT_MASK)),
        (r & ITALIC_FONT_MASK != 0) == (match style {
            Some(FontStyle::Italic) => true,
            Some(FontStyle::Normal) => false,
            None => traits & ITALIC_FONT_MASK != 0,
        }),
        (r & BOLD_FONT_MASK != 0) == (match weight {
            Some(w) => w >= bold_weight,
            None => traits & BOLD_FONT_MASK != 0,
        }),
{
    let t1 = match style {
        Some(FontStyle::Normal) => traits & !ITALIC_FONT_MASK,
        Some(FontStyle::Italic) => traits | ITALIC_FONT_MASK,
        None => traits,
    };
    let t2 = match weight {
        Some(w) => if w >= bold_weight {
            t1 | BOLD_FONT_MASK
        } else {
            t1 & !BOLD_FONT_MASK
        },
        None => t1,
    };
    proof {
        assert((ITALIC_FONT_MASK | BOLD_FONT_MASK) == 3usize) by (bit_vector);
        lemma_one_bit(traits, ITALIC_FONT_MASK, BOLD_FONT_MASK);
        lemma_one_bit(t1, BOLD_FONT_MASK, ITALIC_FONT_MASK);
    }
    t2
}

/// Setting or clearing the bit `m` of `x` leaves the bit `o` and the bits
/// outside both as they were.
proof fn lemma_one_bit(x: usize, m: usize, o: usize)
    by (bit_vector)
    requires
        (m == 1usize && o == 2usize) || (m == 2usize && o == 1usize),
    ensures
        (x | m) & !3usize == x & !3usize,
        (x & !m) & !3usize == x & !3usize,
        (x | m) & m != 0,
        (x & !m) & m == 0,
        (x | m) & o == x & o,
        (x & !m) & o == x & o,
{
}

} // verus!
