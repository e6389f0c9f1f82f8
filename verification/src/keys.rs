//! Registration keys of mounted components.
use vstd::prelude::*;

verus! {

/// A symbol of nanoid's URL-safe alphabet: `_`, `-`, digits and ASCII letters.
pub open spec fn is_url_safe_symbol(c: char) -> bool {
    ||| c == '_'
    ||| c == '-'
    ||| (48 <= (c as u32) && (c as u32) <= 57)
    ||| (97 <= (c as u32) && (c as u32) <= 122)
    ||| (65 <= (c as u32) && (c as u32) <= 90)
}

/// A registration key: 21 symbols of the URL-safe alphabet.
pub open spec fn is_registration_key(key: Seq<char>) -> bool {
    &&& key.len() == 21
    &&& forall|i: int| 0 <= i < key.len() ==> is_url_safe_symbol(#[trigger] key[i])
}

/// Calls `nanoid::format` with nanoid's default random source, its `SAFE`
/// alphabet and length 21, which is what `nanoid!()` expands to. Its source
/// masks every random byte with 63, so every byte picks one of the 64 symbols
/// of the alphabet and the result has exactly 21 of them. Which symbols come
/// out is left to chance: two calls may return the same key or different ones.
#[verifier::external_body]
pub(crate) fn new_registration_key() -> (id: String)
    ensures
        is_registration_key(id@),
{
    nanoid::format(nanoid::rngs::default, &nanoid::alphabet::SAFE, 21)
}

} // verus!
