//! Character-level comparisons of strings: equality, prefixes, and equality
//! after ASCII lower-casing.
use vstd::prelude::*;

verus! {

/// Whether `c` is an ASCII upper-case letter.
pub open spec fn is_ascii_upper(c: char) -> bool {
    65 <= (c as u32) && (c as u32) <= 90
}

/// `c` with an ASCII upper-case letter mapped to its lower-case form; every
/// other character is unchanged.
pub open spec fn ascii_lower_char(c: char) -> char {
    if is_ascii_upper(c) {
        ((c as u32) + 32) as char
    } else {
        c
    }
}

/// `s` with every ASCII upper-case letter mapped to lower case.
pub open spec fn ascii_lowercase(s: Seq<char>) -> Seq<char> {
    s.map_values(|c: char| ascii_lower_char(c))
}

/// Whether `a` and `b` hold the same characters.
pub fn str_eq(a: &str, b: &str) -> (r: bool)
    ensures
        r == (a@ == b@),
{
    let n = a.unicode_len();
    if n != b.unicode_len() {
        return false;
    }
    let mut i: usize = 0;
    while i < n
        invariant
            n == a@.len(),
            n == b@.len(),
            i <= n,
            forall|j: int| 0 <= j < i ==> a@[j] == b@[j],
        decreases n - i,
    {
        if a.get_char(i) != b.get_char(i) {
            return false;
        }
        i += 1;
    }
    proof {
        assert(a@ =~= b@);
    }
    true
}

/// Whether `a` begins with `prefix`.
pub fn starts_with(a: &str, prefix: &str) -> (r: bool)
    ensures
        r == (prefix@.len() <= a@.len() && a@.take(prefix@.len() as int) == prefix@),
{
    let n = prefix.unicode_len();
    if n > a.unicode_len() {
        return false;
    }
    let mut i: usize = 0;
    while i < n
        invariant
            n == prefix@.len(),
            n <= a@.len(),
            i <= n,
            forall|j: int| 0 <= j < i ==> a@[j] == prefix@[j],
        decreases n - i,
    {
        if a.get_char(i) != prefix.get_char(i) {
            proof {
                assert(a@.take(n as int)[i as int] != prefix@[i as int]);
            }
            return false;
        }
        i += 1;
    }
    proof {
        assert(a@.take(n as int) =~= prefix@);
    }
    true
}

/// Whether `a`, lower-cased in ASCII, equals `lower`.
pub fn ascii_lowercase_eq(a: &str, lower: &str) -> (r: bool)
    ensures
        r == (ascii_lowercase(a@) == lower@),
{
    let n = a.unicode_len();
    if n != lower.unicode_len() {
        proof {
            assert(ascii_lowercase(a@).len() == a@.len());
        }
        return false;
    }
    let mut i: usize = 0;
    while i < n
        invariant
            n == a@.len(),
            n == lower@.len(),
            i <= n,
            forall|j: int| 0 <= j < i ==> ascii_lower_char(a@[j]) == lower@[j],
        decreases n - i,
    {
        let c = a.get_char(i);
        let d = lower.get_char(i);
        let cu = c as u32;
        let lowered = if 65 <= cu && cu <= 90 {
            cu + 32
        } else {
            cu
        };
        if lowered != d as u32 {
            proof {
                if is_ascii_upper(c) {
                    assert((((c as u32) + 32) as char) as u32 == (c as u32) + 32);
                }
                assert(ascii_lowercase(a@)[i as int] == ascii_lower_char(c));
                assert(ascii_lowercase(a@)[i as int] != lower@[i as int]);
            }
            return false;
        }
        proof {
            if is_ascii_upper(c) {
                assert((((c as u32) + 32) as char) as u32 == (c as u32) + 32);
            }
            assert(ascii_lower_char(c) as u32 == d as u32);
        }
        i += 1;
    }
    proof {
        assert(ascii_lowercase(a@) =~= lower@);
    }
    true
}

} // verus!
