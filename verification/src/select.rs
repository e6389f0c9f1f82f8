//! The model behind `Select`: which option a controlled value selects and
//! where a placed option lands in the pop-up menu.
use vstd::prelude::*;

verus! {

/// Whether `i` is the first position of `values` holding `desired`.
pub open spec fn is_first_match(values: Seq<String>, desired: Seq<char>, i: int) -> bool {
    &&& 0 <= i < values.len()
    &&& values[i]@ == desired
    &&& forall|j: int| 0 <= j < i ==> #[trigger] values[j]@ != desired
}

/// The index of the first option whose value is `desired`; `None` when no
/// value is desired or no option holds it.
pub fn matching_option_index(values: &[String], desired: Option<&String>) -> (r: Option<usize>)
    ensures
        match desired {
            None => r is None,
            Some(d) => match r {
                Some(i) => is_first_match(values@, d@, i as int),
                None => forall|j: int| 0 <= j < values@.len() ==> #[trigger] values@[j]@ != d@,
            },
        },
{
    let wanted = match desired {
        Some(d) => d,
        None => return None,
    };
    let mut i: usize = 0;
    while i < values.len()
        invariant
            desired == Some(wanted),
            i <= values@.len(),
            forall|j: int| 0 <= j < i ==> #[trigger] values@[j]@ != wanted@,
        decreases values@.len() - i,
    {
        if values[i] == *wanted {
            return Some(i);
        }
        i += 1;
    }
    None
}

/// Where a placed option is inserted into a menu of `count` items: the
/// placement index clamped to the end, or the end when none is given.
pub fn option_insert_index(placement: Option<usize>, count: usize) -> (r: usize)
    ensures
        r == match placement {
            Some(i) => if i < count {
                i
            } else {
                count
            },
            None => count,
        },
{
    match placement {
        Some(i) => if i < count {
            i
        } else {
            count
        },
        None => count,
    }
}

} // verus!
