//! Keyed, ordered registrations.
//!
//! Components that render native children (toolbar items, navigation rows,
//! collection rows, tree nodes) announce themselves with a registration that
//! carries a unique key. When a component is placed, every earlier
//! registration with the same key is dropped and the new one is inserted at
//! the requested position, clamped to the end of the list. When it unmounts,
//! every registration with its key is removed.
use vstd::prelude::*;

verus! {

/// A value that is identified in a registration list by a string key.
pub trait Registration {
    spec fn key_view(&self) -> Seq<char>;

    fn key(&self) -> (k: &String)
        ensures
            k@ == self.key_view(),
    ;
}

/// The registrations of `s` whose key differs from `key`, in their order.
pub open spec fn without_key<T: Registration>(s: Seq<T>, key: Seq<char>) -> Seq<T>
    decreases s.len(),
{
    if s.len() == 0 {
        Seq::empty()
    } else {
        let rest = without_key(s.drop_last(), key);
        if s.last().key_view() == key {
            rest
        } else {
            rest.push(s.last())
        }
    }
}

/// Whether some registration of `s` has the key `key`.
pub open spec fn has_key<T: Registration>(s: Seq<T>, key: Seq<char>) -> bool {
    exists|i: int| 0 <= i < s.len() && #[trigger] s[i].key_view() == key
}

/// The position at which a placement lands in a list of `len` registrations:
/// the requested index clamped to the end, or the end when none is requested.
pub open spec fn placement_index(len: nat, index: Option<usize>) -> int {
    match index {
        Some(i) => if i < len {
            i as int
        } else {
            len as int
        },
        None => len as int,
    }
}

/// The registration list after placing `registration` at `index`.
pub open spec fn placed<T: Registration>(s: Seq<T>, registration: T, index: Option<usize>) -> Seq<
    T,
> {
    let rest = without_key(s, registration.key_view());
    rest.insert(placement_index(rest.len(), index), registration)
}

/// Removes every registration whose key is `key`, keeping the others in order.
pub fn remove_registrations<T: Registration>(registrations: &mut Vec<T>, key: &String)
    ensures
        final(registrations)@ == without_key(old(registrations)@, key@),
{
    let ghost orig = registrations@;
    let ghost mut j: int = 0;
    let mut i: usize = 0;
    proof {
        assert(orig.take(0) =~= Seq::<T>::empty());
        assert(orig.skip(0) =~= orig);
    }
    while i < registrations.len()
        invariant
            0 <= j <= orig.len(),
            registrations@ == without_key(orig.take(j), key@) + orig.skip(j),
            i == without_key(orig.take(j), key@).len(),
        decreases registrations.len() - i,
    {
        proof {
            assert(j < orig.len()) by {
                if j == orig.len() {
                    assert(orig.skip(j).len() == 0);
                }
            }
            assert(registrations@[i as int] == orig[j]);
            assert(orig.take(j + 1).drop_last() =~= orig.take(j));
            assert(orig.take(j + 1).last() == orig[j]);
        }
        let same = *registrations[i].key() == *key;
        if same {
            registrations.remove(i);
            proof {
                assert(registrations@ =~= without_key(orig.take(j + 1), key@) + orig.skip(j + 1));
            }
        } else {
            proof {
                assert(registrations@ =~= without_key(orig.take(j + 1), key@) + orig.skip(j + 1));
            }
            i += 1;
        }
        proof {
            j = j + 1;
        }
    }
    proof {
        assert(j == orig.len()) by {
            if j < orig.len() {
                assert(registrations@.len() == i + orig.skip(j).len());
            }
        }
        assert(orig.take(j) =~= orig);
        assert(registrations@ =~= without_key(orig, key@));
    }
}

/// Whether `i` is the first position of `s` whose key is `key`.
pub open spec fn is_first_with_key<T: Registration>(s: Seq<T>, key: Seq<char>, i: int) -> bool {
    &&& 0 <= i < s.len()
    &&& s[i].key_view() == key
    &&& forall|j: int| 0 <= j < i ==> #[trigger] s[j].key_view() != key
}

/// The position of the first registration whose key is `key`.
pub fn find_key<T: Registration>(registrations: &Vec<T>, key: &String) -> (r: Option<usize>)
    ensures
        match r {
            Some(i) => is_first_with_key(registrations@, key@, i as int),
            None => !has_key(registrations@, key@),
        },
{
    let mut i: usize = 0;
    while i < registrations.len()
        invariant
            i <= registrations@.len(),
            forall|j: int| 0 <= j < i ==> #[trigger] registrations@[j].key_view() != key@,
        decreases registrations@.len() - i,
    {
        if *registrations[i].key() == *key {
            return Some(i);
        }
        i += 1;
    }
    None
}

/// Places `registration` at `index`: earlier registrations with the same key
/// are dropped, and the new one is inserted at the requested index, clamped to
/// the end of the list (or appended when no index is requested).
pub fn place_keyed<T: Registration>(registrations: &mut Vec<T>, registration: T, index: Option<usize>)
    ensures
        final(registrations)@ == placed(old(registrations)@, registration, index),
{
    remove_registrations(registrations, registration.key());
    let len = registrations.len();
    let at = match index {
        Some(i) => if i < len {
            i
        } else {
            len
        },
        None => len,
    };
    registrations.insert(at, registration);
}

// ---------------------------------------------------------------------------
// Properties of the registration lists.
// ---------------------------------------------------------------------------

/// No registration that remains after removing `key` carries that key.
pub proof fn lemma_without_key_excludes<T: Registration>(s: Seq<T>, key: Seq<char>)
    ensures
        forall|i: int|
            0 <= i < without_key(s, key).len() ==> #[trigger] without_key(s, key)[i].key_view()
                != key,
    decreases s.len(),
{
    if s.len() > 0 {
        let d = s.drop_last();
        lemma_without_key_excludes(d, key);
        let w = without_key(s, key);
        assert forall|i: int| 0 <= i < w.len() implies #[trigger] w[i].key_view() != key by {
            if s.last().key_view() != key && i == w.len() - 1 {
                assert(w[i] == s.last());
            } else {
                assert(w[i] == without_key(d, key)[i]);
            }
        }
    }
}

/// Removing a key that no registration carries leaves the list unchanged.
pub proof fn lemma_without_absent_key<T: Registration>(s: Seq<T>, key: Seq<char>)
    requires
        !has_key(s, key),
    ensures
        without_key(s, key) == s,
    decreases s.len(),
{
    if s.len() > 0 {
        let d = s.drop_last();
        assert(!has_key(d, key)) by {
            if has_key(d, key) {
                let i = choose|i: int| 0 <= i < d.len() && #[trigger] d[i].key_view() == key;
                assert(s[i].key_view() == key);
            }
        }
        lemma_without_absent_key(d, key);
        assert(s.last().key_view() != key) by {
            assert(s[s.len() - 1].key_view() == s.last().key_view());
        }
        assert(d.push(s.last()) =~= s);
    }
}

/// Removal by key distributes over concatenation.
pub proof fn lemma_without_key_concat<T: Registration>(a: Seq<T>, b: Seq<T>, key: Seq<char>)
    ensures
        without_key(a + b, key) == without_key(a, key) + without_key(b, key),
    decreases b.len(),
{
    if b.len() == 0 {
        assert(a + b =~= a);
        assert(without_key(a, key) + without_key(b, key) =~= without_key(a, key));
    } else {
        lemma_without_key_concat(a, b.drop_last(), key);
        assert((a + b).drop_last() =~= a + b.drop_last());
        assert((a + b).last() == b.last());
        if b.last().key_view() == key {
        } else {
            assert(without_key(a, key) + without_key(b.drop_last(), key).push(b.last())
                =~= (without_key(a, key) + without_key(b.drop_last(), key)).push(b.last()));
        }
    }
}

/// The registrations that remain after removing a key have no entry with it.
pub proof fn lemma_without_key_has_no_key<T: Registration>(s: Seq<T>, key: Seq<char>)
    ensures
        !has_key(without_key(s, key), key),
{
    lemma_without_key_excludes(s, key);
}

/// Removing the same key twice is the same as removing it once.
pub proof fn law_remove_idempotent<T: Registration>(s: Seq<T>, key: Seq<char>)
    ensures
        without_key(without_key(s, key), key) == without_key(s, key),
{
    lemma_without_key_has_no_key(s, key);
    lemma_without_absent_key(without_key(s, key), key);
}

/// After a placement the list holds exactly one registration with the placed
/// key: the placed registration itself, at the clamped requested position; the
/// list has one more entry than the registrations with other keys.
pub proof fn law_place_unique<T: Registration>(s: Seq<T>, registration: T, index: Option<usize>)
    ensures
        ({
            let p = placed(s, registration, index);
            let rest = without_key(s, registration.key_view());
            let at = placement_index(rest.len(), index);
            &&& p.len() == rest.len() + 1
            &&& 0 <= at < p.len()
            &&& p[at] == registration
            &&& forall|i: int|
                0 <= i < p.len() && i != at ==> #[trigger] p[i].key_view()
                    != registration.key_view()
        }),
{
    let k = registration.key_view();
    let rest = without_key(s, k);
    let at = placement_index(rest.len(), index);
    lemma_without_key_excludes(s, k);
    rest.insert_ensures(at, registration);
    let p = placed(s, registration, index);
    assert forall|i: int| 0 <= i < p.len() && i != at implies #[trigger] p[i].key_view() != k by {
        if i < at {
            assert(p[i] == rest[i]);
        } else {
            assert(p[i] == rest[i - 1]);
        }
    }
}

/// Removing the key of a placed registration gives back the other
/// registrations exactly as they were before the placement: a placement never
/// reorders or changes the registrations of other keys, and an unmount undoes
/// a mount.
pub proof fn law_remove_undoes_place<T: Registration>(
    s: Seq<T>,
    registration: T,
    index: Option<usize>,
)
    ensures
        without_key(placed(s, registration, index), registration.key_view()) == without_key(
            s,
            registration.key_view(),
        ),
{
    let k = registration.key_view();
    let rest = without_key(s, k);
    let at = placement_index(rest.len(), index);
    let front = rest.subrange(0, at);
    let back = rest.subrange(at, rest.len() as int);
    assert(rest.insert(at, registration) =~= front.push(registration) + back);
    lemma_without_key_concat(front.push(registration), back, k);
    assert(front.push(registration).drop_last() =~= front);
    lemma_without_key_has_no_key(s, k);
    assert(!has_key(front, k)) by {
        if has_key(front, k) {
            let i = choose|i: int| 0 <= i < front.len() && #[trigger] front[i].key_view() == k;
            assert(rest[i].key_view() == k);
        }
    }
    assert(!has_key(back, k)) by {
        if has_key(back, k) {
            let i = choose|i: int| 0 <= i < back.len() && #[trigger] back[i].key_view() == k;
            assert(rest[at + i].key_view() == k);
        }
    }
    lemma_without_absent_key(front, k);
    lemma_without_absent_key(back, k);
    assert(front + back =~= rest);
}

/// Placing the same registration at the same index twice is the same as
/// placing it once.
pub proof fn law_place_idempotent<T: Registration>(s: Seq<T>, registration: T, index: Option<usize>)
    ensures
        placed(placed(s, registration, index), registration, index) == placed(
            s,
            registration,
            index,
        ),
{
    law_remove_undoes_place(s, registration, index);
}

/// Placing a registration whose key is new inserts it without removing
/// anything.
pub proof fn law_place_new_key_inserts<T: Registration>(
    s: Seq<T>,
    registration: T,
    index: Option<usize>,
)
    requires
        !has_key(s, registration.key_view()),
    ensures
        placed(s, registration, index) == s.insert(
            placement_index(s.len(), index),
            registration,
        ),
{
    lemma_without_absent_key(s, registration.key_view());
}

/// Removals of two keys commute.
pub proof fn law_remove_commutes<T: Registration>(s: Seq<T>, k1: Seq<char>, k2: Seq<char>)
    ensures
        without_key(without_key(s, k1), k2) == without_key(without_key(s, k2), k1),
    decreases s.len(),
{
    if s.len() > 0 {
        law_remove_commutes(s.drop_last(), k1, k2);
        let x = s.last();
        let d = s.drop_last();
        if x.key_view() != k1 {
            assert(without_key(s, k1).drop_last() =~= without_key(d, k1));
        }
        if x.key_view() != k2 {
            assert(without_key(s, k2).drop_last() =~= without_key(d, k2));
        }
        if x.key_view() != k1 && x.key_view() != k2 {
            assert(without_key(without_key(d, k1), k2).push(x).drop_last() =~= without_key(
                without_key(d, k1),
                k2,
            ));
        }
    }
}

} // verus!
