//! Laws of the list operations, stated over the abstract model that the
//! store's and service's contracts use: `push` for appends, the empty
//! sequence for clears, `remove` for removals and `swapped` for swaps.

use vstd::prelude::*;

use crate::store::swapped;

verus! {

/// Appending then reading: the list grows by exactly one, the new element
/// is last, and every earlier element keeps its place.
pub proof fn append_grows_by_one(s: Seq<Seq<char>>, v: Seq<char>)
    ensures
        s.push(v).len() == s.len() + 1,
        s.push(v).last() == v,
        forall|k: int| 0 <= k < s.len() ==> s.push(v)[k] == s[k],
{
}

/// Clearing then reading: the list is empty, and clearing is idempotent —
/// clearing an already empty list succeeds and changes nothing.
pub proof fn clear_is_idempotent(s: Seq<Seq<char>>)
    ensures
        Seq::<Seq<char>>::empty().len() == 0,
        s.len() == 0 ==> s == Seq::<Seq<char>>::empty(),
{
    if s.len() == 0 {
        assert(s =~= Seq::<Seq<char>>::empty());
    }
}

/// Removing at `i` then reading: the list shrinks by one, elements before
/// `i` are unchanged, and elements after `i` shift down by one index.
pub proof fn remove_shifts_down(s: Seq<Seq<char>>, i: int)
    requires
        0 <= i < s.len(),
    ensures
        s.remove(i).len() == s.len() - 1,
        forall|k: int| 0 <= k < i ==> s.remove(i)[k] == s[k],
        forall|k: int| i <= k < s.len() - 1 ==> s.remove(i)[k] == s[k + 1],
{
}

/// Swapping the same pair twice in a row restores the starting list.
pub proof fn swap_twice_is_identity(s: Seq<Seq<char>>, i: int, j: int)
    requires
        0 <= i < s.len(),
        0 <= j < s.len(),
    ensures
        swapped(swapped(s, i, j), i, j) == s,
{
    assert(swapped(swapped(s, i, j), i, j) =~= s);
}

/// A self-swap leaves the list unchanged.
pub proof fn self_swap_is_no_op(s: Seq<Seq<char>>, i: int)
    requires
        0 <= i < s.len(),
    ensures
        swapped(s, i, i) == s,
{
    assert(swapped(s, i, i) =~= s);
}

/// The list after the appends of `vs`, in the order the store serialized
/// them (every mutation holds the store exclusively, so concurrent appends
/// land one after another in some order).
pub open spec fn append_all(s: Seq<Seq<char>>, vs: Seq<Seq<char>>) -> Seq<Seq<char>>
    decreases vs.len(),
{
    if vs.len() == 0 {
        s
    } else {
        append_all(s.push(vs.first()), vs.drop_first())
    }
}

/// Serialized appends accumulate: after the appends of `vs` the list has
/// grown by exactly `vs.len()`, no earlier element moved, and every
/// appended value sits at its own position — nothing lost, nothing
/// duplicated.
pub proof fn appends_accumulate(s: Seq<Seq<char>>, vs: Seq<Seq<char>>)
    ensures
        append_all(s, vs).len() == s.len() + vs.len(),
        forall|k: int| 0 <= k < s.len() ==> append_all(s, vs)[k] == s[k],
        forall|k: int| 0 <= k < vs.len() ==> append_all(s, vs)[s.len() + k] == vs[k],
    decreases vs.len(),
{
    if vs.len() > 0 {
        let t = s.push(vs.first());
        let ws = vs.drop_first();
        appends_accumulate(t, ws);
        assert forall|k: int| 0 <= k < s.len() implies append_all(s, vs)[k] == s[k] by {
            assert(append_all(s, vs)[k] == t[k]);
        }
        assert forall|k: int| 0 <= k < vs.len() implies append_all(s, vs)[s.len() + k] == vs[k] by {
            if k == 0 {
                assert(append_all(s, vs)[s.len() as int] == t[s.len() as int]);
            } else {
                assert(append_all(t, ws)[t.len() + (k - 1)] == ws[k - 1]);
                assert(ws[k - 1] == vs[k]);
            }
        }
    }
}

} // verus!
