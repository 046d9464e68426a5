//! The ordered list store: the single authoritative, 0-indexed sequence of
//! text items. Indices are dense, every operation yields a complete valid
//! sequence, and each operation is one atomic step (the surrounding
//! application serializes calls by holding the store under exclusive access,
//! so bounds checks and the removal or swap they guard form one step).

use vstd::prelude::*;

verus! {

/// Why a mutation was refused.
#[derive(Clone, Copy, Debug, PartialEq, Eq, Structural)]
pub enum ListError {
    /// An index at or past the end of the list.
    OutOfRange,
    /// A value-based removal found no element with the given value.
    NotFound,
}

/// The list with the elements at `i` and `j` exchanged.
pub open spec fn swapped(s: Seq<Seq<char>>, i: int, j: int) -> Seq<Seq<char>> {
    s.update(i, s[j]).update(j, s[i])
}

/// Whether some element of `s` has the value `v`.
pub open spec fn contains_value(s: Seq<Seq<char>>, v: Seq<char>) -> bool {
    exists|i: int| 0 <= i < s.len() && s[i] == v
}

/// The lowest index whose element has the value `v` (meaningful only when
/// `contains_value(s, v)` holds).
pub open spec fn first_index_of(s: Seq<Seq<char>>, v: Seq<char>) -> int
    decreases s.len(),
{
    if s.len() == 0 {
        0
    } else if s[0] == v {
        0
    } else {
        1 + first_index_of(s.skip(1), v)
    }
}

/// When `v` occurs in `s`, `first_index_of` points at the lowest occurrence.
pub proof fn lemma_first_index_of(s: Seq<Seq<char>>, v: Seq<char>)
    requires
        contains_value(s, v),
    ensures
        0 <= first_index_of(s, v) < s.len(),
        s[first_index_of(s, v)] == v,
        forall|k: int| 0 <= k < first_index_of(s, v) ==> s[k] != v,
    decreases s.len(),
{
    if s.len() == 0 {
    } else if s[0] == v {
    } else {
        let t = s.skip(1);
        assert(contains_value(t, v)) by {
            let w = choose|i: int| 0 <= i < s.len() && s[i] == v;
            assert(t[w - 1] == s[w]);
        }
        lemma_first_index_of(t, v);
        assert forall|k: int| 0 <= k < first_index_of(s, v) implies s[k] != v by {
            if k > 0 {
                assert(s[k] == t[k - 1]);
            }
        }
    }
}

/// The authoritative ordered list. Its abstract value is the sequence of the
/// items' character sequences.
pub struct TodoStore {
    items: Vec<String>,
}

impl View for TodoStore {
    type V = Seq<Seq<char>>;

    closed spec fn view(&self) -> Seq<Seq<char>> {
        self.items.deep_view()
    }
}

impl TodoStore {
    /// A fresh store holds the empty list.
    pub fn new() -> (r: TodoStore)
        ensures
            r@ == Seq::<Seq<char>>::empty(),
    {
        let r = TodoStore { items: Vec::new() };
        proof {
            assert(r@ =~= Seq::<Seq<char>>::empty());
        }
        r
    }

    /// The number of items currently in the list.
    pub fn len(&self) -> (n: usize)
        ensures
            n == self@.len(),
    {
        self.items.len()
    }

    /// Appends `value` at the end. Always succeeds.
    pub fn append(&mut self, value: String)
        ensures
            final(self)@ == old(self)@.push(value@),
    {
        self.items.push(value);
        proof {
            assert(self@ =~= old(self)@.push(value@));
        }
    }

    /// Empties the list. Always succeeds; on an empty list it is a no-op.
    pub fn clear(&mut self)
        ensures
            final(self)@ == Seq::<Seq<char>>::empty(),
    {
        self.items.clear();
        proof {
            assert(self@ =~= Seq::<Seq<char>>::empty());
        }
    }

    /// Removes the element at `index`; elements after it shift left by one.
    /// Fails with `OutOfRange`, leaving the list unchanged, when `index` is
    /// at or past the end.
    pub fn remove_at(&mut self, index: usize) -> (r: Result<(), ListError>)
        ensures
            index < old(self)@.len() ==> r == Ok::<(), ListError>(())
                && final(self)@ == old(self)@.remove(index as int),
            index >= old(self)@.len() ==> r == Err::<(), ListError>(ListError::OutOfRange)
                && final(self)@ == old(self)@,
    {
        if index >= self.items.len() {
            return Err(ListError::OutOfRange);
        }
        self.items.remove(index);
        proof {
            assert(self@ =~= old(self)@.remove(index as int));
        }
        Ok(())
    }

    /// Removes the first element whose value equals `value`, scanning from
    /// index 0. Fails with `NotFound`, leaving the list unchanged, when no
    /// element has that value.
    pub fn remove_by_value(&mut self, value: &String) -> (r: Result<(), ListError>)
        ensures
            contains_value(old(self)@, value@) ==> r == Ok::<(), ListError>(())
                && final(self)@ == old(self)@.remove(first_index_of(old(self)@, value@)),
            !contains_value(old(self)@, value@) ==> r == Err::<(), ListError>(ListError::NotFound)
                && final(self)@ == old(self)@,
    {
        let mut i: usize = 0;
        while i < self.items.len()
            invariant
                self@ == old(self)@,
                0 <= i <= old(self)@.len(),
                forall|k: int| 0 <= k < i ==> old(self)@[k] != value@,
            decreases old(self)@.len() - i,
        {
            if self.items[i] == *value {
                proof {
                    let s = old(self)@;
                    assert(s[i as int] == value@);
                    assert(contains_value(s, value@));
                    lemma_first_index_of(s, value@);
                    let f = first_index_of(s, value@);
                    assert(f == i as int) by {
                        if f < i as int {
                            assert(s[f] != value@);
                        }
                        if f > i as int {
                            assert(s[i as int] != value@);
                        }
                    }
                }
                self.items.remove(i);
                proof {
                    assert(self@ =~= old(self)@.remove(i as int));
                }
                return Ok(());
            }
            i = i + 1;
        }
        Err(ListError::NotFound)
    }

    /// Exchanges the elements at `i` and `j`. Fails with `OutOfRange`,
    /// leaving the list unchanged, when either index is at or past the end.
    /// A self-swap (`i == j`) succeeds and leaves the list unchanged.
    pub fn swap_at(&mut self, i: usize, j: usize) -> (r: Result<(), ListError>)
        ensures
            i < old(self)@.len() && j < old(self)@.len() ==> r == Ok::<(), ListError>(())
                && final(self)@ == swapped(old(self)@, i as int, j as int),
            !(i < old(self)@.len() && j < old(self)@.len()) ==> r == Err::<(), ListError>(
                ListError::OutOfRange,
            ) && final(self)@ == old(self)@,
    {
        if i >= self.items.len() || j >= self.items.len() {
            return Err(ListError::OutOfRange);
        }
        let a = self.items[i].clone();
        let b = self.items[j].clone();
        self.items.set(i, b);
        self.items.set(j, a);
        proof {
            assert(self@ =~= swapped(old(self)@, i as int, j as int));
        }
        Ok(())
    }

    /// A read-only copy of the current sequence. Never fails.
    pub fn snapshot(&self) -> (r: Vec<String>)
        ensures
            r.deep_view() == self@,
    {
        let mut out: Vec<String> = Vec::new();
        let mut i: usize = 0;
        while i < self.items.len()
            invariant
                0 <= i <= self.items@.len(),
                out@.len() == i,
                forall|k: int| 0 <= k < i ==> out@[k]@ == self.items@[k]@,
            decreases self.items@.len() - i,
        {
            let item = self.items[i].clone();
            proof {
                assert(item@ == self.items@[i as int]@);
            }
            out.push(item);
            i = i + 1;
        }
        proof {
            assert forall|k: int| 0 <= k < self@.len() implies out.deep_view()[k] == self@[k] by {
                assert(out@[k]@ == self.items@[k]@);
            }
            assert(out.deep_view() =~= self@);
        }
        out
    }
}

} // verus!
