//! The mutation service: one operation per client intent. Each request is
//! validated and applied against the store as one atomic step, and every
//! successful call answers with the full post-mutation snapshot (never a
//! delta), so a client can replace its cached copy wholesale.
//!
//! Deletion here is index-based, matching the intent the client issues; the
//! store's value-based removal is the documented alternative contract and is
//! deliberately not routed through this service, so that one deployment
//! never mixes the two.

use vstd::prelude::*;

use crate::store::ListError;
use crate::store::TodoStore;
use crate::store::contains_value;
use crate::store::first_index_of;
use crate::store::swapped;

verus! {

/// A decoded client intent.
pub enum Request {
    /// Read the current list.
    List,
    /// Append the given text at the end.
    Add(String),
    /// Empty the list.
    Clear,
    /// Remove the element at the given index.
    Delete(usize),
    /// Exchange the elements at the two given indices.
    Swap(usize, usize),
}

/// Whether `req` succeeds against the list `s`. Reads, appends and clears
/// always succeed; removals and swaps succeed exactly when their indices
/// are in range.
pub open spec fn request_ok(s: Seq<Seq<char>>, req: Request) -> bool {
    match req {
        Request::List => true,
        Request::Add(_) => true,
        Request::Clear => true,
        Request::Delete(i) => i < s.len(),
        Request::Swap(i, j) => i < s.len() && j < s.len(),
    }
}

/// The list after `req` has been applied to `s`; a failing request leaves
/// the list unchanged.
pub open spec fn next_list(s: Seq<Seq<char>>, req: Request) -> Seq<Seq<char>> {
    if !request_ok(s, req) {
        s
    } else {
        match req {
            Request::List => s,
            Request::Add(v) => s.push(v@),
            Request::Clear => Seq::empty(),
            Request::Delete(i) => s.remove(i as int),
            Request::Swap(i, j) => swapped(s, i as int, j as int),
        }
    }
}

/// Validates `req` and applies it to the store. On success the result is
/// the full updated list; a failing request returns the store's error and
/// leaves the list as it was. The caller serializes calls by holding the
/// store under exclusive access, which makes validation and application one
/// atomic step.
pub fn apply(store: &mut TodoStore, req: Request) -> (r: Result<Vec<String>, ListError>)
    ensures
        final(store)@ == next_list(old(store)@, req),
        request_ok(old(store)@, req) ==> (r matches Ok(snap)
            && snap.deep_view() == final(store)@),
        !request_ok(old(store)@, req) ==> r == Err::<Vec<String>, ListError>(ListError::OutOfRange),
{
    match req {
        Request::List => Ok(store.snapshot()),
        Request::Add(v) => {
            store.append(v);
            Ok(store.snapshot())
        },
        Request::Clear => {
            store.clear();
            Ok(store.snapshot())
        },
        Request::Delete(i) => {
            match store.remove_at(i) {
                Ok(_) => Ok(store.snapshot()),
                Err(e) => Err(e),
            }
        },
        Request::Swap(i, j) => {
            match store.swap_at(i, j) {
                Ok(_) => Ok(store.snapshot()),
                Err(e) => Err(e),
            }
        },
    }
}

/// Removes the first element equal to `value`: the value-based alternative
/// to `Request::Delete`. It is exposed for deployments that choose that
/// contract; under duplicate values it always removes the lowest-indexed
/// match, and it fails with `NotFound` when no element matches.
pub fn delete_by_value(store: &mut TodoStore, value: &String) -> (r: Result<
    Vec<String>,
    ListError,
>)
    ensures
        contains_value(old(store)@, value@) ==> final(store)@ == old(store)@.remove(
            first_index_of(old(store)@, value@),
        ) && (r matches Ok(snap) && snap.deep_view() == final(store)@),
        !contains_value(old(store)@, value@) ==> final(store)@ == old(store)@ && r == Err::<
            Vec<String>,
            ListError,
        >(ListError::NotFound),
{
    match store.remove_by_value(value) {
        Ok(_) => Ok(store.snapshot()),
        Err(e) => Err(e),
    }
}

} // verus!
