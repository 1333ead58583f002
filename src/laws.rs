use vstd::prelude::*;
use crate::accessor::{bumped, lookup};
use crate::error::AccessorError;
use crate::store::{describes, Entry};

verus! {

/// A document written in full under `id` is exactly what a fetch of `id`
/// returns afterwards.
pub proof fn upsert_then_get_one<R>(m: Map<Seq<char>, R>, id: Seq<char>, record: R)
    ensures
        lookup(m.insert(id, record), id) == Ok::<R, AccessorError>(record),
{
}

/// After `id` is removed, a fetch of `id` answers `NotFound`.
pub proof fn remove_then_get_one<R>(m: Map<Seq<char>, R>, id: Seq<char>)
    ensures
        lookup(m.remove(id), id) == Err::<R, AccessorError>(AccessorError::NotFound),
{
}

/// Listing an empty collection gives no entries.
pub proof fn list_of_empty_is_empty<R>(es: Seq<Entry<R>>)
    requires
        describes(es, Map::<Seq<char>, R>::empty()),
    ensures
        es.len() == 0,
{
    if es.len() > 0 {
        assert(Map::<Seq<char>, R>::empty().contains_key(es[0].id@));
    }
}

/// Removing `id` a second time changes nothing more than the first removal
/// did, and a fetch of `id` still answers `NotFound`.
pub proof fn remove_twice<R>(m: Map<Seq<char>, R>, id: Seq<char>)
    ensures
        m.remove(id).remove(id) == m.remove(id),
        lookup(m.remove(id).remove(id), id) == lookup(m.remove(id), id),
{
    assert(m.remove(id).remove(id) =~= m.remove(id));
}

/// The change counter moves up by exactly one on a successful mutation and
/// stays where it was on a failed one.
pub proof fn counter_steps(before: u64, after: u64, ok: bool)
    requires
        bumped(before, after, ok),
    ensures
        ok ==> after == before + 1 && after > before,
        !ok ==> after == before,
{
}

} // verus!
