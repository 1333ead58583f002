use vstd::prelude::*;
use crate::error::AccessorError;
use crate::store::Entry;

verus! {

/// A list view's copy of a collection, tagged with the change counter it was
/// fetched at. A copy taken at another counter value is stale and must be
/// fetched again.
pub struct ListCache<R> {
    pub seen: Option<u64>,
    pub entries: Vec<Entry<R>>,
}

impl<R> ListCache<R> {
    /// A cache that holds nothing yet, so any counter value calls for a fetch.
    pub fn new() -> (r: ListCache<R>)
        ensures
            r.seen is None,
            r.entries@.len() == 0,
    {
        ListCache { seen: None, entries: Vec::new() }
    }

    /// Whether the copy must be fetched again at counter `version`.
    pub fn needs_fetch(&self, version: u64) -> (r: bool)
        ensures
            r == (self.seen != Some(version)),
    {
        match self.seen {
            Some(v) => v != version,
            None => true,
        }
    }

    /// Takes in the answer of a fetch made at counter `version`. A listing
    /// replaces the copy; an error leaves the copy and its tag as they were.
    pub fn fetched(&mut self, version: u64, listing: Result<Vec<Entry<R>>, AccessorError>)
        ensures
            listing is Ok ==> final(self).seen == Some(version) && final(self).entries@
                == listing->Ok_0@,
            listing is Err ==> *final(self) == *old(self),
    {
        match listing {
            Ok(v) => {
                self.seen = Some(version);
                self.entries = v;
            },
            Err(_) => {},
        }
    }
}

} // verus!
