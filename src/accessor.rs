use vstd::prelude::*;
use vstd::string::StringExecFns;
use crate::error::{AccessorError, TransportError};
use crate::store::{describes, Entry, MemoryStore};
use crate::tracker::MutationTracker;

verus! {

/// The answer to a fetch of one document, given what the store replied:
/// no document is `NotFound`, a transport failure is `Remote`.
pub open spec fn get_one_outcome<R>(o: Result<Option<R>, TransportError>) -> Result<R, AccessorError> {
    match o {
        Ok(Some(r)) => Ok(r),
        Ok(None) => Err(AccessorError::NotFound),
        Err(e) => Err(AccessorError::Remote(e.message)),
    }
}

/// The answer to a mutation, given what the store replied.
pub open spec fn mutation_outcome<T>(o: Result<T, TransportError>) -> Result<T, AccessorError> {
    match o {
        Ok(v) => Ok(v),
        Err(e) => Err(AccessorError::Remote(e.message)),
    }
}

/// The answer to a fetch of `id` from a store whose collection holds `m`.
pub open spec fn lookup<R>(m: Map<Seq<char>, R>, id: Seq<char>) -> Result<R, AccessorError> {
    if m.contains_key(id) {
        Ok(m[id])
    } else {
        Err(AccessorError::NotFound)
    }
}

/// The counter moved from `before` to `after` by one exactly when `ok`.
pub open spec fn bumped(before: u64, after: u64, ok: bool) -> bool {
    after == before + if ok { 1int } else { 0int }
}

/// The path of the document `id` in the collection `collection`.
pub open spec fn document_path_of(collection: Seq<char>, id: Seq<char>) -> Seq<char> {
    collection + seq!['/'] + id
}

/// The four operations on one named collection, with the change counter
/// that their successful mutations move.
pub struct Accessor {
    pub collection: String,
    pub tracker: MutationTracker,
}

impl Accessor {
    pub fn new(collection: String) -> (r: Accessor)
        ensures
            r.collection@ == collection@,
            r.tracker.version == 0,
    {
        Accessor { collection, tracker: MutationTracker::new() }
    }

    /// The current value of the change counter.
    pub fn version(&self) -> (r: u64)
        ensures
            r == self.tracker.version,
    {
        self.tracker.version()
    }

    /// The store path of the whole collection.
    pub fn collection_path(&self) -> (r: String)
        ensures
            r@ == self.collection@,
    {
        self.collection.clone()
    }

    /// The store path of the document `id`: the collection, a slash, the id.
    pub fn document_path(&self, id: &String) -> (r: String)
        ensures
            r@ == document_path_of(self.collection@, id@),
    {
        let mut p = self.collection.clone();
        let slash = "/";
        proof {
            reveal_strlit("/");
        }
        assert(slash@ =~= seq!['/']);
        p.append(slash);
        p.append(id.as_str());
        p
    }

    /// The answer to `list_all`, given the store's reply to a fetch of the
    /// collection path: no reply body is an empty collection, not an error.
    pub fn finish_list<R>(&self, o: Result<Option<Vec<Entry<R>>>, TransportError>) -> (r: Result<
        Vec<Entry<R>>,
        AccessorError,
    >)
        ensures
            o is Err ==> r == Err::<Vec<Entry<R>>, AccessorError>(
                AccessorError::Remote(o->Err_0.message),
            ),
            o is Ok && o->Ok_0 is None ==> r is Ok && r->Ok_0@.len() == 0,
            o is Ok && o->Ok_0 is Some ==> r is Ok && r->Ok_0@ == o->Ok_0->Some_0@,
    {
        match o {
            Ok(Some(v)) => Ok(v),
            Ok(None) => Ok(Vec::new()),
            Err(e) => Err(AccessorError::from_transport(e)),
        }
    }

    /// The answer to `get_one`, given the store's reply to a fetch of the
    /// document path.
    pub fn finish_get_one<R>(&self, o: Result<Option<R>, TransportError>) -> (r: Result<
        R,
        AccessorError,
    >)
        ensures
            r == get_one_outcome(o),
    {
        match o {
            Ok(Some(v)) => Ok(v),
            Ok(None) => Err(AccessorError::NotFound),
            Err(e) => Err(AccessorError::from_transport(e)),
        }
    }

    /// The answer to `upsert`, given the store's reply to the write (the
    /// identifier the document was stored under); a success moves the counter.
    pub fn finish_upsert(&mut self, o: Result<String, TransportError>) -> (r: Result<
        String,
        AccessorError,
    >)
        requires
            old(self).tracker.version < u64::MAX,
        ensures
            r == mutation_outcome(o),
            bumped(old(self).tracker.version, final(self).tracker.version, r is Ok),
            final(self).collection == old(self).collection,
    {
        let r = match o {
            Ok(id) => Ok(id),
            Err(e) => Err(AccessorError::from_transport(e)),
        };
        self.tracker.observe(&r);
        r
    }

    /// The answer to `remove`, given the store's reply to the delete; a
    /// success moves the counter.
    pub fn finish_remove(&mut self, o: Result<(), TransportError>) -> (r: Result<(), AccessorError>)
        requires
            old(self).tracker.version < u64::MAX,
        ensures
            r == mutation_outcome(o),
            bumped(old(self).tracker.version, final(self).tracker.version, r is Ok),
            final(self).collection == old(self).collection,
    {
        let r = match o {
            Ok(()) => Ok(()),
            Err(e) => Err(AccessorError::from_transport(e)),
        };
        self.tracker.observe(&r);
        r
    }

    /// Every document of the collection, under its identifier.
    pub fn list_all<R: Copy>(&self, store: &MemoryStore<R>) -> (r: Result<Vec<Entry<R>>, AccessorError>)
        requires
            store.wf(),
        ensures
            r is Ok,
            describes(r->Ok_0@, store@),
    {
        let v = store.get_all();
        self.finish_list(Ok(Some(v)))
    }

    /// The document stored under `id`, or `NotFound`.
    pub fn get_one<R: Copy>(&self, store: &MemoryStore<R>, id: &String) -> (r: Result<R, AccessorError>)
        requires
            store.wf(),
        ensures
            r == lookup(store@, id@),
    {
        self.finish_get_one(Ok(store.get(id)))
    }

    /// Writes `record` in full under `id`, or, with no `id`, under the
    /// identifier the store assigns; returns the identifier used.
    pub fn upsert<R: Copy>(&mut self, store: &mut MemoryStore<R>, record: R, id: Option<String>) -> (r:
        Result<String, AccessorError>)
        requires
            old(self).tracker.version < u64::MAX,
            old(store).wf(),
            id is None ==> old(store).next_key() < u64::MAX,
        ensures
            final(store).wf(),
            id is Some ==> r == Ok::<String, AccessorError>(id->Some_0) && final(store)@ == old(
                store,
            )@.insert(id->Some_0@, record),
            id is None ==> (r is Ok <==> !old(store)@.contains_key(old(store).next_id())),
            id is None && r is Ok ==> r->Ok_0@ == old(store).next_id() && final(store)@ == old(
                store,
            )@.insert(old(store).next_id(), record),
            r is Err ==> final(store)@ == old(store)@,
            id is Some || r is Err ==> final(store).next_key() == old(store).next_key()
                && final(store).next_id() == old(store).next_id(),
            id is None && r is Ok ==> final(store).next_key() == old(store).next_key() + 1,
            bumped(old(self).tracker.version, final(self).tracker.version, r is Ok),
            final(self).collection == old(self).collection,
    {
        let outcome = match id {
            Some(id) => {
                store.set(id.clone(), record);
                Ok(id)
            },
            None => store.push(record),
        };
        self.finish_upsert(outcome)
    }

    /// Deletes the document under `id`. Deleting an absent document succeeds.
    pub fn remove<R: Copy>(&mut self, store: &mut MemoryStore<R>, id: &String) -> (r: Result<
        (),
        AccessorError,
    >)
        requires
            old(self).tracker.version < u64::MAX,
            old(store).wf(),
        ensures
            r is Ok,
            final(store).wf(),
            final(store)@ == old(store)@.remove(id@),
            final(store).next_key() == old(store).next_key(),
            final(store).next_id() == old(store).next_id(),
            bumped(old(self).tracker.version, final(self).tracker.version, true),
            final(self).collection == old(self).collection,
    {
        store.delete(id);
        self.finish_remove(Ok(()))
    }
}

} // verus!
