use vstd::prelude::*;
use vstd::string::StringExecFns;
use crate::error::TransportError;

verus! {

/// One document of a collection, under its identifier.
#[derive(Debug)]
pub struct Entry<R> {
    pub id: String,
    pub record: R,
}

/// The entries `es` list exactly the mapping `m`: one entry per identifier,
/// each holding the document stored under it.
pub open spec fn describes<R>(es: Seq<Entry<R>>, m: Map<Seq<char>, R>) -> bool {
    &&& forall|i: int, j: int|
        0 <= i < j < es.len() ==> (#[trigger] es[i]).id@ != (#[trigger] es[j]).id@
    &&& forall|i: int|
        0 <= i < es.len() ==> m.contains_key((#[trigger] es[i]).id@) && m[es[i].id@]
            == es[i].record
    &&& forall|k: Seq<char>| #[trigger]
        m.contains_key(k) ==> exists|i: int| 0 <= i < es.len() && (#[trigger] es[i]).id@ == k
}

pub open spec fn digit_char(d: nat) -> char {
    if d == 0 { '0' }
    else if d == 1 { '1' }
    else if d == 2 { '2' }
    else if d == 3 { '3' }
    else if d == 4 { '4' }
    else if d == 5 { '5' }
    else if d == 6 { '6' }
    else if d == 7 { '7' }
    else if d == 8 { '8' }
    else { '9' }
}

/// The decimal digits of `n`, most significant first.
pub open spec fn decimal(n: nat) -> Seq<char>
    decreases n,
{
    if n < 10 {
        seq![digit_char(n)]
    } else {
        decimal(n / 10).push(digit_char(n % 10))
    }
}

fn digit_str(d: u64) -> (r: &'static str)
    requires
        d < 10,
    ensures
        r@ == seq![digit_char(d as nat)],
{
    if d == 0 {
        let r = "0";
        proof {
            reveal_strlit("0");
        }
        assert(r@ =~= seq!['0']);
        r
    } else if d == 1 {
        let r = "1";
        proof {
            reveal_strlit("1");
        }
        assert(r@ =~= seq!['1']);
        r
    } else if d == 2 {
        let r = "2";
        proof {
            reveal_strlit("2");
        }
        assert(r@ =~= seq!['2']);
        r
    } else if d == 3 {
        let r = "3";
        proof {
            reveal_strlit("3");
        }
        assert(r@ =~= seq!['3']);
        r
    } else if d == 4 {
        let r = "4";
        proof {
            reveal_strlit("4");
        }
        assert(r@ =~= seq!['4']);
        r
    } else if d == 5 {
        let r = "5";
        proof {
            reveal_strlit("5");
        }
        assert(r@ =~= seq!['5']);
        r
    } else if d == 6 {
        let r = "6";
        proof {
            reveal_strlit("6");
        }
        assert(r@ =~= seq!['6']);
        r
    } else if d == 7 {
        let r = "7";
        proof {
            reveal_strlit("7");
        }
        assert(r@ =~= seq!['7']);
        r
    } else if d == 8 {
        let r = "8";
        proof {
            reveal_strlit("8");
        }
        assert(r@ =~= seq!['8']);
        r
    } else {
        let r = "9";
        proof {
            reveal_strlit("9");
        }
        assert(r@ =~= seq!['9']);
        r
    }
}

/// Appends the decimal digits of `n` to `s`.
pub fn push_decimal(s: &mut String, n: u64)
    ensures
        final(s)@ == old(s)@ + decimal(n as nat),
    decreases n,
{
    if n < 10 {
        s.append(digit_str(n));
    } else {
        push_decimal(s, n / 10);
        s.append(digit_str(n % 10));
        assert(old(s)@ + decimal(n as nat) =~= old(s)@ + decimal((n / 10) as nat) + seq![
            digit_char((n % 10) as nat),
        ]);
    }
}

/// A collection held in memory that behaves as the remote store does: `set`
/// overwrites a whole document, `delete` of an absent identifier succeeds, and
/// `push` stores a document under an identifier that the store picks.
pub struct MemoryStore<R> {
    entries: Vec<Entry<R>>,
    prefix: String,
    next_key: u64,
    contents: Ghost<Map<Seq<char>, R>>,
}

impl<R> View for MemoryStore<R> {
    type V = Map<Seq<char>, R>;

    closed spec fn view(&self) -> Map<Seq<char>, R> {
        self.contents@
    }
}

impl<R: Copy> MemoryStore<R> {
    pub closed spec fn wf(&self) -> bool {
        describes(self.entries@, self.contents@)
    }

    /// The identifier that the next `push` assigns.
    pub closed spec fn next_id(&self) -> Seq<char> {
        self.prefix@ + decimal(self.next_key as nat)
    }

    pub closed spec fn next_key(&self) -> nat {
        self.next_key as nat
    }

    /// An empty collection whose assigned identifiers are `prefix` followed
    /// by 1, 2, 3, ...
    pub fn new(prefix: String) -> (r: MemoryStore<R>)
        ensures
            r.wf(),
            r@ == Map::<Seq<char>, R>::empty(),
            r.next_id() == prefix@ + decimal(1),
            r.next_key() == 1,
    {
        MemoryStore { entries: Vec::new(), prefix, next_key: 1, contents: Ghost(Map::empty()) }
    }

    fn find(&self, id: &String) -> (r: Option<usize>)
        ensures
            r is Some ==> r->0 < self.entries@.len() && self.entries@[r->0 as int].id@ == id@,
            r is None ==> forall|i: int|
                0 <= i < self.entries@.len() ==> (#[trigger] self.entries@[i]).id@ != id@,
    {
        let mut i: usize = 0;
        while i < self.entries.len()
            invariant
                i <= self.entries@.len(),
                forall|j: int| 0 <= j < i ==> (#[trigger] self.entries@[j]).id@ != id@,
            decreases self.entries@.len() - i,
        {
            if self.entries[i].id == *id {
                return Some(i);
            }
            i = i + 1;
        }
        None
    }

    /// The document stored under `id`, if any.
    pub fn get(&self, id: &String) -> (r: Option<R>)
        requires
            self.wf(),
        ensures
            r == (if self@.contains_key(id@) { Some(self@[id@]) } else { None::<R> }),
    {
        match self.find(id) {
            Some(i) => Some(self.entries[i].record),
            None => None,
        }
    }

    /// Every stored document, each under its identifier.
    pub fn get_all(&self) -> (r: Vec<Entry<R>>)
        requires
            self.wf(),
        ensures
            describes(r@, self@),
    {
        let mut out: Vec<Entry<R>> = Vec::new();
        let mut i: usize = 0;
        while i < self.entries.len()
            invariant
                self.wf(),
                i <= self.entries@.len(),
                out@.len() == i,
                forall|j: int|
                    0 <= j < i ==> (#[trigger] out@[j]).id@ == self.entries@[j].id@ && out@[j].record
                        == self.entries@[j].record,
            decreases self.entries@.len() - i,
        {
            out.push(Entry { id: self.entries[i].id.clone(), record: self.entries[i].record });
            i = i + 1;
        }
        assert forall|k: Seq<char>| #[trigger] self@.contains_key(k) implies exists|i: int|
            0 <= i < out@.len() && (#[trigger] out@[i]).id@ == k by {
            let i = choose|i: int| 0 <= i < self.entries@.len() && (#[trigger] self.entries@[i]).id@ == k;
            assert(out@[i].id@ == k);
        }
        out
    }

    /// Stores `record` under `id`, replacing in full what was there.
    pub fn set(&mut self, id: String, record: R)
        requires
            old(self).wf(),
        ensures
            final(self).wf(),
            final(self)@ == old(self)@.insert(id@, record),
            final(self).next_id() == old(self).next_id(),
            final(self).next_key() == old(self).next_key(),
    {
        let ghost m = self.contents@;
        let ghost mut at: int = 0;
        match self.find(&id) {
            Some(i) => {
                proof {
                    at = i as int;
                }
                self.entries.set(i, Entry { id, record });
            },
            None => {
                proof {
                    at = self.entries@.len() as int;
                }
                self.entries.push(Entry { id, record });
            },
        }
        self.contents = Ghost(m.insert(id@, record));
        let ghost es = self.entries@;
        assert forall|k: Seq<char>| #[trigger] self.contents@.contains_key(k) implies exists|i: int|
            0 <= i < es.len() && (#[trigger] es[i]).id@ == k by {
            if k != id@ {
                let i = choose|i: int| 0 <= i < old(self).entries@.len() && (#[trigger] old(self).entries@[i]).id@ == k;
                assert(es[i].id@ == k);
            } else {
                assert(es[at].id@ == k);
            }
        }
    }

    /// Removes the document under `id`; an absent `id` leaves the store as it is.
    pub fn delete(&mut self, id: &String)
        requires
            old(self).wf(),
        ensures
            final(self).wf(),
            final(self)@ == old(self)@.remove(id@),
            final(self).next_id() == old(self).next_id(),
            final(self).next_key() == old(self).next_key(),
    {
        let ghost m = self.contents@;
        match self.find(id) {
            Some(i) => {
                let ghost old_es = self.entries@;
                self.entries.remove(i);
                self.contents = Ghost(m.remove(id@));
                let ghost es = self.entries@;
                assert forall|j: int| 0 <= j < es.len() implies #[trigger] es[j] == old_es[if j < i { j } else { j + 1 }] by {}
                assert forall|a: int, b: int| 0 <= a < b < es.len() implies (#[trigger] es[a]).id@ != (#[trigger] es[b]).id@ by {
                    assert(es[a] == old_es[if a < i { a } else { a + 1 }]);
                    assert(es[b] == old_es[if b < i { b } else { b + 1 }]);
                }
                assert forall|j: int| 0 <= j < es.len() implies self.contents@.contains_key((#[trigger] es[j]).id@)
                    && self.contents@[es[j].id@] == es[j].record by {
                    let oj = if j < i { j } else { j + 1 };
                    assert(es[j] == old_es[oj]);
                    assert(old_es[oj].id@ != old_es[i as int].id@);
                }
                assert forall|k: Seq<char>| #[trigger] self.contents@.contains_key(k) implies exists|j: int|
                    0 <= j < es.len() && (#[trigger] es[j]).id@ == k by {
                    let oj = choose|oj: int| 0 <= oj < old_es.len() && (#[trigger] old_es[oj]).id@ == k;
                    let j = if oj < i { oj } else { oj - 1 };
                    assert(es[j] == old_es[if j < i { j } else { j + 1 }]);
                    assert(es[j].id@ == k);
                }
            },
            None => {
                assert(!m.contains_key(id@));
                assert(m.remove(id@) =~= m);
            },
        }
    }

    /// Stores `record` under the identifier that the store assigns, and
    /// returns that identifier. Fails, changing nothing, where that identifier
    /// is already in use.
    pub fn push(&mut self, record: R) -> (r: Result<String, TransportError>)
        requires
            old(self).wf(),
            old(self).next_key() < u64::MAX,
        ensures
            final(self).wf(),
            r is Ok <==> !old(self)@.contains_key(old(self).next_id()),
            r is Ok ==> r->Ok_0@ == old(self).next_id() && final(self)@ == old(self)@.insert(
                old(self).next_id(),
                record,
            ) && final(self).next_key() == old(self).next_key() + 1,
            r is Err ==> final(self)@ == old(self)@ && final(self).next_key() == old(self).next_key()
                && final(self).next_id() == old(self).next_id(),
    {
        let mut id = self.prefix.clone();
        push_decimal(&mut id, self.next_key);
        match self.find(&id) {
            Some(_) => {
                let t = "identifier already in use";
                Err(TransportError::new(String::from_str(t)))
            },
            None => {
                proof {
                    if self@.contains_key(id@) {
                        let i = choose|i: int| 0 <= i < self.entries@.len() && (#[trigger] self.entries@[i]).id@ == id@;
                    }
                }
                self.set(id.clone(), record);
                self.next_key = self.next_key + 1;
                Ok(id)
            },
        }
    }
}

} // verus!
