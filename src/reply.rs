use vstd::prelude::*;

verus! {

/// What the store writes before the identifier in its reply to a push.
pub open spec fn reply_head() -> Seq<char> {
    seq!['{', '"', 'n', 'a', 'm', 'e', '"', ':', '"']
}

/// What the store writes after the identifier in its reply to a push.
pub open spec fn reply_tail() -> Seq<char> {
    seq!['"', '}']
}

pub open spec fn quote_free(id: Seq<char>) -> bool {
    forall|i: int| 0 <= i < id.len() ==> id[i] != '"'
}

/// The store's reply to a push that stored the document under `id`.
pub open spec fn push_reply(id: Seq<char>) -> Seq<char> {
    reply_head() + id + reply_tail()
}

/// Reads the identifier that the store assigned out of its reply to a push,
/// `{"name":"<id>"}`. Any other reply gives `None`.
pub fn assigned_id(reply: &Vec<char>) -> (r: Option<Vec<char>>)
    ensures
        r is Some ==> quote_free(r->Some_0@) && reply@ == push_reply(r->Some_0@),
        r is None ==> forall|id: Seq<char>| quote_free(id) ==> reply@ != push_reply(id),
{
    let n = reply.len();
    if n < 11 {
        assert forall|id: Seq<char>| quote_free(id) implies reply@ != push_reply(id) by {
            assert(push_reply(id).len() == 11 + id.len());
        }
        return None;
    }
    let head = vec!['{', '"', 'n', 'a', 'm', 'e', '"', ':', '"'];
    assert(head@ =~= reply_head());
    let mut i: usize = 0;
    while i < 9
        invariant
            n == reply@.len(),
            n >= 11,
            head@ == reply_head(),
            i <= 9,
            forall|j: int| 0 <= j < i ==> reply@[j] == reply_head()[j],
        decreases 9 - i,
    {
        if reply[i] != head[i] {
            assert forall|id: Seq<char>| quote_free(id) implies reply@ != push_reply(id) by {
                assert(push_reply(id)[i as int] == reply_head()[i as int]);
            }
            return None;
        }
        i = i + 1;
    }
    if reply[n - 2] != '"' || reply[n - 1] != '}' {
        assert forall|id: Seq<char>| quote_free(id) implies reply@ != push_reply(id) by {
            if reply@ == push_reply(id) {
                assert(push_reply(id)[n - 2] == '"');
                assert(push_reply(id)[n - 1] == '}');
            }
        }
        return None;
    }
    let mut id: Vec<char> = Vec::new();
    let mut k: usize = 9;
    while k < n - 2
        invariant
            n == reply@.len(),
            n >= 11,
            9 <= k <= n - 2,
            id@ == reply@.subrange(9, k as int),
            quote_free(id@),
        decreases n - 2 - k,
    {
        if reply[k] == '"' {
            assert forall|other: Seq<char>| quote_free(other) implies reply@ != push_reply(other) by {
                if reply@ == push_reply(other) {
                    assert(push_reply(other)[k as int] == other[k - 9]);
                }
            }
            return None;
        }
        id.push(reply[k]);
        k = k + 1;
        assert(id@ =~= reply@.subrange(9, k as int));
    }
    assert(reply@ =~= push_reply(id@));
    Some(id)
}

} // verus!
