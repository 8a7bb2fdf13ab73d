use vstd::prelude::*;

verus! {

/// Number of earlier turns handed to the upstream model as context.
pub const LIMIT_COUNT: u8 = 10;

/// One persisted turn: what the user sent and what was answered.
pub struct Conversation {
    pub req_message: String,
    pub resp_message: String,
}

impl Conversation {
    /// A field-by-field copy.
    pub fn duplicate(&self) -> (r: Conversation)
        ensures
            r == *self,
    {
        Conversation { req_message: self.req_message.clone(), resp_message: self.resp_message.clone() }
    }
}

/// The context for the next request: of `rows`, which the store lists newest
/// first, the first `limit`, oldest first.
pub open spec fn recent_in_order(rows: Seq<Conversation>, limit: nat) -> Seq<Conversation> {
    if rows.len() <= limit {
        rows.reverse()
    } else {
        rows.take(limit as int).reverse()
    }
}

/// Of rows listed newest first, the context holds exactly the `limit` most
/// recent ones (all of them when there are fewer), the oldest of them first.
pub proof fn lemma_recent_in_order(rows: Seq<Conversation>, limit: nat)
    ensures
        recent_in_order(rows, limit).len() == if rows.len() <= limit {
            rows.len()
        } else {
            limit
        },
        forall|j: int|
            0 <= j < recent_in_order(rows, limit).len() ==> #[trigger] recent_in_order(rows, limit)[j]
                == rows[recent_in_order(rows, limit).len() - 1 - j],
{
}

/// Orders the newest-first rows of the store into the chronological context
/// of at most `limit` turns.
pub fn order_recent(rows: &Vec<Conversation>, limit: usize) -> (r: Vec<Conversation>)
    ensures
        r@ == recent_in_order(rows@, limit as nat),
{
    let n: usize = if rows.len() <= limit {
        rows.len()
    } else {
        limit
    };
    let ghost src = rows@.take(n as int);
    assert(recent_in_order(rows@, limit as nat) == src.reverse()) by {
        if rows.len() <= limit {
            assert(rows@.take(n as int) =~= rows@);
        }
    }
    let mut r: Vec<Conversation> = Vec::new();
    let mut i: usize = n;
    while i > 0
        invariant
            i <= n <= rows@.len(),
            src == rows@.take(n as int),
            r@.len() == n - i,
            forall|j: int| 0 <= j < n - i ==> #[trigger] r@[j] == src[n - 1 - j],
        decreases i,
    {
        i = i - 1;
        r.push(rows[i].duplicate());
    }
    assert(r@ =~= src.reverse());
    r
}

} // verus!
