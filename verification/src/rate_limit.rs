//! Token-bucket rate limiting, one bucket per connected peer.

use vstd::prelude::*;

use crate::ids::ClientId;

verus! {

/// One peer's bucket.
#[derive(Debug, Clone, Copy, PartialEq, Eq, Structural)]
pub struct ClientBucket {
    pub tokens: u32,
    pub last_refill_millis: u64,
}

/// The index of a peer's bucket, first match.
pub open spec fn spec_find_client(cs: Seq<(ClientId, ClientBucket)>, id: ClientId) -> Option<int>
    decreases cs.len(),
{
    if cs.len() == 0 {
        None
    } else if cs[0].0 == id {
        Some(0)
    } else {
        match spec_find_client(cs.drop_first(), id) {
            Some(j) => Some(j + 1),
            None => None,
        }
    }
}

/// What a check does to a known bucket: a full interval since the last
/// refill fills it up (and restamps it); then a token is taken if any is
/// left, which is the verdict.
pub open spec fn spec_bucket_step(
    b: ClientBucket,
    max_tokens: u32,
    interval_millis: u64,
    now_millis: u64,
) -> (bool, ClientBucket) {
    let elapsed = if now_millis >= b.last_refill_millis {
        now_millis - b.last_refill_millis
    } else {
        0
    };
    let refilled = if interval_millis > 0 && elapsed >= interval_millis {
        ClientBucket { tokens: max_tokens, last_refill_millis: now_millis }
    } else {
        b
    };
    if refilled.tokens > 0 {
        (true, ClientBucket { tokens: (refilled.tokens - 1) as u32, ..refilled })
    } else {
        (false, refilled)
    }
}

/// Per-peer token buckets: `max_tokens` requests per refill interval.
#[derive(Debug)]
pub struct RateLimiter {
    pub max_tokens: u32,
    pub refill_interval_millis: u64,
    pub clients: Vec<(ClientId, ClientBucket)>,
}

impl RateLimiter {
    pub fn new(max_requests: u32, interval_millis: u64) -> (r: RateLimiter)
        ensures
            r.max_tokens == max_requests,
            r.refill_interval_millis == interval_millis,
            r.clients@.len() == 0,
    {
        RateLimiter {
            max_tokens: max_requests,
            refill_interval_millis: interval_millis,
            clients: Vec::new(),
        }
    }

    /// Admits or throttles one request from the peer at this moment. A new
    /// peer starts with a full bucket; a known peer's bucket refills after a
    /// full interval; either way one token pays for an admitted request.
    pub fn check(&mut self, client_id: &ClientId, now_millis: u64) -> (r: bool)
        ensures
            final(self).max_tokens == old(self).max_tokens,
            final(self).refill_interval_millis == old(self).refill_interval_millis,
            match spec_find_client(old(self).clients@, *client_id) {
                None => {
                    let step = spec_bucket_step(
                        ClientBucket {
                            tokens: old(self).max_tokens,
                            last_refill_millis: now_millis,
                        },
                        old(self).max_tokens,
                        old(self).refill_interval_millis,
                        now_millis,
                    );
                    &&& r == step.0
                    &&& final(self).clients@ == old(self).clients@.push((*client_id, step.1))
                },
                Some(i) => {
                    let step = spec_bucket_step(
                        old(self).clients@[i].1,
                        old(self).max_tokens,
                        old(self).refill_interval_millis,
                        now_millis,
                    );
                    &&& r == step.0
                    &&& final(self).clients@ == old(self).clients@.update(
                        i,
                        (*client_id, step.1),
                    )
                },
            },
    {
        let n = self.clients.len();
        let mut i: usize = 0;
        while i < n
            invariant
                i <= n,
                n == self.clients@.len(),
                *self == *old(self),
                forall|k: int| 0 <= k < i ==> (#[trigger] self.clients@[k]).0 != *client_id,
            decreases n - i,
        {
            if self.clients[i].0 == *client_id {
                proof {
                    lemma_find_client_from_prefix(self.clients@, *client_id, i as int);
                }
                let bucket = self.clients[i].1;
                let (allowed, updated) = self.bucket_step(bucket, now_millis);
                self.clients[i] = (*client_id, updated);
                return allowed;
            }
            i += 1;
        }
        proof {
            lemma_find_client_from_prefix(self.clients@, *client_id, n as int);
        }
        let fresh = ClientBucket { tokens: self.max_tokens, last_refill_millis: now_millis };
        let (allowed, updated) = self.bucket_step(fresh, now_millis);
        self.clients.push((*client_id, updated));
        allowed
    }

    fn bucket_step(&self, b: ClientBucket, now_millis: u64) -> (r: (bool, ClientBucket))
        ensures
            r == spec_bucket_step(b, self.max_tokens, self.refill_interval_millis, now_millis),
    {
        let elapsed = if now_millis >= b.last_refill_millis {
            now_millis - b.last_refill_millis
        } else {
            0
        };
        let refilled = if self.refill_interval_millis > 0 && elapsed >= self.refill_interval_millis {
            ClientBucket { tokens: self.max_tokens, last_refill_millis: now_millis }
        } else {
            b
        };
        if refilled.tokens > 0 {
            (true, ClientBucket { tokens: refilled.tokens - 1, ..refilled })
        } else {
            (false, refilled)
        }
    }

    /// Drops the peer's bucket, if it has one (the first, were there
    /// several).
    pub fn remove_client(&mut self, client_id: &ClientId)
        ensures
            final(self).max_tokens == old(self).max_tokens,
            final(self).refill_interval_millis == old(self).refill_interval_millis,
            match spec_find_client(old(self).clients@, *client_id) {
                None => final(self).clients@ == old(self).clients@,
                Some(i) => final(self).clients@ == old(self).clients@.remove(i),
            },
    {
        let n = self.clients.len();
        let mut i: usize = 0;
        while i < n
            invariant
                i <= n,
                n == self.clients@.len(),
                *self == *old(self),
                forall|k: int| 0 <= k < i ==> (#[trigger] self.clients@[k]).0 != *client_id,
            decreases n - i,
        {
            if self.clients[i].0 == *client_id {
                proof {
                    lemma_find_client_from_prefix(self.clients@, *client_id, i as int);
                }
                self.clients.remove(i);
                return;
            }
            i += 1;
        }
        proof {
            lemma_find_client_from_prefix(self.clients@, *client_id, n as int);
        }
    }
}

/// A scan that saw no match up to `i` pins the first-match index.
proof fn lemma_find_client_from_prefix(cs: Seq<(ClientId, ClientBucket)>, id: ClientId, i: int)
    requires
        0 <= i <= cs.len(),
        forall|k: int| 0 <= k < i ==> (#[trigger] cs[k]).0 != id,
    ensures
        (i < cs.len() && cs[i].0 == id) ==> spec_find_client(cs, id) == Some(i),
        i == cs.len() ==> spec_find_client(cs, id) is None,
    decreases cs.len(),
{
    if cs.len() > 0 {
        if cs[0].0 == id {
        } else {
            assert forall|k: int| 0 <= k < i - 1 implies (#[trigger] cs.drop_first()[k]).0
                != id by {
                assert(cs.drop_first()[k] == cs[k + 1]);
            }
            if i > 0 {
                lemma_find_client_from_prefix(cs.drop_first(), id, i - 1);
                if i < cs.len() && cs[i].0 == id {
                    assert(cs.drop_first()[i - 1] == cs[i]);
                }
            }
        }
    }
}

} // verus!
