//! The IPC server's decision logic: role inference from peer credentials
//! and the registry of connected peers with their subscription flags. The
//! socket reads and writes happen in the process around the service.

use vstd::prelude::*;

use crate::api::{ClientInfo, ClientRole};
use crate::ids::ClientId;

verus! {

/// Errors of the IPC layer.
#[derive(Debug)]
pub enum IpcError {
    Io(String),
    Json(String),
    ConnectionClosed,
    InvalidMessage(String),
    ServerError(String),
}

/// The role a peer gets from its Unix credentials: root and the service's
/// own user administer; everyone else is a shell; an unreadable peer is a
/// shell too.
pub fn role_for_uid(peer_uid: Option<u32>, service_uid: u32) -> (r: ClientRole)
    ensures
        r == (match peer_uid {
            Some(u) => if u == 0 || u == service_uid {
                ClientRole::Admin
            } else {
                ClientRole::Shell
            },
            None => ClientRole::Shell,
        }),
{
    match peer_uid {
        Some(u) => {
            if u == 0 || u == service_uid {
                ClientRole::Admin
            } else {
                ClientRole::Shell
            }
        },
        None => ClientRole::Shell,
    }
}

/// One connected peer.
#[derive(Debug)]
pub struct PeerRecord {
    pub client_id: ClientId,
    pub role: ClientRole,
    pub uid: Option<u32>,
    pub subscribed: bool,
}

/// The index of a peer, first match.
pub open spec fn spec_find_peer(ps: Seq<PeerRecord>, id: ClientId) -> Option<int>
    decreases ps.len(),
{
    if ps.len() == 0 {
        None
    } else if ps[0].client_id == id {
        Some(0)
    } else {
        match spec_find_peer(ps.drop_first(), id) {
            Some(j) => Some(j + 1),
            None => None,
        }
    }
}

/// The registry of connected peers.
#[derive(Debug)]
pub struct ClientRegistry {
    pub peers: Vec<PeerRecord>,
}

impl ClientRegistry {
    pub fn new() -> (r: ClientRegistry)
        ensures
            r.peers@.len() == 0,
    {
        ClientRegistry { peers: Vec::new() }
    }

    /// Registers a newly accepted peer, unsubscribed.
    pub fn connect(&mut self, client_id: ClientId, role: ClientRole, uid: Option<u32>)
        ensures
            final(self).peers@ == old(self).peers@.push(
                PeerRecord { client_id, role, uid, subscribed: false },
            ),
    {
        self.peers.push(PeerRecord { client_id, role, uid, subscribed: false });
    }

    /// Marks the peer as subscribed to events. Subscribing twice is the
    /// same as subscribing once: a subscribed peer's record is unchanged.
    pub fn subscribe(&mut self, client_id: &ClientId)
        ensures
            match spec_find_peer(old(self).peers@, *client_id) {
                None => final(self).peers@ == old(self).peers@,
                Some(i) => final(self).peers@ == old(self).peers@.update(
                    i,
                    PeerRecord { subscribed: true, ..old(self).peers@[i] },
                ),
            },
    {
        let n = self.peers.len();
        let mut i: usize = 0;
        while i < n
            invariant
                i <= n,
                n == self.peers@.len(),
                *self == *old(self),
                forall|k: int| 0 <= k < i ==> (#[trigger] self.peers@[k]).client_id != *client_id,
            decreases n - i,
        {
            if self.peers[i].client_id == *client_id {
                proof {
                    lemma_find_peer_from_prefix(self.peers@, *client_id, i as int);
                }
                let role = self.peers[i].role;
                let uid = self.peers[i].uid;
                self.peers[i] = PeerRecord { client_id: *client_id, role, uid, subscribed: true };
                proof {
                    assert(self.peers@ =~= old(self).peers@.update(
                        i as int,
                        PeerRecord { subscribed: true, ..old(self).peers@[i as int] },
                    ));
                }
                return;
            }
            i += 1;
        }
        proof {
            lemma_find_peer_from_prefix(self.peers@, *client_id, n as int);
        }
    }

    /// Clears the peer's subscription.
    pub fn unsubscribe(&mut self, client_id: &ClientId)
        ensures
            match spec_find_peer(old(self).peers@, *client_id) {
                None => final(self).peers@ == old(self).peers@,
                Some(i) => final(self).peers@ == old(self).peers@.update(
                    i,
                    PeerRecord { subscribed: false, ..old(self).peers@[i] },
                ),
            },
    {
        let n = self.peers.len();
        let mut i: usize = 0;
        while i < n
            invariant
                i <= n,
                n == self.peers@.len(),
                *self == *old(self),
                forall|k: int| 0 <= k < i ==> (#[trigger] self.peers@[k]).client_id != *client_id,
            decreases n - i,
        {
            if self.peers[i].client_id == *client_id {
                proof {
                    lemma_find_peer_from_prefix(self.peers@, *client_id, i as int);
                }
                let role = self.peers[i].role;
                let uid = self.peers[i].uid;
                self.peers[i] = PeerRecord { client_id: *client_id, role, uid, subscribed: false };
                proof {
                    assert(self.peers@ =~= old(self).peers@.update(
                        i as int,
                        PeerRecord { subscribed: false, ..old(self).peers@[i as int] },
                    ));
                }
                return;
            }
            i += 1;
        }
        proof {
            lemma_find_peer_from_prefix(self.peers@, *client_id, n as int);
        }
    }

    /// Removes a disconnected peer (the first record, were there several).
    pub fn disconnect(&mut self, client_id: &ClientId)
        ensures
            match spec_find_peer(old(self).peers@, *client_id) {
                None => final(self).peers@ == old(self).peers@,
                Some(i) => final(self).peers@ == old(self).peers@.remove(i),
            },
    {
        let n = self.peers.len();
        let mut i: usize = 0;
        while i < n
            invariant
                i <= n,
                n == self.peers@.len(),
                *self == *old(self),
                forall|k: int| 0 <= k < i ==> (#[trigger] self.peers@[k]).client_id != *client_id,
            decreases n - i,
        {
            if self.peers[i].client_id == *client_id {
                proof {
                    lemma_find_peer_from_prefix(self.peers@, *client_id, i as int);
                }
                self.peers.remove(i);
                return;
            }
            i += 1;
        }
        proof {
            lemma_find_peer_from_prefix(self.peers@, *client_id, n as int);
        }
    }

    /// The peer's connection info, if it is registered.
    pub fn get_client_info(&self, client_id: &ClientId) -> (r: Option<ClientInfo>)
        ensures
            match spec_find_peer(self.peers@, *client_id) {
                None => r is None,
                Some(i) => r matches Some(info) && info.client_id == self.peers@[i].client_id
                    && info.role == self.peers@[i].role && info.uid == self.peers@[i].uid,
            },
    {
        let n = self.peers.len();
        let mut i: usize = 0;
        while i < n
            invariant
                i <= n,
                n == self.peers@.len(),
                forall|k: int| 0 <= k < i ==> (#[trigger] self.peers@[k]).client_id != *client_id,
            decreases n - i,
        {
            if self.peers[i].client_id == *client_id {
                proof {
                    lemma_find_peer_from_prefix(self.peers@, *client_id, i as int);
                }
                return Some(ClientInfo {
                    client_id: self.peers[i].client_id,
                    role: self.peers[i].role,
                    uid: self.peers[i].uid,
                    process_name: None,
                });
            }
            i += 1;
        }
        proof {
            lemma_find_peer_from_prefix(self.peers@, *client_id, n as int);
        }
        None
    }

    /// Whether the peer is subscribed to events.
    pub fn is_subscribed(&self, client_id: &ClientId) -> (r: bool)
        ensures
            r == match spec_find_peer(self.peers@, *client_id) {
                None => false,
                Some(i) => self.peers@[i].subscribed,
            },
    {
        let n = self.peers.len();
        let mut i: usize = 0;
        while i < n
            invariant
                i <= n,
                n == self.peers@.len(),
                forall|k: int| 0 <= k < i ==> (#[trigger] self.peers@[k]).client_id != *client_id,
            decreases n - i,
        {
            if self.peers[i].client_id == *client_id {
                proof {
                    lemma_find_peer_from_prefix(self.peers@, *client_id, i as int);
                }
                return self.peers[i].subscribed;
            }
            i += 1;
        }
        proof {
            lemma_find_peer_from_prefix(self.peers@, *client_id, n as int);
        }
        false
    }

    pub fn client_count(&self) -> (r: usize)
        ensures
            r == self.peers@.len(),
    {
        self.peers.len()
    }
}

/// A scan that saw no match up to `i` pins the first-match index.
proof fn lemma_find_peer_from_prefix(ps: Seq<PeerRecord>, id: ClientId, i: int)
    requires
        0 <= i <= ps.len(),
        forall|k: int| 0 <= k < i ==> (#[trigger] ps[k]).client_id != id,
    ensures
        (i < ps.len() && ps[i].client_id == id) ==> spec_find_peer(ps, id) == Some(i),
        i == ps.len() ==> spec_find_peer(ps, id) is None,
    decreases ps.len(),
{
    if ps.len() > 0 {
        if ps[0].client_id == id {
        } else {
            assert forall|k: int| 0 <= k < i - 1 implies (#[trigger] ps.drop_first()[k]).client_id
                != id by {
                assert(ps.drop_first()[k] == ps[k + 1]);
            }
            if i > 0 {
                lemma_find_peer_from_prefix(ps.drop_first(), id, i - 1);
                if i < ps.len() && ps[i].client_id == id {
                    assert(ps.drop_first()[i - 1] == ps[i]);
                }
            }
        }
    }
}

/// Subscribing twice yields the same registry as subscribing once: after a
/// subscription the peer's record carries the flag, and a second
/// subscription maps the registry to itself.
pub proof fn lemma_subscribe_idempotent(ps: Seq<PeerRecord>, id: ClientId, i: int)
    requires
        0 <= i < ps.len(),
        spec_find_peer(ps, id) == Some(i),
    ensures
        ({
            let once = ps.update(i, PeerRecord { subscribed: true, ..ps[i] });
            &&& spec_find_peer(once, id) == Some(i)
            &&& once.update(i, PeerRecord { subscribed: true, ..once[i] }) =~= once
        }),
    decreases ps.len(),
{
    let once = ps.update(i, PeerRecord { subscribed: true, ..ps[i] });
    lemma_find_peer_update(ps, id, i, PeerRecord { subscribed: true, ..ps[i] });
    assert(once.update(i, PeerRecord { subscribed: true, ..once[i] }) =~= once);
}

/// Updating the found peer's record (keeping its id) leaves it the found
/// one.
proof fn lemma_find_peer_update(ps: Seq<PeerRecord>, id: ClientId, i: int, rec: PeerRecord)
    requires
        0 <= i < ps.len(),
        spec_find_peer(ps, id) == Some(i),
        rec.client_id == ps[i].client_id,
    ensures
        spec_find_peer(ps.update(i, rec), id) == Some(i),
    decreases ps.len(),
{
    lemma_find_peer_first(ps, id, i);
    assert forall|k: int| 0 <= k < i implies (#[trigger] ps.update(i, rec)[k]).client_id != id by {
        assert(ps.update(i, rec)[k] == ps[k]);
    }
    assert(ps[i].client_id == id) by {
        lemma_find_peer_matches(ps, id);
    }
    lemma_find_peer_from_prefix(ps.update(i, rec), id, i);
}

/// The found index holds the id.
proof fn lemma_find_peer_matches(ps: Seq<PeerRecord>, id: ClientId)
    ensures
        spec_find_peer(ps, id) matches Some(i) ==> 0 <= i < ps.len() && ps[i].client_id == id,
    decreases ps.len(),
{
    if ps.len() > 0 && ps[0].client_id != id {
        lemma_find_peer_matches(ps.drop_first(), id);
        match spec_find_peer(ps.drop_first(), id) {
            Some(j) => {
                assert(ps.drop_first()[j] == ps[j + 1]);
            },
            None => {},
        }
    }
}

/// Nothing before the found index holds the id.
proof fn lemma_find_peer_first(ps: Seq<PeerRecord>, id: ClientId, i: int)
    requires
        spec_find_peer(ps, id) == Some(i),
    ensures
        forall|k: int| 0 <= k < i ==> (#[trigger] ps[k]).client_id != id,
    decreases ps.len(),
{
    lemma_find_peer_matches(ps, id);
    if ps.len() > 0 && ps[0].client_id != id {
        lemma_find_peer_first(ps.drop_first(), id, i - 1);
        assert forall|k: int| 0 <= k < i implies (#[trigger] ps[k]).client_id != id by {
            if k > 0 {
                assert(ps.drop_first()[k - 1] == ps[k]);
            }
        }
    }
}

} // verus!
