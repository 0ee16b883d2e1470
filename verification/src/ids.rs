//! Strongly-typed identifiers for entries, sessions, and IPC peers.

use vstd::prelude::*;

verus! {

use vstd::string::StringSliceAdditionalSpecFns;

/// String equality over views; the executable comparison the identifier
/// types and the parsers build on. Compares the UTF-8 bytes and carries the
/// result to the character views through the encoding round trip.
pub fn str_eq(a: &str, b: &str) -> (r: bool)
    ensures
        r == (a@ == b@),
{
    proof {
        vstd::utf8::encode_utf8_decode_utf8(a@);
        vstd::utf8::encode_utf8_decode_utf8(b@);
    }
    let ab = a.as_bytes();
    let bb = b.as_bytes();
    if ab.len() != bb.len() {
        proof {
            assert(a.spec_bytes() != b.spec_bytes());
        }
        return false;
    }
    let n = ab.len();
    let mut i: usize = 0;
    while i < n
        invariant
            n == ab@.len() == bb@.len(),
            i <= n,
            ab@ == a.spec_bytes(),
            bb@ == b.spec_bytes(),
            forall|j: int| 0 <= j < i ==> ab@[j] == bb@[j],
        decreases n - i,
    {
        if ab[i] != bb[i] {
            proof {
                assert(a.spec_bytes() != b.spec_bytes());
            }
            return false;
        }
        i += 1;
    }
    proof {
        assert(ab@ =~= bb@);
        assert(vstd::utf8::decode_utf8(a.spec_bytes()) == vstd::utf8::decode_utf8(b.spec_bytes()));
        assert(a@ =~= b@);
    }
    true
}

/// Stable identifier of a launchable entry in the policy.
#[derive(Debug, Eq, Hash)]
pub struct EntryId {
    id: String,
}

impl View for EntryId {
    type V = Seq<char>;

    closed spec fn view(&self) -> Seq<char> {
        self.id@
    }
}

impl EntryId {
    pub fn new(id: String) -> (r: EntryId)
        ensures
            r@ == id@,
    {
        EntryId { id }
    }

    pub fn as_str(&self) -> (r: &str)
        ensures
            r@ == self@,
    {
        self.id.as_str()
    }
}

impl Clone for EntryId {
    fn clone(&self) -> (r: EntryId)
        ensures
            r == *self,
            r@ == self@,
    {
        EntryId { id: self.id.clone() }
    }
}

impl PartialEq for EntryId {
    fn eq(&self, other: &EntryId) -> (r: bool) {
        str_eq(self.id.as_str(), other.id.as_str())
    }
}

impl vstd::std_specs::cmp::PartialEqSpecImpl for EntryId {
    open spec fn obeys_eq_spec() -> bool {
        true
    }

    open spec fn eq_spec(&self, other: &EntryId) -> bool {
        self@ == other@
    }
}

/// Relies on uuid::Uuid::new_v4 (read as its u128 value): a freshly drawn
/// random identifier; nothing is assumed of the value.
#[verifier::external_body]
fn fresh_uuid_value() -> u128 {
    uuid::Uuid::new_v4().as_u128()
}

/// Unique identifier of one approved session.
#[derive(Debug, Clone, Copy, PartialEq, Eq, Structural, Hash)]
pub struct SessionId {
    pub value: u128,
}

impl SessionId {
    /// Draws a fresh random identifier; no two calls are promised distinct,
    /// and nothing is assumed of the value.
    pub fn new() -> SessionId {
        SessionId { value: fresh_uuid_value() }
    }

    pub fn from_value(value: u128) -> (r: SessionId)
        ensures
            r.value == value,
    {
        SessionId { value }
    }
}

/// Unique identifier of one connected IPC peer.
#[derive(Debug, Clone, Copy, PartialEq, Eq, Structural, Hash)]
pub struct ClientId {
    pub value: u128,
}

impl ClientId {
    /// Draws a fresh random identifier; nothing is assumed of the value.
    pub fn new() -> ClientId {
        ClientId { value: fresh_uuid_value() }
    }

    pub fn from_value(value: u128) -> (r: ClientId)
        ensures
            r.value == value,
    {
        ClientId { value }
    }
}

} // verus!
