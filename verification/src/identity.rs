//! Certificate and key material as the tunnel core sees it: opaque byte
//! blobs.  An `Identity` is DER-encoded certificate bytes; trust decisions
//! compare identities by exact byte equality and never parse them.

use vstd::prelude::*;

verus! {

/// An opaque certificate blob.  Equality of identities is exact byte
/// equality; no subject, issuer, validity or key-usage field is ever read.
pub struct Identity {
    pub der: Vec<u8>,
}

impl View for Identity {
    type V = Seq<u8>;

    open spec fn view(&self) -> Seq<u8> {
        self.der@
    }
}

impl Identity {
    /// Wrap already-decoded certificate bytes.
    pub fn new(der: Vec<u8>) -> (id: Identity)
        ensures
            id@ == der@,
    {
        Identity { der }
    }

    /// Exact byte equality against another identity: the one and only trust
    /// predicate of the tunnel.
    pub fn same_bytes(&self, other: &Identity) -> (r: bool)
        ensures
            r == (self@ == other@),
    {
        if self.der.len() != other.der.len() {
            return false;
        }
        let n = self.der.len();
        let mut i: usize = 0;
        while i < n
            invariant
                n == self.der.len(),
                n == other.der.len(),
                i <= n,
                forall|j: int| 0 <= j < i ==> self.der@[j] == other.der@[j],
            decreases n - i,
        {
            if self.der[i] != other.der[i] {
                return false;
            }
            i = i + 1;
        }
        proof {
            assert(self@ =~= other@);
        }
        true
    }

    /// A copy of the certificate bytes, for handing one pinned reference to
    /// several sessions.
    pub fn duplicate(&self) -> (id: Identity)
        ensures
            id@ == self@,
    {
        let mut der: Vec<u8> = Vec::new();
        let n = self.der.len();
        let mut i: usize = 0;
        while i < n
            invariant
                n == self.der.len(),
                i <= n,
                der@ == self.der@.subrange(0, i as int),
            decreases n - i,
        {
            der.push(self.der[i]);
            i = i + 1;
        }
        proof {
            assert(der@ =~= self@);
        }
        Identity { der }
    }
}

/// A private key blob paired with one local identity.  It is used only to
/// prove the local identity during a handshake and is never compared.
pub struct KeyMaterial {
    pub key_der: Vec<u8>,
}

impl KeyMaterial {
    /// Wrap already-decoded private-key bytes.
    pub fn new(key_der: Vec<u8>) -> (k: KeyMaterial)
        ensures
            k.key_der@ == key_der@,
    {
        KeyMaterial { key_der }
    }
}

} // verus!
