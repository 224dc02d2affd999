//! The server's TLS identity: the certificate chain and private key the
//! secure listener presents to every connecting client. The identity is
//! built once at startup, before the TLS termination context, and is never
//! mutated afterwards; every handshake reads it, none changes it.

use vstd::prelude::*;

verus! {

/// Why a TLS identity could not be built.
#[derive(Clone, Copy, Debug, PartialEq, Eq, Structural)]
pub enum TlsIdentityError {
    /// The certificate chain holds no certificate at all.
    EmptyChain,
}

/// A server-side TLS identity: a non-empty certificate chain, leaf first,
/// each certificate as its encoded bytes, and exactly one private key,
/// also as encoded bytes. Whether the key parses and matches the leaf
/// certificate is decided by the TLS library when the termination context
/// is built from this identity; the rule enforced here is that the chain
/// is never empty.
#[derive(Debug)]
pub struct TlsIdentity {
    /// The certificate chain, leaf first; never empty.
    pub chain: Vec<Vec<u8>>,
    /// The one private key.
    pub key: Vec<u8>,
}

impl TlsIdentity {
    /// The identity's invariant: the chain holds at least the leaf.
    pub open spec fn wf(&self) -> bool {
        self.chain@.len() >= 1
    }

    /// Build the identity the secure listener will present. Fails exactly
    /// when the chain is empty; otherwise keeps the chain and key as given.
    pub fn new(chain: Vec<Vec<u8>>, key: Vec<u8>) -> (r: Result<TlsIdentity, TlsIdentityError>)
        ensures
            r matches Ok(t) ==> t.wf() && t.chain@ == chain@ && t.key@ == key@,
            r matches Err(e) ==> e == TlsIdentityError::EmptyChain,
            r matches Ok(_) <==> chain@.len() >= 1,
    {
        if chain.len() == 0 {
            Err(TlsIdentityError::EmptyChain)
        } else {
            Ok(TlsIdentity { chain, key })
        }
    }

    /// The leaf certificate: the first entry of the chain.
    pub fn leaf(&self) -> (r: &Vec<u8>)
        requires
            self.wf(),
        ensures
            r@ == self.chain@[0]@,
    {
        &self.chain[0]
    }
}

} // verus!
