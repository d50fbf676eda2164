//! Keys, as the bytes that stand for them on the wire.

use vstd::prelude::*;

verus! {

/// Whether two byte strings hold the same bytes.
pub fn bytes_equal(a: &Vec<u8>, b: &Vec<u8>) -> (same: bool)
    ensures
        same == (a@ == b@),
{
    if a.len() != b.len() {
        return false;
    }
    let mut i: usize = 0;
    while i < a.len()
        invariant
            a.len() == b.len(),
            i <= a.len(),
            a@.subrange(0, i as int) == b@.subrange(0, i as int),
        decreases a.len() - i,
    {
        if a[i] != b[i] {
            assert(a@[i as int] != b@[i as int]);
            return false;
        }
        assert(a@.subrange(0, i + 1) == a@.subrange(0, i as int).push(a@[i as int]));
        assert(b@.subrange(0, i + 1) == b@.subrange(0, i as int).push(b@[i as int]));
        i = i + 1;
    }
    assert(a@ == a@.subrange(0, a.len() as int));
    assert(b@ == b@.subrange(0, b.len() as int));
    true
}

/// A copy of a byte string.
pub fn copy_bytes(bytes: &Vec<u8>) -> (copy: Vec<u8>)
    ensures
        copy@ == bytes@,
{
    let mut copy: Vec<u8> = Vec::new();
    let mut i: usize = 0;
    while i < bytes.len()
        invariant
            i <= bytes.len(),
            copy@ == bytes@.subrange(0, i as int),
        decreases bytes.len() - i,
    {
        copy.push(bytes[i]);
        assert(copy@ == bytes@.subrange(0, i + 1));
        i = i + 1;
    }
    assert(bytes@ == bytes@.subrange(0, bytes.len() as int));
    copy
}

/// A public key: the identity that a signature is bound to.
#[derive(Debug, Clone, PartialEq, Eq, Hash)]
pub struct PublicKey {
    pub bytes: Vec<u8>,
}

impl PublicKey {
    pub fn from_bytes(bytes: Vec<u8>) -> (key: Self)
        ensures
            key.bytes == bytes,
    {
        PublicKey { bytes }
    }

    /// Whether this is the same key as `other`.
    pub fn same_as(&self, other: &PublicKey) -> (same: bool)
        ensures
            same == (self.bytes@ == other.bytes@),
    {
        bytes_equal(&self.bytes, &other.bytes)
    }

    pub fn duplicate(&self) -> (copy: Self)
        ensures
            copy.bytes@ == self.bytes@,
    {
        PublicKey { bytes: copy_bytes(&self.bytes) }
    }
}

/// A signing identity that owns its private key: it says which public key its
/// signatures are bound to, and it signs the transaction bodies that it is handed.
///
/// How a body becomes bytes and how bytes are signed is the business of whoever
/// implements this.
pub trait PrivateKey {
    fn public_key(&self) -> PublicKey;

    fn sign(&self, body: &crate::wire::TransactionBody) -> Vec<u8>;
}

/// A key that controls an entity.
#[derive(Debug, Clone, PartialEq, Eq, Hash)]
pub struct Key {
    pub bytes: Vec<u8>,
}

} // verus!
