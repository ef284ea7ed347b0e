//! The incremental hash accumulator.
//!
//! A [`HashState`] wraps one BLAKE2s-256 hasher. Its mathematical model is
//! the sequence of bytes fed into it so far, given by [`fed_bytes`]; the
//! digest of a byte sequence is named by [`digest_of`].

use vstd::prelude::*;

use blake2::Blake2s256;
use digest::Digest;

verus! {

/// The bytes fed into the accumulator so far, oldest first.
pub uninterp spec fn fed_bytes(h: HashState) -> Seq<u8>;

/// The 32-byte BLAKE2s-256 digest of `data`: the result of
/// `blake2::Blake2s256::digest` and of any equivalent update/finalize
/// sequence over the same bytes.
pub uninterp spec fn digest_of(data: Seq<u8>) -> Seq<u8>;

/// One BLAKE2s-256 hasher state. Opaque; its model is `fed_bytes(self)`.
#[verifier::external_body]
pub struct HashState {
    inner: Blake2s256,
}

impl HashState {
    /// A fresh accumulator that has been fed nothing.
    ///
    /// Relies on `blake2::Blake2s256::new` (`digest::Digest::new`): the
    /// initial hasher state has processed no input.
    #[verifier::external_body]
    pub fn new() -> (r: HashState)
        ensures
            fed_bytes(r) == Seq::<u8>::empty(),
    {
        HashState { inner: Blake2s256::new() }
    }

    /// Feed `data` into the accumulator.
    ///
    /// Relies on `digest::Digest::update`: the hasher processes exactly the
    /// given bytes, appended to whatever it has processed before.
    #[verifier::external_body]
    pub fn update(&mut self, data: &[u8])
        ensures
            fed_bytes(*final(self)) == fed_bytes(*old(self)) + data@,
    {
        self.inner.update(data);
    }

    /// The digest of everything fed so far, without disturbing the
    /// accumulator: the hasher is cloned and the clone is finalized.
    ///
    /// Relies on `Clone::clone` for `blake2::Blake2s256` (a field-for-field
    /// copy of the hasher state) and on `digest::Digest::finalize`: the
    /// digest of a hasher that has processed a byte sequence is the BLAKE2s-256
    /// digest of that sequence, 32 bytes long.
    #[verifier::external_body]
    pub fn peek_digest(&self) -> (r: Vec<u8>)
        ensures
            r@ == digest_of(fed_bytes(*self)),
            r@.len() == 32,
    {
        self.inner.clone().finalize().to_vec()
    }
}

} // verus!
