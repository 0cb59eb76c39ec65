//! The two capabilities that a backend offers.

use vstd::prelude::*;
use crate::keys::{InvalidPublicKey, PublicKey, SharedSecret};

verus! {

/// A source of random bytes that is fit for making keys.
///
/// The caller of [`EcdhProvider::generate_keypair`] hands one in, and so
/// decides where a backend's entropy comes from.
pub trait RandomSource {
    /// Overwrites all of `dest` with random bytes.
    fn fill_bytes(&mut self, dest: &mut [u8]);
}

/// An ephemeral secret key. It is used for one agreement and is gone after
/// it: `agree` takes the key by value.
pub trait SecretKey: Sized {
    /// The public key that was generated together with this secret key.
    spec fn public_key(&self) -> Seq<u8>;

    /// What an agreement of this key with the public key `peer` yields: the
    /// bytes of the shared secret, or `None` where the backend rejects
    /// `peer`.
    spec fn agreement(&self, peer: Seq<u8>) -> Option<Seq<u8>>;

    /// Agrees on a shared secret with the peer that sent `foreign_key`.
    ///
    /// Fails with [`InvalidPublicKey`] where `foreign_key` is not a valid
    /// point of the curve or the backend rejects it otherwise. There is no
    /// other error.
    fn agree(self, foreign_key: &PublicKey) -> (shared: Result<SharedSecret, InvalidPublicKey>)
        ensures
            (match shared {
                Ok(secret) => self.agreement(foreign_key@) == Some(secret@),
                Err(_) => self.agreement(foreign_key@) is None,
            }),
            shared matches Ok(secret) ==> secret@.len() == 32,
    ;
}

/// A backend that makes ephemeral P-256 keypairs.
pub trait EcdhProvider {
    /// The secret keys of this backend.
    type SecretKey: SecretKey;

    /// Makes a fresh secret key and the public key that belongs to it.
    ///
    /// A backend may draw its entropy from `rng` or from a source of its
    /// own; each backend says which. Generation has no error to return: a
    /// backend that cannot make a key does not return.
    fn generate_keypair<R: RandomSource>(&mut self, rng: &mut R) -> (pair: (
        Self::SecretKey,
        PublicKey,
    ))
        ensures
            pair.0.public_key() == pair.1@,
            pair.1@.len() == 64,
    ;
}

} // verus!
