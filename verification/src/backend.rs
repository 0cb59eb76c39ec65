//! The backend that leaves the curve arithmetic to *ring*.
//!
//! *ring* speaks the uncompressed point encoding, one tag octet and 64
//! coordinate bytes, while keys travel as the 64 coordinate bytes alone. The
//! backend takes the tag off the public keys it makes and puts it back on the
//! ones it receives. Everything else is *ring*'s work. What is taken for
//! granted of it is written down at the end of this file, in the contracts of
//! the three private functions that call it; none of that is proved here.

use vstd::prelude::*;
use ring::agreement::{agree_ephemeral, EphemeralPrivateKey, UnparsedPublicKey, ECDH_P256};
use ring::rand::SystemRandom;
use crate::capability::{EcdhProvider, RandomSource, SecretKey};
use crate::keys::{is_uncompressed, tagged, untagged, InvalidPublicKey, PublicKey, SharedSecret};

verus! {

/// *ring*'s private key for one agreement. Nothing inside it can be read.
#[verifier::external_type_specification]
#[verifier::external_body]
pub struct ExEphemeralPrivateKey(EphemeralPrivateKey);

/// *ring*'s handle on the random source of the operating system.
#[verifier::external_type_specification]
#[verifier::external_body]
pub struct ExSystemRandom(SystemRandom);

/// The private scalar that `key` holds, in big-endian bytes.
pub uninterp spec fn scalar_bytes(key: EphemeralPrivateKey) -> Seq<u8>;

/// Whether `key` was made for P-256, that is, whether *ring* reports
/// `ECDH_P256` as its algorithm.
pub uninterp spec fn is_p256(key: EphemeralPrivateKey) -> bool;

/// The encoded public point that *ring* computes from a P-256 private
/// scalar: the scalar's multiple of the base point.
pub uninterp spec fn p256_public_point(scalar: Seq<u8>) -> Seq<u8>;

/// The outcome of *ring*'s P-256 agreement between a private scalar and the
/// encoded point of a peer: the X coordinate of the scalar's multiple of that
/// point, or `None` where *ring* rejects the point.
pub uninterp spec fn p256_agreement(scalar: Seq<u8>, peer_point: Seq<u8>) -> Option<Seq<u8>>;

/// `SystemRandom::new` makes a handle; nothing is claimed of it.
pub assume_specification[ SystemRandom::new ]() -> (rng: SystemRandom);

/// An ECDH provider that uses *ring* under the hood.
///
/// It holds one handle on the system's random source, made when the provider
/// is made and used for every key. The source that a caller hands to
/// `generate_keypair` is not touched.
pub struct RingProvider {
    rng: SystemRandom,
}

impl RingProvider {
    /// Creates a new `RingProvider` that uses the system's RNG for key
    /// generation.
    pub fn new() -> (provider: Self) {
        RingProvider { rng: SystemRandom::new() }
    }
}

/// A secret key generated by a [`RingProvider`].
///
/// It cannot be copied and `agree` takes it by value, so it serves for one
/// agreement and no more.
pub struct RingSecretKey(EphemeralPrivateKey);

impl View for RingSecretKey {
    type V = Seq<u8>;

    /// The private scalar, in big-endian bytes.
    closed spec fn view(&self) -> Seq<u8> {
        scalar_bytes(self.0)
    }
}

impl RingSecretKey {
    /// What holds of every secret key that the backend hands out: it is a
    /// key for P-256, and the encoding of its public point has the
    /// uncompressed form.
    #[verifier::type_invariant]
    pub closed spec fn valid(&self) -> bool {
        is_p256(self.0) && is_uncompressed(p256_public_point(scalar_bytes(self.0)))
    }
}

/// A public key that the backend made loses nothing on its way to a peer of
/// the same backend: when `a` agrees with the public key of `b`, *ring* is
/// handed the very point that it computed for `b`. Whether the two sides of
/// an exchange then arrive at the same secret is a matter of *ring*'s
/// arithmetic alone.
pub proof fn lemma_own_public_key_reaches_ring_unchanged(a: RingSecretKey, b: RingSecretKey)
    requires
        b.valid(),
    ensures
        b.public_key().len() == 64,
        tagged(b.public_key()) == p256_public_point(b@),
        a.agreement(b.public_key()) == p256_agreement(a@, p256_public_point(b@)),
{
    crate::keys::lemma_tag_restores_point(p256_public_point(b@));
}

impl SecretKey for RingSecretKey {
    /// The coordinates of the point that *ring* computes from the scalar.
    open spec fn public_key(&self) -> Seq<u8> {
        untagged(p256_public_point(self@))
    }

    /// *ring*'s agreement between the scalar and the point that `peer`
    /// encodes once the tag octet is back in front of it.
    open spec fn agreement(&self, peer: Seq<u8>) -> Option<Seq<u8>> {
        p256_agreement(self@, tagged(peer))
    }

    fn agree(self, foreign_key: &PublicKey) -> (shared: Result<SharedSecret, InvalidPublicKey>) {
        proof {
            use_type_invariant(&self);
        }
        let peer_point = foreign_key.to_uncompressed();
        agree_with_point(self.0, &peer_point)
    }
}

impl EcdhProvider for RingProvider {
    type SecretKey = RingSecretKey;

    /// Makes a key with the provider's own random source. `rng` is ignored.
    ///
    /// The public key is *ring*'s encoding of the public point without its
    /// tag octet: with the tag back in front it is that encoding again.
    fn generate_keypair<R: RandomSource>(&mut self, rng: &mut R) -> (pair: (
        RingSecretKey,
        PublicKey,
    ))
        ensures
            pair.0.valid(),
            tagged(pair.1@) == p256_public_point(pair.0@),
            *final(rng) == *old(rng),
            *final(self) == *old(self),
    {
        let secret = generate_key(&self.rng);
        let point = public_point(&secret);
        let public = PublicKey::from_uncompressed(&point);
        proof {
            crate::keys::lemma_tag_restores_point(point@);
        }
        (RingSecretKey(secret), public)
    }
}

/// Calls `EphemeralPrivateKey::generate` for P-256 with the given source.
///
/// The key depends on the random source, so all that is claimed is the curve
/// it is for. Where *ring* reports a failure this panics: generation has no
/// error to return.
#[verifier::external_body]
fn generate_key(rng: &SystemRandom) -> (key: EphemeralPrivateKey)
    ensures
        is_p256(key),
{
    EphemeralPrivateKey::generate(&ECDH_P256, rng).expect("ring failed to generate a P-256 key")
}

/// Calls `EphemeralPrivateKey::compute_public_key` and copies the encoding
/// out.
///
/// The encoding depends on the scalar alone. For a P-256 key *ring* writes
/// 65 octets, the first of which is the tag of the uncompressed form. Where
/// *ring* reports a failure this panics.
#[verifier::external_body]
fn public_point(key: &EphemeralPrivateKey) -> (point: [u8; 65])
    requires
        is_p256(*key),
    ensures
        point@ == p256_public_point(scalar_bytes(*key)),
        is_uncompressed(point@),
{
    let public = key.compute_public_key().expect("ring failed to compute a P-256 public key");
    let mut point = [0u8; 65];
    point.copy_from_slice(public.as_ref());
    point
}

/// Calls `agree_ephemeral` with `peer_point` as a P-256 public key.
///
/// *ring* validates the point and, if it accepts it, hands the raw key
/// material to [`SharedSecret::from_key_material`] and returns what that
/// returns; otherwise it returns the error value. The outcome depends on the
/// scalar and the point alone.
#[verifier::external_body]
fn agree_with_point(key: EphemeralPrivateKey, peer_point: &[u8; 65]) -> (shared: Result<
    SharedSecret,
    InvalidPublicKey,
>)
    requires
        is_p256(key),
    ensures
        (match shared {
            Ok(secret) => p256_agreement(scalar_bytes(key), peer_point@) == Some(secret@),
            Err(_) => p256_agreement(scalar_bytes(key), peer_point@) is None,
        }),
{
    let peer = UnparsedPublicKey::new(&ECDH_P256, &peer_point[..]);
    agree_ephemeral(key, &peer, InvalidPublicKey::new(), |material| {
        SharedSecret::from_key_material(material)
    })
}

} // verus!
