//! Key material as it travels between the peers.
//!
//! A public key is sent as the two coordinates of its point, 32 big-endian
//! bytes each. Curve libraries expect the uncompressed encoding of RFC 5480,
//! which puts one tag octet in front of the coordinates; the functions here
//! move between the two forms.

use vstd::prelude::*;

verus! {

/// The octet that RFC 5480 puts in front of an uncompressed point.
pub const UNCOMPRESSED_TAG: u8 = 0x04;

/// The uncompressed encoding of the point with the given coordinates: the
/// tag octet, then the coordinates.
pub open spec fn tagged(coordinates: Seq<u8>) -> Seq<u8> {
    seq![UNCOMPRESSED_TAG] + coordinates
}

/// The coordinates in an encoded point: everything after its first octet.
pub open spec fn untagged(point: Seq<u8>) -> Seq<u8> {
    point.skip(1)
}

/// Whether `point` has the shape of an uncompressed P-256 point: 65 octets,
/// the first of which is the tag. Nothing is said about the curve.
pub open spec fn is_uncompressed(point: Seq<u8>) -> bool {
    point.len() == 65 && point[0] == UNCOMPRESSED_TAG
}

/// Taking the tag off a tagged key gives the key back.
pub proof fn lemma_untag_restores_key(coordinates: Seq<u8>)
    ensures
        untagged(tagged(coordinates)) == coordinates,
        tagged(coordinates).len() == coordinates.len() + 1,
        tagged(coordinates)[0] == UNCOMPRESSED_TAG,
{
    assert(untagged(tagged(coordinates)) =~= coordinates);
}

/// Putting the tag back in front of the coordinates of an uncompressed point
/// gives the point back.
pub proof fn lemma_tag_restores_point(point: Seq<u8>)
    requires
        is_uncompressed(point),
    ensures
        tagged(untagged(point)) == point,
        untagged(point).len() == 64,
{
    assert(tagged(untagged(point)) =~= point);
}

/// A P-256 public key: the X coordinate of its point, then the Y coordinate,
/// 32 big-endian bytes each, without the tag octet.
///
/// Any 64 bytes make a `PublicKey`. Whether they are a point of the curve is
/// decided when a secret key is asked to agree with them.
#[derive(Clone, Copy, Debug)]
pub struct PublicKey(pub [u8; 64]);

impl View for PublicKey {
    type V = Seq<u8>;

    open spec fn view(&self) -> Seq<u8> {
        self.0@
    }
}

impl PublicKey {
    /// Encodes the key as an uncompressed point, by putting the tag octet in
    /// front of the coordinates.
    pub fn to_uncompressed(&self) -> (point: [u8; 65])
        ensures
            point@ == tagged(self@),
            is_uncompressed(point@),
    {
        let mut point = [0u8; 65];
        point[0] = UNCOMPRESSED_TAG;
        let mut i: usize = 0;
        while i < 64
            invariant
                i <= 64,
                point@[0] == UNCOMPRESSED_TAG,
                forall|j: int| 0 <= j < i ==> point@[j + 1] == self.0@[j],
            decreases 64 - i,
        {
            point[i + 1] = self.0[i];
            i += 1;
        }
        assert(point@ =~= tagged(self@));
        point
    }

    /// Reads a key from the uncompressed encoding of its point, by dropping
    /// the first octet. The octet itself is not looked at.
    pub fn from_uncompressed(point: &[u8; 65]) -> (key: PublicKey)
        ensures
            key@ == untagged(point@),
    {
        let mut coordinates = [0u8; 64];
        let mut i: usize = 0;
        while i < 64
            invariant
                i <= 64,
                forall|j: int| 0 <= j < i ==> coordinates@[j] == point@[j + 1],
            decreases 64 - i,
        {
            coordinates[i] = point[i + 1];
            i += 1;
        }
        assert(coordinates@ =~= untagged(point@));
        PublicKey(coordinates)
    }
}

/// The secret that two parties share after a key agreement: the X coordinate
/// of the agreed point, 32 big-endian bytes.
///
/// This is input for key derivation and should not live longer than that
/// takes.
pub struct SharedSecret(pub [u8; 32]);

impl View for SharedSecret {
    type V = Seq<u8>;

    open spec fn view(&self) -> Seq<u8> {
        self.0@
    }
}

impl SharedSecret {
    /// Takes the raw key material of an agreement as the shared secret.
    ///
    /// The material of a P-256 agreement has exactly 32 bytes. Material of
    /// any other length is not a shared secret, and is reported like a
    /// rejected agreement.
    pub fn from_key_material(material: &[u8]) -> (secret: Result<SharedSecret, InvalidPublicKey>)
        ensures
            (match secret {
                Ok(s) => material@.len() == 32 && s@ == material@,
                Err(_) => material@.len() != 32,
            }),
    {
        if material.len() != 32 {
            return Err(InvalidPublicKey::new());
        }
        let mut bytes = [0u8; 32];
        let mut i: usize = 0;
        while i < 32
            invariant
                i <= 32,
                material@.len() == 32,
                forall|j: int| 0 <= j < i ==> bytes@[j] == material@[j],
            decreases 32 - i,
        {
            bytes[i] = material[i];
            i += 1;
        }
        assert(bytes@ =~= material@);
        Ok(SharedSecret(bytes))
    }
}

/// The error of a key agreement: the peer's public key is not a valid point
/// of the curve, or the backend refused it for another reason. It carries
/// nothing else.
#[derive(Clone, Copy, Debug, PartialEq, Eq, Structural)]
pub struct InvalidPublicKey {}

impl InvalidPublicKey {
    /// Creates the error value.
    pub fn new() -> (error: Self)
        ensures
            error == (InvalidPublicKey {}),
    {
        InvalidPublicKey {}
    }
}

} // verus!
