//! The acceptance routine for backends.
//!
//! A backend is trusted once two keypairs that it made agree on the same
//! secret from both sides. The routine works with any [`EcdhProvider`] and
//! knows nothing of what is behind it.

use vstd::prelude::*;
use crate::capability::{EcdhProvider, RandomSource, SecretKey};
use crate::keys::{InvalidPublicKey, SharedSecret};

verus! {

/// Why a backend did not pass.
#[derive(Clone, Copy, Debug, PartialEq, Eq, Structural)]
pub enum ConformanceFailure {
    /// An agreement with a public key of the backend's own making was
    /// rejected.
    AgreementFailed,
    /// Both agreements gave a secret, and the two secrets differ.
    SecretsDiffer,
}

/// The judgement on the two sides of one exchange, each given as the secret
/// that the side arrived at, or `None` where its agreement was rejected.
pub open spec fn judgement(ab: Option<Seq<u8>>, ba: Option<Seq<u8>>) -> Result<
    (),
    ConformanceFailure,
> {
    match (ab, ba) {
        (Some(left), Some(right)) => if left == right {
            Ok(())
        } else {
            Err(ConformanceFailure::SecretsDiffer)
        },
        _ => Err(ConformanceFailure::AgreementFailed),
    }
}

/// The secret in the result of an agreement, if there is one.
pub open spec fn secret_of(shared: Result<SharedSecret, InvalidPublicKey>) -> Option<Seq<u8>> {
    match shared {
        Ok(secret) => Some(secret@),
        Err(_) => None,
    }
}

/// Judges one exchange by what the two sides got out of it: `shared_ab` is
/// what A's secret key made of B's public key, `shared_ba` the reverse. The
/// exchange passes when both agreements succeeded and gave the same 32
/// bytes.
pub fn compare_agreements(
    shared_ab: &Result<SharedSecret, InvalidPublicKey>,
    shared_ba: &Result<SharedSecret, InvalidPublicKey>,
) -> (verdict: Result<(), ConformanceFailure>)
    ensures
        verdict == judgement(secret_of(*shared_ab), secret_of(*shared_ba)),
{
    match (shared_ab, shared_ba) {
        (Ok(left), Ok(right)) => {
            let mut i: usize = 0;
            while i < 32
                invariant
                    i <= 32,
                    secret_of(*shared_ab) == Some(left@),
                    secret_of(*shared_ba) == Some(right@),
                    forall|j: int| 0 <= j < i ==> left@[j] == right@[j],
                decreases 32 - i,
            {
                if left.0[i] != right.0[i] {
                    assert(left@[i as int] != right@[i as int]);
                    return Err(ConformanceFailure::SecretsDiffer);
                }
                i += 1;
            }
            assert(left@ =~= right@);
            Ok(())
        },
        _ => Err(ConformanceFailure::AgreementFailed),
    }
}

/// A stand-in for a random source that hands out consecutive byte values,
/// starting where it was told to and wrapping from 255 to 0.
///
/// It exists so that a conformance run has a source to hand to the backend
/// and runs the same way each time. Its bytes are anything but random: keys
/// made from it are no secret.
pub struct CountingSource {
    next: u8,
}

impl View for CountingSource {
    type V = int;

    /// The byte that the source hands out next.
    closed spec fn view(&self) -> int {
        self.next as int
    }
}

/// The `len` byte values that follow each other from `first`, wrapping from
/// 255 to 0.
pub open spec fn counted_from(first: int, len: nat) -> Seq<u8> {
    Seq::new(len, |i: int| ((first + i) % 256) as u8)
}

impl CountingSource {
    /// A source whose first byte is `first`.
    pub fn new(first: u8) -> (source: Self)
        ensures
            source@ == first,
    {
        CountingSource { next: first }
    }
}

impl RandomSource for CountingSource {
    fn fill_bytes(&mut self, dest: &mut [u8])
        ensures
            final(dest)@ == counted_from(old(self)@, old(dest)@.len()),
            final(self)@ == (old(self)@ + old(dest)@.len()) % 256,
    {
        let mut i: usize = 0;
        while i < dest.len()
            invariant
                i <= dest@.len(),
                dest@.len() == old(dest)@.len(),
                self@ == (old(self)@ + i) % 256,
                forall|j: int| 0 <= j < i ==> dest@[j] == ((old(self)@ + j) % 256) as u8,
            decreases dest@.len() - i,
        {
            dest[i] = self.next;
            self.next = if self.next == 255 { 0 } else { self.next + 1 };
            i += 1;
        }
        assert(dest@ =~= counted_from(old(self)@, old(dest)@.len()));
    }
}

/// Runs the acceptance routine against `provider`.
///
/// The provider makes two keypairs, A and B. A's secret key agrees with B's
/// public key and B's secret key with A's. The backend passes when both
/// agreements succeed and arrive at the same secret.
///
/// Which keys the provider makes is up to it and its random source, so the
/// verdict is stated of some pair of its secret keys: it is the judgement on
/// what each of them makes of the other's public key.
pub fn run_tests<P: EcdhProvider>(provider: P) -> (verdict: Result<(), ConformanceFailure>)
    ensures
        exists|a: P::SecretKey, b: P::SecretKey|
            verdict == #[trigger] judgement(
                a.agreement(b.public_key()),
                b.agreement(a.public_key()),
            ),
{
    let mut provider = provider;
    let mut rng = CountingSource::new(0);
    let (secret_a, public_a) = provider.generate_keypair(&mut rng);
    let (secret_b, public_b) = provider.generate_keypair(&mut rng);
    let ghost a = secret_a;
    let ghost b = secret_b;
    let shared_ab = secret_a.agree(&public_b);
    let shared_ba = secret_b.agree(&public_a);
    let verdict = compare_agreements(&shared_ab, &shared_ba);
    assert(verdict == judgement(a.agreement(b.public_key()), b.agreement(a.public_key())));
    verdict
}

} // verus!
