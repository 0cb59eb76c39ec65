use ecdh::{
    compare_agreements, run_tests, ConformanceFailure, CountingSource, EcdhProvider,
    InvalidPublicKey, PublicKey, RandomSource, RingProvider, SecretKey, SharedSecret,
};

#[test]
fn equal_secrets_pass() {
    let ab = Ok(SharedSecret([7; 32]));
    let ba = Ok(SharedSecret([7; 32]));
    assert_eq!(compare_agreements(&ab, &ba), Ok(()));
}

#[test]
fn secrets_that_differ_in_one_byte_fail() {
    for at in [0usize, 15, 31] {
        let mut other = [7u8; 32];
        other[at] = 8;
        let ab = Ok(SharedSecret([7; 32]));
        let ba = Ok(SharedSecret(other));
        assert_eq!(compare_agreements(&ab, &ba), Err(ConformanceFailure::SecretsDiffer));
        assert_eq!(compare_agreements(&ba, &ab), Err(ConformanceFailure::SecretsDiffer));
    }
}

#[test]
fn a_rejected_agreement_fails() {
    let good = Ok(SharedSecret([1; 32]));
    let bad = Err(InvalidPublicKey::new());
    assert_eq!(compare_agreements(&good, &bad), Err(ConformanceFailure::AgreementFailed));
    assert_eq!(compare_agreements(&bad, &good), Err(ConformanceFailure::AgreementFailed));
    assert_eq!(compare_agreements(&bad, &bad), Err(ConformanceFailure::AgreementFailed));
}

#[test]
fn counting_source_counts_and_wraps() {
    let mut source = CountingSource::new(254);
    let mut first = [0xeeu8; 4];
    source.fill_bytes(&mut first);
    assert_eq!(first, [254, 255, 0, 1]);
    let mut second = [0xeeu8; 3];
    source.fill_bytes(&mut second);
    assert_eq!(second, [2, 3, 4]);
    let mut none: [u8; 0] = [];
    source.fill_bytes(&mut none);
    let mut third = [0u8; 1];
    source.fill_bytes(&mut third);
    assert_eq!(third, [5]);
}

#[test]
fn counting_source_comes_round_after_256_bytes() {
    let mut source = CountingSource::new(10);
    let mut all = [0u8; 256];
    source.fill_bytes(&mut all);
    assert_eq!(all[0], 10);
    assert_eq!(all[245], 255);
    assert_eq!(all[246], 0);
    assert_eq!(all[255], 9);
    let mut next = [0u8; 1];
    source.fill_bytes(&mut next);
    assert_eq!(next, [10]);
}

/// A source that only counts how often it is asked.
struct WatchedSource {
    calls: usize,
}

impl RandomSource for WatchedSource {
    fn fill_bytes(&mut self, dest: &mut [u8]) {
        self.calls += 1;
        for byte in dest.iter_mut() {
            *byte = 0x5a;
        }
    }
}

#[test]
fn ring_backend_draws_nothing_from_the_callers_source() {
    let mut provider = RingProvider::new();
    let mut watched = WatchedSource { calls: 0 };
    let (secret_a, public_a) = provider.generate_keypair(&mut watched);
    let (secret_b, public_b) = provider.generate_keypair(&mut watched);
    assert_eq!(watched.calls, 0);
    let ab = secret_a.agree(&public_b);
    let ba = secret_b.agree(&public_a);
    assert_eq!(compare_agreements(&ab, &ba), Ok(()));
}

#[test]
fn ring_backend_passes_every_time() {
    for _ in 0..8 {
        assert_eq!(run_tests(RingProvider::new()), Ok(()));
    }
}

#[test]
fn an_exchange_with_a_rejected_key_is_an_agreement_failure() {
    let mut provider = RingProvider::new();
    let mut rng = CountingSource::new(0);
    let (secret_a, public_a) = provider.generate_keypair(&mut rng);
    let (secret_b, _) = provider.generate_keypair(&mut rng);
    let ab = secret_a.agree(&PublicKey([0; 64]));
    let ba = secret_b.agree(&public_a);
    assert!(ba.is_ok());
    assert_eq!(compare_agreements(&ab, &ba), Err(ConformanceFailure::AgreementFailed));
}

#[test]
fn an_exchange_with_a_stranger_gives_different_secrets() {
    let mut provider = RingProvider::new();
    let mut rng = CountingSource::new(0);
    let (secret_a, public_a) = provider.generate_keypair(&mut rng);
    let (secret_b, _) = provider.generate_keypair(&mut rng);
    let (_, public_c) = provider.generate_keypair(&mut rng);
    let ac = secret_a.agree(&public_c);
    let ba = secret_b.agree(&public_a);
    assert_eq!(compare_agreements(&ac, &ba), Err(ConformanceFailure::SecretsDiffer));
}
