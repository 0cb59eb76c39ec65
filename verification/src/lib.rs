//! Elliptic-curve Diffie-Hellman key agreement on P-256 behind a pluggable
//! interface.
//!
//! A pairing protocol needs two things of its cryptography: an ephemeral
//! keypair, and the secret it shares with a peer whose public key it has
//! received. [`EcdhProvider`] and [`SecretKey`] state these two capabilities
//! so that the backend can be exchanged; [`RingProvider`] is the backend that
//! delegates the curve arithmetic to *ring*. [`run_tests`] is the acceptance
//! routine that any backend has to pass.

pub mod backend;
pub mod capability;
pub mod conformance;
pub mod keys;

pub use backend::{RingProvider, RingSecretKey};
pub use capability::{EcdhProvider, RandomSource, SecretKey};
pub use conformance::{compare_agreements, run_tests, ConformanceFailure, CountingSource};
pub use keys::{InvalidPublicKey, PublicKey, SharedSecret};
