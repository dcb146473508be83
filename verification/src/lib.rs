//! Typed certificate key material: DER encoding and decoding of asymmetric
//! key pairs, human-readable algorithm descriptors, and usage-bound detached
//! signatures (sign and verify) backed by OpenSSL.

pub mod algo;
pub mod backend;
pub mod error;
pub mod keys;
pub mod protocol;
pub mod text;
pub mod usage;

pub use algo::Digest;
pub use algo::KeyFamily;
pub use error::Error;
pub use keys::PrivateKey;
pub use keys::PublicKey;
pub use keys::Signature;
pub use protocol::Body;
pub use protocol::Signer;
pub use protocol::Verifiable;
pub use usage::Usage;
