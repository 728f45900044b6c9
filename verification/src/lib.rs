//! Recovery of a forgotten short numeric PIN that guards a vault's
//! encrypted key: a credential-verification pipeline (key derivation,
//! key stretching, authentication-tag check) driven by an exhaustive
//! parallel search over the PIN candidate space.

pub mod blob;
pub mod candidates;
pub mod config;
pub mod crypto;
pub mod search;

pub use blob::encode_blob;
pub use blob::parse_encrypted;
pub use candidates::padded_decimal;
pub use candidates::pin_candidates;
pub use config::CrackError;
pub use config::KDFConfig;
pub use crypto::mac_verify;
pub use crypto::password_hash;
pub use crypto::stretch_key;
pub use search::brute_force_pin;
pub use search::verify_candidate;
