//! Key-derivation configuration and the error taxonomy.

use vstd::prelude::*;

verus! {

/// Which key-derivation function protects the vault key, with its cost
/// parameters. The vault format fixes this closed set; the configuration
/// is chosen once and holds for a whole search run.
#[derive(Clone, Copy, Debug)]
pub enum KDFConfig {
    /// PBKDF2 with HMAC-SHA256 as the pseudorandom function.
    Pbkdf2 { iterations: u32 },
    /// Argon2id; `memory` is given in MiB and converted to KiB before use.
    Argon2 { memory: u32, iterations: u32, parallelism: u32 },
}

impl Default for KDFConfig {
    /// PBKDF2 with 600000 iterations.
    fn default() -> (r: Self)
        ensures
            r == (KDFConfig::Pbkdf2 { iterations: 600000u32 }),
    {
        KDFConfig::Pbkdf2 { iterations: 600000 }
    }
}

/// A fatal failure: either the encrypted blob is malformed, or the KDF
/// parameters are ones the KDF rejects. Both are surfaced before any
/// candidate is tried; no error exists for a single failed candidate.
#[derive(Clone, Copy, Debug, PartialEq, Eq, Structural)]
pub enum CrackError {
    /// Malformed blob: bad separator structure or invalid base64.
    Format,
    /// KDF parameter combination the KDF itself rejects.
    Config,
}

} // verus!
