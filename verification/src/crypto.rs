//! The credential-verification pipeline: key derivation (PBKDF2 or
//! Argon2id), key stretching (HKDF expand), and the authentication-tag
//! check (HMAC-SHA256). Every outside call stands behind a trusted
//! wrapper whose contract names its result; the pipeline itself is
//! verified against those names.

use crate::config::CrackError;
use crate::config::KDFConfig;
use sha2::Digest;
use vstd::prelude::*;

verus! {

/// The SHA-256 digest of `data`: 32 bytes fixed by the input alone.
pub uninterp spec fn spec_sha256(data: Seq<u8>) -> Seq<u8>;

/// The 32-byte PBKDF2-HMAC-SHA256 output for the given password, salt
/// and round count.
pub uninterp spec fn spec_pbkdf2_sha256(password: Seq<u8>, salt: Seq<u8>, rounds: u32) -> Seq<u8>;

/// The 32-byte Argon2id output (default algorithm version) for the given
/// password, salt and cost parameters.
pub uninterp spec fn spec_argon2id(
    password: Seq<u8>,
    salt: Seq<u8>,
    m_cost: u32,
    t_cost: u32,
    p_cost: u32,
) -> Seq<u8>;

/// Whether Argon2 accepts this cost-parameter combination for a 32-byte
/// output (memory cost in KiB).
pub uninterp spec fn spec_argon2_params_valid(m_cost: u32, t_cost: u32, p_cost: u32) -> bool;

/// The 32-byte HKDF-SHA256 expansion of `prk` under the fixed context
/// label `"mac"`, with no extract step.
pub uninterp spec fn spec_hkdf_expand_mac(prk: Seq<u8>) -> Seq<u8>;

/// The HMAC-SHA256 tag of `data` under `key`.
pub uninterp spec fn spec_hmac_sha256(key: Seq<u8>, data: Seq<u8>) -> Seq<u8>;

/// Argon2's degree-of-parallelism cap (2^24 - 1).
pub const ARGON2_MAX_PARALLELISM: u32 = 16777215;

/// The largest memory cost in MiB whose KiB value still fits in `u32`.
pub const ARGON2_MAX_MEMORY_MIB: u32 = 4194303;

/// Whether a configuration is one the KDF accepts for every candidate.
/// PBKDF2 accepts any iteration count; Argon2 bounds its parameters.
pub open spec fn spec_config_valid(cfg: KDFConfig) -> bool {
    match cfg {
        KDFConfig::Pbkdf2 { iterations } => true,
        KDFConfig::Argon2 { memory, iterations, parallelism } => memory <= ARGON2_MAX_MEMORY_MIB
            && parallelism <= ARGON2_MAX_PARALLELISM && spec_argon2_params_valid(
            (memory * 1024) as u32,
            iterations,
            parallelism,
        ),
    }
}

/// The 32-byte key a valid configuration derives from a password and an
/// account salt: PBKDF2 uses the salt directly; Argon2id first hashes
/// the arbitrary-length salt down to 32 bytes with SHA-256 and takes its
/// memory cost in KiB.
pub open spec fn spec_derived_key(cfg: KDFConfig, password: Seq<u8>, salt: Seq<u8>) -> Seq<u8> {
    match cfg {
        KDFConfig::Pbkdf2 { iterations } => spec_pbkdf2_sha256(password, salt, iterations),
        KDFConfig::Argon2 { memory, iterations, parallelism } => spec_argon2id(
            password,
            spec_sha256(salt),
            (memory * 1024) as u32,
            iterations,
            parallelism,
        ),
    }
}

/// Whether `tag` is the authentication tag that `data` yields under the
/// key derived from this password: derive, stretch, then HMAC.
pub open spec fn spec_tag_matches(
    cfg: KDFConfig,
    password: Seq<u8>,
    salt: Seq<u8>,
    data: Seq<u8>,
    tag: Seq<u8>,
) -> bool {
    tag == spec_hmac_sha256(spec_hkdf_expand_mac(spec_derived_key(cfg, password, salt)), data)
}

/// Relies on sha2's `Sha256`: a 32-byte digest fixed by the input alone.
#[verifier::external_body]
fn sha256_digest(data: &[u8]) -> (r: Vec<u8>)
    ensures
        r@ == spec_sha256(data@),
        r@.len() == 32,
{
    let mut hasher = sha2::Sha256::new();
    hasher.update(data);
    hasher.finalize().to_vec()
}

/// Relies on pbkdf2's `pbkdf2_hmac` with SHA-256: it fills the output
/// from password, salt and round count alone, and cannot fail because
/// HMAC accepts keys of any length.
#[verifier::external_body]
fn pbkdf2_derive(password: &[u8], salt: &[u8], rounds: u32) -> (r: Vec<u8>)
    ensures
        r@ == spec_pbkdf2_sha256(password@, salt@, rounds),
        r@.len() == 32,
{
    let mut key = [0u8; 32];
    pbkdf2::pbkdf2_hmac::<sha2::Sha256>(password, salt, rounds, &mut key);
    key.to_vec()
}

/// Relies on argon2's `Params::new`: it accepts exactly the cost
/// combinations Argon2 itself allows for a 32-byte output, deciding on
/// its arguments alone. The parallelism bound keeps its internal
/// `p_cost * 8` comparison inside `u32`.
#[verifier::external_body]
pub(crate) fn argon2_params_ok(m_cost: u32, t_cost: u32, p_cost: u32) -> (r: bool)
    requires
        p_cost <= ARGON2_MAX_PARALLELISM,
    ensures
        r == spec_argon2_params_valid(m_cost, t_cost, p_cost),
{
    argon2::Params::new(m_cost, t_cost, p_cost, Some(32)).is_ok()
}

/// Relies on argon2's `hash_password_into` with Argon2id and the default
/// version: deterministic in password, salt and costs. With parameters
/// `Params::new` accepts, a 32-byte salt and a 32-byte output buffer the
/// call cannot fail: beyond the cost checks it validates only the salt
/// and output lengths, both fixed here.
#[verifier::external_body]
fn argon2_derive(password: &[u8], salt: &[u8], m_cost: u32, t_cost: u32, p_cost: u32) -> (r: Vec<
    u8,
>)
    requires
        p_cost <= ARGON2_MAX_PARALLELISM,
        spec_argon2_params_valid(m_cost, t_cost, p_cost),
        salt@.len() == 32,
    ensures
        r@ == spec_argon2id(password@, salt@, m_cost, t_cost, p_cost),
        r@.len() == 32,
{
    let params = argon2::Params::new(m_cost, t_cost, p_cost, Some(32)).unwrap();
    let ctx = argon2::Argon2::new(argon2::Algorithm::default(), argon2::Version::default(), params);
    let mut key = [0u8; 32];
    ctx.hash_password_into(password, salt, &mut key).unwrap();
    key.to_vec()
}

/// Relies on hkdf's `Hkdf::<Sha256>::from_prk` and `expand` with the
/// fixed label `"mac"` and a 32-byte output: deterministic in the key
/// alone. `from_prk` wants a key no shorter than the 32-byte digest and
/// `expand` allows outputs up to 255 times that, so neither call fails.
#[verifier::external_body]
fn hkdf_expand_mac(prk: &[u8]) -> (r: Vec<u8>)
    requires
        prk@.len() == 32,
    ensures
        r@ == spec_hkdf_expand_mac(prk@),
        r@.len() == 32,
{
    let hk = hkdf::Hkdf::<sha2::Sha256>::from_prk(prk).unwrap();
    let mut key = [0u8; 32];
    hk.expand(b"mac", &mut key).unwrap();
    key.to_vec()
}

/// Expands a 32-byte derived key into the dedicated 32-byte
/// authentication key, an HKDF expand step with no preceding extract.
pub fn stretch_key(password_hash: &[u8]) -> (r: Vec<u8>)
    requires
        password_hash@.len() == 32,
    ensures
        r@ == spec_hkdf_expand_mac(password_hash@),
        r@.len() == 32,
{
    hkdf_expand_mac(password_hash)
}

/// Relies on hmac's `Hmac<Sha256>`: `verify_slice` succeeds exactly when
/// the tag equals HMAC-SHA256 of the data under the key, compared in
/// constant time, and HMAC accepts keys of any length.
#[verifier::external_body]
pub fn mac_verify(mac_key: &[u8], data: &[u8], mac: &[u8]) -> (r: bool)
    ensures
        r == (mac@ == spec_hmac_sha256(mac_key@, data@)),
{
    let mut m = <hmac::Hmac<sha2::Sha256> as hmac::Mac>::new_from_slice(mac_key).unwrap();
    hmac::Mac::update(&mut m, data);
    hmac::Mac::verify_slice(m, mac).is_ok()
}

/// Turns a configuration, a candidate password and an account salt into
/// the 32-byte derived key, or reports the configuration as one the KDF
/// rejects; it succeeds exactly on valid configurations.
pub fn password_hash(kdf_config: KDFConfig, password: &[u8], salt: &[u8]) -> (r: Result<
    Vec<u8>,
    CrackError,
>)
    ensures
        r is Ok <==> spec_config_valid(kdf_config),
        (r matches Ok(k) ==> k@ == spec_derived_key(kdf_config, password@, salt@) && k@.len()
            == 32),
        (r matches Err(e) ==> e == CrackError::Config),
{
    match kdf_config {
        KDFConfig::Pbkdf2 { iterations } => Ok(pbkdf2_derive(password, salt, iterations)),
        KDFConfig::Argon2 { memory, iterations, parallelism } => {
            if memory > ARGON2_MAX_MEMORY_MIB || parallelism > ARGON2_MAX_PARALLELISM {
                return Err(CrackError::Config);
            }
            let m_cost = memory * 1024;
            if !argon2_params_ok(m_cost, iterations, parallelism) {
                return Err(CrackError::Config);
            }
            let salt_hash = sha256_digest(salt);
            Ok(argon2_derive(password, salt_hash.as_slice(), m_cost, iterations, parallelism))
        },
    }
}

/// A tag produced with the very same configuration, password and salt
/// verifies: the pipeline recomputes exactly that tag from them. That a
/// different password in the space fails holds only with overwhelming
/// probability, so it is exercised by tests rather than stated here.
pub proof fn lemma_correct_password_verifies(
    cfg: KDFConfig,
    password: Seq<u8>,
    salt: Seq<u8>,
    data: Seq<u8>,
)
    ensures
        spec_tag_matches(
            cfg,
            password,
            salt,
            data,
            spec_hmac_sha256(spec_hkdf_expand_mac(spec_derived_key(cfg, password, salt)), data),
        ),
{
}

/// Flipping any single byte of a tag that key and data actually produce
/// yields a tag the verifier rejects: the altered value can no longer
/// equal the recomputed HMAC.
pub proof fn lemma_tag_byte_flip(key: Seq<u8>, data: Seq<u8>, tag: Seq<u8>, altered: Seq<u8>, i: int)
    requires
        tag == spec_hmac_sha256(key, data),
        altered.len() == tag.len(),
        0 <= i < tag.len(),
        altered[i] != tag[i],
    ensures
        altered != spec_hmac_sha256(key, data),
{
    assert(altered[i] != spec_hmac_sha256(key, data)[i]);
}

} // verus!
