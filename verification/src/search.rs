//! The search engine: fans the candidate sequence out across rayon's
//! worker pool, checks each candidate through the verified pipeline,
//! and returns the first verified candidate, if any. The result's
//! content is fixed by which candidates match, never by worker count or
//! dispatch order.

use crate::blob::parse_encrypted;
use crate::blob::spec_parse_blob;
use crate::config::CrackError;
use crate::config::KDFConfig;
use crate::crypto::mac_verify;
use crate::crypto::password_hash;
use crate::crypto::spec_config_valid;
use crate::crypto::spec_tag_matches;
use crate::crypto::stretch_key;
use crate::crypto::ARGON2_MAX_MEMORY_MIB;
use crate::crypto::ARGON2_MAX_PARALLELISM;
use indicatif::ParallelProgressIterator;
use indicatif::ProgressStyle;
use rayon::iter::IntoParallelIterator;
use rayon::iter::ParallelIterator;
use vstd::prelude::*;
use vstd::string::StringSliceAdditionalSpecFns;
use vstd::utf8::encode_utf8;

verus! {

/// Whether this candidate PIN passes the whole pipeline for the given
/// blob: the configuration is one the KDF accepts, and the tag is the
/// one its derived and stretched key recomputes over the data.
pub open spec fn spec_pin_hits(
    cfg: KDFConfig,
    pin: Seq<char>,
    salt: Seq<u8>,
    data: Seq<u8>,
    tag: Seq<u8>,
) -> bool {
    spec_config_valid(cfg) && spec_tag_matches(cfg, encode_utf8(pin), salt, data, tag)
}

/// What any search outcome over a candidate sequence means: a returned
/// candidate is a member of the sequence whose recomputed tag matches,
/// and an empty outcome means no member's does.
pub open spec fn spec_search_post(
    r: Option<Seq<char>>,
    pins: Seq<Seq<char>>,
    cfg: KDFConfig,
    salt: Seq<u8>,
    data: Seq<u8>,
    tag: Seq<u8>,
) -> bool {
    match r {
        Option::Some(p) => (exists|i: int| 0 <= i < pins.len() && pins[i] == p)
            && spec_tag_matches(cfg, encode_utf8(p), salt, data, tag),
        Option::None => forall|i: int|
            0 <= i < pins.len() ==> !spec_tag_matches(cfg, encode_utf8(pins[i]), salt, data, tag),
    }
}

/// Checks one candidate: derive, stretch, verify. True exactly when the
/// configuration is valid and the candidate reproduces the expected tag.
pub fn verify_candidate(cfg: KDFConfig, pin: &str, salt: &[u8], data: &[u8], tag: &[u8]) -> (r:
    bool)
    ensures
        r == spec_pin_hits(cfg, pin@, salt@, data@, tag@),
{
    match password_hash(cfg, pin.as_bytes(), salt) {
        Result::Ok(key) => {
            let mac_key = stretch_key(key.as_slice());
            mac_verify(mac_key.as_slice(), data, tag)
        },
        Result::Err(_) => false,
    }
}

/// Relies on rayon's `find_any` over the vector's parallel iterator: it
/// returns some element for which the predicate came back true, or
/// nothing once every element was tried without one. The predicate is
/// the verified candidate check, so what it returns for each element is
/// fixed by that function's contract.
#[verifier::external_body]
fn par_find_pin(pins: Vec<String>, cfg: KDFConfig, salt: &[u8], data: &[u8], tag: &[u8]) -> (r:
    Option<String>)
    ensures
        (r matches Some(p) ==> (exists|i: int| 0 <= i < pins@.len() && pins@[i]@ == p@)
            && spec_pin_hits(cfg, p@, salt@, data@, tag@)),
        (r is None ==> forall|i: int|
            0 <= i < pins@.len() ==> !spec_pin_hits(cfg, pins@[i]@, salt@, data@, tag@)),
{
    pins.into_par_iter().find_any(|p: &String| verify_candidate(cfg, p.as_str(), salt, data, tag))
}

/// Same contract as `par_find_pin`; additionally relies on indicatif's
/// rayon adapter to tick a progress bar once per processed candidate,
/// which renders progress only and leaves the search outcome untouched.
#[verifier::external_body]
fn par_find_pin_progress(
    pins: Vec<String>,
    cfg: KDFConfig,
    salt: &[u8],
    data: &[u8],
    tag: &[u8],
    total: usize,
) -> (r: Option<String>)
    ensures
        (r matches Some(p) ==> (exists|i: int| 0 <= i < pins@.len() && pins@[i]@ == p@)
            && spec_pin_hits(cfg, p@, salt@, data@, tag@)),
        (r is None ==> forall|i: int|
            0 <= i < pins@.len() ==> !spec_pin_hits(cfg, pins@[i]@, salt@, data@, tag@)),
{
    pins.into_par_iter()
        .progress_count(total as u64)
        .with_message("Cracking...")
        .with_style(
            ProgressStyle::default_bar()
                .template("[{bar:.cyan/blue}] {pos:>7}/{len:7} - {msg} ({elapsed} + ETA {eta}, {per_sec})")
                .unwrap(),
        )
        .find_any(|p: &String| verify_candidate(cfg, p.as_str(), salt, data, tag))
}

/// Whether the configuration is one the KDF accepts, decided before any
/// candidate is tried.
fn config_check(cfg: KDFConfig) -> (b: bool)
    ensures
        b == spec_config_valid(cfg),
{
    match cfg {
        KDFConfig::Pbkdf2 { .. } => true,
        KDFConfig::Argon2 { memory, iterations, parallelism } => memory <= ARGON2_MAX_MEMORY_MIB
            && parallelism <= ARGON2_MAX_PARALLELISM && crate::crypto::argon2_params_ok(
            memory * 1024,
            iterations,
            parallelism,
        ),
    }
}

/// Runs the exhaustive search: parses the blob, rejects a configuration
/// the KDF refuses before any candidate is tried, then hands the
/// candidates to the worker pool. The outcome is some candidate from
/// the sequence whose tag matches, or nothing when no candidate's does;
/// the optional total only drives progress reporting.
pub fn brute_force_pin(
    encrypted: &str,
    email: &str,
    kdf_config: KDFConfig,
    pins: Vec<String>,
    progress_max: Option<usize>,
) -> (r: Result<Option<String>, CrackError>)
    ensures
        ({
            let parsed = spec_parse_blob(encrypted.spec_bytes());
            let salt = email.spec_bytes();
            match r {
                Result::Err(e) => match e {
                    CrackError::Format => parsed is None,
                    CrackError::Config => parsed is Some && !spec_config_valid(kdf_config),
                },
                Result::Ok(found) => parsed is Some && spec_config_valid(kdf_config) && match parsed {
                    Option::Some((data, tag)) => spec_search_post(
                        match found {
                            Option::Some(p) => Option::Some(p@),
                            Option::None => Option::None,
                        },
                        pins@.map_values(|p: String| p@),
                        kdf_config,
                        salt,
                        data,
                        tag,
                    ),
                    Option::None => false,
                },
            }
        }),
{
    let (data, tag) = match parse_encrypted(encrypted) {
        Result::Ok(dt) => dt,
        Result::Err(_) => {
            return Result::Err(CrackError::Format);
        },
    };
    if !config_check(kdf_config) {
        return Result::Err(CrackError::Config);
    }
    let salt = email.as_bytes();
    let found = match progress_max {
        Option::Some(total) => par_find_pin_progress(
            pins,
            kdf_config,
            salt,
            data.as_slice(),
            tag.as_slice(),
            total,
        ),
        Option::None => par_find_pin(pins, kdf_config, salt, data.as_slice(), tag.as_slice()),
    };
    proof {
        let mapped = pins@.map_values(|q: String| q@);
        if found is Some {
            let p = found.unwrap();
            let i = choose|i: int| 0 <= i < pins@.len() && pins@[i]@ == p@;
            assert(mapped[i] == p@);
        } else {
            assert forall|i: int| 0 <= i < mapped.len() implies !spec_tag_matches(
                kdf_config,
                encode_utf8(mapped[i]),
                email.spec_bytes(),
                data@,
                tag@,
            ) by {
                assert(mapped[i] == pins@[i]@);
                assert(!spec_pin_hits(kdf_config, pins@[i]@, email.spec_bytes(), data@, tag@));
            }
        }
    }
    Result::Ok(found)
}

/// A search over a sequence holding exactly one satisfying candidate
/// yields that candidate, whatever the worker count or dispatch order:
/// every outcome meeting the search contract equals it.
pub proof fn lemma_search_unique(
    r: Option<Seq<char>>,
    pins: Seq<Seq<char>>,
    cfg: KDFConfig,
    salt: Seq<u8>,
    data: Seq<u8>,
    tag: Seq<u8>,
    k: int,
)
    requires
        spec_search_post(r, pins, cfg, salt, data, tag),
        0 <= k < pins.len(),
        spec_tag_matches(cfg, encode_utf8(pins[k]), salt, data, tag),
        forall|j: int|
            0 <= j < pins.len() && spec_tag_matches(cfg, encode_utf8(pins[j]), salt, data, tag)
                ==> pins[j] == pins[k],
    ensures
        r == Option::Some(pins[k]),
{
    match r {
        Option::Some(p) => {
            let i = choose|i: int| 0 <= i < pins.len() && pins[i] == p;
            assert(pins[i] == pins[k]);
        },
        Option::None => {
            assert(!spec_tag_matches(cfg, encode_utf8(pins[k]), salt, data, tag));
        },
    }
}

/// A search over a sequence with no satisfying candidate yields
/// nothing: any returned candidate would itself have to satisfy the
/// check.
pub proof fn lemma_search_exhausted(
    r: Option<Seq<char>>,
    pins: Seq<Seq<char>>,
    cfg: KDFConfig,
    salt: Seq<u8>,
    data: Seq<u8>,
    tag: Seq<u8>,
)
    requires
        spec_search_post(r, pins, cfg, salt, data, tag),
        forall|j: int|
            0 <= j < pins.len() ==> !spec_tag_matches(cfg, encode_utf8(pins[j]), salt, data, tag),
    ensures
        r is None,
{
    match r {
        Option::Some(p) => {
            let i = choose|i: int| 0 <= i < pins.len() && pins[i] == p;
            assert(!spec_tag_matches(cfg, encode_utf8(pins[i]), salt, data, tag));
        },
        Option::None => {
        },
    }
}

} // verus!
