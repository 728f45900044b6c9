//! The encrypted-blob wire format: `"<version>.<iv>|<ciphertext>|<tag>"`
//! with base64 segments. Parsing drops the version prefix, cuts the body
//! at a second dot if one follows, splits the body on pipes, and decodes
//! the first three segments; the authenticated data is the concatenation
//! of iv and ciphertext, in that order.

use crate::config::CrackError;
use vstd::prelude::*;
use vstd::slice::slice_subrange;
use vstd::string::StringSliceAdditionalSpecFns;

verus! {

/// The `.` separator between the version prefix and the blob body.
pub const DOT: u8 = 46;

/// The `|` separator between the base64 segments of the body.
pub const PIPE: u8 = 124;

/// What base64 decoding (standard alphabet, padded) yields for this
/// input, if it is valid base64 at all.
pub uninterp spec fn spec_base64_decode(s: Seq<u8>) -> Option<Seq<u8>>;

/// The base64 encoding (standard alphabet, padded) of these bytes.
pub uninterp spec fn spec_base64_encode(b: Seq<u8>) -> Seq<u8>;

/// The blob body: everything after the first dot, cut at the next dot
/// if the string holds one. Absent a dot there is no body.
pub open spec fn spec_blob_body(s: Seq<u8>) -> Option<Seq<u8>> {
    match s.index_of_first(DOT) {
        Option::None => Option::None,
        Option::Some(d) => {
            let rest = s.subrange(d + 1, s.len() as int);
            match rest.index_of_first(DOT) {
                Option::Some(d2) => Option::Some(rest.subrange(0, d2)),
                Option::None => Option::Some(rest),
            }
        },
    }
}

/// The three base64 segments of the body: iv, ciphertext and tag text,
/// the body's first three pipe-separated fields. Fewer than three
/// fields means the blob is malformed; fields past the third are
/// ignored.
pub open spec fn spec_blob_fields(s: Seq<u8>) -> Option<(Seq<u8>, Seq<u8>, Seq<u8>)> {
    match spec_blob_body(s) {
        Option::None => Option::None,
        Option::Some(body) => match body.index_of_first(PIPE) {
            Option::None => Option::None,
            Option::Some(p1) => {
                let seg1 = body.subrange(0, p1);
                let rest = body.subrange(p1 + 1, body.len() as int);
                match rest.index_of_first(PIPE) {
                    Option::None => Option::None,
                    Option::Some(p2) => {
                        let seg2 = rest.subrange(0, p2);
                        let rest2 = rest.subrange(p2 + 1, rest.len() as int);
                        let seg3 = match rest2.index_of_first(PIPE) {
                            Option::Some(p3) => rest2.subrange(0, p3),
                            Option::None => rest2,
                        };
                        Option::Some((seg1, seg2, seg3))
                    },
                }
            },
        },
    }
}

/// What parsing a blob yields: the authenticated data (iv followed by
/// ciphertext) and the expected tag, provided the separator structure
/// is present and every segment decodes as base64.
pub open spec fn spec_parse_blob(s: Seq<u8>) -> Option<(Seq<u8>, Seq<u8>)> {
    match spec_blob_fields(s) {
        Option::None => Option::None,
        Option::Some((f1, f2, f3)) => match (spec_base64_decode(f1), spec_base64_decode(
            f2,
        ), spec_base64_decode(f3)) {
            (Option::Some(iv), Option::Some(ct), Option::Some(tag)) => Option::Some(
                (iv + ct, tag),
            ),
            _ => Option::None,
        },
    }
}

/// Relies on base64's standard-alphabet engine with padding: decoding
/// succeeds or fails on the input alone, and its bytes are fixed by it.
#[verifier::external_body]
fn base64_decode(s: &[u8]) -> (r: Option<Vec<u8>>)
    ensures
        r is Some <==> spec_base64_decode(s@) is Some,
        (r matches Some(v) ==> spec_base64_decode(s@) == Option::Some(v@)),
{
    base64::Engine::decode(&base64::prelude::BASE64_STANDARD, s).ok()
}

/// Relies on base64's standard-alphabet engine with padding: the
/// encoding is fixed by the input bytes, decodes back to them, and uses
/// only the base64 alphabet and `=` padding, so it never holds a dot or
/// a pipe.
#[verifier::external_body]
fn base64_encode(b: &[u8]) -> (r: Vec<u8>)
    ensures
        r@ == spec_base64_encode(b@),
        spec_base64_decode(r@) == Option::Some(b@),
        forall|i: int| 0 <= i < r@.len() ==> r@[i] != DOT && r@[i] != PIPE,
{
    base64::Engine::encode(&base64::prelude::BASE64_STANDARD, b).into_bytes()
}

/// The first index holding `c`, with nothing found meaning no index
/// holds it.
fn find_byte(s: &[u8], c: u8) -> (r: Option<usize>)
    ensures
        match r {
            Option::Some(i) => i < s@.len() && s@.index_of_first(c) == Option::Some(i as int),
            Option::None => s@.index_of_first(c) is None,
        },
{
    let mut i: usize = 0;
    while i < s.len()
        invariant
            0 <= i <= s@.len(),
            forall|j: int| 0 <= j < i ==> s@[j] != c,
        decreases s@.len() - i,
    {
        if s[i] == c {
            proof {
                lemma_index_of_first_at(s@, c, i as int);
            }
            return Option::Some(i);
        }
        i = i + 1;
    }
    proof {
        s@.index_of_first_ensures(c);
    }
    Option::None
}

/// The first occurrence of a byte is at `i` when `i` holds it and no
/// earlier index does.
proof fn lemma_index_of_first_at(s: Seq<u8>, c: u8, i: int)
    requires
        0 <= i < s.len(),
        s[i] == c,
        forall|j: int| 0 <= j < i ==> s[j] != c,
    ensures
        s.index_of_first(c) == Option::Some(i),
{
    assert(s.contains(c)) by {
        assert(s[i] == c);
    }
    s.index_of_first_ensures(c);
}

/// No index of `s` holds `c`, so a first occurrence does not exist.
proof fn lemma_no_byte(s: Seq<u8>, c: u8)
    requires
        forall|i: int| 0 <= i < s.len() ==> s[i] != c,
    ensures
        s.index_of_first(c) is None,
{
    s.index_of_first_ensures(c);
}

/// In `seg + [sep] + tail`, with `sep` absent from `seg`, the first
/// `sep` stands right after `seg`, and cutting there recovers `seg` and
/// `tail` exactly.
proof fn lemma_split_at_sep(seg: Seq<u8>, tail: Seq<u8>, sep: u8)
    requires
        forall|i: int| 0 <= i < seg.len() ==> seg[i] != sep,
    ensures
        ({
            let s = seg + seq![sep] + tail;
            s.index_of_first(sep) == Option::Some(seg.len() as int) && s.subrange(
                0,
                seg.len() as int,
            ) == seg && s.subrange(seg.len() as int + 1, s.len() as int) == tail
        }),
{
    let s = seg + seq![sep] + tail;
    assert(s[seg.len() as int] == sep);
    assert forall|j: int| 0 <= j < seg.len() implies s[j] != sep by {
        assert(s[j] == seg[j]);
    }
    lemma_index_of_first_at(s, sep, seg.len() as int);
    assert(s.subrange(0, seg.len() as int) =~= seg);
    assert(s.subrange(seg.len() as int + 1, s.len() as int) =~= tail);
}

/// Builds the delimited blob for these byte sequences, under the `"2"`
/// version marker. Encoding then parsing reproduces the input bytes
/// exactly: the parsed blob is the concatenated iv and ciphertext
/// beside the tag.
pub fn encode_blob(iv: &[u8], ciphertext: &[u8], tag: &[u8]) -> (r: Vec<u8>)
    ensures
        spec_parse_blob(r@) == Option::Some((iv@ + ciphertext@, tag@)),
{
    let mut out: Vec<u8> = Vec::new();
    out.push(50);  // the version marker "2"
    out.push(DOT);
    let mut e_iv = base64_encode(iv);
    let mut e_ct = base64_encode(ciphertext);
    let mut e_tag = base64_encode(tag);
    let ghost s1 = e_iv@;
    let ghost s2 = e_ct@;
    let ghost s3 = e_tag@;
    out.append(&mut e_iv);
    out.push(PIPE);
    out.append(&mut e_ct);
    out.push(PIPE);
    out.append(&mut e_tag);
    proof {
        let s = out@;
        let t2 = s2 + seq![PIPE] + s3;
        let t = s1 + seq![PIPE] + t2;
        assert(s[1] == DOT);
        lemma_index_of_first_at(s, DOT, 1);
        let rest = s.subrange(2, s.len() as int);
        assert(rest =~= t);
        assert forall|j: int| 0 <= j < t.len() implies t[j] != DOT by {
            if j < s1.len() {
                assert(t[j] == s1[j]);
            } else if j == s1.len() {
                assert(t[j] == PIPE);
            } else {
                let k = j - s1.len() - 1;
                assert(t[j] == t2[k]);
                if k < s2.len() {
                    assert(t2[k] == s2[k]);
                } else if k == s2.len() {
                    assert(t2[k] == PIPE);
                } else {
                    assert(t2[k] == s3[k - s2.len() - 1]);
                }
            }
        }
        lemma_no_byte(t, DOT);
        assert(spec_blob_body(s) == Option::Some(t));
        lemma_split_at_sep(s1, t2, PIPE);
        lemma_split_at_sep(s2, s3, PIPE);
        lemma_no_byte(s3, PIPE);
        assert(spec_blob_fields(s) == Option::Some((s1, s2, s3)));
    }
    out
}

/// Parses the delimited encrypted string into the authenticated data
/// (iv followed by ciphertext) and the expected tag, failing exactly on
/// blobs whose separator structure or base64 segments are malformed.
pub fn parse_encrypted(encrypted: &str) -> (r: Result<(Vec<u8>, Vec<u8>), CrackError>)
    ensures
        ({
            let parsed = spec_parse_blob(encrypted.spec_bytes());
            match r {
                Result::Ok((data, tag)) => parsed == Option::Some((data@, tag@)),
                Result::Err(e) => parsed is None && e == CrackError::Format,
            }
        }),
{
    let s = encrypted.as_bytes();
    let n = s.len();
    let d1 = match find_byte(s, DOT) {
        Option::Some(i) => i,
        Option::None => {
            return Result::Err(CrackError::Format);
        },
    };
    let rest = slice_subrange(s, d1 + 1, n);
    let body = match find_byte(rest, DOT) {
        Option::Some(d2) => slice_subrange(rest, 0, d2),
        Option::None => rest,
    };
    let p1 = match find_byte(body, PIPE) {
        Option::Some(i) => i,
        Option::None => {
            return Result::Err(CrackError::Format);
        },
    };
    let seg1 = slice_subrange(body, 0, p1);
    let tail1 = slice_subrange(body, p1 + 1, body.len());
    let p2 = match find_byte(tail1, PIPE) {
        Option::Some(i) => i,
        Option::None => {
            return Result::Err(CrackError::Format);
        },
    };
    let seg2 = slice_subrange(tail1, 0, p2);
    let tail2 = slice_subrange(tail1, p2 + 1, tail1.len());
    let seg3 = match find_byte(tail2, PIPE) {
        Option::Some(p3) => slice_subrange(tail2, 0, p3),
        Option::None => tail2,
    };
    let iv = match base64_decode(seg1) {
        Option::Some(v) => v,
        Option::None => {
            return Result::Err(CrackError::Format);
        },
    };
    let mut ct = match base64_decode(seg2) {
        Option::Some(v) => v,
        Option::None => {
            return Result::Err(CrackError::Format);
        },
    };
    let tag = match base64_decode(seg3) {
        Option::Some(v) => v,
        Option::None => {
            return Result::Err(CrackError::Format);
        },
    };
    let mut data = iv;
    data.append(&mut ct);
    Result::Ok((data, tag))
}

} // verus!
