use bitwarden_pin::encode_blob;
use bitwarden_pin::parse_encrypted;
use bitwarden_pin::CrackError;

#[test]
fn parse_known_base64_segments() {
    // "AAAA" -> [0,0,0], "AQID" -> [1,2,3], "BBBB" -> [4,16,65]
    let parsed = parse_encrypted("2.AAAA|AQID|BBBB").unwrap();
    assert_eq!(parsed.0, vec![0u8, 0, 0, 1, 2, 3]);
    assert_eq!(parsed.1, vec![4u8, 16, 65]);
}

#[test]
fn parse_real_blob_shapes() {
    let encrypted = "2.P6TpPPpMf5zkHUfTplnocw==|KZ7/pR8ft+LwcjfXs2ym9hmxE7DLIeA9Kl+IPwTVCwLmbpkFtYKPWvK53DEDDrVUeYvz/rPcl3MEH3wXl200HCsV5ZbGLGVU4bha5Aw20fk=|+Y46Za3Oo63XRbvqLFz5cVuvbqMvBqopD16+8HV83mk=";
    let (data, tag) = parse_encrypted(encrypted).unwrap();
    // 16 iv bytes followed by the ciphertext
    assert_eq!(data.len(), 16 + 80);
    assert_eq!(tag.len(), 32);
}

#[test]
fn parse_reads_any_version_prefix() {
    // the version is read but not validated, and may even be empty
    let parsed = parse_encrypted(".AAAA|AQID|BBBB").unwrap();
    assert_eq!(parsed.0, vec![0u8, 0, 0, 1, 2, 3]);
    let parsed = parse_encrypted("some-future-version.AAAA|AQID|BBBB").unwrap();
    assert_eq!(parsed.1, vec![4u8, 16, 65]);
}

#[test]
fn parse_rejects_missing_dot() {
    assert_eq!(parse_encrypted("AAAA|AQID|BBBB"), Err(CrackError::Format));
}

#[test]
fn parse_rejects_missing_pipes() {
    assert_eq!(parse_encrypted("2.AAAA"), Err(CrackError::Format));
    assert_eq!(parse_encrypted("2.AAAA|AQID"), Err(CrackError::Format));
}

#[test]
fn parse_rejects_invalid_base64() {
    assert_eq!(parse_encrypted("2.AAAA|!!!!|BBBB"), Err(CrackError::Format));
    assert_eq!(parse_encrypted("2.A|AQID|BBBB"), Err(CrackError::Format));
}

#[test]
fn parse_cuts_body_at_second_dot() {
    // the body ends at the second dot, so only one pipe segment remains
    assert_eq!(parse_encrypted("2.AAAA.AQID|BBBB|AAAA"), Err(CrackError::Format));
}

#[test]
fn parse_ignores_fields_past_the_third() {
    let parsed = parse_encrypted("2.AAAA|AQID|BBBB|ZZZZ").unwrap();
    assert_eq!(parsed.0, vec![0u8, 0, 0, 1, 2, 3]);
    assert_eq!(parsed.1, vec![4u8, 16, 65]);
}

#[test]
fn encode_produces_delimited_base64() {
    let out = encode_blob(&[0u8, 0, 0], &[1u8, 2, 3], &[4u8, 16, 65]);
    assert_eq!(out, b"2.AAAA|AQID|BBBB".to_vec());
}

#[test]
fn encode_then_parse_round_trips() {
    let iv: Vec<u8> = (0u8..16).collect();
    let ciphertext = vec![255u8, 0, 129, 7, 42];
    let tag: Vec<u8> = (100u8..132).collect();
    let blob = encode_blob(&iv, &ciphertext, &tag);
    let text = String::from_utf8(blob).unwrap();
    let (data, parsed_tag) = parse_encrypted(&text).unwrap();
    let mut expected = iv.clone();
    expected.extend_from_slice(&ciphertext);
    assert_eq!(data, expected);
    assert_eq!(parsed_tag, tag);
}
