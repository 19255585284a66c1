use cube_market_maker::signing::{
    generate_api_signature, signature_from_digest, signing_payload_bytes, SignError,
};

const SECRET: &str = "000102030405060708090a0b0c0d0e0f101112131415161718191a1b1c1d1e1f";

#[test]
fn payload_is_domain_tag_then_little_endian_timestamp() {
    let p = signing_payload_bytes(1_700_000_000);
    assert_eq!(
        p,
        vec![99, 117, 98, 101, 46, 120, 121, 122, 0, 241, 83, 101, 0, 0, 0, 0]
    );
}

#[test]
fn payload_of_largest_timestamp() {
    let p = signing_payload_bytes(u64::MAX);
    assert_eq!(&p[..8], b"cube.xyz");
    assert_eq!(&p[8..], &[0xff; 8]);
}

#[test]
fn signature_matches_known_vector() {
    let sig = generate_api_signature(SECRET, 1_700_000_000).unwrap();
    assert_eq!(sig, "p6MwUmKwO3L5B6zdRc5HMkvoyodVpRlftFPcnZBJhnA=");
}

#[test]
fn signature_accepts_upper_case_hex() {
    let upper = SECRET.to_uppercase();
    let sig = generate_api_signature(&upper, 1_700_000_000).unwrap();
    assert_eq!(sig, "p6MwUmKwO3L5B6zdRc5HMkvoyodVpRlftFPcnZBJhnA=");
}

#[test]
fn signature_is_deterministic() {
    let a = generate_api_signature(SECRET, 42).unwrap();
    let b = generate_api_signature(SECRET, 42).unwrap();
    assert_eq!(a, b);
}

#[test]
fn signature_depends_on_timestamp() {
    let a = generate_api_signature(SECRET, 1_700_000_001).unwrap();
    assert_eq!(a, "i6V5/9NhShZDHme2wOjkNPeViGwyBwfwHkYBgU02sPQ=");
    assert_ne!(a, generate_api_signature(SECRET, 1_700_000_000).unwrap());
}

#[test]
fn signature_rejects_non_hex_secret() {
    let bad = SECRET.replace('0', "g");
    assert_eq!(generate_api_signature(&bad, 1), Err(SignError::InvalidKeyEncoding));
}

#[test]
fn signature_rejects_odd_length_secret() {
    assert_eq!(generate_api_signature(&SECRET[1..], 1), Err(SignError::InvalidKeyEncoding));
}

#[test]
fn signature_rejects_short_key() {
    assert_eq!(generate_api_signature("00ff", 1), Err(SignError::InvalidKeyEncoding));
    assert_eq!(generate_api_signature("", 1), Err(SignError::InvalidKeyEncoding));
}

#[test]
fn signature_rejects_long_key() {
    let long = format!("{}00", SECRET);
    assert_eq!(generate_api_signature(&long, 1), Err(SignError::InvalidKeyEncoding));
}

#[test]
fn digest_is_standard_base64_with_padding() {
    let mut digest = vec![0u8; 32];
    digest[0] = 0xff;
    digest[2] = 0x10;
    digest[3] = 0x20;
    let s = signature_from_digest(&digest);
    assert_eq!(s.len(), 44);
    assert!(s.starts_with("/wAQIA"));
    assert!(s.ends_with('='));
}

#[test]
fn signature_has_padded_length() {
    let sig = generate_api_signature(SECRET, 7).unwrap();
    assert_eq!(sig.len(), 44);
    assert!(sig.ends_with('=') && !sig.ends_with("=="));
}
