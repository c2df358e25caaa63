use base64::Engine;
use tdn_collector::b64::{base64_decode, base64_encode, bytes_to_base64, reencode_to_url_safe};

#[test]
fn decode_standard_test_vector() {
    let r = base64_decode("dGVzdA==", false);
    assert_eq!(r, Some(b"test".to_vec()));
}

#[test]
fn reencode_url_safe_round_trip() {
    let (bytes, re) = reencode_to_url_safe("dGVzdA==").unwrap();
    assert_eq!(bytes, b"test".to_vec());
    let back = base64_decode(&re, true).unwrap();
    assert_eq!(back, b"test".to_vec());
}

#[test]
fn reencode_url_safe_alphabet_differs() {
    // 0xfb 0xff encodes with '+' and '/' in the standard alphabet.
    let std_s = base64::engine::general_purpose::STANDARD.encode([0xfbu8, 0xefu8, 0xbeu8]);
    assert!(std_s.contains('+') || std_s.contains('/'));
    let (bytes, re) = reencode_to_url_safe(&std_s).unwrap();
    assert_eq!(bytes, vec![0xfbu8, 0xefu8, 0xbeu8]);
    assert!(!re.contains('+') && !re.contains('/'));
    assert_eq!(base64_decode(&re, true).unwrap(), vec![0xfbu8, 0xefu8, 0xbeu8]);
}

#[test]
fn encode_matches_engine_standard() {
    let cases: Vec<Vec<u8>> = vec![
        vec![],
        vec![0],
        vec![255],
        vec![1, 2],
        vec![1, 2, 3],
        vec![1, 2, 3, 4],
        (0u8..=255u8).collect(),
        b"hello world".to_vec(),
    ];
    for c in cases {
        let ours = bytes_to_base64(&c);
        let theirs = base64::engine::general_purpose::STANDARD.encode(&c);
        assert_eq!(ours, theirs);
    }
}

#[test]
fn encode_matches_engine_url_safe() {
    let cases: Vec<Vec<u8>> = vec![vec![], vec![251, 239], (0u8..=255u8).collect()];
    for c in cases {
        let ours = base64_encode(&c, true);
        let theirs = base64::engine::general_purpose::URL_SAFE.encode(&c);
        assert_eq!(ours, theirs);
    }
}

#[test]
fn decode_matches_engine() {
    let inputs = [
        "",
        "dGVzdA==",
        "dGVzdGE=",
        "dGVzdGFi",
        "AA==",
        "AB==",
        "////",
        "----",
        "____",
        "++++",
        "dGVzdA",
        "dGVzdA=",
        "dGV=dA==",
        "!GVzdA==",
    ];
    for s in inputs {
        let ours = base64_decode(s, false);
        let theirs = base64::engine::general_purpose::STANDARD.decode(s).ok();
        assert_eq!(ours, theirs, "standard alphabet, input {:?}", s);
        let ours_u = base64_decode(s, true);
        let theirs_u = base64::engine::general_purpose::URL_SAFE.decode(s).ok();
        assert_eq!(ours_u, theirs_u, "url-safe alphabet, input {:?}", s);
    }
}

#[test]
fn decode_rejects_nonzero_trailing_bits() {
    // 'B' is value 1: its low bits spill past the one encoded byte.
    assert_eq!(base64_decode("AB==", false), None);
    assert_eq!(base64_decode("AAB=", false), None);
}

#[test]
fn encode_then_decode_is_identity() {
    for n in 0usize..20 {
        let bytes: Vec<u8> = (0..n as u8).map(|i| i.wrapping_mul(37)).collect();
        let enc = base64_encode(&bytes, false);
        assert_eq!(base64_decode(&enc, false), Some(bytes.clone()));
        let enc_u = base64_encode(&bytes, true);
        assert_eq!(base64_decode(&enc_u, true), Some(bytes));
    }
}
