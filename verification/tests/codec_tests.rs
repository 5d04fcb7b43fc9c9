use risk_oracle::bias::{bias_label, RiskBias};
use risk_oracle::codec::{bytes_eq, commitment_digest, encode_commitment, score_digits};

fn from_hex(s: &str) -> Vec<u8> {
    let bytes = s.as_bytes();
    let mut out = Vec::new();
    let mut i = 0;
    while i + 1 < bytes.len() {
        let hi = (bytes[i] as char).to_digit(16).unwrap() as u8;
        let lo = (bytes[i + 1] as char).to_digit(16).unwrap() as u8;
        out.push(hi * 16 + lo);
        i += 2;
    }
    out
}

#[test]
fn score_digits_exact_values() {
    assert_eq!(score_digits(0), b"0".to_vec());
    assert_eq!(score_digits(7), b"7".to_vec());
    assert_eq!(score_digits(10), b"10".to_vec());
    assert_eq!(score_digits(42), b"42".to_vec());
    assert_eq!(score_digits(100), b"100".to_vec());
    assert_eq!(score_digits(255), b"255".to_vec());
}

#[test]
fn bias_label_exact_values() {
    assert_eq!(bias_label(RiskBias::RiskOn), b"RiskOn".to_vec());
    assert_eq!(bias_label(RiskBias::Neutral), b"Neutral".to_vec());
    assert_eq!(bias_label(RiskBias::RiskOff), b"RiskOff".to_vec());
}

#[test]
fn encode_commitment_is_score_then_label_then_salt() {
    assert_eq!(
        encode_commitment(60, RiskBias::RiskOn, b"salt1"),
        b"60RiskOnsalt1".to_vec()
    );
    assert_eq!(
        encode_commitment(10, RiskBias::RiskOff, b"salt2"),
        b"10RiskOffsalt2".to_vec()
    );
    assert_eq!(encode_commitment(42, RiskBias::Neutral, b""), b"42Neutral".to_vec());
}

#[test]
fn encode_commitment_matches_debug_format() {
    let rendered = format!("{}{:?}{}", 60, RiskBias::RiskOn, "salt1");
    assert_eq!(
        encode_commitment(60, RiskBias::RiskOn, b"salt1"),
        rendered.into_bytes()
    );
}

#[test]
fn commitment_digest_known_sha256_values() {
    assert_eq!(
        commitment_digest(60, RiskBias::RiskOn, b"salt1"),
        from_hex("91d5d2daa596223cd2330c3fa260a14ac6621018e78552e85dd5d93abf255b5c")
    );
    assert_eq!(
        commitment_digest(10, RiskBias::RiskOff, b"salt2"),
        from_hex("b44fc40459b45e386cbc607afdc7ce5d9990ac9bc237d2b801e9f26a24242b01")
    );
    assert_eq!(
        commitment_digest(42, RiskBias::Neutral, b""),
        from_hex("0c82c3625b027e83e7cdc2fc2ac79542f3cddfff71b95dcae9c3e984cc8b12ca")
    );
}

#[test]
fn commitment_digest_is_deterministic_and_input_sensitive() {
    let a = commitment_digest(60, RiskBias::RiskOn, b"salt1");
    let b = commitment_digest(60, RiskBias::RiskOn, b"salt1");
    assert_eq!(a, b);
    assert_eq!(a.len(), 32);
    assert_ne!(a, commitment_digest(61, RiskBias::RiskOn, b"salt1"));
    assert_ne!(a, commitment_digest(60, RiskBias::Neutral, b"salt1"));
    assert_ne!(a, commitment_digest(60, RiskBias::RiskOn, b"salt2"));
}

#[test]
fn bytes_eq_compares_contents() {
    assert!(bytes_eq(b"", b""));
    assert!(bytes_eq(b"abc", b"abc"));
    assert!(!bytes_eq(b"abc", b"abd"));
    assert!(!bytes_eq(b"abc", b"ab"));
}
