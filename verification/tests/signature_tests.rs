use api_key_auth::signature::{build_message, sign, signature_is_valid, tag_matches};
use hmac::{Hmac, Mac};
use sha2::Sha256;

fn reference_signature(secret: &str, message: &str) -> String {
    let mut mac = Hmac::<Sha256>::new_from_slice(secret.as_bytes()).unwrap();
    mac.update(message.as_bytes());
    let tag = mac.finalize().into_bytes();
    tag.iter().map(|b| format!("{:02x}", b)).collect()
}

#[test]
fn message_joins_the_fields_with_bars() {
    assert_eq!(build_message("AK1", "1700000000", "abc123"), b"AK1|1700000000|abc123".to_vec());
    assert_eq!(build_message("", "", ""), b"||".to_vec());
    assert_eq!(
        build_message("\u{fc}ser", "1", "\u{4e2d}"),
        "\u{fc}ser|1|\u{4e2d}".as_bytes().to_vec()
    );
}

#[test]
fn sign_gives_the_hmac_sha256_of_the_message_in_hex() {
    assert_eq!(
        sign("S1", "AK1", "1700000000", "abc123"),
        "7e283dfa8cf6e127105035c2480adf030f5c1058010603dd7c2457100a1232c7"
    );
    assert_eq!(
        sign("Jefe", "what do ya want ", "for", " nothing?"),
        "caebd147bc46fab5bf2d5017d924a4ecc49dc1e27e5c58bab54de6a57b8e40d7"
    );
    assert_eq!(
        sign("", "", "", ""),
        "4dab6b44fb16061b681e85920573f7ec49b9ded5d70385648eaf60005ea99cdc"
    );
    assert_eq!(
        sign("k\u{e9}y", "\u{fc}ser", "1", "\u{4e2d}"),
        "9faf5688b6024b1ebd5cdfc9e085da13736dca4ce7b2098a56c6cf96f6989232"
    );
}

#[test]
fn sign_agrees_with_the_mac_computed_directly() {
    let cases = [
        ("S1", "AK1", "1700000000", "abc123"),
        ("test-secret-key", "test-access-key", "1", "n"),
        ("a-secret-that-is-longer-than-one-block-of-the-hash-function-which-has-sixty-four-bytes", "id", "2", "x"),
    ];
    for (secret, identifier, timestamp, nonce) in cases {
        let message = format!("{}|{}|{}", identifier, timestamp, nonce);
        assert_eq!(sign(secret, identifier, timestamp, nonce), reference_signature(secret, &message));
    }
}

#[test]
fn signature_depends_on_every_part() {
    let base = sign("S1", "AK1", "1700000000", "abc123");
    assert_ne!(base, sign("S2", "AK1", "1700000000", "abc123"));
    assert_ne!(base, sign("S1", "AK2", "1700000000", "abc123"));
    assert_ne!(base, sign("S1", "AK1", "1700000001", "abc123"));
    assert_ne!(base, sign("S1", "AK1", "1700000000", "abc124"));
    assert_eq!(base.len(), 64);
}

#[test]
fn valid_signature_is_accepted_and_others_are_not() {
    let good = sign("S1", "AK1", "1700000000", "abc123");
    assert!(signature_is_valid("S1", "AK1", "1700000000", "abc123", &good));
    assert!(!signature_is_valid("S1", "AK1", "1700000000", "abc123", &good.to_uppercase()));
    assert!(!signature_is_valid("S1", "AK1", "1700000000", "abc123", ""));
    assert!(!signature_is_valid("S1", "AK1", "1700000000", "abc123", &good[..63]));
    assert!(!signature_is_valid("S1", "AK1", "1700000001", "abc123", &good));
    assert!(!signature_is_valid("S2", "AK1", "1700000000", "abc123", &good));
    let mut bent = good.clone().into_bytes();
    bent[10] = if bent[10] == b'0' { b'1' } else { b'0' };
    assert!(!signature_is_valid("S1", "AK1", "1700000000", "abc123", &String::from_utf8(bent).unwrap()));
}

#[test]
fn tag_matches_its_own_hex_text_only() {
    assert!(tag_matches(&[0xde, 0xad, 0xbe, 0xef], "deadbeef"));
    assert!(!tag_matches(&[0xde, 0xad, 0xbe, 0xef], "DEADBEEF"));
    assert!(!tag_matches(&[0xde, 0xad, 0xbe, 0xef], "deadbee"));
    assert!(!tag_matches(&[0xde, 0xad, 0xbe, 0xef], "deadbeef0"));
    assert!(!tag_matches(&[0xde, 0xad, 0xbe, 0xef], "deadbeee"));
    assert!(tag_matches(&[], ""));
}
