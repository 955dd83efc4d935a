use sia_storage_flutter::error::Error;
use sia_storage_flutter::keys::{generate_recovery_phrase, validate_recovery_phrase, AppKey};

fn hex(b: &[u8]) -> String {
    b.iter().map(|x| format!("{:02x}", x)).collect()
}

fn unhex(s: &str) -> Vec<u8> {
    (0..s.len()).step_by(2).map(|i| u8::from_str_radix(&s[i..i + 2], 16).unwrap()).collect()
}

// RFC 8032, section 7.1, test 1.
const RFC_SEED: &str = "9d61b19deffd5a60ba844af492ec2cc44449c5697b326919703bac031cae7f60";
const RFC_PUBLIC: &str = "d75a980182b10ab7d54bfed3c964073a0ee172f3daa62325af021a68f707511a";
const RFC_SIGNATURE: &str = "e5564300c360ac729086e2cc806e828a84877f1eb8e5d974d873e065224901555fb8821590a33bacc61e39701cf9b46bd25bf5f0595bbe24655141438e7a100b";

#[test]
fn app_key_needs_exactly_32_bytes() {
    for len in [0usize, 31, 33, 64] {
        match AppKey::new(vec![7u8; len]) {
            Err(e) => {
                assert!(e == Error::InvalidAppKeyLength);
                assert_eq!(e.message(), "app keys must be 32 bytes");
            }
            Ok(_) => panic!("a key of {len} bytes was accepted"),
        }
    }
    assert!(AppKey::new(vec![7u8; 32]).is_ok());
}

#[test]
fn app_key_exports_what_was_imported() {
    let seed: Vec<u8> = (0u8..32).collect();
    let key = AppKey::new(seed.clone()).unwrap();
    assert_eq!(key.export(), seed);
    assert_eq!(key.seed().to_vec(), seed);
    let again = AppKey::from_seed(key.seed());
    assert_eq!(again.export(), seed);
}

#[test]
fn public_key_matches_rfc8032_vector() {
    let key = AppKey::new(unhex(RFC_SEED)).unwrap();
    assert_eq!(key.public_key(), format!("ed25519:{}", RFC_PUBLIC));
}

#[test]
fn signature_matches_rfc8032_vector() {
    let key = AppKey::new(unhex(RFC_SEED)).unwrap();
    let sig = key.sign(Vec::new());
    assert_eq!(hex(&sig), RFC_SIGNATURE);
}

#[test]
fn signature_made_by_key_verifies() {
    let key = AppKey::new(vec![42u8; 32]).unwrap();
    let msg = b"hello sia".to_vec();
    let sig = key.sign(msg.clone());
    assert_eq!(sig.len(), 64);
    assert_eq!(key.verify_signature(msg.clone(), sig.clone()).unwrap(), true);
    let mut other = msg.clone();
    other.push(1);
    assert_eq!(key.verify_signature(other, sig.clone()).unwrap(), false);
    let stranger = AppKey::new(vec![43u8; 32]).unwrap();
    assert_eq!(stranger.verify_signature(msg, sig).unwrap(), false);
}

#[test]
fn verify_refuses_signature_of_wrong_length() {
    let key = AppKey::new(vec![1u8; 32]).unwrap();
    match key.verify_signature(b"m".to_vec(), vec![0u8; 63]) {
        Err(Error::InvalidSignature(detail)) => {
            let e = Error::InvalidSignature(detail.clone());
            assert_eq!(e.message(), format!("invalid signature: {detail}"));
        }
        _ => panic!("a 63-byte signature was accepted"),
    }
}

#[test]
fn generated_phrase_has_twelve_words_and_validates() {
    let phrase = generate_recovery_phrase();
    assert_eq!(phrase.split_whitespace().count(), 12);
    assert!(validate_recovery_phrase(phrase).is_ok());
}

#[test]
fn known_phrase_validates_and_garbage_does_not() {
    let good = "bleak style know actor budget endorse dream ketchup material index actual wide";
    assert!(validate_recovery_phrase(good.to_string()).is_ok());
    let bad_checksum = "bleak style know actor budget endorse dream ketchup material index actual actual";
    assert!(matches!(
        validate_recovery_phrase(bad_checksum.to_string()),
        Err(Error::InvalidRecoveryPhrase(_))
    ));
    assert!(matches!(
        validate_recovery_phrase("not a phrase".to_string()),
        Err(Error::InvalidRecoveryPhrase(_))
    ));
}

#[test]
fn generated_phrase_is_lower_case_words_joined_by_single_spaces() {
    let phrase = generate_recovery_phrase();
    let words: Vec<&str> = phrase.split(' ').collect();
    assert_eq!(words.len(), 12);
    for w in words {
        assert!(!w.is_empty());
        assert!(w.chars().all(|c| c.is_ascii_lowercase()));
    }
}

#[test]
fn verify_refuses_a_short_signature_with_the_length_message() {
    let key = AppKey::new(vec![1u8; 32]).unwrap();
    let e = key.verify_signature(b"m".to_vec(), vec![0u8; 10]).err().unwrap();
    assert_eq!(e, Error::InvalidSignature("Invalid length".to_string()));
    assert_eq!(e.message(), "invalid signature: Invalid length");
}
