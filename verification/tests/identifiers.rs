use sia_storage_flutter::error::Error;
use sia_storage_flutter::object::PinnedObject;
use sia_storage_flutter::sdk::{events_limit, host_key_text, parse_id};
use sia_storage_flutter::types::{ObjectsCursor, Timestamp};

const ZERO_HEX: &str = "0000000000000000000000000000000000000000000000000000000000000000";

fn counting_bytes() -> [u8; 32] {
    let mut b = [0u8; 32];
    for (i, x) in b.iter_mut().enumerate() {
        *x = (i as u8) * 8 + 1;
    }
    b
}

#[test]
fn parse_id_accepts_hex_of_either_case() {
    let lower = "0109111921293139414951596169717981899199a1a9b1b9c1c9d1d9e1e9f1f9";
    let upper = "0109111921293139414951596169717981899199A1A9B1B9C1C9D1D9E1E9F1F9";
    assert_eq!(parse_id(lower).unwrap(), counting_bytes());
    assert_eq!(parse_id(upper).unwrap(), counting_bytes());
    assert_eq!(parse_id(ZERO_HEX).unwrap(), [0u8; 32]);
}

#[test]
fn parse_id_skips_a_prefix_up_to_the_first_colon() {
    let text = format!("h:{}", ZERO_HEX);
    assert_eq!(parse_id(&text).unwrap(), [0u8; 32]);
    let two = format!("a:b:{}", ZERO_HEX);
    assert!(matches!(parse_id(&two), Err(Error::InvalidIdentifier(_))));
}

#[test]
fn parse_id_rejects_wrong_length_and_non_hex() {
    assert!(matches!(parse_id(&ZERO_HEX[..63]), Err(Error::InvalidIdentifier(_))));
    assert!(matches!(parse_id(&format!("{}0", ZERO_HEX)), Err(Error::InvalidIdentifier(_))));
    let bad = format!("g{}", &ZERO_HEX[1..]);
    assert!(matches!(parse_id(&bad), Err(Error::InvalidIdentifier(_))));
    assert!(matches!(parse_id(""), Err(Error::InvalidIdentifier(_))));
}

#[test]
fn object_id_is_lower_hex_that_parses_back() {
    let obj = PinnedObject::new();
    let id = obj.id();
    assert_eq!(id.len(), 64);
    assert!(id.chars().all(|c| c.is_ascii_digit() || ('a'..='f').contains(&c)));
    let bytes = parse_id(&id).unwrap();
    let hex: String = bytes.iter().map(|b| format!("{:02x}", b)).collect();
    assert_eq!(hex, id);
}

#[test]
fn cursor_round_trips_through_bytes() {
    let t = Timestamp::new(1_700_000_000, 5).unwrap();
    let cursor = ObjectsCursor::from_raw(counting_bytes(), t);
    assert_eq!(cursor.id, "0109111921293139414951596169717981899199a1a9b1b9c1c9d1d9e1e9f1f9");
    let (id, after) = cursor.to_raw().unwrap();
    assert_eq!(id, counting_bytes());
    assert!(after == t);
    let bad = ObjectsCursor { id: "xyz".to_string(), after: t };
    assert!(matches!(bad.to_raw(), Err(Error::InvalidIdentifier(_))));
}

#[test]
fn events_limit_keeps_the_number() {
    assert_eq!(events_limit(0), 0usize);
    assert_eq!(events_limit(500), 500usize);
    assert_eq!(events_limit(u32::MAX), u32::MAX as usize);
}

#[test]
fn timestamps_are_what_chrono_can_represent() {
    let t = Timestamp::new(1_431_648_000, 0).unwrap();
    assert_eq!(t.secs(), 1_431_648_000);
    assert_eq!(t.nanos(), 0);
    assert_eq!(t.parts(), (1_431_648_000, 0));
    assert!(Timestamp::new(i64::MAX, 0).is_none());
    assert!(Timestamp::new(0, 2_000_000_000).is_none());
    assert!(Timestamp::new(59, 1_500_000_000).is_some());
}

#[test]
fn host_key_text_is_prefixed_lower_hex() {
    let text = host_key_text([0xabu8; 32]);
    assert_eq!(text, format!("ed25519:{}", "ab".repeat(32)));
    let text = host_key_text(counting_bytes());
    assert!(text.starts_with("ed25519:010911"));
    assert_eq!(text.len(), 8 + 64);
}

#[test]
fn parse_errors_carry_sia_core_messages() {
    assert_eq!(parse_id("abc"), Err(Error::InvalidIdentifier("Unexpected length".to_string())));
    let bad = format!("obj:{}g{}", "0".repeat(5), "0".repeat(58));
    assert_eq!(
        parse_id(&bad),
        Err(Error::InvalidIdentifier("Hex error: Invalid character 'g' at position 5".to_string()))
    );
    let cursor = ObjectsCursor { id: "12".to_string(), after: Timestamp::new(0, 0).unwrap() };
    assert_eq!(cursor.to_raw().err().unwrap().message(), "Unexpected length");
}

#[test]
fn timestamp_range_ends_where_chrono_dates_end() {
    assert!(Timestamp::new(8_210_266_876_799, 0).is_some());
    assert!(Timestamp::new(8_210_266_876_800, 0).is_none());
    assert!(Timestamp::new(-8_334_601_228_800, 0).is_some());
    assert!(Timestamp::new(-8_334_601_228_801, 0).is_none());
    assert!(Timestamp::new(58, 1_000_000_000).is_none());
    assert!(Timestamp::new(119, 1_999_999_999).is_some());
}
