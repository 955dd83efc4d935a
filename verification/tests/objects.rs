use sia_storage_flutter::error::Error;
use sia_storage_flutter::keys::AppKey;
use sia_storage_flutter::object::{encoded_size, ObjectEvent, PinnedObject, SECTOR_SIZE};
use sia_storage_flutter::slabs::{PinnedSlabRaw, SectorRaw, SlabRaw, slabs_from_raw, slabs_to_raw};
use sia_storage_flutter::types::{PinnedSector, PinnedSlab, SealedObject, Slab, Timestamp};

fn sample_raw() -> SlabRaw {
    SlabRaw {
        encryption_key: [9u8; 32],
        min_shards: 10,
        sectors: vec![
            SectorRaw { root: [1u8; 32], host_key: [2u8; 32] },
            SectorRaw { root: [0xabu8; 32], host_key: [0xcdu8; 32] },
        ],
        offset: 13,
        length: 4096,
    }
}

#[test]
fn encoded_size_rounds_up_to_whole_slabs() {
    let s = SECTOR_SIZE;
    assert_eq!(encoded_size(0, 10, 20), 0);
    assert_eq!(encoded_size(1, 10, 20), 30 * s);
    assert_eq!(encoded_size(10 * s, 10, 20), 30 * s);
    assert_eq!(encoded_size(10 * s + 1, 10, 20), 60 * s);
    assert_eq!(encoded_size(3 * s, 1, 2), 9 * s);
}

#[test]
fn new_object_is_empty() {
    let obj = PinnedObject::new();
    assert_eq!(obj.size(), 0);
    assert_eq!(obj.encoded_size(), 0);
    assert!(obj.slabs().is_empty());
    assert!(obj.metadata().is_empty());
    let d = PinnedObject::default();
    assert!(d.slabs().is_empty());
}

#[test]
fn update_metadata_replaces_it_and_keeps_the_id() {
    let mut obj = PinnedObject::new();
    let id = obj.id();
    obj.update_metadata(b"{\"name\":\"a.txt\"}".to_vec());
    assert_eq!(obj.metadata(), b"{\"name\":\"a.txt\"}".to_vec());
    assert_eq!(obj.id(), id);
    obj.update_metadata(Vec::new());
    assert!(obj.metadata().is_empty());
}

#[test]
fn object_times_are_recent() {
    let obj = PinnedObject::new();
    assert!(obj.created_at().secs() > 1_600_000_000);
    assert!(obj.updated_at().secs() >= obj.created_at().secs());
}

#[test]
fn seal_then_open_gives_back_the_object() {
    let key = AppKey::new(vec![5u8; 32]).unwrap();
    let mut obj = PinnedObject::new();
    obj.update_metadata(b"metadata".to_vec());
    let sealed = obj.seal(&key);
    assert_eq!(sealed.id, obj.id());
    assert_eq!(sealed.data_signature.len(), 64);
    assert_eq!(sealed.metadata_signature.len(), 64);
    assert!(sealed.created_at == obj.created_at());
    let opened = PinnedObject::open(&key, sealed).unwrap();
    assert_eq!(opened.metadata(), b"metadata".to_vec());
    assert_eq!(opened.id(), obj.id());
    assert!(opened.created_at() == obj.created_at());
}

#[test]
fn seal_then_open_without_metadata() {
    let key = AppKey::new(vec![6u8; 32]).unwrap();
    let obj = PinnedObject::new();
    let sealed = obj.seal(&key);
    assert!(sealed.encrypted_metadata.is_empty());
    let opened = PinnedObject::open(&key, sealed).unwrap();
    assert!(opened.metadata().is_empty());
}

#[test]
fn open_with_another_key_fails() {
    let key = AppKey::new(vec![5u8; 32]).unwrap();
    let other = AppKey::new(vec![8u8; 32]).unwrap();
    let sealed = PinnedObject::new().seal(&key);
    assert!(matches!(PinnedObject::open(&other, sealed), Err(Error::OpenFailed(_))));
}

fn sealed_sample(key: &AppKey) -> SealedObject {
    let mut obj = PinnedObject::new();
    obj.update_metadata(vec![1, 2, 3]);
    obj.seal(key)
}

#[test]
fn open_checks_the_id_against_the_slabs() {
    let key = AppKey::new(vec![5u8; 32]).unwrap();
    let mut sealed = sealed_sample(&key);
    sealed.id = "00".repeat(32);
    let e = PinnedObject::open(&key, sealed).err().unwrap();
    assert_eq!(e, Error::SealedContentsMismatch);
    assert_eq!(e.message(), "sealed object contents mismatch");
}

#[test]
fn open_checks_signature_lengths_in_order() {
    let key = AppKey::new(vec![5u8; 32]).unwrap();
    let mut sealed = sealed_sample(&key);
    sealed.data_signature.pop();
    sealed.metadata_signature.pop();
    assert!(matches!(PinnedObject::open(&key, sealed), Err(Error::InvalidDataSignature(_))));
    let mut sealed = sealed_sample(&key);
    sealed.metadata_signature.push(0);
    match PinnedObject::open(&key, sealed) {
        Err(Error::InvalidMetadataSignature(d)) => {
            assert!(Error::InvalidMetadataSignature(d).message().starts_with("invalid metadata signature: "))
        }
        _ => panic!("a 65-byte metadata signature was accepted"),
    }
}

#[test]
fn open_parses_slabs_first() {
    let key = AppKey::new(vec![5u8; 32]).unwrap();
    let mut sealed = sealed_sample(&key);
    sealed.data_signature.clear();
    sealed.slabs.push(Slab { encryption_key: vec![0u8; 31], min_shards: 1, sectors: vec![], offset: 0, length: 0 });
    assert!(matches!(PinnedObject::open(&key, sealed), Err(Error::InvalidEncryptionKey(_))));
}

#[test]
fn open_refuses_tampered_encrypted_data() {
    let key = AppKey::new(vec![5u8; 32]).unwrap();
    let mut sealed = sealed_sample(&key);
    sealed.encrypted_data_key[0] ^= 1;
    assert!(matches!(PinnedObject::open(&key, sealed), Err(Error::OpenFailed(_))));
}

#[test]
fn slab_text_form() {
    let slab = Slab::from_raw(&sample_raw());
    assert_eq!(slab.encryption_key, vec![9u8; 32]);
    assert_eq!(slab.min_shards, 10);
    assert_eq!(slab.offset, 13);
    assert_eq!(slab.length, 4096);
    assert_eq!(slab.sectors.len(), 2);
    assert_eq!(slab.sectors[0].root, "01".repeat(32));
    assert_eq!(slab.sectors[0].host_key, format!("ed25519:{}", "02".repeat(32)));
    assert_eq!(slab.sectors[1].root, "ab".repeat(32));
    assert_eq!(slab.sectors[1].host_key, format!("ed25519:{}", "cd".repeat(32)));
}

#[test]
fn slab_text_form_parses_back() {
    let raw = sample_raw();
    let back = Slab::from_raw(&raw).to_raw().unwrap();
    assert_eq!(back.encryption_key, raw.encryption_key);
    assert_eq!(back.min_shards, raw.min_shards);
    assert_eq!(back.offset, raw.offset);
    assert_eq!(back.length, raw.length);
    assert_eq!(back.sectors.len(), 2);
    assert_eq!(back.sectors[1].root, [0xabu8; 32]);
    assert_eq!(back.sectors[1].host_key, [0xcdu8; 32]);
    let list = slabs_to_raw(&slabs_from_raw(&vec![sample_raw(), sample_raw()])).unwrap();
    assert_eq!(list.len(), 2);
}

#[test]
fn slab_parsing_accepts_upper_case_hex() {
    let mut slab = Slab::from_raw(&sample_raw());
    slab.sectors[1].root = "AB".repeat(32);
    slab.sectors[1].host_key = format!("ed25519:{}", "CD".repeat(32));
    let back = slab.to_raw().unwrap();
    assert_eq!(back.sectors[1].root, [0xabu8; 32]);
    assert_eq!(back.sectors[1].host_key, [0xcdu8; 32]);
}

#[test]
fn slab_parsing_reports_each_kind_of_error() {
    let mut slab = Slab::from_raw(&sample_raw());
    slab.encryption_key.push(0);
    assert!(matches!(slab.to_raw(), Err(Error::InvalidEncryptionKey(_))));
    let mut slab = Slab::from_raw(&sample_raw());
    slab.sectors[0].host_key = "02".repeat(32);
    assert!(matches!(slab.to_raw(), Err(Error::InvalidIdentifier(_))));
    let mut slab = Slab::from_raw(&sample_raw());
    slab.sectors[1].root = "zz".repeat(32);
    assert!(matches!(slab.to_raw(), Err(Error::InvalidIdentifier(_))));
    let bad = vec![Slab::from_raw(&sample_raw()), Slab { encryption_key: vec![], min_shards: 0, sectors: vec![PinnedSector { root: String::new(), host_key: String::new() }], offset: 0, length: 0 }];
    assert!(slabs_to_raw(&bad).is_err());
}

#[test]
fn pinned_slab_text_form() {
    let raw = PinnedSlabRaw {
        id: [0x10u8; 32],
        encryption_key: [3u8; 32],
        min_shards: 2,
        sectors: vec![SectorRaw { root: [4u8; 32], host_key: [5u8; 32] }],
    };
    let s: PinnedSlab = PinnedSlab::from_raw(&raw);
    assert_eq!(s.id, "10".repeat(32));
    assert_eq!(s.encryption_key, vec![3u8; 32]);
    assert_eq!(s.min_shards, 2);
    assert_eq!(s.sectors[0].root, "04".repeat(32));
    assert_eq!(s.sectors[0].host_key, format!("ed25519:{}", "05".repeat(32)));
}

#[test]
fn object_event_reports_its_parts() {
    let t = Timestamp::new(1_700_000_000, 0).unwrap();
    let e = ObjectEvent::from_parts([0xffu8; 32], true, t, None);
    assert_eq!(e.id(), "ff".repeat(32));
    assert!(e.deleted());
    assert!(e.updated_at() == t);
    assert!(e.object().is_none());
    let obj = PinnedObject::new();
    let e = ObjectEvent::from_parts([0u8; 32], false, t, Some(obj.snapshot()));
    let got = e.object().unwrap();
    assert_eq!(got.id(), obj.id());
    assert!(!e.deleted());
}

#[test]
fn seal_carries_both_times_and_open_gives_the_sealed_times() {
    let key = AppKey::new(vec![9u8; 32]).unwrap();
    let mut obj = PinnedObject::new();
    obj.update_metadata(b"times".to_vec());
    let mut sealed = obj.seal(&key);
    assert!(sealed.created_at == obj.created_at());
    assert!(sealed.updated_at == obj.updated_at());
    let created = Timestamp::new(1_700_000_000, 5).unwrap();
    let updated = Timestamp::new(1_700_000_100, 999_999_999).unwrap();
    sealed.created_at = created;
    sealed.updated_at = updated;
    let opened = PinnedObject::open(&key, sealed).unwrap();
    assert!(opened.created_at() == created);
    assert!(opened.updated_at() == updated);
    assert_eq!(opened.metadata(), b"times".to_vec());
}

#[test]
fn update_metadata_keeps_the_times() {
    let mut obj = PinnedObject::new();
    let created = obj.created_at();
    let updated = obj.updated_at();
    obj.update_metadata(vec![4, 5, 6]);
    assert!(obj.created_at() == created);
    assert!(obj.updated_at() == updated);
}

fn identifier_text(r: Result<SlabRaw, Error>) -> String {
    match r {
        Err(Error::InvalidIdentifier(d)) => d,
        _ => panic!("expected an identifier error"),
    }
}

#[test]
fn slab_errors_carry_the_parse_messages() {
    let mut slab = Slab::from_raw(&sample_raw());
    slab.encryption_key.truncate(3);
    assert_eq!(slab.to_raw().err().unwrap(), Error::InvalidEncryptionKey("invalid key length".to_string()));
    let mut slab = Slab::from_raw(&sample_raw());
    slab.sectors[0].host_key = "02".repeat(32);
    assert_eq!(identifier_text(slab.to_raw()), "Missing prefix");
    let mut slab = Slab::from_raw(&sample_raw());
    slab.sectors[0].host_key = format!("ed25519:{}", "0".repeat(63));
    assert_eq!(identifier_text(slab.to_raw()), "Hex error: Odd number of digits");
    let mut slab = Slab::from_raw(&sample_raw());
    slab.sectors[0].host_key = format!("ed25519:{}", "0".repeat(62));
    assert_eq!(identifier_text(slab.to_raw()), "Hex error: Invalid string length");
    let mut slab = Slab::from_raw(&sample_raw());
    slab.sectors[1].root = format!("{}x{}", "a".repeat(12), "b".repeat(51));
    assert_eq!(identifier_text(slab.to_raw()), "Hex error: Invalid character 'x' at position 12");
    let mut slab = Slab::from_raw(&sample_raw());
    slab.sectors[1].root = "ab".repeat(31);
    assert_eq!(identifier_text(slab.to_raw()), "Unexpected length");
}

#[test]
fn open_reports_signature_and_slab_messages() {
    let key = AppKey::new(vec![5u8; 32]).unwrap();
    let mut sealed = sealed_sample(&key);
    sealed.data_signature.pop();
    assert_eq!(
        PinnedObject::open(&key, sealed).err().unwrap(),
        Error::InvalidDataSignature("Invalid length".to_string())
    );
    let mut sealed = sealed_sample(&key);
    sealed.metadata_signature.push(0);
    let e = PinnedObject::open(&key, sealed).err().unwrap();
    assert_eq!(e.message(), "invalid metadata signature: Invalid length");
    let mut sealed = sealed_sample(&key);
    sealed.slabs.push(Slab {
        encryption_key: vec![1u8; 32],
        min_shards: 1,
        sectors: vec![PinnedSector { root: "00".repeat(32), host_key: "nope".to_string() }],
        offset: 0,
        length: 0,
    });
    assert_eq!(PinnedObject::open(&key, sealed).err().unwrap().message(), "Missing prefix");
}
