use sia_storage_flutter::builder::{Builder, Phase};
use sia_storage_flutter::error::Error;
use sia_storage_flutter::options::{DownloadOptions, UploadOptions};
use sia_storage_flutter::sdk::AccountRaw;
use sia_storage_flutter::stream::{chunk_from_pull, chunk_from_read, download_buffer, DOWNLOAD_BUFFER_SIZE};
use sia_storage_flutter::types::{Account, AppMetadata, Timestamp};
use sia_storage_flutter::upload::PackedUpload;

type TestBuilder = Builder<&'static str, String, u32>;

#[test]
fn upload_options_default_to_the_sdk() {
    let s = UploadOptions::new(None, None, None).build();
    assert_eq!((s.data_shards, s.parity_shards, s.max_buffered_slabs), (10, 20, None));
    let s = UploadOptions::new(Some(3), None, Some(7)).build();
    assert_eq!((s.data_shards, s.parity_shards, s.max_buffered_slabs), (3, 20, Some(7)));
    let s = UploadOptions::new(None, Some(9), None).build();
    assert_eq!((s.data_shards, s.parity_shards, s.max_buffered_slabs), (10, 9, None));
}

#[test]
fn download_options_default_to_the_sdk() {
    let s = DownloadOptions::new(None, None, None).build();
    assert_eq!((s.max_buffered_chunks, s.offset, s.length), (None, 0, None));
    let s = DownloadOptions::new(Some(4), Some(100), Some(7)).build();
    assert_eq!((s.max_buffered_chunks, s.offset, s.length), (Some(4), 100, Some(7)));
}

#[test]
fn onboarding_flow_reaches_finalized() {
    let mut b: TestBuilder = Builder::new("disconnected");
    assert!(b.requesting_approval().is_err());
    let d = b.begin_disconnected().unwrap();
    assert_eq!(d, "disconnected");
    b.finish_request_connection::<Error>(Ok("https://approve".to_string())).unwrap();
    assert_eq!(b.requesting_approval().unwrap(), "https://approve");
    let r = b.begin_requesting_approval().unwrap();
    assert_eq!(r, "https://approve");
    b.finish_wait_for_approval::<Error>(Ok(7)).unwrap();
    let a = b.begin_approved().unwrap();
    assert_eq!(a, 7);
    let sdk = b.finish_register::<&str, Error>(Ok("sdk")).unwrap();
    assert_eq!(sdk, "sdk");
    assert_eq!(b.begin_disconnected().err().unwrap(), Error::BuilderInvalidState);
}

#[test]
fn unknown_key_leaves_builder_disconnected() {
    let mut b: TestBuilder = Builder::new("d");
    let d = b.begin_disconnected().unwrap();
    let r = b.finish_connected::<u8, Error>(d, Ok(None)).unwrap();
    assert!(r.is_none());
    let d = b.begin_disconnected().unwrap();
    let r = b.finish_connected::<u8, Error>(d, Ok(Some(1))).unwrap();
    assert_eq!(r, Some(1));
    assert!(b.begin_disconnected().is_err());
    assert!(b.begin_approved().is_err());
}

#[test]
fn wrong_step_consumes_the_builder() {
    let mut b: TestBuilder = Builder::new("d");
    let e = b.begin_approved().err().unwrap();
    assert_eq!(e.message(), "builder is in an invalid state");
    assert!(b.begin_disconnected().is_err());
    assert!(b.begin_requesting_approval().is_err());
}

#[test]
fn failed_step_consumes_the_builder() {
    let mut b: TestBuilder = Builder::new("d");
    let _ = b.begin_disconnected().unwrap();
    let r = b.finish_request_connection::<String>(Err("network".to_string()));
    assert_eq!(r, Err("network".to_string()));
    assert!(b.requesting_approval().is_err());
    assert!(b.begin_disconnected().is_err());
}

#[test]
fn packed_upload_refuses_everything_after_finalize() {
    let mut p = PackedUpload::new(5u64);
    assert_eq!(*p.with().unwrap(), 5);
    let u = p.begin_add().unwrap();
    assert!(p.with().is_err());
    p.end_add(u + 1);
    assert_eq!(*p.with().unwrap(), 6);
    let u = p.begin_finalize().unwrap();
    assert_eq!(u, 6);
    let e = p.with().err().unwrap();
    assert_eq!(e, Error::PackedUploadFinalized);
    assert_eq!(e.message(), "packed upload already finalized");
    assert!(p.begin_add().is_err());
    assert!(p.begin_finalize().is_err());
}

#[test]
fn pulled_chunks_end_on_nothing_or_empty() {
    assert_eq!(chunk_from_pull(None), None);
    assert_eq!(chunk_from_pull(Some(Vec::new())), None);
    assert_eq!(chunk_from_pull(Some(vec![1, 2, 3])), Some(vec![1, 2, 3]));
}

#[test]
fn download_reads_pass_on_what_was_filled() {
    let mut buf = download_buffer();
    assert_eq!(buf.len(), DOWNLOAD_BUFFER_SIZE);
    assert!(buf.iter().all(|b| *b == 0));
    buf[0] = 7;
    buf[1] = 8;
    assert_eq!(chunk_from_read(&buf, 0), None);
    assert_eq!(chunk_from_read(&buf, 2), Some(vec![7, 8]));
    assert_eq!(chunk_from_read(&buf, 3), Some(vec![7, 8, 0]));
}

#[test]
fn app_id_needs_exactly_32_bytes() {
    let mut meta = AppMetadata {
        id: vec![1u8; 32],
        name: "My App".to_string(),
        description: "Demo app".to_string(),
        service_url: "https://example.com".to_string(),
        logo_url: None,
        callback_url: None,
    };
    assert_eq!(meta.app_id().unwrap(), [1u8; 32]);
    meta.id.pop();
    let e = meta.app_id().err().unwrap();
    assert_eq!(e, Error::InvalidAppId);
    assert_eq!(e.message(), "app ID must be 32 bytes");
}

#[test]
fn account_text_form() {
    let raw = AccountRaw {
        account_key: [0x11u8; 32],
        max_pinned_data: 1000,
        remaining_storage: 400,
        pinned_data: 600,
        pinned_size: 1800,
        ready: true,
        app_id: [0x22u8; 32],
        app_name: "app".to_string(),
        app_description: "desc".to_string(),
        app_service_url: Some("https://s".to_string()),
        app_logo_url: None,
        last_used: Timestamp::new(10, 0).unwrap(),
    };
    let a = Account::from_raw(raw);
    assert_eq!(a.account_key, format!("ed25519:{}", "11".repeat(32)));
    assert_eq!(a.app.id, "22".repeat(32));
    assert_eq!((a.max_pinned_data, a.remaining_storage, a.pinned_data, a.pinned_size), (1000, 400, 600, 1800));
    assert!(a.ready);
    assert_eq!(a.app.name, "app");
    assert_eq!(a.app.service_url.as_deref(), Some("https://s"));
    assert!(a.last_used == Timestamp::new(10, 0).unwrap());
}

#[test]
fn error_messages() {
    assert_eq!(Error::Remote("boom".to_string()).message(), "boom");
    assert_eq!(Error::InvalidDataSignature("x".to_string()).message(), "invalid data signature: x");
    assert_eq!(Error::OpenFailed("y".to_string()).message(), "y");
}

#[test]
fn phases_compare() {
    assert!(Phase::Approved == Phase::Approved);
    assert!(Phase::Approved != Phase::Finalized);
}
