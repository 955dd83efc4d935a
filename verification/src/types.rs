//! The data model handed to and from the application: plain values only,
//! identifiers as text and keys as bytes.
use vstd::prelude::*;

verus! {

/// Whether `chrono` can represent the instant `secs` seconds after the Unix
/// epoch plus `nanos` nanoseconds, i.e. `DateTime::from_timestamp(secs, nanos)`
/// is `Some`: the day (counted from 1 January of year 1, which is day 1;
/// the epoch is day 719 163) lies between 1 January of year -262 143 and
/// 31 December of year 262 142, and the nanoseconds are below two billion,
/// reaching one billion only in a leap second, at a second ending in :59.
pub open spec fn chrono_timestamp_valid(secs: i64, nanos: u32) -> bool {
    let day = secs / 86400 + 719163;
    &&& -95746129 <= day <= 95745399
    &&& nanos < 2_000_000_000
    &&& nanos >= 1_000_000_000 ==> secs % 60 == 59
}

/// `chrono::DateTime::<Utc>::from_timestamp(secs, nanos).is_some()`.
#[verifier::external_body]
fn chrono_timestamp_check(secs: i64, nanos: u32) -> (r: bool)
    ensures
        r == chrono_timestamp_valid(secs, nanos),
{
    chrono::DateTime::from_timestamp(secs, nanos).is_some()
}

/// A point in time that `chrono` can represent: whole seconds since the
/// Unix epoch and the nanoseconds past that second (a leap second may
/// carry up to 1_999_999_999 nanoseconds).
#[derive(Clone, Copy, PartialEq, Eq, Structural)]
pub struct Timestamp {
    secs: i64,
    nanos: u32,
}

impl Timestamp {
    #[verifier::type_invariant]
    spec fn representable(self) -> bool {
        chrono_timestamp_valid(self.secs, self.nanos)
    }

    /// The seconds since the Unix epoch.
    pub closed spec fn spec_secs(self) -> i64 {
        self.secs
    }

    /// The nanoseconds past the second.
    pub closed spec fn spec_nanos(self) -> u32 {
        self.nanos
    }

    /// The timestamp for `secs` and `nanos`, if `chrono` can represent it.
    pub fn new(secs: i64, nanos: u32) -> (r: Option<Timestamp>)
        ensures
            r is Some <==> chrono_timestamp_valid(secs, nanos),
            r matches Some(t) ==> t.spec_secs() == secs && t.spec_nanos() == nanos,
    {
        if chrono_timestamp_check(secs, nanos) {
            Some(Timestamp { secs, nanos })
        } else {
            None
        }
    }

    /// Seconds and nanoseconds together, which `chrono` can represent.
    pub fn parts(&self) -> (r: (i64, u32))
        ensures
            r == (self.spec_secs(), self.spec_nanos()),
            chrono_timestamp_valid(r.0, r.1),
    {
        proof {
            use_type_invariant(self);
        }
        (self.secs, self.nanos)
    }

    /// The seconds since the Unix epoch.
    pub fn secs(&self) -> (r: i64)
        ensures
            r == self.spec_secs(),
    {
        self.secs
    }

    /// The nanoseconds past the second.
    pub fn nanos(&self) -> (r: u32)
        ensures
            r == self.spec_nanos(),
    {
        self.nanos
    }
}

/// Metadata about an application connecting to the indexer.
pub struct AppMetadata {
    pub id: Vec<u8>,
    pub name: String,
    pub description: String,
    pub service_url: String,
    pub logo_url: Option<String>,
    pub callback_url: Option<String>,
}

/// The protocol used in a network address.
pub enum AddressProtocol {
    SiaMux,
    Quic,
}

/// A network address of a storage provider on the Sia network.
pub struct NetAddress {
    pub protocol: AddressProtocol,
    pub address: String,
}

/// A sector stored on a specific host.
pub struct PinnedSector {
    pub root: String,
    pub host_key: String,
}

/// A pinned slab from the indexer.
pub struct PinnedSlab {
    pub id: String,
    pub encryption_key: Vec<u8>,
    pub min_shards: u8,
    pub sectors: Vec<PinnedSector>,
}

/// A slab representing a contiguous erasure-coded segment of a file.
pub struct Slab {
    pub encryption_key: Vec<u8>,
    pub min_shards: u8,
    pub sectors: Vec<PinnedSector>,
    pub offset: u32,
    pub length: u32,
}

/// Application info.
pub struct App {
    pub id: String,
    pub name: String,
    pub description: String,
    pub service_url: Option<String>,
    pub logo_url: Option<String>,
}

/// A sealed object for offline storage.
pub struct SealedObject {
    pub id: String,
    pub encrypted_data_key: Vec<u8>,
    pub encrypted_metadata_key: Vec<u8>,
    pub slabs: Vec<Slab>,
    pub encrypted_metadata: Vec<u8>,
    pub data_signature: Vec<u8>,
    pub metadata_signature: Vec<u8>,
    pub created_at: Timestamp,
    pub updated_at: Timestamp,
}

/// A cursor for paginating through objects.
pub struct ObjectsCursor {
    pub id: String,
    pub after: Timestamp,
}

/// An account registered on the indexer.
pub struct Account {
    pub account_key: String,
    pub max_pinned_data: u64,
    pub remaining_storage: u64,
    pub pinned_data: u64,
    pub pinned_size: u64,
    pub ready: bool,
    pub app: App,
    pub last_used: Timestamp,
}

} // verus!
