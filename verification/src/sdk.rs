//! What the SDK's requests compute before and after going to the indexer:
//! identifiers given as text are parsed before a request is sent, and the
//! account an indexer reports is turned into its text form.
use vstd::prelude::*;

use crate::error::Error;
use crate::hex::{
    ed25519_prefix, hash256_from_str, hash256_to_string, hex_fault_text, hex_value,
    is_lower_hex_char, law_hex_text_digits, law_parse_hash256_of_text,
    law_parse_public_key_of_text, public_key_to_string, reports_fault, spec_hash256_fault,
    spec_hex_encode, spec_parse_hash256, spec_parse_public_key, spec_public_key_text,
};
use crate::types::{Account, App, ObjectsCursor, Timestamp};

verus! {

/// Parses the hex ID of an object or slab given to a request; text that is
/// not a 32-byte hash is refused before anything is sent, with the
/// message of `sia_core`'s parse error.
pub fn parse_id(key: &str) -> (r: Result<[u8; 32], Error>)
    ensures
        r is Ok <==> spec_parse_hash256(key@) is Some,
        r matches Ok(id) ==> spec_parse_hash256(key@) == Some(id@),
        r matches Err(e) ==> e matches Error::InvalidIdentifier(d) && reports_fault(
            d@,
            key@,
            spec_hash256_fault(key@),
        ),
{
    match hash256_from_str(key) {
        Ok(id) => Ok(id),
        Err(e) => Err(Error::InvalidIdentifier(hex_fault_text(e))),
    }
}

impl ObjectsCursor {
    /// The cursor's object ID as bytes, with its time; refused if the ID
    /// does not parse.
    pub fn to_raw(&self) -> (r: Result<([u8; 32], Timestamp), Error>)
        ensures
            r is Ok <==> spec_parse_hash256(self.id@) is Some,
            r matches Ok(c) ==> spec_parse_hash256(self.id@) == Some(c.0@) && c.1 == self.after,
            r matches Err(e) ==> e matches Error::InvalidIdentifier(d) && reports_fault(
                d@,
                self.id@,
                spec_hash256_fault(self.id@),
            ),
    {
        match parse_id(self.id.as_str()) {
            Ok(id) => Ok((id, self.after)),
            Err(e) => Err(e),
        }
    }

    /// The text form of a raw cursor.
    pub fn from_raw(id: [u8; 32], after: Timestamp) -> (c: ObjectsCursor)
        ensures
            c.id@ == spec_hex_encode(id@),
            c.after == after,
    {
        ObjectsCursor { id: hash256_to_string(id), after }
    }
}

/// The text form of a host's public key as the indexer reports it:
/// `ed25519:` and the lower-case hex of its 32 bytes.
pub fn host_key_text(key: [u8; 32]) -> (r: String)
    ensures
        r@ == spec_public_key_text(key@),
{
    public_key_to_string(key)
}

/// The number of events to ask for, as the SDK takes it.
pub fn events_limit(limit: u32) -> (r: usize)
    ensures
        r == limit,
{
    limit as usize
}

/// An account as the indexer reports it: keys and IDs as bytes.
pub struct AccountRaw {
    pub account_key: [u8; 32],
    pub max_pinned_data: u64,
    pub remaining_storage: u64,
    pub pinned_data: u64,
    pub pinned_size: u64,
    pub ready: bool,
    pub app_id: [u8; 32],
    pub app_name: String,
    pub app_description: String,
    pub app_service_url: Option<String>,
    pub app_logo_url: Option<String>,
    pub last_used: Timestamp,
}

/// `a` is the text form of the raw account `raw`.
pub open spec fn account_renders(a: Account, raw: AccountRaw) -> bool {
    &&& a.account_key@ == spec_public_key_text(raw.account_key@)
    &&& a.max_pinned_data == raw.max_pinned_data
    &&& a.remaining_storage == raw.remaining_storage
    &&& a.pinned_data == raw.pinned_data
    &&& a.pinned_size == raw.pinned_size
    &&& a.ready == raw.ready
    &&& a.app.id@ == spec_hex_encode(raw.app_id@)
    &&& a.app.name == raw.app_name
    &&& a.app.description == raw.app_description
    &&& a.app.service_url == raw.app_service_url
    &&& a.app.logo_url == raw.app_logo_url
    &&& a.last_used == raw.last_used
}

/// Law: the account key of an account in text form is `ed25519:` and then,
/// byte by byte in order, the two lower-case hex digits of each byte of the
/// raw key, so it parses back to the raw key; the app ID parses back to
/// the raw app ID.
pub proof fn law_account_text(a: Account, raw: AccountRaw)
    requires
        account_renders(a, raw),
    ensures
        a.account_key@.len() == 72,
        a.account_key@.take(8) == ed25519_prefix(),
        forall|i: int|
            #![trigger raw.account_key@[i]]
            0 <= i < 32 ==> is_lower_hex_char(a.account_key@[8 + 2 * i]) && hex_value(
                a.account_key@[8 + 2 * i],
            ) == raw.account_key@[i] / 16 && is_lower_hex_char(a.account_key@[9 + 2 * i])
                && hex_value(a.account_key@[9 + 2 * i]) == raw.account_key@[i] % 16,
        spec_parse_public_key(a.account_key@) == Some(raw.account_key@),
        spec_parse_hash256(a.app.id@) == Some(raw.app_id@),
{
    let k = raw.account_key@;
    let e = spec_hex_encode(k);
    law_hex_text_digits(k);
    law_parse_public_key_of_text(k);
    law_parse_hash256_of_text(raw.app_id@);
    assert(a.account_key@.take(8) =~= ed25519_prefix());
    assert forall|i: int|
        #![trigger raw.account_key@[i]]
        0 <= i < 32 implies a.account_key@[8 + 2 * i] == e[2 * i] && a.account_key@[9 + 2 * i]
        == e[2 * i + 1] by {
        assert(k[i] == raw.account_key@[i]);
    }
}

impl Account {
    /// The text form of an account: its key as `ed25519:` hex, its app's ID
    /// as hex, everything else as reported.
    pub fn from_raw(raw: AccountRaw) -> (a: Account)
        ensures
            account_renders(a, raw),
            spec_parse_public_key(a.account_key@) == Some(raw.account_key@),
            spec_parse_hash256(a.app.id@) == Some(raw.app_id@),
    {
        proof {
            law_parse_public_key_of_text(raw.account_key@);
            law_parse_hash256_of_text(raw.app_id@);
        }
        Account {
            account_key: public_key_to_string(raw.account_key),
            max_pinned_data: raw.max_pinned_data,
            remaining_storage: raw.remaining_storage,
            pinned_data: raw.pinned_data,
            pinned_size: raw.pinned_size,
            ready: raw.ready,
            app: App {
                id: hash256_to_string(raw.app_id),
                name: raw.app_name,
                description: raw.app_description,
                service_url: raw.app_service_url,
                logo_url: raw.app_logo_url,
            },
            last_used: raw.last_used,
        }
    }
}

} // verus!
