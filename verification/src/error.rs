//! The library's error type. Each variant is one way a call can be refused;
//! those that wrap a failure of `sia_core` or `sia_storage` carry that
//! failure's message.
use vstd::prelude::*;
use vstd::string::StringExecFns;

verus! {

/// Why a call of the library failed.
#[derive(Debug, PartialEq, Eq)]
pub enum Error {
    /// An app key was not 32 bytes long.
    InvalidAppKeyLength,
    /// An app ID was not 32 bytes long.
    InvalidAppId,
    /// A signature was not 64 bytes long; holds the reason.
    InvalidSignature(String),
    /// A data signature of a sealed object was not 64 bytes long.
    InvalidDataSignature(String),
    /// A metadata signature of a sealed object was not 64 bytes long.
    InvalidMetadataSignature(String),
    /// A recovery phrase was rejected; holds the reason.
    InvalidRecoveryPhrase(String),
    /// An identifier (object ID, slab ID, sector root, host key) did not parse.
    InvalidIdentifier(String),
    /// An encryption key was not 32 bytes long.
    InvalidEncryptionKey(String),
    /// A sealed object's ID does not match its slabs.
    SealedContentsMismatch,
    /// A sealed object could not be opened with the given key.
    OpenFailed(String),
    /// The onboarding builder was asked for a step its state does not allow.
    BuilderInvalidState,
    /// A packed upload was used after it was finalized.
    PackedUploadFinalized,
    /// The indexer, a host or the network refused a request.
    Remote(String),
}

impl Error {
    /// The text shown to the user for this error.
    pub fn message(&self) -> (m: String)
        ensures
            self matches Error::InvalidAppKeyLength ==> m@ == "app keys must be 32 bytes"@,
            self matches Error::InvalidAppId ==> m@ == "app ID must be 32 bytes"@,
            self matches Error::InvalidSignature(d) ==> m@ == "invalid signature: "@ + d@,
            self matches Error::InvalidDataSignature(d) ==> m@ == "invalid data signature: "@ + d@,
            self matches Error::InvalidMetadataSignature(d) ==> m@ == "invalid metadata signature: "@
                + d@,
            self matches Error::InvalidRecoveryPhrase(d) ==> m@ == d@,
            self matches Error::InvalidIdentifier(d) ==> m@ == d@,
            self matches Error::InvalidEncryptionKey(d) ==> m@ == d@,
            self matches Error::SealedContentsMismatch ==> m@ == "sealed object contents mismatch"@,
            self matches Error::OpenFailed(d) ==> m@ == d@,
            self matches Error::BuilderInvalidState ==> m@ == "builder is in an invalid state"@,
            self matches Error::PackedUploadFinalized ==> m@ == "packed upload already finalized"@,
            self matches Error::Remote(d) ==> m@ == d@,
    {
        match self {
            Error::InvalidAppKeyLength => String::from_str("app keys must be 32 bytes"),
            Error::InvalidAppId => String::from_str("app ID must be 32 bytes"),
            Error::InvalidSignature(d) => String::from_str("invalid signature: ").concat(
                d.as_str(),
            ),
            Error::InvalidDataSignature(d) => String::from_str("invalid data signature: ").concat(
                d.as_str(),
            ),
            Error::InvalidMetadataSignature(d) => String::from_str(
                "invalid metadata signature: ",
            ).concat(d.as_str()),
            Error::InvalidRecoveryPhrase(d) => d.clone(),
            Error::InvalidIdentifier(d) => d.clone(),
            Error::InvalidEncryptionKey(d) => d.clone(),
            Error::SealedContentsMismatch => String::from_str("sealed object contents mismatch"),
            Error::OpenFailed(d) => d.clone(),
            Error::BuilderInvalidState => String::from_str("builder is in an invalid state"),
            Error::PackedUploadFinalized => String::from_str("packed upload already finalized"),
            Error::Remote(d) => d.clone(),
        }
    }
}

} // verus!
