//! App keys and recovery phrases.
//!
//! An [AppKey] is the 32-byte seed of an ed25519 key pair. Every operation
//! on it imports the seed into `sia_storage::AppKey` and lets that type do
//! the work; the contracts here state what comes back.
use vstd::prelude::*;

use crate::error::Error;
use crate::hex::{public_key_to_string, spec_public_key_text};
use sia_core::encoding::Error as EncodingError;
use sia_core::seed::SeedError;

verus! {

/// `std::io::Error`, which `sia_core`'s encoding errors may carry.
#[verifier::external_type_specification]
#[verifier::external_body]
pub struct ExIoError(std::io::Error);

/// Why `sia_core` refused to encode or decode a value: one variant for each
/// of `sia_core::encoding::Error`'s, with the same fields.
pub enum EncodingFault {
    Io(std::io::Error),
    InvalidLength(usize),
    InvalidValue(String),
    Custom(String),
}

/// `sia_core`'s error for a rejected recovery phrase.
#[verifier::external_type_specification]
#[verifier::external_body]
pub struct ExSeedError(SeedError);

/// The ed25519 public key of the key pair with the given 32-byte seed.
pub uninterp spec fn ed25519_public_key(seed: Seq<u8>) -> Seq<u8>;

/// The ed25519 signature of `message` under the key pair with the given seed.
pub uninterp spec fn ed25519_signature(seed: Seq<u8>, message: Seq<u8>) -> Seq<u8>;

/// Whether `signature` is a valid ed25519 signature of `message` under `public_key`.
pub uninterp spec fn ed25519_verifies(
    public_key: Seq<u8>,
    message: Seq<u8>,
    signature: Seq<u8>,
) -> bool;

/// Whether `sia_core` accepts `phrase` as a 12-word BIP-39 recovery phrase.
pub uninterp spec fn recovery_phrase_valid(phrase: Seq<char>) -> bool;

/// `sia_storage::AppKey::export` of the key imported from `seed`:
/// `AppKey::import` keeps the seed as the secret half of its key pair, and
/// `export` returns exactly those 32 bytes.
#[verifier::external_body]
fn app_key_export(seed: &[u8; 32]) -> (r: [u8; 32])
    ensures
        r@ == seed@,
{
    sia_storage::AppKey::import(*seed).export()
}

/// `sia_storage::AppKey::sign` of the key imported from `seed`.
#[verifier::external_body]
fn app_key_sign(seed: &[u8; 32], message: &[u8]) -> (r: [u8; 64])
    ensures
        r@ == ed25519_signature(seed@, message@),
{
    *sia_storage::AppKey::import(*seed).sign(message).as_ref()
}

/// `sia_storage::AppKey::public_key` of the key imported from `seed`.
#[verifier::external_body]
fn app_key_public_key(seed: &[u8; 32]) -> (r: [u8; 32])
    ensures
        r@ == ed25519_public_key(seed@),
{
    sia_storage::AppKey::import(*seed).public_key().into()
}

/// `sia_core::signing::PublicKey::verify` with the public key of the key
/// imported from `seed`. The key comes from a real key pair, so the point
/// decodes and the call does not panic. A signature that `sign` made with
/// the same seed over the same message verifies (ed25519 correctness).
#[verifier::external_body]
fn app_key_verify(seed: &[u8; 32], message: &[u8], signature: &[u8; 64]) -> (r: bool)
    ensures
        r == ed25519_verifies(ed25519_public_key(seed@), message@, signature@),
        signature@ == ed25519_signature(seed@, message@) ==> r,
{
    sia_storage::AppKey::import(*seed).public_key().verify(
        message,
        &sia_core::signing::Signature::new(*signature),
    )
}

/// `sia_core::signing::Signature::try_from(&[u8])`: accepts exactly 64
/// bytes, and refuses any other length with `InvalidLength` of that length.
#[verifier::external_body]
pub(crate) fn signature_from_bytes(b: &[u8]) -> (r: Result<[u8; 64], EncodingFault>)
    ensures
        r is Ok <==> b@.len() == 64,
        r matches Ok(s) ==> s@ == b@,
        r matches Err(f) ==> f matches EncodingFault::InvalidLength(n) && n == b@.len(),
{
    match sia_core::signing::Signature::try_from(b) {
        Ok(s) => Ok(*s.as_ref()),
        Err(EncodingError::Io(e)) => Err(EncodingFault::Io(e)),
        Err(EncodingError::InvalidLength(n)) => Err(EncodingFault::InvalidLength(n)),
        Err(EncodingError::InvalidValue(v)) => Err(EncodingFault::InvalidValue(v)),
        Err(EncodingError::Custom(v)) => Err(EncodingFault::Custom(v)),
    }
}

/// The message of an encoding error: `sia_core::encoding::Error`'s
/// `Display` of the error with the variant and fields of `f`, as
/// `thiserror` writes it. For `Io` it includes the I/O error's own text,
/// which is left unsaid.
#[verifier::external_body]
pub(crate) fn encoding_fault_text(f: EncodingFault) -> (r: String)
    ensures
        f matches EncodingFault::InvalidLength(_) ==> r@ == "Invalid length"@,
        f matches EncodingFault::InvalidValue(v) ==> r@ == "Invalid value: "@ + v@,
        f matches EncodingFault::Custom(v) ==> r@ == "Custom error: "@ + v@,
{
    let e = match f {
        EncodingFault::Io(e) => EncodingError::Io(e),
        EncodingFault::InvalidLength(n) => EncodingError::InvalidLength(n),
        EncodingFault::InvalidValue(v) => EncodingError::InvalidValue(v),
        EncodingFault::Custom(v) => EncodingError::Custom(v),
    };
    format!("{e}")
}

/// The number of spaces in `s`.
pub open spec fn space_count(s: Seq<char>) -> nat
    decreases s.len(),
{
    if s.len() == 0 {
        0
    } else {
        space_count(s.drop_last()) + if s.last() == ' ' { 1nat } else { 0nat }
    }
}

/// Whether `s` is `n` words of lowercase letters `a` to `z` joined by
/// single spaces: no other character, no space at either end, no two
/// spaces side by side, and `n - 1` spaces in all.
pub open spec fn words_joined(s: Seq<char>, n: nat) -> bool {
    &&& s.len() > 0
    &&& s[0] != ' '
    &&& s.last() != ' '
    &&& forall|i: int| 0 <= i < s.len() ==> #[trigger] s[i] == ' ' || ('a' <= s[i] <= 'z')
    &&& forall|i: int| 0 <= i < s.len() - 1 ==> !(#[trigger] s[i] == ' ' && s[i + 1] == ' ')
    &&& space_count(s) + 1 == n
}

/// `sia_storage::generate_recovery_phrase`: 16 random bytes written as a
/// BIP-39 phrase. `bip39` turns 16 bytes of entropy into 12 words of its
/// English list, which are made of the letters `a` to `z`, and displays
/// them joined by single spaces. A phrase made from 16 bytes of entropy
/// parses back to 16 bytes, so it is one that `validate_recovery_phrase`
/// accepts. Which words come out is left open: the bytes are random.
#[verifier::external_body]
fn sia_generate_recovery_phrase() -> (r: String)
    ensures
        recovery_phrase_valid(r@),
        words_joined(r@, 12),
{
    sia_storage::generate_recovery_phrase()
}

/// `sia_storage::validate_recovery_phrase`.
#[verifier::external_body]
fn sia_validate_recovery_phrase(phrase: &str) -> (r: Result<(), SeedError>)
    ensures
        r is Ok <==> recovery_phrase_valid(phrase@),
{
    sia_storage::validate_recovery_phrase(phrase)
}

/// The message of a recovery phrase error (`SeedError`'s `Display`).
#[verifier::external_body]
fn seed_error_text(e: &SeedError) -> String {
    format!("{e}")
}

/// An AppKey is used to sign requests to the indexer.
///
/// AppKeys are derived from a BIP-39 recovery phrase during onboarding.
/// They must be stored securely by the application and never shared publicly.
pub struct AppKey {
    seed: [u8; 32],
}

impl View for AppKey {
    type V = Seq<u8>;

    /// The key's 32-byte seed.
    closed spec fn view(&self) -> Seq<u8> {
        self.seed@
    }
}

impl AppKey {
    /// Imports an AppKey from a 32-byte buffer.
    pub fn new(key: Vec<u8>) -> (r: Result<AppKey, Error>)
        ensures
            r is Ok <==> key@.len() == 32,
            r matches Ok(k) ==> k@ == key@,
            r matches Err(e) ==> e == Error::InvalidAppKeyLength,
    {
        if key.len() != 32 {
            return Err(Error::InvalidAppKeyLength);
        }
        let mut seed = [0u8; 32];
        let mut i: usize = 0;
        while i < 32
            invariant
                key@.len() == 32,
                0 <= i <= 32,
                forall|j: int| 0 <= j < i ==> seed@[j] == key@[j],
            decreases 32 - i,
        {
            seed[i] = key[i];
            i = i + 1;
        }
        assert(seed@ =~= key@);
        Ok(AppKey { seed })
    }

    /// Wraps a seed that `sia_storage` handed out (the SDK's own key).
    pub fn from_seed(seed: [u8; 32]) -> (k: AppKey)
        ensures
            k@ == seed@,
    {
        AppKey { seed }
    }

    /// Exports the AppKey as a 32-byte buffer.
    pub fn export(&self) -> (r: Vec<u8>)
        ensures
            r@ == self@,
    {
        let arr = app_key_export(&self.seed);
        vstd::slice::slice_to_vec(arr.as_slice())
    }

    /// The 32-byte seed as an array, for handing to `sia_storage`.
    pub fn seed(&self) -> (r: [u8; 32])
        ensures
            r@ == self@,
    {
        self.seed
    }

    /// Signs a message using the AppKey.
    pub fn sign(&self, message: Vec<u8>) -> (r: Vec<u8>)
        ensures
            r@ == ed25519_signature(self@, message@),
            r@.len() == 64,
    {
        let sig = app_key_sign(&self.seed, message.as_slice());
        vstd::slice::slice_to_vec(sig.as_slice())
    }

    /// Returns the public key corresponding to the AppKey, as `ed25519:`
    /// followed by the hex of its 32 bytes.
    pub fn public_key(&self) -> (r: String)
        ensures
            r@ == spec_public_key_text(ed25519_public_key(self@)),
    {
        let pk = app_key_public_key(&self.seed);
        public_key_to_string(pk)
    }

    /// Verifies a signature for a given message using the AppKey.
    pub fn verify_signature(&self, message: Vec<u8>, signature: Vec<u8>) -> (r: Result<
        bool,
        Error,
    >)
        ensures
            r is Ok <==> signature@.len() == 64,
            r matches Ok(valid) ==> valid == ed25519_verifies(
                ed25519_public_key(self@),
                message@,
                signature@,
            ),
            r matches Err(e) ==> e matches Error::InvalidSignature(d) && d@ == "Invalid length"@,
            signature@ == ed25519_signature(self@, message@) && signature@.len() == 64 ==> r == Ok::<
                bool,
                Error,
            >(true),
    {
        match signature_from_bytes(signature.as_slice()) {
            Ok(sig) => Ok(app_key_verify(&self.seed, message.as_slice(), &sig)),
            Err(e) => Err(Error::InvalidSignature(encoding_fault_text(e))),
        }
    }
}

/// Generates a new BIP-39 12-word recovery phrase.
pub fn generate_recovery_phrase() -> (r: String)
    ensures
        recovery_phrase_valid(r@),
        words_joined(r@, 12),
{
    sia_generate_recovery_phrase()
}

/// Validates a BIP-39 recovery phrase.
pub fn validate_recovery_phrase(phrase: String) -> (r: Result<(), Error>)
    ensures
        r is Ok <==> recovery_phrase_valid(phrase@),
        r matches Err(e) ==> e is InvalidRecoveryPhrase,
{
    match sia_validate_recovery_phrase(phrase.as_str()) {
        Ok(()) => Ok(()),
        Err(e) => Err(Error::InvalidRecoveryPhrase(seed_error_text(&e))),
    }
}

} // verus!
