//! Objects pinned (or being pinned) to an indexer, their sealed form for
//! offline storage, and object events.
//!
//! A `sia_storage::Object` keeps its data key private, so the library holds
//! it as it is and names what it contains: its slabs ([object_slabs]) and
//! its user metadata ([object_metadata]).
use vstd::prelude::*;

use crate::error::Error;
use crate::hex::{hash256_to_string, spec_hex_encode};
use crate::keys::AppKey;
use crate::slabs::{
    first_unparsed_slab, law_parse_rendered_slabs, parse_slabs, slab_error, slab_view_wf,
    slab_views, slabs_from_raw, slabs_render, slabs_to_raw, SlabRaw, SlabView,
};
use crate::keys::{encoding_fault_text, signature_from_bytes};
use crate::slabs::lemma_raw_slab_wf;
use crate::types::{SealedObject, Slab, Timestamp};
use chrono::DateTime;
use sia_core::signing::{PublicKey, Signature};
use sia_storage::{
    AppKey as AppKeyNative, Object, SealedObject as NativeSealed, SealedObjectError,
    Sector as NativeSector, Slab as NativeSlab,
};

verus! {

/// `sia_storage::Object`: a file stored on the Sia network.
#[verifier::external_type_specification]
#[verifier::external_body]
pub struct ExObject(Object);

/// `sia_storage`'s error for a sealed object that cannot be opened.
#[verifier::external_type_specification]
#[verifier::external_body]
pub struct ExSealedObjectError(SealedObjectError);

/// The size of a sector in bytes (`sia_core::rhp4::SECTOR_SIZE`, 4 MiB).
pub const SECTOR_SIZE: u64 = 4194304;

/// The slabs an object is made of, in order.
pub uninterp spec fn object_slabs(o: Object) -> Seq<SlabView>;

/// The user metadata stored with an object.
pub uninterp spec fn object_metadata(o: Object) -> Seq<u8>;

/// When an object was created, as seconds and nanoseconds since the Unix epoch.
pub uninterp spec fn object_created_time(o: Object) -> (i64, u32);

/// When an object was last updated, as seconds and nanoseconds since the Unix epoch.
pub uninterp spec fn object_updated_time(o: Object) -> (i64, u32);

/// The ID of an object made of `slabs` (a BLAKE2b hash over the slabs'
/// digests, offsets and lengths, computed by `sia_storage`).
pub uninterp spec fn object_id_of(slabs: Seq<SlabView>) -> Seq<u8>;

/// The parts of a sealed object that its signatures cover, with its slabs.
pub struct SealedEnvelope {
    pub slabs: Seq<SlabView>,
    pub encrypted_data_key: Seq<u8>,
    pub encrypted_metadata_key: Seq<u8>,
    pub encrypted_metadata: Seq<u8>,
    pub data_signature: Seq<u8>,
    pub metadata_signature: Seq<u8>,
}

/// Whether `env` is what `Object::seal` produces with the app key of
/// `seed` from an object whose metadata is `metadata`.
pub uninterp spec fn seal_of(env: SealedEnvelope, seed: Seq<u8>, metadata: Seq<u8>) -> bool;

/// The sum of the lengths of `slabs`.
pub open spec fn total_length(slabs: Seq<SlabView>) -> int
    decreases slabs.len(),
{
    if slabs.len() == 0 {
        0
    } else {
        total_length(slabs.drop_last()) + slabs.last().length
    }
}

/// The sum over `slabs` of their sector count times the sector size.
pub open spec fn total_encoded(slabs: Seq<SlabView>) -> int
    decreases slabs.len(),
{
    if slabs.len() == 0 {
        0
    } else {
        total_encoded(slabs.drop_last()) + slabs.last().sectors.len() * SECTOR_SIZE
    }
}

/// Law: the size of one slab is its length.
pub proof fn law_size_one_slab(x: SlabView)
    ensures
        total_length(seq![x]) == x.length,
{
    assert(seq![x].drop_last() =~= Seq::<SlabView>::empty());
    assert(total_length(Seq::<SlabView>::empty()) == 0);
    assert(seq![x].last() == x);
}

/// Law: the size of slabs laid end to end is the sum of their sizes.
pub proof fn law_size_concat(a: Seq<SlabView>, b: Seq<SlabView>)
    ensures
        total_length(a + b) == total_length(a) + total_length(b),
    decreases b.len(),
{
    if b.len() == 0 {
        assert(a + b =~= a);
    } else {
        assert((a + b).drop_last() =~= a + b.drop_last());
        assert((a + b).last() == b.last());
        law_size_concat(a, b.drop_last());
    }
}

/// Law: the encoded size of one slab is the number of its sectors (data
/// and parity alike) times the sector size.
pub proof fn law_encoded_size_one_slab(x: SlabView)
    ensures
        total_encoded(seq![x]) == x.sectors.len() * SECTOR_SIZE,
{
    assert(seq![x].drop_last() =~= Seq::<SlabView>::empty());
    assert(total_encoded(Seq::<SlabView>::empty()) == 0);
    assert(seq![x].last() == x);
}

/// Law: the encoded size of slabs laid end to end is the sum of their
/// encoded sizes.
pub proof fn law_encoded_size_concat(a: Seq<SlabView>, b: Seq<SlabView>)
    ensures
        total_encoded(a + b) == total_encoded(a) + total_encoded(b),
    decreases b.len(),
{
    if b.len() == 0 {
        assert(a + b =~= a);
    } else {
        assert((a + b).drop_last() =~= a + b.drop_last());
        assert((a + b).last() == b.last());
        law_encoded_size_concat(a, b.drop_last());
    }
}

/// `Object::default()`: a fresh random data key, no slabs, no metadata.
#[verifier::external_body]
fn object_default() -> (o: Object)
    ensures
        object_slabs(o) == Seq::<SlabView>::empty(),
        object_metadata(o) == Seq::<u8>::empty(),
{
    Object::default()
}

/// `Object::clone` (derived: copies every field).
#[verifier::external_body]
fn object_clone(o: &Object) -> (r: Object)
    ensures
        object_slabs(r) == object_slabs(*o),
        object_metadata(r) == object_metadata(*o),
        object_created_time(r) == object_created_time(*o),
        object_updated_time(r) == object_updated_time(*o),
{
    o.clone()
}

/// `Object::id`.
#[verifier::external_body]
fn object_id(o: &Object) -> (r: [u8; 32])
    ensures
        r@ == object_id_of(object_slabs(*o)),
{
    o.id().into()
}

/// `Object::size`: the sum of the slabs' lengths, added up in a `u64`.
#[verifier::external_body]
fn object_size(o: &Object) -> (r: u64)
    requires
        total_length(object_slabs(*o)) <= u64::MAX,
    ensures
        r == total_length(object_slabs(*o)),
{
    o.size()
}

/// `Object::encoded_size`: the sum over the slabs of sector count times
/// sector size, in a `u64`.
#[verifier::external_body]
fn object_encoded_size(o: &Object) -> (r: u64)
    requires
        total_encoded(object_slabs(*o)) <= u64::MAX,
    ensures
        r == total_encoded(object_slabs(*o)),
{
    o.encoded_size()
}

/// `Object::slabs().len()`.
#[verifier::external_body]
fn object_slab_count(o: &Object) -> (r: usize)
    ensures
        r == object_slabs(*o).len(),
{
    o.slabs().len()
}

/// `Object::slabs()[i]`, its fields moved into a raw slab.
#[verifier::external_body]
fn object_slab(o: &Object, i: usize) -> (r: SlabRaw)
    requires
        i < object_slabs(*o).len(),
    ensures
        r@ == object_slabs(*o)[i as int],
{
    let s = &o.slabs()[i];
    SlabRaw {
        encryption_key: *s.encryption_key.as_ref(),
        min_shards: s.min_shards,
        sectors: s.sectors.iter().map(
            |x| crate::slabs::SectorRaw { root: x.root.into(), host_key: x.host_key.into() },
        ).collect(),
        offset: s.offset,
        length: s.length,
    }
}

/// `Object::metadata` (a public field), copied.
#[verifier::external_body]
fn object_metadata_get(o: &Object) -> (r: Vec<u8>)
    ensures
        r@ == object_metadata(*o),
{
    o.metadata.clone()
}

/// Assigns `Object::metadata` (a public field); nothing else changes.
#[verifier::external_body]
fn object_metadata_set(o: &mut Object, metadata: Vec<u8>)
    ensures
        object_metadata(*final(o)) == metadata@,
        object_slabs(*final(o)) == object_slabs(*old(o)),
        object_created_time(*final(o)) == object_created_time(*old(o)),
        object_updated_time(*final(o)) == object_updated_time(*old(o)),
{
    o.metadata = metadata;
}

/// `Object::created_at`, as seconds and nanoseconds since the Unix epoch.
#[verifier::external_body]
fn object_created_at(o: &Object) -> (r: (i64, u32))
    ensures
        r == object_created_time(*o),
        crate::types::chrono_timestamp_valid(r.0, r.1),
{
    (o.created_at().timestamp(), o.created_at().timestamp_subsec_nanos())
}

/// `Object::updated_at`, as seconds and nanoseconds since the Unix epoch.
#[verifier::external_body]
fn object_updated_at(o: &Object) -> (r: (i64, u32))
    ensures
        r == object_updated_time(*o),
        crate::types::chrono_timestamp_valid(r.0, r.1),
{
    (o.updated_at().timestamp(), o.updated_at().timestamp_subsec_nanos())
}

/// What `Object::seal` adds to an object's slabs: the encrypted keys and
/// metadata, the two signatures, and the object's timestamps.
pub struct SealParts {
    pub encrypted_data_key: Vec<u8>,
    pub encrypted_metadata_key: Vec<u8>,
    pub encrypted_metadata: Vec<u8>,
    pub data_signature: [u8; 64],
    pub metadata_signature: [u8; 64],
    pub created_at: (i64, u32),
    pub updated_at: (i64, u32),
}

/// The envelope made of `slabs` and the sealed parts of `p`.
pub open spec fn envelope_of(slabs: Seq<SlabView>, p: SealParts) -> SealedEnvelope {
    SealedEnvelope {
        slabs,
        encrypted_data_key: p.encrypted_data_key@,
        encrypted_metadata_key: p.encrypted_metadata_key@,
        encrypted_metadata: p.encrypted_metadata@,
        data_signature: p.data_signature@,
        metadata_signature: p.metadata_signature@,
    }
}

/// `Object::seal` with the app key imported from `seed`. `Object::seal`
/// clones the object's slabs into the sealed object and copies its created
/// and updated times, so only the other fields are returned, with the times
/// converted as [object_created_at] converts them.
#[verifier::external_body]
fn object_seal(o: &Object, seed: &[u8; 32]) -> (r: SealParts)
    ensures
        seal_of(envelope_of(object_slabs(*o), r), seed@, object_metadata(*o)),
        r.created_at == object_created_time(*o),
        r.updated_at == object_updated_time(*o),
        crate::types::chrono_timestamp_valid(r.created_at.0, r.created_at.1),
        crate::types::chrono_timestamp_valid(r.updated_at.0, r.updated_at.1),
{
    let s = o.seal(&sia_storage::AppKey::import(*seed));
    SealParts {
        encrypted_data_key: s.encrypted_data_key,
        encrypted_metadata_key: s.encrypted_metadata_key,
        encrypted_metadata: s.encrypted_metadata,
        data_signature: *s.data_signature.as_ref(),
        metadata_signature: *s.metadata_signature.as_ref(),
        created_at: (s.created_at.timestamp(), s.created_at.timestamp_subsec_nanos()),
        updated_at: (s.updated_at.timestamp(), s.updated_at.timestamp_subsec_nanos()),
    }
}

/// `SealedObject::id` of the sealed object with the slabs `slabs` and the
/// other fields of `p`, each converted field by field to `sia_storage`'s types.
#[verifier::external_body]
fn sealed_id(slabs: &Vec<SlabRaw>, p: SealParts) -> (r: [u8; 32])
    requires
        crate::types::chrono_timestamp_valid(p.created_at.0, p.created_at.1),
        crate::types::chrono_timestamp_valid(p.updated_at.0, p.updated_at.1),
    ensures
        r@ == object_id_of(slab_views(slabs@)),
{
    let slabs = slabs.iter().map(|s| NativeSlab { encryption_key: s.encryption_key.into(), min_shards: s.min_shards, sectors: s.sectors.iter().map(|x| NativeSector { root: x.root.into(), host_key: PublicKey::new(x.host_key) }).collect(), offset: s.offset, length: s.length }).collect();
    let t = |t: (i64, u32)| DateTime::from_timestamp(t.0, t.1).unwrap();
    NativeSealed { encrypted_data_key: p.encrypted_data_key, slabs, data_signature: Signature::new(p.data_signature), encrypted_metadata_key: p.encrypted_metadata_key, encrypted_metadata: p.encrypted_metadata, metadata_signature: Signature::new(p.metadata_signature), created_at: t(p.created_at), updated_at: t(p.updated_at) }.id().into()
}

/// `SealedObject::open` with the app key imported from `seed`, of the
/// sealed object with the slabs `slabs` and the other fields of `p`, each
/// converted field by field to `sia_storage`'s types. What opens has the
/// sealed slabs and the sealed created and updated times (`chrono` gives
/// back the seconds and nanoseconds a time was made from); opening what
/// `Object::seal` produced with the same key succeeds and gives back the
/// sealed metadata.
#[verifier::external_body]
fn sealed_open(slabs: &Vec<SlabRaw>, p: SealParts, seed: &[u8; 32]) -> (r: Result<Object, SealedObjectError>)
    requires
        crate::types::chrono_timestamp_valid(p.created_at.0, p.created_at.1),
        crate::types::chrono_timestamp_valid(p.updated_at.0, p.updated_at.1),
    ensures
        r matches Ok(o) ==> object_slabs(o) == slab_views(slabs@),
        r is Ok ==> object_created_time(r->Ok_0) == p.created_at && object_updated_time(r->Ok_0)
            == p.updated_at,
        forall|m: Seq<u8>|
            #[trigger] seal_of(envelope_of(slab_views(slabs@), p), seed@, m) ==> (r is Ok
                && object_metadata(r->Ok_0) == m),
{
    let slabs = slabs.iter().map(|s| NativeSlab { encryption_key: s.encryption_key.into(), min_shards: s.min_shards, sectors: s.sectors.iter().map(|x| NativeSector { root: x.root.into(), host_key: PublicKey::new(x.host_key) }).collect(), offset: s.offset, length: s.length }).collect();
    let t = |t: (i64, u32)| DateTime::from_timestamp(t.0, t.1).unwrap();
    NativeSealed { encrypted_data_key: p.encrypted_data_key, slabs, data_signature: Signature::new(p.data_signature), encrypted_metadata_key: p.encrypted_metadata_key, encrypted_metadata: p.encrypted_metadata, metadata_signature: Signature::new(p.metadata_signature), created_at: t(p.created_at), updated_at: t(p.updated_at) }.open(&AppKeyNative::import(*seed))
}

/// The message of an error opening a sealed object (its `Display`).
#[verifier::external_body]
fn sealed_object_error_text(e: &SealedObjectError) -> String {
    format!("{e}")
}

/// `s` is the text form of a sealed object made of `slabs`: its ID is the
/// hex of their object ID and its slabs render them.
pub open spec fn sealed_renders(s: SealedObject, slabs: Seq<SlabView>) -> bool {
    &&& s.id@ == spec_hex_encode(object_id_of(slabs))
    &&& slabs_render(s.slabs@, slabs)
}

/// The signed envelope of a sealed object in text form, its slabs taken as `slabs`.
pub open spec fn sealed_envelope(s: SealedObject, slabs: Seq<SlabView>) -> SealedEnvelope {
    SealedEnvelope {
        slabs,
        encrypted_data_key: s.encrypted_data_key@,
        encrypted_metadata_key: s.encrypted_metadata_key@,
        encrypted_metadata: s.encrypted_metadata@,
        data_signature: s.data_signature@,
        metadata_signature: s.metadata_signature@,
    }
}

/// Whether a sealed object passes every check made before decryption: its
/// slabs parse, both signatures have 64 bytes, and its ID is the hex of the
/// object ID of its slabs.
pub open spec fn sealed_accepted(s: SealedObject) -> bool {
    &&& parse_slabs(s.slabs@) is Some
    &&& s.data_signature@.len() == 64
    &&& s.metadata_signature@.len() == 64
    &&& s.id@ == spec_hex_encode(object_id_of(parse_slabs(s.slabs@).unwrap()))
}

/// The encoded size of `size` bytes cut into slabs of `data_shards`
/// sectors, each slab stored as `data_shards + parity_shards` sectors.
pub open spec fn spec_encoded_size(size: int, data_shards: int, parity_shards: int) -> int {
    let per_slab = data_shards * SECTOR_SIZE;
    ((size + per_slab - 1) / per_slab) * ((data_shards + parity_shards) * SECTOR_SIZE)
}

/// `sia_storage::encoded_size`: the number of slabs (`size` divided by the
/// data per slab, rounded up) times the size of a slab with parity, in
/// `u64`. It divides by the data per slab, so `data_shards` must not be 0.
#[verifier::external_body]
fn sia_encoded_size(size: u64, data_shards: u8, parity_shards: u8) -> (r: u64)
    requires
        data_shards > 0,
        spec_encoded_size(size as int, data_shards as int, parity_shards as int) <= u64::MAX,
    ensures
        r == spec_encoded_size(size as int, data_shards as int, parity_shards as int),
{
    sia_storage::encoded_size(size, data_shards, parity_shards)
}

/// Calculates the encoded size of data given its size in bytes and the erasure
/// coding parameters.
pub fn encoded_size(size: u64, data_shards: u8, parity_shards: u8) -> (r: u64)
    requires
        data_shards > 0,
        spec_encoded_size(size as int, data_shards as int, parity_shards as int) <= u64::MAX,
    ensures
        r == spec_encoded_size(size as int, data_shards as int, parity_shards as int),
{
    sia_encoded_size(size, data_shards, parity_shards)
}

/// A timestamp that `chrono` produced.
fn timestamp_of(t: (i64, u32)) -> (r: Timestamp)
    requires
        crate::types::chrono_timestamp_valid(t.0, t.1),
    ensures
        r.spec_secs() == t.0,
        r.spec_nanos() == t.1,
{
    Timestamp::new(t.0, t.1).unwrap()
}

/// An object pinned (or being pinned) to an indexer.
///
/// New objects are constructed via [PinnedObject::new] and uploaded with
/// the SDK. Use [PinnedObject::seal] / [PinnedObject::open] to round-trip an
/// object through [SealedObject] form for offline storage.
pub struct PinnedObject {
    inner: Object,
}

impl PinnedObject {
    /// The slabs the object is made of.
    pub closed spec fn slabs_view(&self) -> Seq<SlabView> {
        object_slabs(self.inner)
    }

    /// The object's user metadata.
    pub closed spec fn metadata_view(&self) -> Seq<u8> {
        object_metadata(self.inner)
    }

    /// When the object was created (seconds, nanoseconds).
    pub closed spec fn created_view(&self) -> (i64, u32) {
        object_created_time(self.inner)
    }

    /// When the object was last updated (seconds, nanoseconds).
    pub closed spec fn updated_view(&self) -> (i64, u32) {
        object_updated_time(self.inner)
    }

    /// Creates a new empty object.
    pub fn new() -> (o: PinnedObject)
        ensures
            o.slabs_view() == Seq::<SlabView>::empty(),
            o.metadata_view() == Seq::<u8>::empty(),
    {
        PinnedObject { inner: object_default() }
    }

    /// Wraps an object that `sia_storage` returned.
    pub fn from_native(inner: Object) -> (o: PinnedObject)
        ensures
            o.slabs_view() == object_slabs(inner),
            o.metadata_view() == object_metadata(inner),
            o.created_view() == object_created_time(inner),
            o.updated_view() == object_updated_time(inner),
    {
        PinnedObject { inner }
    }

    /// A copy of the inner object for use with `sia_storage` methods.
    pub fn snapshot(&self) -> (r: Object)
        ensures
            object_slabs(r) == self.slabs_view(),
            object_metadata(r) == self.metadata_view(),
            object_created_time(r) == self.created_view(),
            object_updated_time(r) == self.updated_view(),
    {
        object_clone(&self.inner)
    }

    /// Returns the object's ID, hex-encoded.
    pub fn id(&self) -> (r: String)
        ensures
            r@ == spec_hex_encode(object_id_of(self.slabs_view())),
    {
        hash256_to_string(object_id(&self.inner))
    }

    /// Returns the total size of the object in bytes: the sum of its slabs' lengths.
    pub fn size(&self) -> (r: u64)
        requires
            total_length(self.slabs_view()) <= u64::MAX,
        ensures
            r == total_length(self.slabs_view()),
    {
        object_size(&self.inner)
    }

    /// Returns the total encoded size after erasure coding: the sum over
    /// the slabs of their sector count times the sector size.
    pub fn encoded_size(&self) -> (r: u64)
        requires
            total_encoded(self.slabs_view()) <= u64::MAX,
        ensures
            r == total_encoded(self.slabs_view()),
    {
        object_encoded_size(&self.inner)
    }

    /// The raw slabs of the object, in order.
    fn raw_slabs(&self) -> (r: Vec<SlabRaw>)
        ensures
            slab_views(r@) == self.slabs_view(),
    {
        let n = object_slab_count(&self.inner);
        let mut out: Vec<SlabRaw> = Vec::new();
        let mut i: usize = 0;
        while i < n
            invariant
                n == self.slabs_view().len(),
                0 <= i <= n,
                out@.len() == i,
                forall|k: int| 0 <= k < i ==> (#[trigger] out@[k])@ == self.slabs_view()[k],
            decreases n - i,
        {
            out.push(object_slab(&self.inner, i));
            i = i + 1;
        }
        assert(slab_views(out@) =~= self.slabs_view());
        out
    }

    /// Returns the slabs that make up the object.
    pub fn slabs(&self) -> (r: Vec<Slab>)
        ensures
            slabs_render(r@, self.slabs_view()),
            forall|i: int| 0 <= i < self.slabs_view().len() ==> slab_view_wf(#[trigger] self.slabs_view()[i]),
    {
        let raw = self.raw_slabs();
        proof {
            assert forall|i: int| 0 <= i < self.slabs_view().len() implies slab_view_wf(#[trigger] self.slabs_view()[i]) by {
                lemma_raw_slab_wf(raw@[i]);
            }
        }
        slabs_from_raw(&raw)
    }

    /// Returns the user-supplied metadata associated with the object.
    pub fn metadata(&self) -> (r: Vec<u8>)
        ensures
            r@ == self.metadata_view(),
    {
        object_metadata_get(&self.inner)
    }

    /// Replaces the user-supplied metadata; the slabs and the created and
    /// updated times stay as they were.
    pub fn update_metadata(&mut self, metadata: Vec<u8>)
        ensures
            final(self).metadata_view() == metadata@,
            final(self).slabs_view() == old(self).slabs_view(),
            final(self).created_view() == old(self).created_view(),
            final(self).updated_view() == old(self).updated_view(),
    {
        object_metadata_set(&mut self.inner, metadata);
    }

    /// Returns the time the object was created.
    pub fn created_at(&self) -> (r: Timestamp)
        ensures
            (r.spec_secs(), r.spec_nanos()) == self.created_view(),
    {
        timestamp_of(object_created_at(&self.inner))
    }

    /// Returns the time the object was last updated.
    pub fn updated_at(&self) -> (r: Timestamp)
        ensures
            (r.spec_secs(), r.spec_nanos()) == self.updated_view(),
    {
        timestamp_of(object_updated_at(&self.inner))
    }

    /// Seals the object for offline storage: its ID and slabs in text form,
    /// its data key and metadata encrypted and signed with `app_key`, and
    /// its created and updated times (see [sealed_from]).
    pub fn seal(&self, app_key: &AppKey) -> (r: SealedObject)
        ensures
            sealed_from(*self, app_key@, r),
    {
        let parts = object_seal(&self.inner, &app_key.seed());
        let id = hash256_to_string(object_id(&self.inner));
        let slabs = self.slabs();
        let created_at = timestamp_of(parts.created_at);
        let updated_at = timestamp_of(parts.updated_at);
        let ghost env = envelope_of(self.slabs_view(), parts);
        let r = SealedObject {
            id,
            encrypted_data_key: parts.encrypted_data_key,
            encrypted_metadata_key: parts.encrypted_metadata_key,
            slabs,
            encrypted_metadata: parts.encrypted_metadata,
            data_signature: vstd::slice::slice_to_vec(parts.data_signature.as_slice()),
            metadata_signature: vstd::slice::slice_to_vec(parts.metadata_signature.as_slice()),
            created_at,
            updated_at,
        };
        assert(sealed_envelope(r, self.slabs_view()) == env);
        r
    }

    /// Opens a sealed object using the provided app key. The slabs are
    /// parsed first, then the data and metadata signatures, then the ID is
    /// checked against the slabs, and only then is the object decrypted
    /// (see [opened_from]).
    pub fn open(app_key: &AppKey, sealed: SealedObject) -> (r: Result<PinnedObject, Error>)
        ensures
            opened_from(app_key@, sealed, r),
    {
        let slabs = match slabs_to_raw(&sealed.slabs) {
            Ok(v) => v,
            Err(e) => return Err(e),
        };
        let data_signature = match signature_from_bytes(sealed.data_signature.as_slice()) {
            Ok(s) => s,
            Err(e) => return Err(Error::InvalidDataSignature(encoding_fault_text(e))),
        };
        let metadata_signature = match signature_from_bytes(sealed.metadata_signature.as_slice()) {
            Ok(s) => s,
            Err(e) => return Err(Error::InvalidMetadataSignature(encoding_fault_text(e))),
        };
        let ghost parsed = parse_slabs(sealed.slabs@).unwrap();
        let parts = SealParts {
            encrypted_data_key: sealed.encrypted_data_key,
            encrypted_metadata_key: sealed.encrypted_metadata_key,
            encrypted_metadata: sealed.encrypted_metadata,
            data_signature,
            metadata_signature,
            created_at: sealed.created_at.parts(),
            updated_at: sealed.updated_at.parts(),
        };
        let id_parts = SealParts {
            encrypted_data_key: parts.encrypted_data_key.clone(),
            encrypted_metadata_key: parts.encrypted_metadata_key.clone(),
            encrypted_metadata: parts.encrypted_metadata.clone(),
            data_signature,
            metadata_signature,
            created_at: parts.created_at,
            updated_at: parts.updated_at,
        };
        let id_text = hash256_to_string(sealed_id(&slabs, id_parts));
        if !(id_text == sealed.id) {
            return Err(Error::SealedContentsMismatch);
        }
        assert(envelope_of(slab_views(slabs@), parts) == sealed_envelope(sealed, parsed));
        match sealed_open(&slabs, parts, &app_key.seed()) {
            Ok(o) => Ok(PinnedObject { inner: o }),
            Err(e) => Err(Error::OpenFailed(sealed_object_error_text(&e))),
        }
    }
}

impl Default for PinnedObject {
    fn default() -> (o: PinnedObject)
        ensures
            o.slabs_view() == Seq::<SlabView>::empty(),
            o.metadata_view() == Seq::<u8>::empty(),
    {
        PinnedObject::new()
    }
}

/// What [PinnedObject::seal] returns for the object `o` and the app key
/// `key`: the ID and slabs of `o` in text form (each slab well formed),
/// 64-byte signatures, an envelope that `Object::seal` made from the
/// metadata of `o` with `key`, and the created and updated times of `o`.
pub open spec fn sealed_from(o: PinnedObject, key: Seq<u8>, r: SealedObject) -> bool {
    &&& sealed_renders(r, o.slabs_view())
    &&& r.data_signature@.len() == 64
    &&& r.metadata_signature@.len() == 64
    &&& seal_of(sealed_envelope(r, o.slabs_view()), key, o.metadata_view())
    &&& forall|i: int| 0 <= i < o.slabs_view().len() ==> slab_view_wf(#[trigger] o.slabs_view()[i])
    &&& (r.created_at.spec_secs(), r.created_at.spec_nanos()) == o.created_view()
    &&& (r.updated_at.spec_secs(), r.updated_at.spec_nanos()) == o.updated_view()
}

/// What [PinnedObject::open] returns for the app key `key` and `sealed`:
/// the error of the first slab that does not parse, then "Invalid length"
/// for a data signature and then a metadata signature that is not 64 bytes
/// long, then
/// `SealedContentsMismatch` for an ID that is not the one of the slabs;
/// otherwise either a failure to decrypt or the object, with the parsed
/// slabs and the sealed times, which is sure to open with the sealed
/// metadata when `key` sealed the envelope.
pub open spec fn opened_from(key: Seq<u8>, sealed: SealedObject, r: Result<PinnedObject, Error>) -> bool {
    &&& parse_slabs(sealed.slabs@) is None ==> (r is Err && slab_error(
        sealed.slabs@[first_unparsed_slab(sealed.slabs@)],
        r->Err_0,
    ))
    &&& parse_slabs(sealed.slabs@) is Some && sealed.data_signature@.len() != 64 ==> (r is Err
        && (r->Err_0 matches Error::InvalidDataSignature(d) && d@ == "Invalid length"@))
    &&& parse_slabs(sealed.slabs@) is Some && sealed.data_signature@.len() == 64
        && sealed.metadata_signature@.len() != 64 ==> (r is Err
        && (r->Err_0 matches Error::InvalidMetadataSignature(d) && d@ == "Invalid length"@))
    &&& parse_slabs(sealed.slabs@) is Some && sealed.data_signature@.len() == 64
        && sealed.metadata_signature@.len() == 64 && !sealed_accepted(sealed) ==> r
        == Err::<PinnedObject, Error>(Error::SealedContentsMismatch)
    &&& r is Ok ==> sealed_accepted(sealed) && r->Ok_0.slabs_view() == parse_slabs(
        sealed.slabs@,
    ).unwrap()
    &&& r is Ok ==> r->Ok_0.created_view() == (sealed.created_at.spec_secs(), sealed.created_at.spec_nanos())
        && r->Ok_0.updated_view() == (sealed.updated_at.spec_secs(), sealed.updated_at.spec_nanos())
    &&& r is Err && r->Err_0 is OpenFailed ==> sealed_accepted(sealed)
    &&& forall|m: Seq<u8>|
        sealed_accepted(sealed) && #[trigger] seal_of(
            sealed_envelope(sealed, parse_slabs(sealed.slabs@).unwrap()),
            key,
            m,
        ) ==> (r is Ok && r->Ok_0.metadata_view() == m)
}

/// Law: opening, with the same app key, what [PinnedObject::seal] made of
/// an object succeeds and gives back the object's slabs, its metadata, and
/// its created and updated times.
pub proof fn law_open_after_seal(
    o: PinnedObject,
    key: Seq<u8>,
    sealed: SealedObject,
    opened: Result<PinnedObject, Error>,
)
    requires
        sealed_from(o, key, sealed),
        opened_from(key, sealed, opened),
    ensures
        opened is Ok,
        opened->Ok_0.slabs_view() == o.slabs_view(),
        opened->Ok_0.metadata_view() == o.metadata_view(),
        opened->Ok_0.created_view() == o.created_view(),
        opened->Ok_0.updated_view() == o.updated_view(),
{
    law_parse_rendered_slabs(sealed.slabs@, o.slabs_view());
    assert(seal_of(
        sealed_envelope(sealed, parse_slabs(sealed.slabs@).unwrap()),
        key,
        o.metadata_view(),
    ));
}

/// An object event from the indexer.
pub struct ObjectEvent {
    id: String,
    deleted: bool,
    updated_at: Timestamp,
    object: Option<Object>,
}

impl ObjectEvent {
    /// The event's object ID as text.
    pub closed spec fn spec_id(&self) -> Seq<char> {
        self.id@
    }

    /// Whether the event reports a deletion.
    pub closed spec fn spec_deleted(&self) -> bool {
        self.deleted
    }

    /// The time of the event.
    pub closed spec fn spec_updated_at(&self) -> Timestamp {
        self.updated_at
    }

    /// The slabs of the event's object, if it has one.
    pub closed spec fn spec_object_slabs(&self) -> Option<Seq<SlabView>> {
        match self.object {
            Some(o) => Some(object_slabs(o)),
            None => None,
        }
    }

    /// The metadata of the event's object, if it has one.
    pub closed spec fn spec_object_metadata(&self) -> Option<Seq<u8>> {
        match self.object {
            Some(o) => Some(object_metadata(o)),
            None => None,
        }
    }

    /// The created and updated times of the event's object, if it has one.
    pub closed spec fn spec_object_times(&self) -> Option<((i64, u32), (i64, u32))> {
        match self.object {
            Some(o) => Some((object_created_time(o), object_updated_time(o))),
            None => None,
        }
    }

    /// An event for the object with ID `id`, as `sia_storage` reports it.
    pub fn from_parts(id: [u8; 32], deleted: bool, updated_at: Timestamp, object: Option<Object>) -> (e:
        ObjectEvent)
        ensures
            e.spec_id() == spec_hex_encode(id@),
            e.spec_deleted() == deleted,
            e.spec_updated_at() == updated_at,
            e.spec_object_slabs() == (match object {
                Some(o) => Some(object_slabs(o)),
                None => None::<Seq<SlabView>>,
            }),
            e.spec_object_metadata() == (match object {
                Some(o) => Some(object_metadata(o)),
                None => None::<Seq<u8>>,
            }),
            e.spec_object_times() == (match object {
                Some(o) => Some((object_created_time(o), object_updated_time(o))),
                None => None::<((i64, u32), (i64, u32))>,
            }),
    {
        ObjectEvent { id: hash256_to_string(id), deleted, updated_at, object }
    }

    /// The ID of the object, hex-encoded.
    pub fn id(&self) -> (r: String)
        ensures
            r@ == self.spec_id(),
    {
        self.id.clone()
    }

    /// Whether the object was deleted.
    pub fn deleted(&self) -> (r: bool)
        ensures
            r == self.spec_deleted(),
    {
        self.deleted
    }

    /// The time of the event.
    pub fn updated_at(&self) -> (r: Timestamp)
        ensures
            r == self.spec_updated_at(),
    {
        self.updated_at
    }

    /// A copy of the object, if the event carries one.
    pub fn object(&self) -> (r: Option<PinnedObject>)
        ensures
            r is Some <==> self.spec_object_slabs() is Some,
            r matches Some(o) ==> Some(o.slabs_view()) == self.spec_object_slabs() && Some(
                o.metadata_view(),
            ) == self.spec_object_metadata() && Some((o.created_view(), o.updated_view()))
                == self.spec_object_times(),
    {
        match &self.object {
            Some(o) => Some(PinnedObject { inner: object_clone(o) }),
            None => None,
        }
    }
}

} // verus!
