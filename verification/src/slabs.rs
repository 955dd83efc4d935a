//! Slabs in two forms: the raw form that `sia_storage` works with (keys,
//! roots and host keys as bytes) and the text form handed to the
//! application ([Slab], [PinnedSlab]: roots and IDs as hex, host keys as
//! `ed25519:` hex). Rendering never fails; parsing fails on the first field
//! that is not well formed, and a rendered slab parses back to itself.
use vstd::prelude::*;

use crate::error::Error;
use crate::hex::{
    hash256_from_str, hash256_to_string, hex_fault_text, law_parse_hash256_of_text,
    law_parse_public_key_of_text, public_key_from_str, public_key_to_string, reports_fault,
    spec_hash256_fault, spec_hex_encode, spec_parse_hash256, spec_parse_public_key,
    spec_public_key_fault, spec_public_key_text,
};
use crate::types::{PinnedSector, PinnedSlab, Slab};

verus! {

/// A sector reference as bytes: its Merkle root and the key of its host.
#[derive(Clone, Copy)]
pub struct SectorRaw {
    pub root: [u8; 32],
    pub host_key: [u8; 32],
}

/// A slab as bytes.
pub struct SlabRaw {
    pub encryption_key: [u8; 32],
    pub min_shards: u8,
    pub sectors: Vec<SectorRaw>,
    pub offset: u32,
    pub length: u32,
}

/// A pinned slab as bytes.
pub struct PinnedSlabRaw {
    pub id: [u8; 32],
    pub encryption_key: [u8; 32],
    pub min_shards: u8,
    pub sectors: Vec<SectorRaw>,
}

/// The mathematical content of a slab: key, shard count, sectors as
/// (root, host key) byte pairs, offset and length.
pub struct SlabView {
    pub encryption_key: Seq<u8>,
    pub min_shards: u8,
    pub sectors: Seq<(Seq<u8>, Seq<u8>)>,
    pub offset: u32,
    pub length: u32,
}

/// The content of a raw sector.
pub open spec fn sector_view(s: SectorRaw) -> (Seq<u8>, Seq<u8>) {
    (s.root@, s.host_key@)
}

impl View for SlabRaw {
    type V = SlabView;

    open spec fn view(&self) -> SlabView {
        SlabView {
            encryption_key: self.encryption_key@,
            min_shards: self.min_shards,
            sectors: self.sectors@.map_values(|s: SectorRaw| sector_view(s)),
            offset: self.offset,
            length: self.length,
        }
    }
}

/// The contents of a list of raw slabs.
pub open spec fn slab_views(s: Seq<SlabRaw>) -> Seq<SlabView> {
    s.map_values(|x: SlabRaw| x@)
}

/// Whether every byte string of a slab has 32 bytes (true of every raw slab).
pub open spec fn slab_view_wf(v: SlabView) -> bool {
    &&& v.encryption_key.len() == 32
    &&& forall|j: int|
        0 <= j < v.sectors.len() ==> (#[trigger] v.sectors[j]).0.len() == 32 && v.sectors[j].1.len()
            == 32
}

/// `s` is the text form of the sector `v`.
pub open spec fn sector_renders(s: PinnedSector, v: (Seq<u8>, Seq<u8>)) -> bool {
    &&& s.root@ == spec_hex_encode(v.0)
    &&& s.host_key@ == spec_public_key_text(v.1)
}

/// `s` is the text form of the sectors `v`.
pub open spec fn sectors_render(s: Seq<PinnedSector>, v: Seq<(Seq<u8>, Seq<u8>)>) -> bool {
    &&& s.len() == v.len()
    &&& forall|j: int| 0 <= j < s.len() ==> sector_renders(#[trigger] s[j], v[j])
}

/// `s` is the text form of the slab `v`.
pub open spec fn slab_renders(s: Slab, v: SlabView) -> bool {
    &&& s.encryption_key@ == v.encryption_key
    &&& s.min_shards == v.min_shards
    &&& sectors_render(s.sectors@, v.sectors)
    &&& s.offset == v.offset
    &&& s.length == v.length
}

/// `s` is the text form of the pinned slab with ID `id` and content `v`.
pub open spec fn pinned_slab_renders(s: PinnedSlab, id: Seq<u8>, v: SlabView) -> bool {
    &&& s.id@ == spec_hex_encode(id)
    &&& s.encryption_key@ == v.encryption_key
    &&& s.min_shards == v.min_shards
    &&& sectors_render(s.sectors@, v.sectors)
}

/// Whether both identifiers of a text sector parse.
pub open spec fn sector_parses(s: PinnedSector) -> bool {
    &&& spec_parse_public_key(s.host_key@) is Some
    &&& spec_parse_hash256(s.root@) is Some
}

/// The bytes of a text sector whose identifiers parse.
pub open spec fn parsed_sector(s: PinnedSector) -> (Seq<u8>, Seq<u8>) {
    (spec_parse_hash256(s.root@).unwrap(), spec_parse_public_key(s.host_key@).unwrap())
}

/// What parsing a text slab yields: `None` if its key is not 32 bytes or
/// some sector does not parse.
pub open spec fn parse_slab(s: Slab) -> Option<SlabView> {
    if s.encryption_key@.len() == 32 && forall|j: int|
        0 <= j < s.sectors@.len() ==> sector_parses(#[trigger] s.sectors@[j]) {
        Some(
            SlabView {
                encryption_key: s.encryption_key@,
                min_shards: s.min_shards,
                sectors: s.sectors@.map_values(|x: PinnedSector| parsed_sector(x)),
                offset: s.offset,
                length: s.length,
            },
        )
    } else {
        None
    }
}

/// What parsing a list of text slabs yields: `None` if any slab fails.
pub open spec fn parse_slabs(s: Seq<Slab>) -> Option<Seq<SlabView>> {
    if forall|i: int| 0 <= i < s.len() ==> (#[trigger] parse_slab(s[i])) is Some {
        Some(s.map_values(|x: Slab| parse_slab(x).unwrap()))
    } else {
        None
    }
}

/// `s` is the text form of every slab in `v`, in order.
pub open spec fn slabs_render(s: Seq<Slab>, v: Seq<SlabView>) -> bool {
    &&& s.len() == v.len()
    &&& forall|i: int| 0 <= i < s.len() ==> slab_renders(#[trigger] s[i], v[i])
}

/// The position of the first sector in `s` whose identifiers do not parse
/// (`s.len()` if there is none).
pub open spec fn first_unparsed_sector(s: Seq<PinnedSector>) -> int
    decreases s.len(),
{
    if s.len() == 0 {
        0
    } else if !sector_parses(s[0]) {
        0
    } else {
        1 + first_unparsed_sector(s.skip(1))
    }
}

/// The position of the first slab in `s` that does not parse (`s.len()`
/// if there is none).
pub open spec fn first_unparsed_slab(s: Seq<Slab>) -> int
    decreases s.len(),
{
    if s.len() == 0 {
        0
    } else if parse_slab(s[0]) is None {
        0
    } else {
        1 + first_unparsed_slab(s.skip(1))
    }
}

/// `d` is the message for the text sector `sec`, which does not parse: the
/// host key is read first, so its parse error if it fails, else the root's.
pub open spec fn sector_error_message(sec: PinnedSector, d: Seq<char>) -> bool {
    if spec_parse_public_key(sec.host_key@) is None {
        reports_fault(d, sec.host_key@, spec_public_key_fault(sec.host_key@))
    } else {
        reports_fault(d, sec.root@, spec_hash256_fault(sec.root@))
    }
}

/// `e` is the error for the text slab `s`, which does not parse: for a key
/// that is not 32 bytes long, `sia_storage`'s message "invalid key length";
/// otherwise the identifier error of its first sector that does not parse.
pub open spec fn slab_error(s: Slab, e: Error) -> bool {
    if s.encryption_key@.len() != 32 {
        e matches Error::InvalidEncryptionKey(d) && d@ == "invalid key length"@
    } else {
        e matches Error::InvalidIdentifier(d) && sector_error_message(
            s.sectors@[first_unparsed_sector(s.sectors@)],
            d@,
        )
    }
}

/// The first sector that does not parse comes after all those that do.
proof fn lemma_first_unparsed_sector(s: Seq<PinnedSector>, j: int)
    requires
        0 <= j < s.len(),
        forall|k: int| 0 <= k < j ==> sector_parses(#[trigger] s[k]),
        !sector_parses(s[j]),
    ensures
        first_unparsed_sector(s) == j,
    decreases j,
{
    if j > 0 {
        assert forall|k: int| 0 <= k < j - 1 implies sector_parses(#[trigger] s.skip(1)[k]) by {
            assert(s.skip(1)[k] == s[k + 1]);
        }
        lemma_first_unparsed_sector(s.skip(1), j - 1);
    }
}

/// The first slab that does not parse comes after all those that do.
proof fn lemma_first_unparsed_slab(s: Seq<Slab>, i: int)
    requires
        0 <= i < s.len(),
        forall|k: int| 0 <= k < i ==> (#[trigger] parse_slab(s[k])) is Some,
        parse_slab(s[i]) is None,
    ensures
        first_unparsed_slab(s) == i,
    decreases i,
{
    if i > 0 {
        assert forall|k: int| 0 <= k < i - 1 implies (#[trigger] parse_slab(s.skip(1)[k])) is Some by {
            assert(s.skip(1)[k] == s[k + 1]);
        }
        lemma_first_unparsed_slab(s.skip(1), i - 1);
    }
}

/// `sia_storage::EncryptionKey::try_from(&[u8])`: accepts exactly 32 bytes,
/// and refuses any other length with the message "invalid key length".
#[verifier::external_body]
fn encryption_key_from_bytes(b: &[u8]) -> (r: Result<[u8; 32], &'static str>)
    ensures
        r is Ok <==> b@.len() == 32,
        r matches Ok(k) ==> k@ == b@,
        r matches Err(m) ==> m@ == "invalid key length"@,
{
    sia_storage::EncryptionKey::try_from(b).map(|k| *k.as_ref())
}

/// Renders the sectors of a slab.
fn sectors_from_raw(raw: &Vec<SectorRaw>) -> (r: Vec<PinnedSector>)
    ensures
        sectors_render(r@, raw@.map_values(|s: SectorRaw| sector_view(s))),
{
    let mut out: Vec<PinnedSector> = Vec::new();
    let mut j: usize = 0;
    while j < raw.len()
        invariant
            0 <= j <= raw@.len(),
            out@.len() == j,
            forall|k: int| 0 <= k < j ==> sector_renders(#[trigger] out@[k], sector_view(raw@[k])),
        decreases raw@.len() - j,
    {
        let s = raw[j];
        out.push(
            PinnedSector { root: hash256_to_string(s.root), host_key: public_key_to_string(s.host_key) },
        );
        j = j + 1;
    }
    out
}

/// Parses the sectors of a slab, stopping at the first sector whose host
/// key or root does not parse (the host key is read first).
fn sectors_to_raw(s: &Vec<PinnedSector>) -> (r: Result<Vec<SectorRaw>, Error>)
    ensures
        r is Ok <==> forall|j: int| 0 <= j < s@.len() ==> sector_parses(#[trigger] s@[j]),
        r matches Ok(v) ==> v@.map_values(|x: SectorRaw| sector_view(x)) == s@.map_values(
            |x: PinnedSector| parsed_sector(x),
        ),
        r matches Err(e) ==> e matches Error::InvalidIdentifier(d) && sector_error_message(
            s@[first_unparsed_sector(s@)],
            d@,
        ),
{
    let mut out: Vec<SectorRaw> = Vec::new();
    let mut j: usize = 0;
    while j < s.len()
        invariant
            0 <= j <= s@.len(),
            out@.len() == j,
            forall|k: int| 0 <= k < j ==> sector_parses(#[trigger] s@[k]),
            forall|k: int|
                0 <= k < j ==> sector_view(#[trigger] out@[k]) == parsed_sector(s@[k]),
        decreases s@.len() - j,
    {
        let host_key = match public_key_from_str(s[j].host_key.as_str()) {
            Ok(k) => k,
            Err(e) => {
                proof {
                    lemma_first_unparsed_sector(s@, j as int);
                }
                return Err(Error::InvalidIdentifier(hex_fault_text(e)));
            },
        };
        let root = match hash256_from_str(s[j].root.as_str()) {
            Ok(h) => h,
            Err(e) => {
                proof {
                    lemma_first_unparsed_sector(s@, j as int);
                }
                return Err(Error::InvalidIdentifier(hex_fault_text(e)));
            },
        };
        out.push(SectorRaw { root, host_key });
        j = j + 1;
    }
    assert(out@.map_values(|x: SectorRaw| sector_view(x)) =~= s@.map_values(
        |x: PinnedSector| parsed_sector(x),
    ));
    Ok(out)
}

impl Slab {
    /// The text form of a raw slab.
    pub fn from_raw(raw: &SlabRaw) -> (s: Slab)
        ensures
            slab_renders(s, raw@),
    {
        Slab {
            encryption_key: vstd::slice::slice_to_vec(raw.encryption_key.as_slice()),
            min_shards: raw.min_shards,
            sectors: sectors_from_raw(&raw.sectors),
            offset: raw.offset,
            length: raw.length,
        }
    }

    /// Parses a text slab into bytes: the encryption key must have 32 bytes
    /// and every sector's host key and root must parse.
    pub fn to_raw(&self) -> (r: Result<SlabRaw, Error>)
        ensures
            r is Ok <==> parse_slab(*self) is Some,
            r matches Ok(raw) ==> parse_slab(*self) == Some(raw@),
            r matches Err(e) ==> slab_error(*self, e),
    {
        let key = match encryption_key_from_bytes(self.encryption_key.as_slice()) {
            Ok(k) => k,
            Err(msg) => return Err(Error::InvalidEncryptionKey(msg.to_string())),
        };
        let sectors = match sectors_to_raw(&self.sectors) {
            Ok(v) => v,
            Err(e) => return Err(e),
        };
        let raw = SlabRaw {
            encryption_key: key,
            min_shards: self.min_shards,
            sectors,
            offset: self.offset,
            length: self.length,
        };
        assert(raw@.sectors == self.sectors@.map_values(|x: PinnedSector| parsed_sector(x)));
        Ok(raw)
    }
}

impl PinnedSlab {
    /// The text form of a raw pinned slab.
    pub fn from_raw(raw: &PinnedSlabRaw) -> (s: PinnedSlab)
        ensures
            pinned_slab_renders(
                s,
                raw.id@,
                SlabView {
                    encryption_key: raw.encryption_key@,
                    min_shards: raw.min_shards,
                    sectors: raw.sectors@.map_values(|x: SectorRaw| sector_view(x)),
                    offset: 0,
                    length: 0,
                },
            ),
            s.sectors@.len() == raw.sectors@.len(),
            forall|j: int|
                #![trigger s.sectors@[j]]
                0 <= j < raw.sectors@.len() ==> s.sectors@[j].root@ == spec_hex_encode(
                    raw.sectors@[j].root@,
                ) && s.sectors@[j].host_key@ == spec_public_key_text(raw.sectors@[j].host_key@),
    {
        PinnedSlab {
            id: hash256_to_string(raw.id),
            encryption_key: vstd::slice::slice_to_vec(raw.encryption_key.as_slice()),
            min_shards: raw.min_shards,
            sectors: sectors_from_raw(&raw.sectors),
        }
    }
}

/// Renders a list of raw slabs.
pub fn slabs_from_raw(raw: &Vec<SlabRaw>) -> (r: Vec<Slab>)
    ensures
        slabs_render(r@, slab_views(raw@)),
        r@.len() == raw@.len(),
        forall|i: int| 0 <= i < raw@.len() ==> slab_renders(#[trigger] r@[i], raw@[i]@),
{
    let mut out: Vec<Slab> = Vec::new();
    let mut i: usize = 0;
    while i < raw.len()
        invariant
            0 <= i <= raw@.len(),
            out@.len() == i,
            forall|k: int| 0 <= k < i ==> slab_renders(#[trigger] out@[k], raw@[k]@),
        decreases raw@.len() - i,
    {
        out.push(Slab::from_raw(&raw[i]));
        i = i + 1;
    }
    out
}

/// Parses a list of text slabs, stopping at the first that fails.
pub fn slabs_to_raw(s: &Vec<Slab>) -> (r: Result<Vec<SlabRaw>, Error>)
    ensures
        r is Ok <==> parse_slabs(s@) is Some,
        r matches Ok(v) ==> parse_slabs(s@) == Some(slab_views(v@)),
        r matches Ok(v) ==> v@.len() == s@.len() && forall|i: int|
            0 <= i < s@.len() ==> parse_slab(#[trigger] s@[i]) == Some(v@[i]@),
        r matches Err(e) ==> slab_error(s@[first_unparsed_slab(s@)], e),
{
    let mut out: Vec<SlabRaw> = Vec::new();
    let mut i: usize = 0;
    while i < s.len()
        invariant
            0 <= i <= s@.len(),
            out@.len() == i,
            forall|k: int| 0 <= k < i ==> (#[trigger] parse_slab(s@[k])) is Some,
            forall|k: int| 0 <= k < i ==> parse_slab(s@[k]) == Some((#[trigger] out@[k])@),
        decreases s@.len() - i,
    {
        match s[i].to_raw() {
            Ok(raw) => out.push(raw),
            Err(e) => {
                assert(parse_slab(s@[i as int]) is None);
                proof {
                    lemma_first_unparsed_slab(s@, i as int);
                }
                return Err(e);
            },
        }
        i = i + 1;
    }
    assert(s@.map_values(|x: Slab| parse_slab(x).unwrap()) =~= slab_views(out@));
    Ok(out)
}

/// Law: the text form of a well-formed slab parses back to that slab.
pub proof fn law_parse_rendered_slab(s: Slab, v: SlabView)
    requires
        slab_renders(s, v),
        slab_view_wf(v),
    ensures
        parse_slab(s) == Some(v),
{
    assert forall|j: int| 0 <= j < s.sectors@.len() implies sector_parses(#[trigger] s.sectors@[j])
        && parsed_sector(s.sectors@[j]) == v.sectors[j] by {
        assert(sector_renders(s.sectors@[j], v.sectors[j]));
        law_parse_hash256_of_text(v.sectors[j].0);
        law_parse_public_key_of_text(v.sectors[j].1);
    }
    assert(s.sectors@.map_values(|x: PinnedSector| parsed_sector(x)) =~= v.sectors);
}

/// Law: the text form of a list of well-formed slabs parses back to it.
pub proof fn law_parse_rendered_slabs(s: Seq<Slab>, v: Seq<SlabView>)
    requires
        slabs_render(s, v),
        forall|i: int| 0 <= i < v.len() ==> slab_view_wf(#[trigger] v[i]),
    ensures
        parse_slabs(s) == Some(v),
{
    assert forall|i: int| 0 <= i < s.len() implies (#[trigger] parse_slab(s[i])) == Some(v[i]) by {
        law_parse_rendered_slab(s[i], v[i]);
    }
    assert(s.map_values(|x: Slab| parse_slab(x).unwrap()) =~= v);
}

/// Law: the text form of a list of slabs keeps their order: text slab `i`
/// carries the key, shard count, offset and length of slab `i`, and its
/// sector `j` has the root and host key of sector `j` of slab `i` (each
/// parses back to those bytes).
pub proof fn law_slabs_text_in_order(r: Seq<Slab>, v: Seq<SlabView>)
    requires
        slabs_render(r, v),
        forall|i: int| 0 <= i < v.len() ==> slab_view_wf(#[trigger] v[i]),
    ensures
        r.len() == v.len(),
        forall|i: int|
            #![trigger r[i]]
            0 <= i < r.len() ==> r[i].encryption_key@ == v[i].encryption_key && r[i].min_shards
                == v[i].min_shards && r[i].offset == v[i].offset && r[i].length == v[i].length
                && r[i].sectors@.len() == v[i].sectors.len(),
        forall|i: int, j: int|
            #![trigger r[i].sectors@[j]]
            0 <= i < r.len() && 0 <= j < r[i].sectors@.len() ==> spec_parse_hash256(
                r[i].sectors@[j].root@,
            ) == Some(v[i].sectors[j].0) && spec_parse_public_key(r[i].sectors@[j].host_key@)
                == Some(v[i].sectors[j].1),
{
    assert forall|i: int, j: int|
        #![trigger r[i].sectors@[j]]
        0 <= i < r.len() && 0 <= j < r[i].sectors@.len() implies spec_parse_hash256(
            r[i].sectors@[j].root@,
        ) == Some(v[i].sectors[j].0) && spec_parse_public_key(r[i].sectors@[j].host_key@) == Some(
            v[i].sectors[j].1,
        ) by {
        assert(slab_renders(r[i], v[i]));
        assert(slab_view_wf(v[i]));
        assert(sector_renders(r[i].sectors@[j], v[i].sectors[j]));
        law_parse_hash256_of_text(v[i].sectors[j].0);
        law_parse_public_key_of_text(v[i].sectors[j].1);
    }
}

/// Law: parsing a list of text slabs keeps their order: parsed slab `i`
/// has the key, shard count, offset and length of text slab `i`, and its
/// sector `j` is the root and host key parsed from sector `j` of text slab `i`.
pub proof fn law_parse_slabs_in_order(s: Seq<Slab>)
    requires
        parse_slabs(s) is Some,
    ensures
        parse_slabs(s).unwrap().len() == s.len(),
        forall|i: int|
            #![trigger s[i]]
            0 <= i < s.len() ==> parse_slabs(s).unwrap()[i].encryption_key == s[i].encryption_key@
                && parse_slabs(s).unwrap()[i].min_shards == s[i].min_shards && parse_slabs(
                s,
            ).unwrap()[i].offset == s[i].offset && parse_slabs(s).unwrap()[i].length
                == s[i].length && parse_slabs(s).unwrap()[i].sectors.len() == s[i].sectors@.len(),
        forall|i: int, j: int|
            #![trigger s[i].sectors@[j]]
            0 <= i < s.len() && 0 <= j < s[i].sectors@.len() ==> parse_slabs(s).unwrap()[i].sectors[j]
                == (
                spec_parse_hash256(s[i].sectors@[j].root@).unwrap(),
                spec_parse_public_key(s[i].sectors@[j].host_key@).unwrap(),
            ),
{
    assert forall|i: int| 0 <= i < s.len() implies parse_slabs(s).unwrap()[i] == parse_slab(
        #[trigger] s[i],
    ).unwrap() && parse_slab(s[i]) is Some by {}
}

/// Law: the text form of a pinned slab keeps its sectors in order: its ID
/// parses back to the raw ID, and its sector `j` has the root and host key
/// of raw sector `j` (each parses back to those bytes).
pub proof fn law_pinned_slab_text(s: PinnedSlab, id: Seq<u8>, v: SlabView)
    requires
        pinned_slab_renders(s, id, v),
        id.len() == 32,
        slab_view_wf(v),
    ensures
        spec_parse_hash256(s.id@) == Some(id),
        s.encryption_key@ == v.encryption_key,
        s.min_shards == v.min_shards,
        s.sectors@.len() == v.sectors.len(),
        forall|j: int|
            #![trigger s.sectors@[j]]
            0 <= j < s.sectors@.len() ==> spec_parse_hash256(s.sectors@[j].root@) == Some(
                v.sectors[j].0,
            ) && spec_parse_public_key(s.sectors@[j].host_key@) == Some(v.sectors[j].1),
{
    law_parse_hash256_of_text(id);
    assert forall|j: int|
        #![trigger s.sectors@[j]]
        0 <= j < s.sectors@.len() implies spec_parse_hash256(s.sectors@[j].root@) == Some(
            v.sectors[j].0,
        ) && spec_parse_public_key(s.sectors@[j].host_key@) == Some(v.sectors[j].1) by {
        assert(sector_renders(s.sectors@[j], v.sectors[j]));
        law_parse_hash256_of_text(v.sectors[j].0);
        law_parse_public_key_of_text(v.sectors[j].1);
    }
}

/// Every raw slab is well formed.
pub proof fn lemma_raw_slab_wf(raw: SlabRaw)
    ensures
        slab_view_wf(raw@),
{
}

} // verus!
