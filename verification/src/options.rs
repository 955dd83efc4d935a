//! Upload and download options: each knob is optional, and `None` keeps the
//! default that `sia_storage` ships with. The progress streams that the
//! application may attach are kept beside these values by the caller.
use vstd::prelude::*;

verus! {

/// `v` if it is set, `default` otherwise.
pub open spec fn or_default<T>(v: Option<T>, default: T) -> T {
    match v {
        Some(x) => x,
        None => default,
    }
}

/// The defaults of `sia_storage::UploadOptions::default()`: 10 data
/// shards, 20 parity shards, and no limit of its own on the slabs held in
/// memory (`None`: the SDK then budgets a tenth of the system's memory).
#[verifier::external_body]
fn sia_upload_defaults() -> (r: (u8, u8, Option<usize>))
    ensures
        r == (10u8, 20u8, None::<usize>),
{
    let d = sia_storage::UploadOptions::default();
    (d.data_shards, d.parity_shards, d.max_buffered_slabs)
}

/// The defaults of `sia_storage::DownloadOptions::default()`: no limit of
/// its own on the chunks held in memory (`None`: the SDK then budgets a
/// tenth of the system's memory), offset 0, the whole object.
#[verifier::external_body]
fn sia_download_defaults() -> (r: (Option<usize>, u64, Option<u64>))
    ensures
        r == (None::<usize>, 0u64, None::<u64>),
{
    let d = sia_storage::DownloadOptions::default();
    (d.max_buffered_chunks, d.offset, d.length)
}

/// The values an upload runs with.
pub struct UploadSettings {
    pub data_shards: u8,
    pub parity_shards: u8,
    pub max_buffered_slabs: Option<usize>,
}

/// The values a download runs with.
pub struct DownloadSettings {
    pub max_buffered_chunks: Option<usize>,
    pub offset: u64,
    pub length: Option<u64>,
}

/// Options for an upload.
pub struct UploadOptions {
    data_shards: Option<u8>,
    parity_shards: Option<u8>,
    max_buffered_slabs: Option<u32>,
}

impl UploadOptions {
    /// The data shards asked for, if any.
    pub closed spec fn spec_data_shards(&self) -> Option<u8> {
        self.data_shards
    }

    /// The parity shards asked for, if any.
    pub closed spec fn spec_parity_shards(&self) -> Option<u8> {
        self.parity_shards
    }

    /// The most slabs to hold in memory, if asked for.
    pub closed spec fn spec_max_buffered_slabs(&self) -> Option<u32> {
        self.max_buffered_slabs
    }

    /// Constructs upload options. All arguments are optional; `None` keeps
    /// the SDK default.
    pub fn new(
        data_shards: Option<u8>,
        parity_shards: Option<u8>,
        max_buffered_slabs: Option<u32>,
    ) -> (o: UploadOptions)
        ensures
            o.spec_data_shards() == data_shards,
            o.spec_parity_shards() == parity_shards,
            o.spec_max_buffered_slabs() == max_buffered_slabs,
    {
        UploadOptions { data_shards, parity_shards, max_buffered_slabs }
    }

    /// The settings the upload runs with: each option that is set, the SDK
    /// default for each that is not.
    pub fn build(&self) -> (s: UploadSettings)
        ensures
            s.data_shards == or_default(self.spec_data_shards(), 10u8),
            s.parity_shards == or_default(self.spec_parity_shards(), 20u8),
            s.max_buffered_slabs == (match self.spec_max_buffered_slabs() {
                Some(v) => Some(v as usize),
                None => None::<usize>,
            }),
    {
        let (data_shards, parity_shards, max_buffered_slabs) = sia_upload_defaults();
        let mut s = UploadSettings { data_shards, parity_shards, max_buffered_slabs };
        if let Some(v) = self.data_shards {
            s.data_shards = v;
        }
        if let Some(v) = self.parity_shards {
            s.parity_shards = v;
        }
        if let Some(v) = self.max_buffered_slabs {
            s.max_buffered_slabs = Some(v as usize);
        }
        s
    }
}

/// Options for a download.
pub struct DownloadOptions {
    max_buffered_chunks: Option<u8>,
    offset: Option<u64>,
    length: Option<u64>,
}

impl DownloadOptions {
    /// The most chunks (about 1 MiB each) to hold in memory, if asked for.
    pub closed spec fn spec_max_buffered_chunks(&self) -> Option<u8> {
        self.max_buffered_chunks
    }

    /// The byte offset asked for, if any.
    pub closed spec fn spec_offset(&self) -> Option<u64> {
        self.offset
    }

    /// The number of bytes asked for, if any.
    pub closed spec fn spec_length(&self) -> Option<u64> {
        self.length
    }

    /// Constructs download options. All arguments are optional; `None`
    /// keeps the SDK default.
    pub fn new(max_buffered_chunks: Option<u8>, offset: Option<u64>, length: Option<u64>) -> (o:
        DownloadOptions)
        ensures
            o.spec_max_buffered_chunks() == max_buffered_chunks,
            o.spec_offset() == offset,
            o.spec_length() == length,
    {
        DownloadOptions { max_buffered_chunks, offset, length }
    }

    /// The settings the download runs with: each option that is set, the
    /// SDK default for each that is not. The length is taken as given:
    /// `None` downloads the rest of the object.
    pub fn build(&self) -> (s: DownloadSettings)
        ensures
            s.max_buffered_chunks == (match self.spec_max_buffered_chunks() {
                Some(v) => Some(v as usize),
                None => None::<usize>,
            }),
            s.offset == or_default(self.spec_offset(), 0u64),
            s.length == self.spec_length(),
    {
        let (max_buffered_chunks, offset, length) = sia_download_defaults();
        let mut s = DownloadSettings { max_buffered_chunks, offset, length };
        if let Some(v) = self.max_buffered_chunks {
            s.max_buffered_chunks = Some(v as usize);
        }
        if let Some(v) = self.offset {
            s.offset = v;
        }
        s.length = self.length;
        s
    }
}

} // verus!
