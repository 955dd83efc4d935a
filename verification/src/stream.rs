//! The decisions of the byte streams between the application and the SDK.
//!
//! Uploads pull chunks from the application: a missing or empty chunk marks
//! the end of the data. Downloads read into a fixed buffer and pass on what
//! each read filled; a read of zero bytes marks the end.
use vstd::prelude::*;

verus! {

/// The size of the buffer a download reads into (64 KiB).
pub const DOWNLOAD_BUFFER_SIZE: usize = 65536;

/// What a pulled chunk means for the stream: `None` is the end of the data
/// (no chunk, or an empty one), `Some` a chunk to pass on as it is.
pub fn chunk_from_pull(pulled: Option<Vec<u8>>) -> (r: Option<Vec<u8>>)
    ensures
        r is None <==> (pulled is None || pulled->Some_0@.len() == 0),
        r matches Some(c) ==> c@ == pulled->Some_0@ && c@.len() > 0,
{
    match pulled {
        None => None,
        Some(chunk) => {
            if chunk.len() == 0 {
                None
            } else {
                Some(chunk)
            }
        },
    }
}

/// What a download read of `n` bytes into `buf` means: `None` is the end
/// of the object (a read of zero bytes), `Some` the first `n` bytes of the
/// buffer, to pass on.
pub fn chunk_from_read(buf: &Vec<u8>, n: usize) -> (r: Option<Vec<u8>>)
    requires
        n <= buf@.len(),
    ensures
        r is None <==> n == 0,
        r matches Some(c) ==> c@ == buf@.subrange(0, n as int),
{
    if n == 0 {
        return None;
    }
    let mut out: Vec<u8> = Vec::new();
    let mut i: usize = 0;
    while i < n
        invariant
            n <= buf@.len(),
            0 <= i <= n,
            out@ == buf@.subrange(0, i as int),
        decreases n - i,
    {
        out.push(buf[i]);
        i = i + 1;
        assert(out@ =~= buf@.subrange(0, i as int));
    }
    Some(out)
}

/// A zeroed buffer for download reads.
pub fn download_buffer() -> (b: Vec<u8>)
    ensures
        b@.len() == DOWNLOAD_BUFFER_SIZE,
        forall|i: int| 0 <= i < b@.len() ==> b@[i] == 0,
{
    let mut b: Vec<u8> = Vec::new();
    let mut i: usize = 0;
    while i < DOWNLOAD_BUFFER_SIZE
        invariant
            0 <= i <= DOWNLOAD_BUFFER_SIZE,
            b@.len() == i,
            forall|k: int| 0 <= k < b@.len() ==> b@[k] == 0,
        decreases DOWNLOAD_BUFFER_SIZE - i,
    {
        b.push(0);
        i = i + 1;
    }
    b
}

} // verus!
