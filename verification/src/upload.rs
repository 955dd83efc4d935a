//! Bookkeeping of a packed upload: the upload is usable until it is
//! finalized, after which every call is refused. Adding an object takes the
//! upload out for the duration of the add and puts it back whatever the
//! add's outcome, so a failed add leaves the upload usable.
use vstd::prelude::*;

use crate::error::Error;

verus! {

/// A packed upload. Packs multiple small objects into shared slabs to avoid
/// the per-object padding of a regular upload. Add each object, then
/// finalize to flush the packed slabs and obtain the resulting objects,
/// which must be pinned to the indexer afterwards. `U` is the handle of the
/// running upload.
pub struct PackedUpload<U> {
    inner: Option<U>,
}

impl<U> PackedUpload<U> {
    /// Whether the upload still holds its handle (it is not finalized and
    /// no add is running).
    pub closed spec fn is_open(&self) -> bool {
        self.inner is Some
    }

    /// The handle of an open upload.
    pub closed spec fn handle(&self) -> U
        recommends
            self.is_open(),
    {
        self.inner->Some_0
    }

    /// An open upload with the handle `upload`.
    pub fn new(upload: U) -> (p: Self)
        ensures
            p.is_open(),
            p.handle() == upload,
    {
        PackedUpload { inner: Some(upload) }
    }

    /// The handle, for reading the upload's sizes; refused once finalized.
    pub fn with(&self) -> (r: Result<&U, Error>)
        ensures
            r is Ok <==> self.is_open(),
            r matches Ok(u) ==> *u == self.handle(),
            r matches Err(e) ==> e == Error::PackedUploadFinalized,
    {
        match &self.inner {
            Some(u) => Ok(u),
            None => Err(Error::PackedUploadFinalized),
        }
    }

    /// Takes the handle out to add an object; refused once finalized. The
    /// caller hands it back with [PackedUpload::end_add].
    pub fn begin_add(&mut self) -> (r: Result<U, Error>)
        ensures
            !final(self).is_open(),
            r is Ok <==> old(self).is_open(),
            r matches Ok(u) ==> u == old(self).handle(),
            r matches Err(e) ==> e == Error::PackedUploadFinalized,
    {
        match self.inner.take() {
            Some(u) => Ok(u),
            None => Err(Error::PackedUploadFinalized),
        }
    }

    /// Puts the handle back after an add, whether the add succeeded or not.
    pub fn end_add(&mut self, upload: U)
        ensures
            final(self).is_open(),
            final(self).handle() == upload,
    {
        self.inner = Some(upload);
    }

    /// Takes the handle out for good to finalize the upload; refused if it
    /// was already finalized. The upload cannot be used again.
    pub fn begin_finalize(&mut self) -> (r: Result<U, Error>)
        ensures
            !final(self).is_open(),
            r is Ok <==> old(self).is_open(),
            r matches Ok(u) ==> u == old(self).handle(),
            r matches Err(e) ==> e == Error::PackedUploadFinalized,
    {
        match self.inner.take() {
            Some(u) => Ok(u),
            None => Err(Error::PackedUploadFinalized),
        }
    }
}

} // verus!
