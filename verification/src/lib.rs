//! Verified core of the Sia Storage bindings: the data model, identifier
//! parsing, key handling, object sealing, upload and download options, the
//! onboarding state machine and packed-upload bookkeeping.
use vstd::prelude::*;

pub mod builder;
pub mod error;
pub mod hex;
pub mod keys;
pub mod object;
pub mod options;
pub mod sdk;
pub mod slabs;
pub mod stream;
pub mod types;
pub mod upload;

verus! {

} // verus!
