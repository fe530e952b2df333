//! Coordination logic of an asset gateway: uploads into an object store,
//! signed-link issuance with a metadata record, listing, deletion, and the
//! decoding of the metadata store's result envelope.
//!
//! The network calls themselves are made by the caller; every function here
//! takes what a call returned as a plain value and decides what comes next.
use vstd::prelude::*;

pub mod decimal;
pub mod link;
pub mod listing;
pub mod paths;
pub mod records;
pub mod upload;

verus! {

/// The request was served.
pub const STATUS_OK: u16 = 200;

/// What was asked for is not there.
pub const STATUS_NOT_FOUND: u16 = 404;

} // verus!
