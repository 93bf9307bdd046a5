//! The blob endpoints.

use crate::error::ProxyError;
use crate::storage::blob::{blob_hex, blob_path, BlobStore};
use vstd::prelude::*;

verus! {

/// The place to look at for a `HEAD` on a blob: the place of the blob that
/// the digest names.
pub fn handle_blob_head(store: &BlobStore, digest: &str) -> (r: Result<String, ProxyError>)
    ensures
        match (r, blob_hex(digest@)) {
            (Ok(path), Ok(hex)) => path@ == blob_path(store.base_dir@, hex),
            (Err(e), Err(expected)) => e@ == expected,
            _ => false,
        },
{
    store.validated_blob_path(digest)
}

/// The status that answers a `HEAD` on a blob: 200 for a blob that is
/// there, 404 for one that is not.
pub fn blob_head_status(present: bool) -> (r: u16)
    ensures
        present ==> r == 200,
        !present ==> r == 404,
{
    if present {
        200
    } else {
        404
    }
}

/// The status that answers an upload that was committed.
pub fn handle_blob_upload() -> (r: u16)
    ensures
        r == 201,
{
    201
}

} // verus!
