//! Deleting one object from the bucket.

use vstd::prelude::*;
use crate::error::{join, unit_result_is, Failure, StorageError};
use crate::r2::R2Config;

verus! {

/// One object to be deleted.
#[derive(Debug, PartialEq, Eq)]
pub struct DeleteRequest {
    pub bucket: String,
    pub key: String,
}

/// The request that deletes the object `key` from the bucket of `config`.
pub fn delete_request(config: &R2Config, key: &str) -> (request: DeleteRequest)
    ensures
        request.bucket@ == config@.bucket_name,
        request.key@ == key@,
{
    DeleteRequest { bucket: config.bucket_name.clone(), key: key.to_owned() }
}

/// What the answer to a delete request comes to.
pub open spec fn delete_result(outcome: Result<(), String>) -> Result<(), Failure> {
    match outcome {
        Ok(_) => Ok(()),
        Err(reason) => Err(Failure::DeleteFailure("Failed to delete file: "@ + reason@)),
    }
}

/// What the answer to a delete request is reported as. An object that was
/// not there counts as deleted: the store answers both alike. After a
/// failure the ledger must keep its record of the object.
pub fn delete_file(outcome: Result<(), String>) -> (result: Result<(), StorageError>)
    ensures
        unit_result_is(result, delete_result(outcome)),
{
    match outcome {
        Ok(_) => Ok(()),
        Err(reason) => Err(
            StorageError::DeleteFailure(join("Failed to delete file: ", reason.as_str())),
        ),
    }
}

} // verus!
