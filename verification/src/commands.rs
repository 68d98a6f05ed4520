//! What the user is told when authorising an upload fails.

use vstd::prelude::*;
use crate::error::{join, message_of, StorageError};

verus! {

/// The part of authorising an upload that failed.
#[derive(Debug, Clone, Copy, PartialEq, Eq, Structural)]
pub enum UploadStage {
    /// Finding the configuration.
    Configuration,
    /// Building the client.
    Connection,
    /// Signing the address.
    Signing,
}

/// The text shown for a failure with the message `message` at `stage`.
pub open spec fn upload_failure(stage: UploadStage, message: Seq<char>) -> Seq<char> {
    match stage {
        UploadStage::Configuration => "Configuration error: "@ + message
            + ". Please check your .env file in src-tauri/.env"@,
        UploadStage::Connection => "Failed to connect to R2: "@ + message,
        UploadStage::Signing => "Failed to generate upload URL: "@ + message,
    }
}

/// The text shown to the user when authorising an upload failed with
/// `error` at `stage`.
pub fn upload_failure_message(stage: UploadStage, error: &StorageError) -> (text: String)
    ensures
        text@ == upload_failure(stage, message_of(error@)),
{
    let message = error.message();
    match stage {
        UploadStage::Configuration => {
            let mut text = join("Configuration error: ", message.as_str());
            text.append(". Please check your .env file in src-tauri/.env");
            text
        },
        UploadStage::Connection => join("Failed to connect to R2: ", message.as_str()),
        UploadStage::Signing => join("Failed to generate upload URL: ", message.as_str()),
    }
}

} // verus!
