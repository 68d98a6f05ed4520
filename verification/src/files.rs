//! Where the library's two files live, and what an attempt to write one can
//! come to.

use vstd::prelude::*;

verus! {

/// The directory under the user's home directory that holds both files.
pub fn app_dir_name() -> (name: &'static str)
    ensures
        name@ == ".storage-app"@,
{
    ".storage-app"
}

/// The file, inside the application directory, that holds the configuration.
pub fn config_file_name() -> (name: &'static str)
    ensures
        name@ == "config.json"@,
{
    "config.json"
}

/// The file, inside the application directory, that holds the ledger.
pub fn history_file_name() -> (name: &'static str)
    ensures
        name@ == "history.json"@,
{
    "history.json"
}

/// How an attempt to write one of the two files ended. Each failure holds
/// the reason that the system gave.
#[derive(Debug, PartialEq, Eq)]
pub enum WriteOutcome {
    /// The user's home directory is not known.
    NoHomeDirectory,
    /// The application directory could not be created.
    DirectoryFailed(String),
    /// The value could not be turned into text.
    SerializeFailed(String),
    /// The file could not be written.
    WriteFailed(String),
    /// The file holds the new text.
    Written,
}

} // verus!
