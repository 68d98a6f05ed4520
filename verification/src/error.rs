//! The ways in which an operation of this library fails.

use vstd::prelude::*;

verus! {

/// A failure, with the text that describes it.
///
/// `ConfigMissing` holds the name of the variable that no source provided;
/// every other kind holds the whole message.
#[derive(Debug, PartialEq, Eq)]
pub enum StorageError {
    /// A required setting is absent, or empty, in every source.
    ConfigMissing(String),
    /// The configuration file could not be found, read or written.
    ConfigIoFailure(String),
    /// The configuration file is there and does not parse.
    ConfigUnreadable(String),
    /// The client could not be built or could not reach the endpoint.
    ConnectionFailure(String),
    /// No pre-signed address was issued.
    SigningFailure(String),
    /// The remote object was not deleted.
    DeleteFailure(String),
    /// The ledger file could not be read or written.
    LedgerIoFailure(String),
    /// The ledger file is there and does not parse.
    LedgerParseFailure(String),
}

/// A `StorageError` as mathematical values.
pub enum Failure {
    ConfigMissing(Seq<char>),
    ConfigIoFailure(Seq<char>),
    ConfigUnreadable(Seq<char>),
    ConnectionFailure(Seq<char>),
    SigningFailure(Seq<char>),
    DeleteFailure(Seq<char>),
    LedgerIoFailure(Seq<char>),
    LedgerParseFailure(Seq<char>),
}

impl View for StorageError {
    type V = Failure;

    open spec fn view(&self) -> Failure {
        match self {
            StorageError::ConfigMissing(s) => Failure::ConfigMissing(s@),
            StorageError::ConfigIoFailure(s) => Failure::ConfigIoFailure(s@),
            StorageError::ConfigUnreadable(s) => Failure::ConfigUnreadable(s@),
            StorageError::ConnectionFailure(s) => Failure::ConnectionFailure(s@),
            StorageError::SigningFailure(s) => Failure::SigningFailure(s@),
            StorageError::DeleteFailure(s) => Failure::DeleteFailure(s@),
            StorageError::LedgerIoFailure(s) => Failure::LedgerIoFailure(s@),
            StorageError::LedgerParseFailure(s) => Failure::LedgerParseFailure(s@),
        }
    }
}

/// What follows the variable's name in the message of a missing setting.
pub open spec fn missing_suffix() -> Seq<char> {
    " not set. Please configure your credentials."@
}

/// The message of a failure.
pub open spec fn message_of(failure: Failure) -> Seq<char> {
    match failure {
        Failure::ConfigMissing(variable) => variable + missing_suffix(),
        Failure::ConfigIoFailure(text) => text,
        Failure::ConfigUnreadable(text) => text,
        Failure::ConnectionFailure(text) => text,
        Failure::SigningFailure(text) => text,
        Failure::DeleteFailure(text) => text,
        Failure::LedgerIoFailure(text) => text,
        Failure::LedgerParseFailure(text) => text,
    }
}

/// Whether `result` is `expected`, the error taken by its view.
pub open spec fn unit_result_is(
    result: Result<(), StorageError>,
    expected: Result<(), Failure>,
) -> bool {
    match result {
        Ok(_) => expected is Ok,
        Err(error) => expected == Err::<(), Failure>(error@),
    }
}

/// `head` followed by `tail`.
pub fn join(head: &str, tail: &str) -> (text: String)
    ensures
        text@ == head@ + tail@,
{
    let mut text = head.to_owned();
    text.append(tail);
    text
}

impl StorageError {
    /// The message that describes this failure to the user.
    pub fn message(&self) -> (text: String)
        ensures
            text@ == message_of(self@),
    {
        match self {
            StorageError::ConfigMissing(variable) => join(
                variable.as_str(),
                " not set. Please configure your credentials.",
            ),
            StorageError::ConfigIoFailure(text) => text.clone(),
            StorageError::ConfigUnreadable(text) => text.clone(),
            StorageError::ConnectionFailure(text) => text.clone(),
            StorageError::SigningFailure(text) => text.clone(),
            StorageError::DeleteFailure(text) => text.clone(),
            StorageError::LedgerIoFailure(text) => text.clone(),
            StorageError::LedgerParseFailure(text) => text.clone(),
        }
    }
}

impl Clone for StorageError {
    fn clone(&self) -> (copy: Self)
        ensures
            copy@ == self@,
    {
        match self {
            StorageError::ConfigMissing(s) => StorageError::ConfigMissing(s.clone()),
            StorageError::ConfigIoFailure(s) => StorageError::ConfigIoFailure(s.clone()),
            StorageError::ConfigUnreadable(s) => StorageError::ConfigUnreadable(s.clone()),
            StorageError::ConnectionFailure(s) => StorageError::ConnectionFailure(s.clone()),
            StorageError::SigningFailure(s) => StorageError::SigningFailure(s.clone()),
            StorageError::DeleteFailure(s) => StorageError::DeleteFailure(s.clone()),
            StorageError::LedgerIoFailure(s) => StorageError::LedgerIoFailure(s.clone()),
            StorageError::LedgerParseFailure(s) => StorageError::LedgerParseFailure(s.clone()),
        }
    }
}

} // verus!
