//! The faults of the storage layer.

use vstd::prelude::*;

verus! {

/// What a lookup did not find.
#[derive(Clone, Copy, Debug, PartialEq, Eq, Structural)]
pub enum Missing {
    /// The users database has never been written: nobody has registered yet.
    Registry,
    /// The users database exists and holds no row for the identifier.
    User,
    /// No location store exists for the identifier.
    Store,
}

/// The value of the caller that does not have the required shape.
#[derive(Clone, Copy, Debug, PartialEq, Eq, Structural)]
pub enum Invalid {
    /// A label that holds a quotation mark.
    Label,
    /// An identifier that cannot name a directory: it is empty, or holds a
    /// separator, a dot or NUL.
    Identifier,
    /// A coordinate that stands for no number.
    Coordinate,
}

/// Why an operation of the storage layer did not succeed.
#[derive(Clone, Copy, Debug, PartialEq, Eq, Structural)]
pub enum StorageError {
    /// The thing named was not there.
    NotFound(Missing),
    /// A location store already exists for the identifier.
    Conflict,
    /// The medium was locked by another writer; the operation may be retried.
    Busy,
    /// The medium could not be read or written, or holds what it should not.
    StorageFault,
    /// A value supplied by the caller does not have the required shape.
    InvalidInput(Invalid),
}

/// The text of each fault.
pub open spec fn message_text(e: StorageError) -> Seq<char> {
    match e {
        StorageError::NotFound(Missing::Registry) => "Users DB doesn't exist!"@,
        StorageError::NotFound(Missing::User) => "User not in users DB"@,
        StorageError::NotFound(Missing::Store) => "User has no location database"@,
        StorageError::Conflict => "A location database already exists for this user"@,
        StorageError::Busy => "The database is busy. Please try again later."@,
        StorageError::StorageFault => "The database could not be read or written"@,
        StorageError::InvalidInput(Invalid::Label) => "Device ID can't contain special characters (', \")."@,
        StorageError::InvalidInput(Invalid::Identifier) => "The user's identifier is malformed"@,
        StorageError::InvalidInput(Invalid::Coordinate) => "Coordinates must be numbers"@,
    }
}

impl StorageError {
    /// Whether the same call may succeed when it is made again.
    pub fn is_retryable(&self) -> (b: bool)
        ensures
            b == (*self == StorageError::Busy),
    {
        match self {
            StorageError::Busy => true,
            _ => false,
        }
    }

    /// A sentence for logs and response bodies.
    pub fn message(&self) -> (text: String)
        ensures
            text@ == message_text(*self),
    {
        match self {
            StorageError::NotFound(Missing::Registry) => String::from_str("Users DB doesn't exist!"),
            StorageError::NotFound(Missing::User) => String::from_str("User not in users DB"),
            StorageError::NotFound(Missing::Store) => String::from_str(
                "User has no location database",
            ),
            StorageError::Conflict => String::from_str(
                "A location database already exists for this user",
            ),
            StorageError::Busy => String::from_str("The database is busy. Please try again later."),
            StorageError::StorageFault => String::from_str(
                "The database could not be read or written",
            ),
            StorageError::InvalidInput(Invalid::Label) => String::from_str(
                "Device ID can't contain special characters (', \").",
            ),
            StorageError::InvalidInput(Invalid::Identifier) => String::from_str(
                "The user's identifier is malformed",
            ),
            StorageError::InvalidInput(Invalid::Coordinate) => String::from_str(
                "Coordinates must be numbers",
            ),
        }
    }
}

} // verus!
