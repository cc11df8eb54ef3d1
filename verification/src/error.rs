//! The failures of the engine, and what the protocol layer is told of them.

use vstd::prelude::*;
use vstd::string::*;
use vstd::std_specs::convert::FromSpecImpl;

verus! {

/// Why the metadata index refused a mutation.
#[derive(Clone, Copy, Debug, PartialEq, Eq, Structural)]
pub enum DbError {
    /// A unique column (the path, or the remote handle) already holds the value.
    UniqueViolation,
    /// The durable store behind the index failed.
    Unavailable,
    /// Stored rows do not form an index.
    Inconsistent,
}

/// Every way an operation of the engine can fail.
#[derive(Clone, Copy, Debug, PartialEq, Eq, Structural)]
pub enum Error {
    /// The metadata index failed.
    DB(DbError),
    /// The remote API could not be reached.
    Reqwest,
    /// A stream operation was given an impossible position.
    Io,
    /// A document of the remote side could not be decoded.
    Serde,
    /// No entry has the path or id.
    NotFound,
    /// The path was to be created anew and is already there.
    AlreadyExists,
    /// The remote message carries no attachment.
    DiscordAttachmentNotFound,
    /// The file has no content buffer.
    FileContentIsNone,
    /// The entry has no remote handle yet.
    DiscordMessageIdIsNone,
    /// Local and remote disagree on whether the entry is a directory.
    BadContent,
    /// The remote API answered with a status outside the success range.
    DiscordError,
}

impl Error {
    /// The text shown for each failure.
    pub open spec fn spec_message(self) -> Seq<char> {
        match self {
            Error::DB(DbError::UniqueViolation) => "Database error: unique constraint failed"@,
            Error::DB(DbError::Unavailable) => "Database error: storage unavailable"@,
            Error::DB(DbError::Inconsistent) => "Database error: stored rows are inconsistent"@,
            Error::Reqwest => "Reqwest error"@,
            Error::Io => "IO error"@,
            Error::Serde => "Serde error"@,
            Error::NotFound => "Not found"@,
            Error::AlreadyExists => "Already exists"@,
            Error::DiscordAttachmentNotFound => "Discord attachment not found"@,
            Error::FileContentIsNone => "File content is none"@,
            Error::DiscordMessageIdIsNone => "Discord message id is none"@,
            Error::BadContent => "Bad content"@,
            Error::DiscordError => "Discord error"@,
        }
    }

    /// The text shown for this failure.
    pub fn message(&self) -> (r: String)
        ensures
            r@ == self.spec_message(),
    {
        match self {
            Error::DB(DbError::UniqueViolation) => String::from_str(
                "Database error: unique constraint failed",
            ),
            Error::DB(DbError::Unavailable) => String::from_str(
                "Database error: storage unavailable",
            ),
            Error::DB(DbError::Inconsistent) => String::from_str(
                "Database error: stored rows are inconsistent",
            ),
            Error::Reqwest => String::from_str("Reqwest error"),
            Error::Io => String::from_str("IO error"),
            Error::Serde => String::from_str("Serde error"),
            Error::NotFound => String::from_str("Not found"),
            Error::AlreadyExists => String::from_str("Already exists"),
            Error::DiscordAttachmentNotFound => String::from_str("Discord attachment not found"),
            Error::FileContentIsNone => String::from_str("File content is none"),
            Error::DiscordMessageIdIsNone => String::from_str("Discord message id is none"),
            Error::BadContent => String::from_str("Bad content"),
            Error::DiscordError => String::from_str("Discord error"),
        }
    }
}

/// What the protocol layer is told when an operation fails.
#[derive(Clone, Copy, Debug, PartialEq, Eq, Structural)]
pub enum FsError {
    /// The path does not resolve.
    NotFound,
    /// The path exists and was to be created anew.
    Exists,
    /// The path is not one the filesystem accepts.
    Forbidden,
    /// Anything else.
    GeneralFailure,
}

impl From<Error> for FsError {
    /// Absence and conflict keep their meaning; every other failure is general.
    fn from(value: Error) -> (r: FsError) {
        match value {
            Error::NotFound => FsError::NotFound,
            Error::AlreadyExists => FsError::Exists,
            _ => FsError::GeneralFailure,
        }
    }
}

impl FromSpecImpl<Error> for FsError {
    open spec fn obeys_from_spec() -> bool {
        true
    }

    open spec fn from_spec(value: Error) -> FsError {
        match value {
            Error::NotFound => FsError::NotFound,
            Error::AlreadyExists => FsError::Exists,
            _ => FsError::GeneralFailure,
        }
    }
}

/// The result of an operation of the engine.
pub type Result<T> = std::result::Result<T, Error>;

} // verus!
