use multi_drive::error::{DbError, Error, FsError};
use multi_drive::text::decimal_string;
use multi_drive::types::{Metadata, Timestamp};
use multi_drive::utils::request_prefix;

#[test]
fn decimal_text_exact_values() {
    assert_eq!(decimal_string(0), "0");
    assert_eq!(decimal_string(7), "7");
    assert_eq!(decimal_string(9), "9");
    assert_eq!(decimal_string(10), "10");
    assert_eq!(decimal_string(42), "42");
    assert_eq!(decimal_string(100), "100");
    assert_eq!(decimal_string(1234567890), "1234567890");
    assert_eq!(decimal_string(usize::MAX), usize::MAX.to_string());
}

#[test]
fn request_prefix_exact_values() {
    assert_eq!(request_prefix("/dav/a/b.txt", "a/b.txt"), Some("/dav/".to_string()));
    assert_eq!(request_prefix("/dav/a", "/a"), Some("/dav".to_string()));
    assert_eq!(request_prefix("/a/b.txt", "a/b.txt"), None);
    assert_eq!(request_prefix("a/b.txt", "a/b.txt"), None);
    assert_eq!(request_prefix("", ""), None);
    assert_eq!(request_prefix("/", ""), None);
    assert_eq!(request_prefix("/x", ""), Some("/x".to_string()));
    assert_eq!(request_prefix("x/", "/"), Some("x".to_string()));
    assert_eq!(request_prefix("/a", "longer than the path"), None);
    assert_eq!(request_prefix("/caf\u{e9}/x", "x"), Some("/caf\u{e9}/".to_string()));
    assert_eq!(request_prefix("/d/\u{e9}\u{e9}", "\u{e9}\u{e9}"), Some("/d/".to_string()));
}

#[test]
fn errors_map_to_protocol_failures() {
    assert_eq!(FsError::from(Error::NotFound), FsError::NotFound);
    assert_eq!(FsError::from(Error::AlreadyExists), FsError::Exists);
    let general = [
        Error::DB(DbError::UniqueViolation),
        Error::DB(DbError::Unavailable),
        Error::DB(DbError::Inconsistent),
        Error::Reqwest,
        Error::Io,
        Error::Serde,
        Error::DiscordAttachmentNotFound,
        Error::FileContentIsNone,
        Error::DiscordMessageIdIsNone,
        Error::BadContent,
        Error::DiscordError,
    ];
    for e in general {
        assert_eq!(FsError::from(e), FsError::GeneralFailure);
    }
}

#[test]
fn error_messages() {
    assert_eq!(Error::NotFound.message(), "Not found");
    assert_eq!(Error::AlreadyExists.message(), "Already exists");
    assert_eq!(Error::DiscordAttachmentNotFound.message(), "Discord attachment not found");
    assert_eq!(Error::FileContentIsNone.message(), "File content is none");
    assert_eq!(Error::DiscordMessageIdIsNone.message(), "Discord message id is none");
    assert_eq!(Error::BadContent.message(), "Bad content");
    assert_eq!(Error::DiscordError.message(), "Discord error");
    assert_eq!(Error::Reqwest.message(), "Reqwest error");
    assert_eq!(Error::Io.message(), "IO error");
    assert_eq!(Error::Serde.message(), "Serde error");
    assert_eq!(
        Error::DB(DbError::UniqueViolation).message(),
        "Database error: unique constraint failed"
    );
    assert_eq!(Error::DB(DbError::Unavailable).message(), "Database error: storage unavailable");
    assert_eq!(
        Error::DB(DbError::Inconsistent).message(),
        "Database error: stored rows are inconsistent"
    );
}

#[test]
fn absent_modified_time_is_a_general_failure_for_the_protocol() {
    let m = Metadata { len: 1, modified: None, is_dir: false };
    assert_eq!(m.modified(), Err(FsError::GeneralFailure));
    let t = Timestamp { secs: -1, nanos: 999_999_999 };
    let n = Metadata { len: 1, modified: Some(t), is_dir: true };
    assert_eq!(n.modified(), Ok(t));
    assert_eq!(n.len(), 1);
    assert!(n.is_dir());
}
