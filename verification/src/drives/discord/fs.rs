//! The virtual filesystem: paths resolved against the metadata index.

use vstd::prelude::*;
use vstd::string::*;
use crate::db::{DB, Row, RowView, children, lemma_insert_wf};
use crate::db::{lemma_row_by_path, new_row, row_by_path};
use crate::drives::discord::client::DiscordClient;
use crate::drives::discord::file::{DiscordFile, DiscordFileView};
use crate::error::FsError;
use crate::paths::{parent_of, path_parent, percent_decode, percent_decoded};
use crate::types::{DirEntry, DirEntryView, File, FileView, Metadata, entries_view};

verus! {

/// How a path is to be opened.
#[derive(Clone, Copy, Debug)]
pub struct OpenOptions {
    pub read: bool,
    pub write: bool,
    /// Start at the recorded end of the file.
    pub append: bool,
    pub truncate: bool,
    /// Create the entry if it is not there.
    pub create: bool,
    /// The entry must not be there yet.
    pub create_new: bool,
}

/// The metadata an entry is created with: an empty file.
pub open spec fn created_metadata() -> Metadata {
    Metadata { len: 0, modified: None, is_dir: false }
}

/// The session that an open makes over a row: unloaded, or new where the
/// row has no handle; positioned at the recorded length for an append, else
/// at the start.
pub open spec fn session_over(row: RowView, options: OpenOptions) -> DiscordFileView {
    DiscordFileView::start(
        row.msg_id,
        FileView {
            dir_entry: row.entry,
            content: None,
            cursor_pos: if options.append {
                row.entry.metadata.len
            } else {
                0
            },
        },
    )
}

/// The id of the entry that a new entry at `path` lies under: that of the
/// entry at the parent path, which must be there; none where the parent
/// path is empty. A path without a parent has no place in the hierarchy.
pub open spec fn parent_model(rows: Seq<RowView>, path: Seq<char>) -> Result<Option<usize>, FsError> {
    match path_parent(path) {
        None => Err(FsError::NotFound),
        Some(parent) => if parent.len() == 0 {
            Ok(None)
        } else {
            match row_by_path(rows, parent) {
                None => Err(FsError::NotFound),
                Some(row) => Ok(Some(row.entry.id)),
            }
        },
    }
}

/// The metadata at a path as the protocol layer names it.
pub open spec fn metadata_model(rows: Seq<RowView>, path: Seq<char>) -> Result<Metadata, FsError> {
    match percent_decoded(path) {
        None => Err(FsError::Forbidden),
        Some(p) => match row_by_path(rows, p) {
            None => Err(FsError::NotFound),
            Some(row) => Ok(row.entry.metadata),
        },
    }
}

/// The entries directly under the directory at a path.
pub open spec fn read_dir_model(rows: Seq<RowView>, path: Seq<char>) -> Result<
    Seq<DirEntryView>,
    FsError,
> {
    match percent_decoded(path) {
        None => Err(FsError::Forbidden),
        Some(p) => match row_by_path(rows, p) {
            None => Err(FsError::NotFound),
            Some(row) => Ok(children(rows, row.entry.id)),
        },
    }
}

/// Opening a decoded path: the rows afterwards, and the session or the
/// failure.
///
/// An entry that is there is opened, unless it was to be created anew. One
/// that is not there is created where creation was asked for and its parent
/// resolves: as an empty file under the parent. The open is then tried
/// again on the rows with the entry, by the same rules.
pub open spec fn open_decoded(rows: Seq<RowView>, p: Seq<char>, options: OpenOptions) -> (
    Seq<RowView>,
    Result<DiscordFileView, FsError>,
) {
    match row_by_path(rows, p) {
        Some(row) => if options.create_new {
            (rows, Err(FsError::Exists))
        } else {
            (rows, Ok(session_over(row, options)))
        },
        None => if !(options.create || options.create_new) {
            (rows, Err(FsError::NotFound))
        } else {
            match parent_model(rows, p) {
                Err(e) => (rows, Err(e)),
                Ok(parent_id) => {
                    let row = new_row(rows, parent_id, p, created_metadata());
                    if options.create_new {
                        (rows.push(row), Err(FsError::Exists))
                    } else {
                        (rows.push(row), Ok(session_over(row, options)))
                    }
                },
            }
        },
    }
}

/// Opening a path as the protocol layer names it.
pub open spec fn open_model(rows: Seq<RowView>, path: Seq<char>, options: OpenOptions) -> (
    Seq<RowView>,
    Result<DiscordFileView, FsError>,
) {
    match percent_decoded(path) {
        None => (rows, Err(FsError::Forbidden)),
        Some(p) => open_decoded(rows, p, options),
    }
}

/// The virtual filesystem over one index and one channel.
#[derive(Debug)]
pub struct DiscordFs {
    pub db: DB,
    pub client: DiscordClient,
}

impl DiscordFs {
    /// A filesystem over the index, keeping its objects in the channel.
    pub fn new(db: DB, token: String, channel_id: String) -> (r: Self)
        ensures
            r.db == db,
            r.client.token() == token@,
            r.client.channel_id() == channel_id@,
    {
        let client = DiscordClient::new(token, channel_id);
        Self { db, client }
    }

    /// The metadata of the entry at `path`. Fails with `Forbidden` where
    /// the path does not decode, with `NotFound` where it does not resolve.
    pub fn metadata(&self, path: &str) -> (r: Result<Metadata, FsError>)
        requires
            self.db.wf(),
        ensures
            r == metadata_model(self.db@, path@),
    {
        let decoded = match percent_decode(path) {
            Some(p) => p,
            None => {
                return Err(FsError::Forbidden);
            },
        };
        match self.db.get_discord_file_by_path(decoded) {
            Ok(Some(file)) => Ok(file.metadata()),
            Ok(None) => Err(FsError::NotFound),
            Err(e) => Err(FsError::from(e)),
        }
    }

    /// The entries directly under the directory at `path`, in the order of
    /// their creation. Fails with `Forbidden` where the path does not
    /// decode, with `NotFound` where it does not resolve.
    pub fn read_dir(&self, path: &str) -> (r: Result<Vec<DirEntry>, FsError>)
        requires
            self.db.wf(),
        ensures
            match r {
                Ok(v) => read_dir_model(self.db@, path@) == Ok::<Seq<DirEntryView>, FsError>(
                    entries_view(v@),
                ),
                Err(e) => read_dir_model(self.db@, path@) == Err::<Seq<DirEntryView>, FsError>(e),
            },
    {
        let decoded = match percent_decode(path) {
            Some(p) => p,
            None => {
                return Err(FsError::Forbidden);
            },
        };
        let dir = match self.db.get_row_by_path(&decoded) {
            Some(row) => row.entry,
            None => {
                return Err(FsError::NotFound);
            },
        };
        match self.db.get_dir_entries_by_parent_id(dir.id) {
            Ok(v) => Ok(v),
            Err(e) => Err(FsError::from(e)),
        }
    }

    /// The id of the entry a new entry at `path` lies under.
    fn resolve_parent(&self, path: &String) -> (r: Result<Option<usize>, FsError>)
        requires
            self.db.wf(),
        ensures
            r == parent_model(self.db@, path@),
    {
        let parent_path = match parent_of(path.as_str()) {
            Some(p) => p,
            None => {
                return Err(FsError::NotFound);
            },
        };
        if parent_path.as_str().is_empty() {
            return Ok(None);
        }
        match self.db.get_row_by_path(&parent_path) {
            Some(row) => Ok(Some(row.entry.id)),
            None => Err(FsError::NotFound),
        }
    }

    /// Opens the entry at `path`, creating it where the options ask for it.
    ///
    /// Fails with `Forbidden` where the path does not decode; with `Exists`
    /// where the entry was to be created anew and is there; with `NotFound`
    /// where it is not there and no creation was asked for, or where the
    /// parent of the entry to create is not there, in which case nothing is
    /// created. A created entry is an empty file. The session is positioned
    /// at the recorded length for an append, else at the start.
    pub fn open(&mut self, path: &str, options: OpenOptions) -> (r: Result<DiscordFile, FsError>)
        requires
            old(self).db.wf(),
            old(self).db@.len() < usize::MAX,
        ensures
            final(self).db.wf(),
            final(self).client == old(self).client,
            match r {
                Ok(f) => open_model(old(self).db@, path@, options) == (
                    final(self).db@,
                    Ok::<DiscordFileView, FsError>(f@),
                ) && f@.wf(),
                Err(e) => open_model(old(self).db@, path@, options) == (
                    final(self).db@,
                    Err::<DiscordFileView, FsError>(e),
                ),
            },
    {
        let decoded = match percent_decode(path) {
            Some(p) => p,
            None => {
                return Err(FsError::Forbidden);
            },
        };
        match self.db.get_row_by_path(&decoded) {
            Some(row) => open_row(row, options),
            None => {
                if !(options.create || options.create_new) {
                    return Err(FsError::NotFound);
                }
                let parent_id = match self.resolve_parent(&decoded) {
                    Ok(id) => id,
                    Err(e) => {
                        return Err(e);
                    },
                };
                let ghost before = self.db@;
                let created = Metadata { len: 0, modified: None, is_dir: false };
                proof {
                    lemma_insert_wf(before, parent_id, decoded@, created);
                }
                match self.db.insert_dir_entry(parent_id, decoded.clone(), created) {
                    Ok(()) => {},
                    Err(e) => {
                        return Err(FsError::from(e));
                    },
                }
                proof {
                    lemma_row_by_path(self.db@, before.len() as int);
                }
                match self.db.get_row_by_path(&decoded) {
                    Some(row) => open_row(row, options),
                    None => Err(FsError::NotFound),
                }
            },
        }
    }
}

/// A working copy of an entry with nothing loaded, positioned at `pos`.
fn file_over(entry: DirEntry, pos: u64) -> (r: File)
    ensures
        r@ == (FileView { dir_entry: entry@, content: None, cursor_pos: pos }),
{
    File { dir_entry: entry, content: None, cursor_pos: pos }
}

/// Opens an entry that is there.
fn open_row(row: Row, options: OpenOptions) -> (r: Result<DiscordFile, FsError>)
    ensures
        options.create_new ==> r is Err && r->Err_0 == FsError::Exists,
        !options.create_new ==> r is Ok && r->Ok_0@ == session_over(row@, options) && r->Ok_0@.wf(),
{
    if options.create_new {
        return Err(FsError::Exists);
    }
    let pos: u64 = if options.append {
        row.entry.metadata.len
    } else {
        0
    };
    Ok(DiscordFile::new(row.msg_id, file_over(row.entry, pos)))
}

} // verus!
