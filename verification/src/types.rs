//! The records the engine works on: metadata, directory entries, and the
//! working copy of one file.

use vstd::prelude::*;
use vstd::string::*;
use crate::cursor::{Cursor, CursorView};
use crate::error::FsError;
use crate::paths::{file_name_of, path_file_name};

verus! {

/// An instant in UTC: whole seconds since the Unix epoch and the nanoseconds
/// within the second.
#[derive(Clone, Copy, Debug, PartialEq, Eq, Structural)]
pub struct Timestamp {
    pub secs: i64,
    pub nanos: u32,
}

/// What is known of an entry besides its place in the hierarchy.
#[derive(Clone, Copy, Debug, PartialEq, Eq)]
pub struct Metadata {
    /// Byte length; authoritative for files, 0 by convention for directories.
    pub len: u64,
    /// Time of the last modification, where one is known.
    pub modified: Option<Timestamp>,
    /// Whether the entry is a directory. Never changes for an entry.
    pub is_dir: bool,
}

impl Metadata {
    /// The metadata on the heap.
    pub fn boxed(self) -> (r: Box<Self>)
        ensures
            *r == self,
    {
        Box::new(self)
    }

    /// The byte length.
    pub fn len(&self) -> (r: u64)
        ensures
            r == self.len,
    {
        self.len
    }

    /// The time of the last modification. The protocol layer has no way to
    /// say "unknown", so absence is reported to it as a general failure.
    pub fn modified(&self) -> (r: Result<Timestamp, FsError>)
        ensures
            r == match self.modified {
                Some(t) => Ok::<Timestamp, FsError>(t),
                None => Err::<Timestamp, FsError>(FsError::GeneralFailure),
            },
    {
        match self.modified {
            Some(t) => Ok(t),
            None => Err(FsError::GeneralFailure),
        }
    }

    /// Whether the entry is a directory.
    pub fn is_dir(&self) -> (r: bool)
        ensures
            r == self.is_dir,
    {
        self.is_dir
    }
}

/// A directory entry as a value.
pub struct DirEntryView {
    pub path: Seq<char>,
    pub id: usize,
    pub parent_id: Option<usize>,
    pub metadata: Metadata,
}

/// One path of the hierarchy, file or directory.
#[derive(Debug)]
pub struct DirEntry {
    /// The full path; no two entries share one.
    pub path: String,
    /// The key of the entry, stable for its lifetime.
    pub id: usize,
    /// The entry this one lies under; `None` for the root.
    pub parent_id: Option<usize>,
    pub metadata: Metadata,
}

impl View for DirEntry {
    type V = DirEntryView;

    open spec fn view(&self) -> DirEntryView {
        DirEntryView {
            path: self.path@,
            id: self.id,
            parent_id: self.parent_id,
            metadata: self.metadata,
        }
    }
}

impl Clone for DirEntry {
    fn clone(&self) -> (r: Self)
        ensures
            r@ == self@,
    {
        DirEntry {
            path: self.path.clone(),
            id: self.id,
            parent_id: self.parent_id,
            metadata: self.metadata,
        }
    }
}

/// Entries as values, in their order.
pub open spec fn entries_view(v: Seq<DirEntry>) -> Seq<DirEntryView> {
    v.map_values(|e: DirEntry| e@)
}

impl DirEntryView {
    /// The bytes of the entry's name: the final component of its path in
    /// UTF-8, empty where the path has none.
    pub open spec fn name(self) -> Seq<u8> {
        match path_file_name(self.path) {
            Some(n) => vstd::utf8::encode_utf8(n),
            None => Seq::empty(),
        }
    }
}

impl DirEntry {
    /// The entry's name as the protocol layer lists it.
    pub fn name(&self) -> (r: Vec<u8>)
        ensures
            r@ == self@.name(),
    {
        match file_name_of(self.path.as_str()) {
            Some(n) => n.as_str().as_bytes_vec(),
            None => Vec::new(),
        }
    }

    /// The entry's metadata.
    pub fn metadata(&self) -> (r: Metadata)
        ensures
            r == self.metadata,
    {
        self.metadata
    }
}

/// The working copy of a file as a value.
pub struct FileView {
    pub dir_entry: DirEntryView,
    pub content: Option<CursorView>,
    pub cursor_pos: u64,
}

impl FileView {
    /// The position in force: that of the content buffer where one is
    /// loaded, else the recorded one.
    pub open spec fn position(self) -> u64 {
        match self.content {
            Some(c) => c.pos,
            None => self.cursor_pos,
        }
    }

    /// The working copy after its content is replaced. New bytes are taken
    /// up at the position in force; dropping the content records that
    /// position for later.
    pub open spec fn with_content(self, new: Option<Seq<u8>>) -> FileView {
        match new {
            Some(bytes) => FileView {
                dir_entry: self.dir_entry,
                content: Some(CursorView { bytes, pos: self.position() }),
                cursor_pos: self.cursor_pos,
            },
            None => FileView {
                dir_entry: self.dir_entry,
                content: None,
                cursor_pos: self.position(),
            },
        }
    }
}

/// The working copy of one file: a snapshot of its entry, the content where
/// it is loaded, and the position to take up when it is.
#[derive(Debug)]
pub struct File {
    pub dir_entry: DirEntry,
    /// The loaded content. Replace it with `set_content`.
    pub content: Option<Cursor>,
    /// The position kept while no content is loaded; not maintained while
    /// there is.
    pub cursor_pos: u64,
}

impl View for File {
    type V = FileView;

    open spec fn view(&self) -> FileView {
        FileView {
            dir_entry: self.dir_entry@,
            content: match self.content {
                Some(c) => Some(c@),
                None => None,
            },
            cursor_pos: self.cursor_pos,
        }
    }
}

impl File {
    /// Replaces the content, keeping the position in force.
    pub fn set_content(&mut self, new: Option<Vec<u8>>)
        ensures
            final(self)@ == old(self)@.with_content(
                match new {
                    Some(n) => Some(n@),
                    None => None,
                },
            ),
    {
        let pos: u64 = match &self.content {
            Some(o) => o.position(),
            None => self.cursor_pos,
        };
        match new {
            Some(n) => {
                let mut cursor = Cursor::new(n);
                cursor.set_position(pos);
                self.content = Some(cursor);
            },
            None => {
                self.cursor_pos = pos;
                self.content = None;
            },
        }
    }

    /// The position in force.
    pub fn position(&self) -> (r: u64)
        ensures
            r == self@.position(),
    {
        match &self.content {
            Some(o) => o.position(),
            None => self.cursor_pos,
        }
    }

    /// The metadata of the entry.
    pub fn metadata(&self) -> (r: &Metadata)
        ensures
            *r == self.dir_entry.metadata,
    {
        &self.dir_entry.metadata
    }

    /// The metadata of the entry, to be changed in place.
    pub fn metadata_mut(&mut self) -> (r: &mut Metadata)
        ensures
            *r == old(self).dir_entry.metadata,
            final(self).dir_entry.metadata == *final(r),
            final(self).dir_entry.path == old(self).dir_entry.path,
            final(self).dir_entry.id == old(self).dir_entry.id,
            final(self).dir_entry.parent_id == old(self).dir_entry.parent_id,
            final(self).content == old(self).content,
            final(self).cursor_pos == old(self).cursor_pos,
    {
        &mut self.dir_entry.metadata
    }

    /// The id of the entry.
    pub fn id(&self) -> (r: &usize)
        ensures
            *r == self.dir_entry.id,
    {
        &self.dir_entry.id
    }
}

} // verus!
