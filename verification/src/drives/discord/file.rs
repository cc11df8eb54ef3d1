//! The cached file session: one open handle's working copy and its
//! reconciliation with the remote object.
//!
//! The session never talks to the remote side itself. Each operation that
//! needs it returns what is to be done there, and the caller hands the
//! outcome back through the matching method. Between the two the session is
//! in a state of its own, so that a second caller finds the work under way
//! and starts none.

use vstd::prelude::*;
use vstd::slice::*;
use vstd::string::*;
use crate::cursor::{CursorView, SeekFrom, checked_offset, offset_position};
use crate::db::{DB, RowView, attach_model, fresh_file, row_by_id, row_by_path, text_view};
use crate::drives::discord::json::{MsgJson, attachments_view};
use crate::error::{Error, Result};
use crate::text::{decimal, decimal_string};
use crate::types::{File, FileView, Metadata, DirEntryView};

verus! {

/// Where a session stands with respect to the remote object.
#[derive(Clone, Copy, Debug, PartialEq, Eq, Structural)]
pub enum LoadState {
    /// The entry has no remote object yet; the content starts out empty.
    New,
    /// The remote object exists and nothing of it is held.
    Unloaded,
    /// A load is under way.
    Loading,
    /// The remote object exists and its content, if it has any, is held.
    Loaded,
}

/// What a load asks of the remote side next, as a value.
pub enum LoadActionView {
    Nothing,
    GetMessage(Seq<char>),
    GetAttachment(Seq<char>),
}

/// What a load asks of the remote side next.
#[derive(Debug)]
pub enum LoadAction {
    /// Nothing: the load is done, under way elsewhere, or not needed.
    Nothing,
    /// Fetch the message with this handle.
    GetMessage(String),
    /// Download the attachment at this address.
    GetAttachment(String),
}

impl View for LoadAction {
    type V = LoadActionView;

    open spec fn view(&self) -> LoadActionView {
        match self {
            LoadAction::Nothing => LoadActionView::Nothing,
            LoadAction::GetMessage(h) => LoadActionView::GetMessage(h@),
            LoadAction::GetAttachment(u) => LoadActionView::GetAttachment(u@),
        }
    }
}

/// What a flush asks of the remote side, as a value.
pub enum SendActionView {
    Create(Metadata, Seq<(Seq<char>, Seq<u8>)>),
    Edit(Seq<char>, Metadata, Seq<(Seq<char>, Seq<u8>)>),
}

/// What a flush asks of the remote side: the sidecar metadata and the named
/// attachments, to be created as a new object or put in place of the one
/// with the handle.
#[derive(Debug)]
pub enum SendAction {
    Create(Metadata, Vec<(String, Vec<u8>)>),
    Edit(String, Metadata, Vec<(String, Vec<u8>)>),
}

impl View for SendAction {
    type V = SendActionView;

    open spec fn view(&self) -> SendActionView {
        match self {
            SendAction::Create(m, a) => SendActionView::Create(*m, attachments_view(a@)),
            SendAction::Edit(h, m, a) => SendActionView::Edit(h@, *m, attachments_view(a@)),
        }
    }
}

/// The outcome of an operation with the value it carries taken as a value.
pub open spec fn result_view<T: View>(r: Result<T>) -> Result<T::V> {
    match r {
        Ok(t) => Ok(t@),
        Err(e) => Err(e),
    }
}

/// A session as a value.
pub struct DiscordFileView {
    pub msg_id: Option<Seq<char>>,
    pub cached: FileView,
    pub loaded: LoadState,
    pub incoming: Option<Metadata>,
}

impl DiscordFileView {
    /// What holds of every session that `new` made and the methods changed.
    pub open spec fn wf(self) -> bool {
        match self.loaded {
            LoadState::New => self.msg_id is None && self.cached.content is Some
                && self.incoming is None,
            LoadState::Unloaded => self.msg_id is Some && self.cached.content is None
                && self.incoming is None,
            LoadState::Loading => self.msg_id is Some && self.cached.content is None,
            LoadState::Loaded => self.msg_id is Some && self.incoming is None && (
            !self.cached.dir_entry.metadata.is_dir ==> self.cached.content is Some),
        }
    }

    /// The session over a working copy. Without a handle the entry is new
    /// and its content starts out empty; with one, the session counts as
    /// loaded exactly if the working copy brings content.
    pub open spec fn start(msg_id: Option<Seq<char>>, cached: FileView) -> DiscordFileView {
        match msg_id {
            None => DiscordFileView {
                msg_id,
                cached: if cached.content is None {
                    cached.with_content(Some(Seq::empty()))
                } else {
                    cached
                },
                loaded: LoadState::New,
                incoming: None,
            },
            Some(_) => DiscordFileView {
                msg_id,
                cached,
                loaded: if cached.content is Some {
                    LoadState::Loaded
                } else {
                    LoadState::Unloaded
                },
                incoming: None,
            },
        }
    }

    /// The session with another load state and sidecar in waiting.
    pub open spec fn at(self, loaded: LoadState, incoming: Option<Metadata>) -> DiscordFileView {
        DiscordFileView { msg_id: self.msg_id, cached: self.cached, loaded, incoming }
    }

    /// The session with other metadata in its snapshot.
    pub open spec fn with_metadata(self, metadata: Metadata) -> DiscordFileView {
        DiscordFileView {
            msg_id: self.msg_id,
            cached: FileView {
                dir_entry: DirEntryView {
                    path: self.cached.dir_entry.path,
                    id: self.cached.dir_entry.id,
                    parent_id: self.cached.dir_entry.parent_id,
                    metadata,
                },
                content: self.cached.content,
                cursor_pos: self.cached.cursor_pos,
            },
            loaded: self.loaded,
            incoming: self.incoming,
        }
    }

    /// The session with another content buffer.
    pub open spec fn with_buffer(self, content: Option<CursorView>) -> DiscordFileView {
        DiscordFileView {
            msg_id: self.msg_id,
            cached: FileView {
                dir_entry: self.cached.dir_entry,
                content,
                cursor_pos: self.cached.cursor_pos,
            },
            loaded: self.loaded,
            incoming: self.incoming,
        }
    }

    /// Starting a load. Only an unloaded session starts one, and asks for
    /// its message; in every other state nothing happens.
    pub open spec fn load_model(self) -> (DiscordFileView, LoadActionView) {
        if self.loaded == LoadState::Unloaded && self.msg_id is Some {
            (self.at(LoadState::Loading, None), LoadActionView::GetMessage(self.msg_id->Some_0))
        } else {
            (self, LoadActionView::Nothing)
        }
    }

    /// Whether the session waits for the message of a load.
    pub open spec fn awaits_message(self) -> bool {
        self.loaded == LoadState::Loading && self.incoming is None
    }

    /// Whether the session waits for the attachment of a load.
    pub open spec fn awaits_attachment(self) -> bool {
        self.loaded == LoadState::Loading && self.incoming is Some
    }

    /// The message of a load has come: `first_url` is the address of its
    /// first attachment, `sidecar` its text decoded, `None` where it could
    /// not be. A sidecar that disagrees with the local record on `is_dir`
    /// is corruption. A directory is then loaded; a file needs its
    /// attachment, and the lack of one is a failure. Every failure leaves
    /// the session unloaded. A session that waits for no message ignores it.
    pub open spec fn message_model(
        self,
        first_url: Option<Seq<char>>,
        sidecar: Option<Metadata>,
    ) -> (DiscordFileView, Result<LoadActionView>) {
        if !self.awaits_message() {
            (self, Ok(LoadActionView::Nothing))
        } else if sidecar is None {
            (self.at(LoadState::Unloaded, None), Err(Error::Serde))
        } else if sidecar->Some_0.is_dir != self.cached.dir_entry.metadata.is_dir {
            (self.at(LoadState::Unloaded, None), Err(Error::BadContent))
        } else if sidecar->Some_0.is_dir {
            (
                self.with_metadata(sidecar->Some_0).at(LoadState::Loaded, None),
                Ok(LoadActionView::Nothing),
            )
        } else if first_url is None {
            (self.at(LoadState::Unloaded, None), Err(Error::DiscordAttachmentNotFound))
        } else {
            (
                self.at(LoadState::Loading, sidecar),
                Ok(LoadActionView::GetAttachment(first_url->Some_0)),
            )
        }
    }

    /// The attachment of a load has come: its bytes become the content, at
    /// the recorded position, the sidecar in waiting becomes the metadata,
    /// and the session is loaded. A session that waits for no attachment
    /// ignores it.
    pub open spec fn attachment_model(self, bytes: Seq<u8>) -> DiscordFileView {
        if self.awaits_attachment() {
            DiscordFileView {
                msg_id: self.msg_id,
                cached: self.with_metadata(self.incoming->Some_0).cached.with_content(Some(bytes)),
                loaded: LoadState::Loaded,
                incoming: None,
            }
        } else {
            self
        }
    }

    /// The remote side failed during a load: the session is unloaded again.
    pub open spec fn failed_model(self) -> DiscordFileView {
        if self.loaded == LoadState::Loading {
            self.at(LoadState::Unloaded, None)
        } else {
            self
        }
    }

    /// What is sent for the session: its metadata, and its content as the
    /// one attachment, named by the decimal id of the entry.
    pub open spec fn msg_data_model(self) -> Result<(Metadata, Seq<(Seq<char>, Seq<u8>)>)> {
        match self.cached.content {
            None => Err(Error::FileContentIsNone),
            Some(c) => Ok(
                (
                    self.cached.dir_entry.metadata,
                    seq![(decimal(self.cached.dir_entry.id as nat), c.bytes)],
                ),
            ),
        }
    }

    /// What creating the remote object asks for.
    pub open spec fn send_create_model(self) -> Result<SendActionView> {
        match self.msg_data_model() {
            Err(e) => Err(e),
            Ok(d) => Ok(SendActionView::Create(d.0, d.1)),
        }
    }

    /// What updating the remote object asks for. Without a handle there is
    /// nothing to update.
    pub open spec fn send_edit_model(self) -> Result<SendActionView> {
        match self.msg_data_model() {
            Err(e) => Err(e),
            Ok(d) => match self.msg_id {
                None => Err(Error::DiscordMessageIdIsNone),
                Some(h) => Ok(SendActionView::Edit(h, d.0, d.1)),
            },
        }
    }

    /// What a flush asks for: an update where there is a handle, else a
    /// creation.
    pub open spec fn send_model(self) -> Result<SendActionView> {
        if self.msg_id is Some {
            self.send_edit_model()
        } else {
            self.send_create_model()
        }
    }

    /// The remote object was created under `handle`: the session takes the
    /// handle and, if it was new, is loaded; the index attaches the handle
    /// to the entry, and its refusal is the outcome.
    pub open spec fn created_model(self, rows: Seq<RowView>, handle: Seq<char>) -> (
        DiscordFileView,
        Seq<RowView>,
        Result<()>,
    ) {
        let attached = attach_model(rows, self.cached.dir_entry.id, handle);
        (
            DiscordFileView {
                msg_id: Some(handle),
                cached: self.cached,
                loaded: if self.loaded == LoadState::New {
                    LoadState::Loaded
                } else {
                    self.loaded
                },
                incoming: self.incoming,
            },
            attached.0,
            attached.1,
        )
    }

    /// A write: the bytes go into the content at its position, and the
    /// flush that follows is the outcome. Without content there is nothing
    /// to write to.
    pub open spec fn write_model(self, buf: Seq<u8>) -> (DiscordFileView, Result<SendActionView>) {
        match self.cached.content {
            None => (self, Err(Error::FileContentIsNone)),
            Some(c) => if !c.can_write(buf.len()) {
                (self, Err(Error::Io))
            } else {
                let after = self.with_buffer(Some(c.after_write(buf)));
                (after, after.send_model())
            },
        }
    }

    /// A read of up to `count` bytes at the position. An entry without a
    /// remote object cannot be read, nor one without content.
    pub open spec fn read_model(self, count: usize) -> (DiscordFileView, Result<Seq<u8>>) {
        if self.msg_id is None {
            (self, Err(Error::DiscordMessageIdIsNone))
        } else {
            match self.cached.content {
                None => (self, Err(Error::FileContentIsNone)),
                Some(c) => (self.with_buffer(Some(c.after_read(count))), Ok(c.read_out(count))),
            }
        }
    }

    /// The position a seek moves to. With content it is measured on the
    /// content; without, on the recorded position and the recorded length.
    pub open spec fn seek_target(self, from: SeekFrom) -> Option<u64> {
        match self.cached.content {
            Some(c) => c.seek_target(from),
            None => match from {
                SeekFrom::Start(n) => Some(n),
                SeekFrom::End(d) => offset_position(self.cached.dir_entry.metadata.len, d),
                SeekFrom::Current(d) => offset_position(self.cached.cursor_pos, d),
            },
        }
    }

    /// A seek: the position in force moves to the target; an impossible
    /// target is a failure and moves nothing.
    pub open spec fn seek_model(self, from: SeekFrom) -> (DiscordFileView, Result<u64>) {
        match self.seek_target(from) {
            None => (self, Err(Error::Io)),
            Some(p) => match self.cached.content {
                Some(c) => (self.with_buffer(Some(CursorView { bytes: c.bytes, pos: p })), Ok(p)),
                None => (
                    DiscordFileView {
                        msg_id: self.msg_id,
                        cached: FileView {
                            dir_entry: self.cached.dir_entry,
                            content: None,
                            cursor_pos: p,
                        },
                        loaded: self.loaded,
                        incoming: self.incoming,
                    },
                    Ok(p),
                ),
            },
        }
    }

    /// What an explicit flush asks for: nothing where no content is held.
    pub open spec fn flush_model(self) -> Result<Option<SendActionView>> {
        if self.cached.content is None {
            Ok(None)
        } else {
            match self.send_model() {
                Ok(a) => Ok(Some(a)),
                Err(e) => Err(e),
            }
        }
    }
}

/// The session that a lookup makes over a row: nothing loaded, positioned
/// at the start; new where the row has no handle.
pub open spec fn session_of(row: Option<RowView>) -> Option<DiscordFileView> {
    match row {
        Some(r) => Some(DiscordFileView::start(r.msg_id, fresh_file(r.entry))),
        None => None,
    }
}

/// A session, where there is one, as a value.
pub open spec fn session_view(s: Option<DiscordFile>) -> Option<DiscordFileView> {
    match s {
        Some(f) => Some(f@),
        None => None,
    }
}

impl DB {
    /// A session over the entry with the path, with the handle that the
    /// index holds for it. Absence is an answer, not a failure.
    pub fn get_discord_file_by_path(&self, path: String) -> (r: Result<Option<DiscordFile>>)
        requires
            self.wf(),
        ensures
            r is Ok,
            session_view(r->Ok_0) == session_of(row_by_path(self@, path@)),
            r->Ok_0 is Some ==> r->Ok_0->Some_0@.wf(),
    {
        match self.get_row_by_path(&path) {
            Some(row) => {
                let file = File { dir_entry: row.entry, content: None, cursor_pos: 0 };
                Ok(Some(DiscordFile::new(row.msg_id, file)))
            },
            None => Ok(None),
        }
    }

    /// A session over the entry with the id, with the handle that the index
    /// holds for it. Absence is an answer, not a failure.
    pub fn get_discord_file_by_id(&self, id: usize) -> (r: Result<Option<DiscordFile>>)
        ensures
            r is Ok,
            session_view(r->Ok_0) == session_of(row_by_id(self@, id)),
            r->Ok_0 is Some ==> r->Ok_0->Some_0@.wf(),
    {
        match self.get_row_by_id(id) {
            Some(row) => {
                let file = File { dir_entry: row.entry, content: None, cursor_pos: 0 };
                Ok(Some(DiscordFile::new(row.msg_id, file)))
            },
            None => Ok(None),
        }
    }
}

/// The session of one open handle.
#[derive(Debug)]
pub struct DiscordFile {
    /// The handle of the remote object, once there is one.
    pub msg_id: Option<String>,
    /// The working copy.
    pub cached: File,
    /// Where the session stands. A load is started only from `Unloaded`, so
    /// that no two are ever under way.
    pub loaded: LoadState,
    /// The sidecar metadata of a load that waits for its attachment.
    pub incoming: Option<Metadata>,
}

impl View for DiscordFile {
    type V = DiscordFileView;

    open spec fn view(&self) -> DiscordFileView {
        DiscordFileView {
            msg_id: text_view(self.msg_id),
            cached: self.cached@,
            loaded: self.loaded,
            incoming: self.incoming,
        }
    }
}

impl DiscordFile {
    /// A session over a working copy of the entry with this handle.
    pub fn new(msg_id: Option<String>, cached: File) -> (r: Self)
        ensures
            r@ == DiscordFileView::start(text_view(msg_id), cached@),
            r@.wf(),
    {
        let mut cached = cached;
        let loaded = match &msg_id {
            None => {
                if cached.content.is_none() {
                    cached.set_content(Some(Vec::new()));
                }
                LoadState::New
            },
            Some(_) => {
                if cached.content.is_some() {
                    LoadState::Loaded
                } else {
                    LoadState::Unloaded
                }
            },
        };
        DiscordFile { msg_id, cached, loaded, incoming: None }
    }

    /// The session on the heap.
    pub fn boxed(self) -> (r: Box<Self>)
        ensures
            *r == self,
    {
        Box::new(self)
    }

    /// The metadata of the session's snapshot.
    pub fn metadata(&self) -> (r: Metadata)
        ensures
            r == self@.cached.dir_entry.metadata,
    {
        self.cached.dir_entry.metadata
    }

    /// Starts a load if none is needed, done or under way, and says what to
    /// fetch. The caller fetches it and hands it to `message_received`, or
    /// reports the failure to `load_failed`.
    pub fn load(&mut self) -> (r: LoadAction)
        ensures
            (final(self)@, r@) == old(self)@.load_model(),
            old(self)@.wf() ==> final(self)@.wf(),
    {
        if self.loaded == LoadState::Unloaded {
            match &self.msg_id {
                Some(h) => {
                    let action = LoadAction::GetMessage(h.clone());
                    self.loaded = LoadState::Loading;
                    self.incoming = None;
                    action
                },
                None => LoadAction::Nothing,
            }
        } else {
            LoadAction::Nothing
        }
    }

    /// Takes the message that `load` asked for, with its sidecar decoded
    /// (`None` where the text is no sidecar), and says whether an
    /// attachment is to be downloaded for `attachment_received`.
    pub fn message_received(&mut self, msg: &MsgJson, sidecar: Option<Metadata>) -> (r: Result<
        LoadAction,
    >)
        ensures
            (final(self)@, result_view(r)) == old(self)@.message_model(msg.first_url(), sidecar),
            old(self)@.wf() ==> final(self)@.wf(),
    {
        if !(self.loaded == LoadState::Loading && self.incoming.is_none()) {
            return Ok(LoadAction::Nothing);
        }
        let new_meta = match sidecar {
            Some(m) => m,
            None => {
                self.loaded = LoadState::Unloaded;
                return Err(Error::Serde);
            },
        };
        if new_meta.is_dir != self.cached.dir_entry.metadata.is_dir {
            self.loaded = LoadState::Unloaded;
            return Err(Error::BadContent);
        }
        if new_meta.is_dir {
            self.cached.dir_entry.metadata = new_meta;
            self.loaded = LoadState::Loaded;
            return Ok(LoadAction::Nothing);
        }
        if msg.attachments.len() == 0 {
            self.loaded = LoadState::Unloaded;
            return Err(Error::DiscordAttachmentNotFound);
        }
        let url = msg.attachments[0].url.clone();
        self.incoming = Some(new_meta);
        Ok(LoadAction::GetAttachment(url))
    }

    /// Takes the attachment that `message_received` asked for and completes
    /// the load.
    pub fn attachment_received(&mut self, content: Vec<u8>)
        ensures
            final(self)@ == old(self)@.attachment_model(content@),
            old(self)@.wf() ==> final(self)@.wf(),
    {
        if self.loaded == LoadState::Loading {
            match self.incoming {
                Some(new_meta) => {
                    self.cached.dir_entry.metadata = new_meta;
                    self.cached.set_content(Some(content));
                    self.incoming = None;
                    self.loaded = LoadState::Loaded;
                },
                None => {},
            }
        }
    }

    /// Gives up the load that is under way, after the remote side failed.
    pub fn load_failed(&mut self)
        ensures
            final(self)@ == old(self)@.failed_model(),
            old(self)@.wf() ==> final(self)@.wf(),
    {
        if self.loaded == LoadState::Loading {
            self.loaded = LoadState::Unloaded;
            self.incoming = None;
        }
    }

    /// What is sent to the remote side for this file: its metadata for the
    /// sidecar, and its content as one attachment named by the entry's id.
    pub fn get_msg_data(&self) -> (r: Result<(Metadata, Vec<(String, Vec<u8>)>)>)
        ensures
            match r {
                Ok(d) => self@.msg_data_model() == Ok::<
                    (Metadata, Seq<(Seq<char>, Seq<u8>)>),
                    Error,
                >((d.0, attachments_view(d.1@))),
                Err(e) => self@.msg_data_model() == Err::<
                    (Metadata, Seq<(Seq<char>, Seq<u8>)>),
                    Error,
                >(e),
            },
    {
        match &self.cached.content {
            None => Err(Error::FileContentIsNone),
            Some(c) => {
                let bytes = slice_to_vec(c.get_ref().as_slice());
                let name = decimal_string(self.cached.dir_entry.id);
                let mut attachments: Vec<(String, Vec<u8>)> = Vec::new();
                attachments.push((name, bytes));
                assert(attachments_view(attachments@) =~= seq![
                    (decimal(self.cached.dir_entry.id as nat), c@.bytes),
                ]);
                Ok((self.cached.dir_entry.metadata, attachments))
            },
        }
    }

    /// What creating the remote object for this file asks for. The caller
    /// performs it and hands the new handle to `created`.
    pub fn send_create(&self) -> (r: Result<SendAction>)
        ensures
            result_view(r) == self@.send_create_model(),
    {
        match self.get_msg_data() {
            Ok(d) => Ok(SendAction::Create(d.0, d.1)),
            Err(e) => Err(e),
        }
    }

    /// What updating the remote object of this file asks for. Fails where
    /// the file was never sent.
    pub fn send_edit(&self) -> (r: Result<SendAction>)
        ensures
            result_view(r) == self@.send_edit_model(),
    {
        match self.get_msg_data() {
            Ok(d) => match &self.msg_id {
                Some(h) => Ok(SendAction::Edit(h.clone(), d.0, d.1)),
                None => Err(Error::DiscordMessageIdIsNone),
            },
            Err(e) => Err(e),
        }
    }

    /// What pushing this file to the remote side asks for: an update where
    /// it was sent before, else a creation.
    pub fn send(&self) -> (r: Result<SendAction>)
        ensures
            result_view(r) == self@.send_model(),
    {
        match self.msg_id {
            Some(_) => self.send_edit(),
            None => self.send_create(),
        }
    }

    /// Takes the handle under which the remote object was created, and
    /// attaches it to the entry in the index.
    pub fn created(&mut self, db: &mut DB, msg_id: String) -> (r: Result<()>)
        requires
            old(db).wf(),
        ensures
            final(db).wf(),
            (final(self)@, final(db)@, r) == old(self)@.created_model(old(db)@, msg_id@),
            old(self)@.wf() ==> final(self)@.wf(),
    {
        self.msg_id = Some(msg_id.clone());
        if self.loaded == LoadState::New {
            self.loaded = LoadState::Loaded;
        }
        db.edit_discord_file_msg_id_by_id(self.cached.dir_entry.id, msg_id)
    }

    /// Writes all of `buf` at the position and says what the flush that
    /// follows asks of the remote side.
    pub fn write_bytes(&mut self, buf: &[u8]) -> (r: Result<SendAction>)
        ensures
            (final(self)@, result_view(r)) == old(self)@.write_model(buf@),
            old(self)@.wf() ==> final(self)@.wf(),
    {
        let mut content = match self.cached.content.take() {
            Some(c) => c,
            None => {
                return Err(Error::FileContentIsNone);
            },
        };
        let written = content.write(buf);
        self.cached.content = Some(content);
        match written {
            Ok(()) => self.send(),
            Err(e) => Err(e),
        }
    }

    /// Reads up to `count` bytes at the position; fewer where the content
    /// ends first.
    pub fn read_bytes(&mut self, count: usize) -> (r: Result<Vec<u8>>)
        ensures
            (final(self)@, result_view(r)) == old(self)@.read_model(count),
            old(self)@.wf() ==> final(self)@.wf(),
    {
        if self.msg_id.is_none() {
            return Err(Error::DiscordMessageIdIsNone);
        }
        let mut content = match self.cached.content.take() {
            Some(c) => c,
            None => {
                return Err(Error::FileContentIsNone);
            },
        };
        let out = content.read(count);
        self.cached.content = Some(content);
        Ok(out)
    }

    /// Moves the position, loaded or not.
    pub fn seek(&mut self, pos: SeekFrom) -> (r: Result<u64>)
        ensures
            (final(self)@, r) == old(self)@.seek_model(pos),
            old(self)@.wf() ==> final(self)@.wf(),
    {
        match self.cached.content.take() {
            Some(c) => {
                let mut content = c;
                let r = content.seek(pos);
                self.cached.content = Some(content);
                r
            },
            None => {
                let target = match pos {
                    SeekFrom::Start(n) => Some(n),
                    SeekFrom::End(d) => checked_offset(self.cached.dir_entry.metadata.len, d),
                    SeekFrom::Current(d) => checked_offset(self.cached.cursor_pos, d),
                };
                match target {
                    Some(p) => {
                        self.cached.cursor_pos = p;
                        Ok(p)
                    },
                    None => Err(Error::Io),
                }
            },
        }
    }

    /// What an explicit flush asks of the remote side; nothing where no
    /// content is held.
    pub fn flush(&self) -> (r: Result<Option<SendAction>>)
        ensures
            match r {
                Ok(Some(a)) => self@.flush_model() == Ok::<Option<SendActionView>, Error>(Some(a@)),
                Ok(None) => self@.flush_model() == Ok::<Option<SendActionView>, Error>(None),
                Err(e) => self@.flush_model() == Err::<Option<SendActionView>, Error>(e),
            },
    {
        if self.cached.content.is_none() {
            Ok(None)
        } else {
            match self.send() {
                Ok(a) => Ok(Some(a)),
                Err(e) => Err(e),
            }
        }
    }
}

} // verus!
