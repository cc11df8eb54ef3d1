//! What holds of the engine across several operations, proved from the
//! models that the operations' contracts are stated in.

use vstd::prelude::*;
use crate::cursor::CursorView;
use crate::db::{RowView, has_path, index_wf, lemma_row_by_path, new_row, row_by_path};
use crate::drives::discord::file::{DiscordFileView, LoadActionView, LoadState, SendActionView};
use crate::drives::discord::fs::{OpenOptions, created_metadata, metadata_model, open_model};
use crate::drives::discord::fs::{open_decoded, parent_model};
use crate::error::{Error, FsError};
use crate::paths::percent_decoded;
use crate::types::Metadata;

verus! {

/// The metadata that a flush sends as the sidecar.
pub open spec fn sent_metadata(a: SendActionView) -> Metadata {
    match a {
        SendActionView::Create(m, _) => m,
        SendActionView::Edit(_, m, _) => m,
    }
}

/// The named attachments that a flush sends.
pub open spec fn sent_attachments(a: SendActionView) -> Seq<(Seq<char>, Seq<u8>)> {
    match a {
        SendActionView::Create(_, atts) => atts,
        SendActionView::Edit(_, _, atts) => atts,
    }
}

/// A whole load of `reader`: it is started, the message arrives with the
/// sidecar and the address of its first attachment, and the attachment
/// arrives with `bytes`.
pub open spec fn load_all(
    reader: DiscordFileView,
    first_url: Seq<char>,
    sidecar: Metadata,
    bytes: Seq<u8>,
) -> DiscordFileView {
    reader.load_model().0.message_model(Some(first_url), Some(sidecar)).0.attachment_model(bytes)
}

/// A path that decodes and was never created has no metadata. Opened with
/// `create`, it is created exactly if its parent resolves, and its metadata
/// is then that of an empty file; otherwise the index stays as it was.
pub proof fn law_create_then_metadata(rows: Seq<RowView>, path: Seq<char>, options: OpenOptions)
    requires
        index_wf(rows),
        rows.len() < usize::MAX,
        percent_decoded(path) is Some,
        !has_path(rows, percent_decoded(path)->Some_0),
        options.create,
        !options.create_new,
    ensures
        metadata_model(rows, path) == Err::<Metadata, FsError>(FsError::NotFound),
        open_model(rows, path, options).1 is Ok <==> parent_model(
            rows,
            percent_decoded(path)->Some_0,
        ) is Ok,
        open_model(rows, path, options).1 is Ok ==> metadata_model(
            open_model(rows, path, options).0,
            path,
        ) == Ok::<Metadata, FsError>(created_metadata()),
        open_model(rows, path, options).1 is Err ==> open_model(rows, path, options).0 == rows,
{
    let p = percent_decoded(path)->Some_0;
    if parent_model(rows, p) is Ok {
        lemma_open_creates(rows, p, options);
    }
}

/// An open that finds nothing and may create leaves the index in order,
/// with the new entry as the row of its path.
proof fn lemma_open_creates(rows: Seq<RowView>, p: Seq<char>, options: OpenOptions)
    requires
        index_wf(rows),
        rows.len() < usize::MAX,
        !has_path(rows, p),
        options.create || options.create_new,
        parent_model(rows, p) is Ok,
    ensures
        index_wf(open_decoded(rows, p, options).0),
        open_decoded(rows, p, options).0 == rows.push(
            new_row(rows, parent_model(rows, p)->Ok_0, p, created_metadata()),
        ),
        row_by_path(open_decoded(rows, p, options).0, p) == Some(
            new_row(rows, parent_model(rows, p)->Ok_0, p, created_metadata()),
        ),
{
    let row = new_row(rows, parent_model(rows, p)->Ok_0, p, created_metadata());
    let after = rows.push(row);
    crate::db::lemma_insert_wf(rows, parent_model(rows, p)->Ok_0, p, created_metadata());
    assert(after[rows.len() as int] == row);
    lemma_row_by_path(after, rows.len() as int);
}

/// Opening an entry that is there with `create_new` fails with `Exists`
/// and leaves the index as it was, whatever else the options say.
pub proof fn law_create_new_on_existing(rows: Seq<RowView>, path: Seq<char>, options: OpenOptions)
    requires
        index_wf(rows),
        percent_decoded(path) is Some,
        has_path(rows, percent_decoded(path)->Some_0),
        options.create_new,
    ensures
        open_model(rows, path, options) == (rows, Err::<DiscordFileView, FsError>(FsError::Exists)),
{
}

/// At most one creation of a path succeeds: an open adds at most one row
/// and keeps the index in order; once an open has returned a session for a
/// path, every later open of it with `create_new` fails with `Exists` and
/// adds nothing.
pub proof fn law_one_create_per_path(
    rows: Seq<RowView>,
    path: Seq<char>,
    first: OpenOptions,
    second: OpenOptions,
)
    requires
        index_wf(rows),
        rows.len() < usize::MAX,
        second.create_new,
    ensures
        index_wf(open_model(rows, path, first).0),
        open_model(rows, path, first).0.len() <= rows.len() + 1,
        open_model(rows, path, first).0.subrange(0, rows.len() as int) == rows,
        open_model(rows, path, first).1 is Ok ==> open_model(
            open_model(rows, path, first).0,
            path,
            second,
        ) == (
            open_model(rows, path, first).0,
            Err::<DiscordFileView, FsError>(FsError::Exists),
        ),
{
    let after = open_model(rows, path, first).0;
    if percent_decoded(path) is Some {
        let p = percent_decoded(path)->Some_0;
        if !has_path(rows, p) && (first.create || first.create_new) && parent_model(rows, p) is Ok {
            lemma_open_creates(rows, p, first);
            assert(has_path(after, p));
        }
    }
    assert(after.subrange(0, rows.len() as int) =~= rows);
}

/// A load of a loaded session asks nothing of the remote side and leaves
/// the session, its content included, as it was; and so it is the second
/// time.
pub proof fn law_load_idempotent(s: DiscordFileView)
    requires
        s.loaded == LoadState::Loaded,
    ensures
        s.load_model() == (s, LoadActionView::Nothing),
        s.load_model().0.load_model() == (s, LoadActionView::Nothing),
{
}

/// However a session stands, a load that follows another starts no fetch:
/// no two loads are ever under way.
pub proof fn law_one_load_in_flight(s: DiscordFileView)
    ensures
        s.load_model().0.load_model() == (s.load_model().0, LoadActionView::Nothing),
{
}

/// A sidecar whose `is_dir` differs from the local record fails the load
/// with `BadContent`, and the session is unloaded as before.
pub proof fn law_mismatch_is_corruption(
    s: DiscordFileView,
    first_url: Option<Seq<char>>,
    sidecar: Metadata,
)
    requires
        s.wf(),
        s.loaded == LoadState::Unloaded,
        sidecar.is_dir != s.cached.dir_entry.metadata.is_dir,
    ensures
        s.load_model().1 == LoadActionView::GetMessage(s.msg_id->Some_0),
        s.load_model().0.message_model(first_url, Some(sidecar)) == (
            s,
            Err::<LoadActionView, Error>(Error::BadContent),
        ),
{
}

/// What is written at the start of a file is what a fresh session reads
/// back after loading what the write sent.
///
/// `writer` holds content and stands at its start; it writes `buf` and the
/// flush sends the sidecar and one attachment. `reader` is a session over
/// an unloaded working copy of a file, positioned at the start. Its load
/// receives that sidecar and that attachment, and a read of `buf.len()`
/// bytes then yields `buf`.
pub proof fn law_write_then_load_reads_back(
    writer: DiscordFileView,
    buf: Seq<u8>,
    reader: DiscordFileView,
    first_url: Seq<char>,
)
    requires
        writer.cached.content is Some,
        writer.cached.content->Some_0.pos == 0,
        !writer.cached.dir_entry.metadata.is_dir,
        buf.len() <= usize::MAX,
        reader.wf(),
        reader.loaded == LoadState::Unloaded,
        reader.cached.cursor_pos == 0,
        !reader.cached.dir_entry.metadata.is_dir,
    ensures
        writer.write_model(buf).1 is Ok,
        sent_attachments(writer.write_model(buf).1->Ok_0).len() == 1,
        ({
            let sent = writer.write_model(buf).1->Ok_0;
            let loaded = load_all(
                reader,
                first_url,
                sent_metadata(sent),
                sent_attachments(sent)[0].1,
            );
            &&& loaded.loaded == LoadState::Loaded
            &&& loaded.wf()
            &&& loaded.read_model(buf.len() as usize).1 == Ok::<Seq<u8>, Error>(buf)
        }),
{
    let c = writer.cached.content->Some_0;
    let sent = writer.write_model(buf).1->Ok_0;
    let stored = sent_attachments(sent)[0].1;
    assert(stored == c.after_write(buf).bytes);
    if buf.len() > 0 {
        assert(c.padded() == c.bytes);
        assert(stored.subrange(0, buf.len() as int) =~= buf);
    } else {
        assert(stored.subrange(0, 0) =~= buf);
    }
    let loaded = load_all(reader, first_url, sent_metadata(sent), stored);
    assert(loaded.cached.content == Some(CursorView { bytes: stored, pos: 0 }));
}

} // verus!
