use multi_drive::cursor::{Cursor, SeekFrom};
use multi_drive::db::DB;
use multi_drive::drives::discord::{
    DiscordFile, LoadAction, LoadState, MsgAttachmentJson, MsgJson, SendAction,
};
use multi_drive::error::{DbError, Error};
use multi_drive::types::{DirEntry, File, Metadata};

fn meta(is_dir: bool, len: u64) -> Metadata {
    Metadata { len, modified: None, is_dir }
}

fn unloaded(id: usize, path: &str, m: Metadata) -> File {
    File {
        dir_entry: DirEntry { path: path.to_string(), id, parent_id: Some(1), metadata: m },
        content: None,
        cursor_pos: 0,
    }
}

fn attachment(url: &str) -> MsgAttachmentJson {
    MsgAttachmentJson {
        id: "1".to_string(),
        filename: "2".to_string(),
        size: 5,
        url: url.to_string(),
        proxy_url: String::new(),
    }
}

fn message(urls: &[&str]) -> MsgJson {
    MsgJson { content: "{}".to_string(), attachments: urls.iter().map(|u| attachment(u)).collect() }
}

fn is_get_message(a: &LoadAction, handle: &str) -> bool {
    matches!(a, LoadAction::GetMessage(h) if h == handle)
}

fn is_get_attachment(a: &LoadAction, url: &str) -> bool {
    matches!(a, LoadAction::GetAttachment(u) if u == url)
}

fn content_of(s: &DiscordFile) -> Option<Vec<u8>> {
    s.cached.content.as_ref().map(|c| c.get_ref().clone())
}

#[test]
fn session_without_handle_is_new_with_empty_content() {
    let s = DiscordFile::new(None, unloaded(2, "/a", meta(false, 0)));
    assert_eq!(s.loaded, LoadState::New);
    assert_eq!(s.msg_id, None);
    assert_eq!(content_of(&s), Some(Vec::new()));
    assert_eq!(s.incoming, None);
}

#[test]
fn session_with_handle_is_unloaded() {
    let s = DiscordFile::new(Some("m1".to_string()), unloaded(2, "/a", meta(false, 9)));
    assert_eq!(s.loaded, LoadState::Unloaded);
    assert_eq!(s.msg_id, Some("m1".to_string()));
    assert!(s.cached.content.is_none());
    assert_eq!(s.metadata().len, 9);
}

#[test]
fn session_over_loaded_copy_is_loaded() {
    let mut f = unloaded(2, "/a", meta(false, 3));
    f.set_content(Some(b"abc".to_vec()));
    let s = DiscordFile::new(Some("m1".to_string()), f);
    assert_eq!(s.loaded, LoadState::Loaded);
    let b = s.boxed();
    assert_eq!(b.loaded, LoadState::Loaded);
}

#[test]
fn load_of_a_file_fetches_message_then_attachment() {
    let mut s = DiscordFile::new(Some("m1".to_string()), unloaded(2, "/a", meta(false, 0)));
    let a = s.load();
    assert!(is_get_message(&a, "m1"));
    assert_eq!(s.loaded, LoadState::Loading);
    let sidecar = meta(false, 5);
    let a = s.message_received(&message(&["https://cdn/x", "https://cdn/y"]), Some(sidecar)).unwrap();
    assert!(is_get_attachment(&a, "https://cdn/x"));
    assert_eq!(s.loaded, LoadState::Loading);
    assert_eq!(s.metadata().len, 0);
    s.attachment_received(b"hello".to_vec());
    assert_eq!(s.loaded, LoadState::Loaded);
    assert_eq!(s.metadata().len, 5);
    assert_eq!(content_of(&s), Some(b"hello".to_vec()));
    assert_eq!(s.incoming, None);
    assert_eq!(s.read_bytes(5).unwrap(), b"hello".to_vec());
}

#[test]
fn load_of_a_directory_downloads_nothing() {
    let mut s = DiscordFile::new(Some("d1".to_string()), unloaded(1, "/", meta(true, 0)));
    assert!(is_get_message(&s.load(), "d1"));
    let a = s.message_received(&message(&["https://cdn/stray"]), Some(meta(true, 0))).unwrap();
    assert!(matches!(a, LoadAction::Nothing));
    assert_eq!(s.loaded, LoadState::Loaded);
    assert!(s.cached.content.is_none());
}

#[test]
fn load_twice_on_loaded_session_fetches_nothing() {
    let mut s = DiscordFile::new(Some("m1".to_string()), unloaded(2, "/a", meta(false, 0)));
    s.load();
    s.message_received(&message(&["u"]), Some(meta(false, 3))).unwrap();
    s.attachment_received(b"abc".to_vec());
    assert!(matches!(s.load(), LoadAction::Nothing));
    assert!(matches!(s.load(), LoadAction::Nothing));
    assert_eq!(s.loaded, LoadState::Loaded);
    assert_eq!(content_of(&s), Some(b"abc".to_vec()));
    assert_eq!(s.cached.position(), 0);
}

#[test]
fn load_while_loading_is_a_no_op() {
    let mut s = DiscordFile::new(Some("m1".to_string()), unloaded(2, "/a", meta(false, 0)));
    assert!(is_get_message(&s.load(), "m1"));
    assert!(matches!(s.load(), LoadAction::Nothing));
    assert_eq!(s.loaded, LoadState::Loading);
}

#[test]
fn load_of_new_session_fetches_nothing() {
    let mut s = DiscordFile::new(None, unloaded(2, "/a", meta(false, 0)));
    assert!(matches!(s.load(), LoadAction::Nothing));
    assert_eq!(s.loaded, LoadState::New);
}

#[test]
fn is_dir_mismatch_is_corruption_and_leaves_session_unloaded() {
    let mut s = DiscordFile::new(Some("m1".to_string()), unloaded(2, "/a", meta(false, 4)));
    s.load();
    let r = s.message_received(&message(&["u"]), Some(meta(true, 0)));
    assert!(matches!(r, Err(Error::BadContent)));
    assert_eq!(s.loaded, LoadState::Unloaded);
    assert!(s.cached.content.is_none());
    assert_eq!(s.metadata().len, 4);
    assert!(!s.metadata().is_dir);

    let mut d = DiscordFile::new(Some("d1".to_string()), unloaded(1, "/", meta(true, 0)));
    d.load();
    let r = d.message_received(&message(&["u"]), Some(meta(false, 0)));
    assert!(matches!(r, Err(Error::BadContent)));
    assert_eq!(d.loaded, LoadState::Unloaded);
    assert!(is_get_message(&d.load(), "d1"));
}

#[test]
fn undecodable_sidecar_is_a_decode_error() {
    let mut s = DiscordFile::new(Some("m1".to_string()), unloaded(2, "/a", meta(false, 0)));
    s.load();
    let r = s.message_received(&message(&["u"]), None);
    assert!(matches!(r, Err(Error::Serde)));
    assert_eq!(s.loaded, LoadState::Unloaded);
}

#[test]
fn file_message_without_attachment_fails() {
    let mut s = DiscordFile::new(Some("m1".to_string()), unloaded(2, "/a", meta(false, 0)));
    s.load();
    let r = s.message_received(&message(&[]), Some(meta(false, 0)));
    assert!(matches!(r, Err(Error::DiscordAttachmentNotFound)));
    assert_eq!(s.loaded, LoadState::Unloaded);
}

#[test]
fn failed_load_returns_to_unloaded() {
    let mut s = DiscordFile::new(Some("m1".to_string()), unloaded(2, "/a", meta(false, 0)));
    s.load();
    s.load_failed();
    assert_eq!(s.loaded, LoadState::Unloaded);
    assert!(is_get_message(&s.load(), "m1"));
    s.message_received(&message(&["u"]), Some(meta(false, 1))).unwrap();
    s.load_failed();
    assert_eq!(s.loaded, LoadState::Unloaded);
    assert_eq!(s.incoming, None);
    assert_eq!(s.metadata().len, 0);
}

#[test]
fn events_out_of_turn_are_ignored() {
    let mut s = DiscordFile::new(Some("m1".to_string()), unloaded(2, "/a", meta(false, 0)));
    let r = s.message_received(&message(&["u"]), Some(meta(true, 0))).unwrap();
    assert!(matches!(r, LoadAction::Nothing));
    assert_eq!(s.loaded, LoadState::Unloaded);
    s.attachment_received(b"zzz".to_vec());
    assert!(s.cached.content.is_none());
    s.load_failed();
    assert_eq!(s.loaded, LoadState::Unloaded);
    s.load();
    s.attachment_received(b"zzz".to_vec());
    assert_eq!(s.loaded, LoadState::Loading);
    assert!(s.cached.content.is_none());
}

#[test]
fn content_is_loaded_at_the_recorded_position() {
    let mut f = unloaded(2, "/a", meta(false, 5));
    f.cursor_pos = 3;
    let mut s = DiscordFile::new(Some("m1".to_string()), f);
    s.load();
    s.message_received(&message(&["u"]), Some(meta(false, 5))).unwrap();
    s.attachment_received(b"hello".to_vec());
    assert_eq!(s.cached.position(), 3);
    assert_eq!(s.read_bytes(10).unwrap(), b"lo".to_vec());
}

#[test]
fn msg_data_names_the_attachment_by_the_entry_id() {
    let mut f = unloaded(1234, "/a", meta(false, 3));
    f.set_content(Some(b"abc".to_vec()));
    let s = DiscordFile::new(Some("m1".to_string()), f);
    let (m, atts) = s.get_msg_data().unwrap();
    assert_eq!(m.len, 3);
    assert!(!m.is_dir);
    assert_eq!(atts, vec![("1234".to_string(), b"abc".to_vec())]);
}

#[test]
fn msg_data_without_content_fails() {
    let s = DiscordFile::new(Some("m1".to_string()), unloaded(2, "/a", meta(false, 0)));
    assert!(matches!(s.get_msg_data(), Err(Error::FileContentIsNone)));
    assert!(matches!(s.send_create(), Err(Error::FileContentIsNone)));
    assert!(matches!(s.send_edit(), Err(Error::FileContentIsNone)));
    assert!(matches!(s.send(), Err(Error::FileContentIsNone)));
    assert!(matches!(s.flush(), Ok(None)));
}

#[test]
fn send_edit_without_handle_is_missing_handle() {
    let s = DiscordFile::new(None, unloaded(2, "/a", meta(false, 0)));
    assert!(matches!(s.send_edit(), Err(Error::DiscordMessageIdIsNone)));
    assert!(matches!(s.send(), Ok(SendAction::Create(_, _))));
    assert!(matches!(s.send_create(), Ok(SendAction::Create(_, _))));
}

#[test]
fn write_on_new_session_asks_for_create_then_edit() {
    let mut db = DB::new();
    db.insert_dir_entry(None, "/".to_string(), meta(true, 0)).unwrap();
    db.insert_dir_entry(Some(1), "/a".to_string(), meta(false, 0)).unwrap();
    let f = db.get_file_by_id(2).unwrap().unwrap();
    let mut s = DiscordFile::new(None, f);
    match s.write_bytes(b"hello").unwrap() {
        SendAction::Create(m, atts) => {
            assert!(!m.is_dir);
            assert_eq!(atts, vec![("2".to_string(), b"hello".to_vec())]);
        }
        SendAction::Edit(_, _, _) => panic!("a new entry is created, not edited"),
    }
    assert_eq!(s.loaded, LoadState::New);
    assert_eq!(s.created(&mut db, "m7".to_string()), Ok(()));
    assert_eq!(s.loaded, LoadState::Loaded);
    assert_eq!(s.msg_id, Some("m7".to_string()));
    assert_eq!(db.get_row_by_id(2).unwrap().msg_id, Some("m7".to_string()));
    match s.write_bytes(b" you").unwrap() {
        SendAction::Edit(h, _, atts) => {
            assert_eq!(h, "m7");
            assert_eq!(atts, vec![("2".to_string(), b"hello you".to_vec())]);
        }
        SendAction::Create(_, _) => panic!("an entry with a handle is edited"),
    }
    match s.flush().unwrap() {
        Some(SendAction::Edit(h, _, atts)) => {
            assert_eq!(h, "m7");
            assert_eq!(atts[0].1, b"hello you".to_vec());
        }
        _ => panic!("a flush of a sent file is an edit"),
    }
}

#[test]
fn created_reports_the_refusal_of_the_index() {
    let mut db = DB::new();
    db.insert_dir_entry(None, "/".to_string(), meta(true, 0)).unwrap();
    db.insert_dir_entry(Some(1), "/a".to_string(), meta(false, 0)).unwrap();
    db.edit_discord_file_msg_id_by_id(1, "taken".to_string()).unwrap();
    let mut s = DiscordFile::new(None, db.get_file_by_id(2).unwrap().unwrap());
    let r = s.created(&mut db, "taken".to_string());
    assert_eq!(r, Err(Error::DB(DbError::UniqueViolation)));
    assert_eq!(s.msg_id, Some("taken".to_string()));
    assert_eq!(db.get_row_by_id(2).unwrap().msg_id, None);
}

#[test]
fn write_without_content_fails() {
    let mut s = DiscordFile::new(Some("m1".to_string()), unloaded(2, "/a", meta(false, 0)));
    assert!(matches!(s.write_bytes(b"x"), Err(Error::FileContentIsNone)));
    assert!(s.cached.content.is_none());
    assert_eq!(s.loaded, LoadState::Unloaded);
}

#[test]
fn write_that_cannot_be_indexed_is_an_io_error() {
    let mut f = unloaded(2, "/a", meta(false, 0));
    f.cursor_pos = u64::MAX;
    let mut s = DiscordFile::new(None, f);
    assert_eq!(s.cached.position(), u64::MAX);
    assert!(matches!(s.write_bytes(b"x"), Err(Error::Io)));
    assert_eq!(content_of(&s), Some(Vec::new()));
}

#[test]
fn read_on_never_written_entry_fails_distinctly() {
    let mut s = DiscordFile::new(None, unloaded(2, "/a", meta(false, 0)));
    let r = s.read_bytes(4);
    assert!(matches!(r, Err(Error::DiscordMessageIdIsNone)));
    assert!(!matches!(r, Err(Error::NotFound)));
}

#[test]
fn read_without_content_fails() {
    let mut s = DiscordFile::new(Some("m1".to_string()), unloaded(2, "/a", meta(false, 0)));
    assert!(matches!(s.read_bytes(4), Err(Error::FileContentIsNone)));
}

#[test]
fn read_past_the_end_is_short() {
    let mut f = unloaded(2, "/a", meta(false, 3));
    f.set_content(Some(b"abc".to_vec()));
    let mut s = DiscordFile::new(Some("m1".to_string()), f);
    assert_eq!(s.read_bytes(2).unwrap(), b"ab".to_vec());
    assert_eq!(s.read_bytes(2).unwrap(), b"c".to_vec());
    assert_eq!(s.read_bytes(2).unwrap(), Vec::<u8>::new());
}

#[test]
fn seek_before_load_is_recorded() {
    let mut s = DiscordFile::new(Some("m1".to_string()), unloaded(2, "/a", meta(false, 10)));
    assert_eq!(s.seek(SeekFrom::Start(4)), Ok(4));
    assert_eq!(s.cached.cursor_pos, 4);
    assert_eq!(s.seek(SeekFrom::Current(-1)), Ok(3));
    assert_eq!(s.seek(SeekFrom::End(-2)), Ok(8));
    assert_eq!(s.seek(SeekFrom::Current(-9)), Err(Error::Io));
    assert_eq!(s.cached.cursor_pos, 8);
    assert_eq!(s.loaded, LoadState::Unloaded);
    s.load();
    s.message_received(&message(&["u"]), Some(meta(false, 10))).unwrap();
    s.attachment_received(b"0123456789".to_vec());
    assert_eq!(s.read_bytes(5).unwrap(), b"89".to_vec());
}

#[test]
fn seek_after_load_moves_the_buffer() {
    let mut f = unloaded(2, "/a", meta(false, 99));
    f.set_content(Some(b"0123456789".to_vec()));
    let mut s = DiscordFile::new(Some("m1".to_string()), f);
    assert_eq!(s.seek(SeekFrom::End(-3)), Ok(7));
    assert_eq!(s.read_bytes(10).unwrap(), b"789".to_vec());
    assert_eq!(s.seek(SeekFrom::Start(1)), Ok(1));
    assert_eq!(s.seek(SeekFrom::Current(-2)), Err(Error::Io));
    assert_eq!(s.cached.position(), 1);
}

#[test]
fn set_content_keeps_the_position_in_force() {
    let mut f = unloaded(2, "/a", meta(false, 0));
    f.cursor_pos = 2;
    f.set_content(Some(b"abcd".to_vec()));
    assert_eq!(f.position(), 2);
    let mut c = Cursor::new(b"xyz".to_vec());
    c.set_position(1);
    f.content = Some(c);
    f.set_content(Some(b"new content".to_vec()));
    assert_eq!(f.position(), 1);
    f.set_content(None);
    assert!(f.content.is_none());
    assert_eq!(f.cursor_pos, 1);
    f.set_content(None);
    assert_eq!(f.cursor_pos, 1);
}

#[test]
fn metadata_mut_changes_the_snapshot() {
    let mut f = unloaded(2, "/a", meta(false, 0));
    f.metadata_mut().len = 77;
    assert_eq!(f.metadata().len, 77);
    assert_eq!(*f.id(), 2);
    assert_eq!(meta(true, 1).boxed().len, 1);
}

#[test]
fn write_then_fresh_load_reads_back() {
    let mut writer = DiscordFile::new(None, unloaded(2, "/a", meta(false, 0)));
    let (sidecar, stored) = match writer.write_bytes(b"round trip").unwrap() {
        SendAction::Create(m, mut atts) => (m, atts.remove(0).1),
        SendAction::Edit(_, _, _) => panic!("first write creates"),
    };
    let mut reader = DiscordFile::new(Some("h".to_string()), unloaded(2, "/a", meta(false, 0)));
    reader.load();
    reader.message_received(&message(&["u"]), Some(sidecar)).unwrap();
    reader.attachment_received(stored);
    assert_eq!(reader.read_bytes(10).unwrap(), b"round trip".to_vec());
}
