use multi_drive::db::{Row, DB};
use multi_drive::drives::discord::LoadState;
use multi_drive::error::{DbError, Error};
use multi_drive::types::{DirEntry, Metadata, Timestamp};

fn dir() -> Metadata {
    Metadata { len: 0, modified: None, is_dir: true }
}

fn file(len: u64) -> Metadata {
    Metadata { len, modified: None, is_dir: false }
}

#[test]
fn new_index_is_empty() {
    let db = DB::new();
    assert_eq!(db.len(), 0);
    assert!(db.get_dir_entry_by_path("/".to_string()).unwrap().is_none());
    assert!(db.get_dir_entry_by_id(1).unwrap().is_none());
    assert!(db.get_dir_entries_by_parent_id(1).unwrap().is_empty());
}

#[test]
fn insert_assigns_ids_from_one() {
    let mut db = DB::new();
    db.insert_dir_entry(None, "/".to_string(), dir()).unwrap();
    db.insert_dir_entry(Some(1), "/a.txt".to_string(), file(0)).unwrap();
    db.insert_dir_entry(Some(1), "/b.txt".to_string(), file(7)).unwrap();
    assert_eq!(db.len(), 3);
    let root = db.get_dir_entry_by_path("/".to_string()).unwrap().unwrap();
    assert_eq!(root.id, 1);
    assert_eq!(root.parent_id, None);
    assert!(root.metadata.is_dir);
    let a = db.get_dir_entry_by_path("/a.txt".to_string()).unwrap().unwrap();
    assert_eq!(a.id, 2);
    assert_eq!(a.parent_id, Some(1));
    assert_eq!(a.path, "/a.txt");
    let b = db.get_dir_entry_by_id(3).unwrap().unwrap();
    assert_eq!(b.path, "/b.txt");
    assert_eq!(b.metadata.len, 7);
    assert!(!b.metadata.is_dir);
}

#[test]
fn insert_of_existing_path_is_a_unique_violation() {
    let mut db = DB::new();
    db.insert_dir_entry(None, "/".to_string(), dir()).unwrap();
    let again = db.insert_dir_entry(None, "/".to_string(), file(3));
    assert_eq!(again, Err(Error::DB(DbError::UniqueViolation)));
    assert_eq!(db.len(), 1);
    let root = db.get_dir_entry_by_id(1).unwrap().unwrap();
    assert!(root.metadata.is_dir);
}

#[test]
fn lookup_of_absent_entry_is_not_an_error() {
    let mut db = DB::new();
    db.insert_dir_entry(None, "/".to_string(), dir()).unwrap();
    assert!(matches!(db.get_dir_entry_by_path("/nope".to_string()), Ok(None)));
    assert!(matches!(db.get_dir_entry_by_id(0), Ok(None)));
    assert!(matches!(db.get_dir_entry_by_id(2), Ok(None)));
    assert!(matches!(db.get_file_by_path("/nope".to_string()), Ok(None)));
    assert!(matches!(db.get_file_by_id(9), Ok(None)));
    assert!(db.get_row_by_path(&"/nope".to_string()).is_none());
    assert!(db.get_row_by_id(5).is_none());
}

#[test]
fn files_from_the_index_are_unloaded_at_the_start() {
    let mut db = DB::new();
    db.insert_dir_entry(None, "/".to_string(), dir()).unwrap();
    db.insert_dir_entry(Some(1), "/a".to_string(), file(12)).unwrap();
    let f = db.get_file_by_path("/a".to_string()).unwrap().unwrap();
    assert!(f.content.is_none());
    assert_eq!(f.cursor_pos, 0);
    assert_eq!(*f.id(), 2);
    assert_eq!(f.metadata().len, 12);
    let g = db.get_file_by_id(1).unwrap().unwrap();
    assert!(g.content.is_none());
    assert_eq!(g.dir_entry.path, "/");
}

#[test]
fn children_are_listed_in_insertion_order() {
    let mut db = DB::new();
    db.insert_dir_entry(None, "/".to_string(), dir()).unwrap();
    db.insert_dir_entry(Some(1), "/d".to_string(), dir()).unwrap();
    db.insert_dir_entry(Some(2), "/d/x".to_string(), file(1)).unwrap();
    db.insert_dir_entry(Some(1), "/y".to_string(), file(2)).unwrap();
    db.insert_dir_entry(Some(2), "/d/z".to_string(), file(3)).unwrap();
    let under_root: Vec<String> =
        db.get_dir_entries_by_parent_id(1).unwrap().into_iter().map(|e| e.path).collect();
    assert_eq!(under_root, vec!["/d".to_string(), "/y".to_string()]);
    let under_d: Vec<usize> =
        db.get_dir_entries_by_parent_id(2).unwrap().into_iter().map(|e| e.id).collect();
    assert_eq!(under_d, vec![3, 5]);
    assert!(db.get_dir_entries_by_parent_id(3).unwrap().is_empty());
    assert!(db.get_dir_entries_by_parent_id(42).unwrap().is_empty());
}

#[test]
fn handle_is_attached_and_overwritten() {
    let mut db = DB::new();
    db.insert_dir_entry(None, "/".to_string(), dir()).unwrap();
    db.insert_dir_entry(Some(1), "/a".to_string(), file(0)).unwrap();
    assert_eq!(db.get_row_by_id(2).unwrap().msg_id, None);
    db.edit_discord_file_msg_id_by_id(2, "m1".to_string()).unwrap();
    assert_eq!(db.get_row_by_id(2).unwrap().msg_id, Some("m1".to_string()));
    db.edit_discord_file_msg_id_by_id(2, "m2".to_string()).unwrap();
    assert_eq!(db.get_row_by_path(&"/a".to_string()).unwrap().msg_id, Some("m2".to_string()));
    db.edit_discord_file_msg_id_by_id(2, "m2".to_string()).unwrap();
    assert_eq!(db.get_row_by_id(2).unwrap().msg_id, Some("m2".to_string()));
    assert_eq!(db.get_row_by_id(1).unwrap().msg_id, None);
}

#[test]
fn handle_of_another_entry_is_a_unique_violation() {
    let mut db = DB::new();
    db.insert_dir_entry(None, "/".to_string(), dir()).unwrap();
    db.insert_dir_entry(Some(1), "/a".to_string(), file(0)).unwrap();
    db.edit_discord_file_msg_id_by_id(1, "m1".to_string()).unwrap();
    let r = db.edit_discord_file_msg_id_by_id(2, "m1".to_string());
    assert_eq!(r, Err(Error::DB(DbError::UniqueViolation)));
    assert_eq!(db.get_row_by_id(2).unwrap().msg_id, None);
}

#[test]
fn handle_for_absent_entry_changes_nothing() {
    let mut db = DB::new();
    db.insert_dir_entry(None, "/".to_string(), dir()).unwrap();
    db.edit_discord_file_msg_id_by_id(1, "m1".to_string()).unwrap();
    assert_eq!(db.edit_discord_file_msg_id_by_id(7, "m1".to_string()), Ok(()));
    assert_eq!(db.edit_discord_file_msg_id_by_id(0, "m9".to_string()), Ok(()));
    assert_eq!(db.len(), 1);
    assert_eq!(db.get_row_by_id(1).unwrap().msg_id, Some("m1".to_string()));
}

#[test]
fn modified_time_is_kept_and_may_be_absent() {
    let mut db = DB::new();
    let t = Timestamp { secs: 1_700_000_000, nanos: 5 };
    let m = Metadata { len: 3, modified: Some(t), is_dir: false };
    db.insert_dir_entry(None, "/t".to_string(), m).unwrap();
    db.insert_dir_entry(None, "/u".to_string(), file(0)).unwrap();
    let e = db.get_dir_entry_by_id(1).unwrap().unwrap();
    assert_eq!(e.metadata.modified, Some(t));
    assert_eq!(e.metadata().modified(), Ok(t));
    let u = db.get_dir_entry_by_id(2).unwrap().unwrap();
    assert_eq!(u.metadata.modified, None);
    assert_eq!(u.metadata.len(), 0);
    assert!(!u.metadata.is_dir());
}

#[test]
fn sessions_from_the_index_carry_the_handle() {
    let mut db = DB::new();
    db.insert_dir_entry(None, "/".to_string(), dir()).unwrap();
    db.insert_dir_entry(Some(1), "/a".to_string(), file(4)).unwrap();
    db.edit_discord_file_msg_id_by_id(2, "m2".to_string()).unwrap();

    let sent = db.get_discord_file_by_path("/a".to_string()).unwrap().unwrap();
    assert_eq!(sent.msg_id, Some("m2".to_string()));
    assert_eq!(sent.loaded, LoadState::Unloaded);
    assert!(sent.cached.content.is_none());
    assert_eq!(sent.cached.cursor_pos, 0);
    assert_eq!(sent.cached.dir_entry.id, 2);
    assert_eq!(sent.metadata().len, 4);

    let unsent = db.get_discord_file_by_id(1).unwrap().unwrap();
    assert_eq!(unsent.msg_id, None);
    assert_eq!(unsent.loaded, LoadState::New);
    assert_eq!(unsent.cached.content.as_ref().map(|c| c.get_ref().len()), Some(0));
    assert!(unsent.metadata().is_dir);

    assert!(matches!(db.get_discord_file_by_path("/b".to_string()), Ok(None)));
    assert!(matches!(db.get_discord_file_by_id(3), Ok(None)));
    assert!(matches!(db.get_discord_file_by_id(0), Ok(None)));
}

fn row(id: usize, parent_id: Option<usize>, path: &str, m: Metadata, msg_id: Option<&str>) -> Row {
    Row {
        entry: DirEntry { path: path.to_string(), id, parent_id, metadata: m },
        msg_id: msg_id.map(|h| h.to_string()),
    }
}

#[test]
fn index_is_rebuilt_from_stored_rows() {
    let rows = vec![
        row(1, None, "/", dir(), None),
        row(2, Some(1), "/a", file(3), Some("m2")),
        row(3, Some(1), "/b", file(0), None),
        row(4, Some(1), "/c", file(9), Some("m4")),
    ];
    let mut db = DB::from_rows(rows).unwrap();
    assert_eq!(db.len(), 4);
    assert_eq!(db.get_row_by_path(&"/a".to_string()).unwrap().msg_id, Some("m2".to_string()));
    assert_eq!(db.get_dir_entry_by_id(4).unwrap().unwrap().metadata.len, 9);
    assert_eq!(db.get_dir_entries_by_parent_id(1).unwrap().len(), 3);
    db.insert_dir_entry(Some(1), "/d".to_string(), file(0)).unwrap();
    assert_eq!(db.get_dir_entry_by_path("/d".to_string()).unwrap().unwrap().id, 5);
    assert_eq!(DB::from_rows(Vec::new()).unwrap().len(), 0);
}

#[test]
fn stored_rows_out_of_order_are_inconsistent() {
    let inconsistent = Err(Error::DB(DbError::Inconsistent));
    let gap = vec![row(1, None, "/", dir(), None), row(3, Some(1), "/a", file(0), None)];
    assert_eq!(DB::from_rows(gap).map(|db| db.len()), inconsistent);
    let from_zero = vec![row(0, None, "/", dir(), None)];
    assert_eq!(DB::from_rows(from_zero).map(|db| db.len()), inconsistent);
    let swapped = vec![row(2, None, "/", dir(), None), row(1, Some(2), "/a", file(0), None)];
    assert_eq!(DB::from_rows(swapped).map(|db| db.len()), inconsistent);
    let same_path = vec![row(1, None, "/", dir(), None), row(2, Some(1), "/", file(0), None)];
    assert_eq!(DB::from_rows(same_path).map(|db| db.len()), inconsistent);
    let same_handle = vec![
        row(1, None, "/", dir(), Some("m")),
        row(2, Some(1), "/a", file(0), None),
        row(3, Some(1), "/b", file(0), Some("m")),
    ];
    assert_eq!(DB::from_rows(same_handle).map(|db| db.len()), inconsistent);
}
