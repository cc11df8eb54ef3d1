//! The metadata index: one row per path of the hierarchy.
//!
//! Rows are kept in the order of their insertion and never leave, so the
//! row with id `n` is the `n`-th one. Paths are unique, and so are the
//! remote handles among the rows that have one.

use vstd::prelude::*;
use vstd::string::*;
use crate::error::{DbError, Error, Result};
use crate::types::{DirEntry, DirEntryView, File, FileView, Metadata, entries_view};

verus! {

/// A row of the index as a value.
pub struct RowView {
    pub entry: DirEntryView,
    /// The handle of the remote object, once one was attached.
    pub msg_id: Option<Seq<char>>,
}

/// A row of the index: an entry and the handle of its remote object.
#[derive(Debug)]
pub struct Row {
    pub entry: DirEntry,
    pub msg_id: Option<String>,
}

/// The characters of an optional text.
pub open spec fn text_view(s: Option<String>) -> Option<Seq<char>> {
    match s {
        Some(t) => Some(t@),
        None => None,
    }
}

impl View for Row {
    type V = RowView;

    open spec fn view(&self) -> RowView {
        RowView { entry: self.entry@, msg_id: text_view(self.msg_id) }
    }
}

/// Whether some row has the path.
pub open spec fn has_path(rows: Seq<RowView>, path: Seq<char>) -> bool {
    exists|i: int| 0 <= i < rows.len() && (#[trigger] rows[i]).entry.path == path
}

/// The row with the path, where there is one.
pub open spec fn row_by_path(rows: Seq<RowView>, path: Seq<char>) -> Option<RowView> {
    if has_path(rows, path) {
        Some(rows[choose|i: int| 0 <= i < rows.len() && (#[trigger] rows[i]).entry.path == path])
    } else {
        None
    }
}

/// The row with the id, where there is one.
pub open spec fn row_by_id(rows: Seq<RowView>, id: usize) -> Option<RowView> {
    if 1 <= id <= rows.len() {
        Some(rows[id - 1])
    } else {
        None
    }
}

/// The entries that lie directly under the entry with id `parent`, in the
/// order of their insertion.
pub open spec fn children(rows: Seq<RowView>, parent: usize) -> Seq<DirEntryView> {
    rows.filter(|r: RowView| r.entry.parent_id == Some(parent)).map_values(|r: RowView| r.entry)
}

/// Whether a row other than the one with id `id` holds the handle.
pub open spec fn handle_taken(rows: Seq<RowView>, id: usize, handle: Seq<char>) -> bool {
    exists|i: int|
        0 <= i < rows.len() && (#[trigger] rows[i]).msg_id == Some(handle) && rows[i].entry.id
            != id
}

/// What holds of the rows of every index: ids count up from 1 in the order
/// of insertion, no two rows share a path, and no two share a handle.
pub open spec fn index_wf(rows: Seq<RowView>) -> bool {
    &&& rows.len() <= usize::MAX
    &&& forall|i: int| 0 <= i < rows.len() ==> (#[trigger] rows[i]).entry.id == i + 1
    &&& forall|i: int, j: int|
        0 <= i < rows.len() && 0 <= j < rows.len() && (#[trigger] rows[i]).entry.path == (
        #[trigger] rows[j]).entry.path ==> i == j
    &&& forall|i: int, j: int|
        0 <= i < rows.len() && 0 <= j < rows.len() && (#[trigger] rows[i]).msg_id is Some
            && rows[i].msg_id == (#[trigger] rows[j]).msg_id ==> i == j
}

/// The row that an insertion adds: the next id, no handle.
pub open spec fn new_row(
    rows: Seq<RowView>,
    parent_id: Option<usize>,
    path: Seq<char>,
    metadata: Metadata,
) -> RowView {
    RowView {
        entry: DirEntryView { path, id: (rows.len() + 1) as usize, parent_id, metadata },
        msg_id: None,
    }
}

/// The rows after an insertion, and its outcome. A path that is already
/// there is refused and nothing changes.
pub open spec fn insert_model(
    rows: Seq<RowView>,
    parent_id: Option<usize>,
    path: Seq<char>,
    metadata: Metadata,
) -> (Seq<RowView>, Result<()>) {
    if has_path(rows, path) {
        (rows, Err(Error::DB(DbError::UniqueViolation)))
    } else {
        (rows.push(new_row(rows, parent_id, path, metadata)), Ok(()))
    }
}

/// The rows after a handle is attached to the row with id `id`, and the
/// outcome. Without such a row nothing changes; a handle that another row
/// holds is refused; a handle that the row already has is overwritten.
pub open spec fn attach_model(rows: Seq<RowView>, id: usize, handle: Seq<char>) -> (
    Seq<RowView>,
    Result<()>,
) {
    if !(1 <= id <= rows.len()) {
        (rows, Ok(()))
    } else if handle_taken(rows, id, handle) {
        (rows, Err(Error::DB(DbError::UniqueViolation)))
    } else {
        (rows.update(id - 1, RowView { entry: rows[id - 1].entry, msg_id: Some(handle) }), Ok(()))
    }
}

/// The working copy that a lookup makes of an entry: nothing loaded,
/// positioned at the start.
pub open spec fn fresh_file(entry: DirEntryView) -> FileView {
    FileView { dir_entry: entry, content: None, cursor_pos: 0 }
}

/// Under the invariant, the row found at an index is the row of its path.
pub proof fn lemma_row_by_path(rows: Seq<RowView>, i: int)
    requires
        index_wf(rows),
        0 <= i < rows.len(),
    ensures
        row_by_path(rows, rows[i].entry.path) == Some(rows[i]),
{
    let path = rows[i].entry.path;
    assert(has_path(rows, path));
    let j = choose|j: int| 0 <= j < rows.len() && (#[trigger] rows[j]).entry.path == path;
    assert(j == i);
}

/// An insertion keeps the invariant.
pub proof fn lemma_insert_wf(
    rows: Seq<RowView>,
    parent_id: Option<usize>,
    path: Seq<char>,
    metadata: Metadata,
)
    requires
        index_wf(rows),
        rows.len() < usize::MAX,
    ensures
        index_wf(insert_model(rows, parent_id, path, metadata).0),
{
    if !has_path(rows, path) {
        let row = new_row(rows, parent_id, path, metadata);
        let after = rows.push(row);
        assert forall|i: int, j: int|
            0 <= i < after.len() && 0 <= j < after.len() && (#[trigger] after[i]).entry.path == (
            #[trigger] after[j]).entry.path implies i == j by {
            if i < rows.len() {
                assert(rows[i] == after[i]);
            }
            if j < rows.len() {
                assert(rows[j] == after[j]);
            }
        }
        assert forall|i: int, j: int|
            0 <= i < after.len() && 0 <= j < after.len() && (#[trigger] after[i]).msg_id is Some
                && after[i].msg_id == (#[trigger] after[j]).msg_id implies i == j by {
            if i < rows.len() {
                assert(rows[i] == after[i]);
            }
            if j < rows.len() {
                assert(rows[j] == after[j]);
            }
        }
    }
}

/// Attaching a handle keeps the invariant.
pub proof fn lemma_attach_wf(rows: Seq<RowView>, id: usize, handle: Seq<char>)
    requires
        index_wf(rows),
    ensures
        index_wf(attach_model(rows, id, handle).0),
{
    if 1 <= id <= rows.len() && !handle_taken(rows, id, handle) {
        let after = attach_model(rows, id, handle).0;
        assert forall|i: int, j: int|
            0 <= i < after.len() && 0 <= j < after.len() && (#[trigger] after[i]).msg_id is Some
                && after[i].msg_id == (#[trigger] after[j]).msg_id implies i == j by {
            if i != id - 1 && j != id - 1 {
                assert(rows[i].msg_id == rows[j].msg_id);
            } else if i != id - 1 {
                assert(rows[i].msg_id == Some(handle));
            } else if j != id - 1 {
                assert(rows[j].msg_id == Some(handle));
            }
        }
        assert forall|i: int, j: int|
            0 <= i < after.len() && 0 <= j < after.len() && (#[trigger] after[i]).entry.path == (
            #[trigger] after[j]).entry.path implies i == j by {
            assert(rows[i].entry.path == rows[j].entry.path);
        }
    }
}

/// Rows as values, in their order.
pub open spec fn rows_view(v: Seq<Row>) -> Seq<RowView> {
    v.map_values(|r: Row| r@)
}

/// The metadata index.
#[derive(Debug)]
pub struct DB {
    rows: Vec<Row>,
}

impl View for DB {
    type V = Seq<RowView>;

    closed spec fn view(&self) -> Seq<RowView> {
        Seq::new(self.rows@.len(), |i: int| self.rows@[i]@)
    }
}

impl DB {
    /// Whether the index is in order. Every index that `new` made and the
    /// methods below changed is.
    pub open spec fn wf(&self) -> bool {
        index_wf(self@)
    }

    /// An index without rows.
    pub fn new() -> (r: DB)
        ensures
            r@ == Seq::<RowView>::empty(),
            r.wf(),
    {
        let r = DB { rows: Vec::new() };
        assert(r@ =~= Seq::<RowView>::empty());
        r
    }

    /// The index that holds exactly `rows`, as they were stored. Fails, as
    /// inconsistent, exactly where they are not in order: an id that is not
    /// its row's place, a path or a handle that occurs twice.
    pub fn from_rows(rows: Vec<Row>) -> (r: Result<DB>)
        ensures
            match r {
                Ok(db) => db.wf() && db@ == rows_view(rows@),
                Err(e) => e == Error::DB(DbError::Inconsistent) && !index_wf(rows_view(rows@)),
            },
    {
        let ghost all = rows_view(rows@);
        let mut db = DB::new();
        let mut i: usize = 0;
        while i < rows.len()
            invariant
                i <= rows@.len(),
                all == rows_view(rows@),
                db.wf(),
                db@ == all.take(i as int),
            decreases rows@.len() - i,
        {
            let row = &rows[i];
            assert(all[i as int] == row@);
            if row.entry.id != i + 1 {
                return Err(Error::DB(DbError::Inconsistent));
            }
            match db.position_of_path(&row.entry.path) {
                Some(j) => {
                    assert(all[j as int] == db@[j as int]);
                    return Err(Error::DB(DbError::Inconsistent));
                },
                None => {},
            }
            match &row.msg_id {
                Some(h) => match db.position_of_handle(h) {
                    Some(j) => {
                        assert(all[j as int] == db@[j as int]);
                        return Err(Error::DB(DbError::Inconsistent));
                    },
                    None => {},
                },
                None => {},
            }
            let ghost before = db@;
            db.rows.push(Row { entry: row.entry.clone(), msg_id: row.msg_id.clone() });
            assert(db@ =~= before.push(all[i as int]));
            assert(db@ =~= all.take(i + 1));
            assert(index_wf(db@)) by {
                assert forall|a: int, b: int|
                    0 <= a < db@.len() && 0 <= b < db@.len() && (#[trigger] db@[a]).entry.path == (
                    #[trigger] db@[b]).entry.path implies a == b by {
                    if a < i {
                        assert(before[a] == db@[a]);
                    }
                    if b < i {
                        assert(before[b] == db@[b]);
                    }
                }
                assert forall|a: int, b: int|
                    0 <= a < db@.len() && 0 <= b < db@.len() && (#[trigger] db@[a]).msg_id is Some
                        && db@[a].msg_id == (#[trigger] db@[b]).msg_id implies a == b by {
                    if a < i {
                        assert(before[a] == db@[a]);
                    }
                    if b < i {
                        assert(before[b] == db@[b]);
                    }
                }
                assert forall|a: int| 0 <= a < db@.len() implies (#[trigger] db@[a]).entry.id == a
                    + 1 by {
                    if a < i {
                        assert(before[a] == db@[a]);
                    }
                }
            }
            i = i + 1;
        }
        assert(all.take(i as int) =~= all);
        Ok(db)
    }

    /// The number of rows.
    pub fn len(&self) -> (r: usize)
        ensures
            r == self@.len(),
    {
        self.rows.len()
    }

    /// Where the row with the path stands, if there is one.
    fn position_of_path(&self, path: &String) -> (r: Option<usize>)
        ensures
            match r {
                Some(i) => i < self@.len() && self@[i as int].entry.path == path@,
                None => !has_path(self@, path@),
            },
    {
        let mut i: usize = 0;
        while i < self.rows.len()
            invariant
                i <= self.rows@.len(),
                forall|j: int| 0 <= j < i ==> (#[trigger] self@[j]).entry.path != path@,
            decreases self.rows@.len() - i,
        {
            if self.rows[i].entry.path == *path {
                return Some(i);
            }
            i = i + 1;
        }
        None
    }

    /// Where a row with the handle stands, if there is one.
    fn position_of_handle(&self, handle: &String) -> (r: Option<usize>)
        ensures
            match r {
                Some(i) => i < self@.len() && self@[i as int].msg_id == Some(handle@),
                None => forall|j: int|
                    0 <= j < self@.len() ==> (#[trigger] self@[j]).msg_id != Some(handle@),
            },
    {
        let mut i: usize = 0;
        while i < self.rows.len()
            invariant
                i <= self.rows@.len(),
                forall|j: int| 0 <= j < i ==> (#[trigger] self@[j]).msg_id != Some(handle@),
            decreases self.rows@.len() - i,
        {
            match &self.rows[i].msg_id {
                Some(h) => {
                    if *h == *handle {
                        return Some(i);
                    }
                },
                None => {},
            }
            i = i + 1;
        }
        None
    }

    /// Whether a row other than the one at `at` holds the handle.
    fn handle_in_use(&self, at: usize, handle: &String) -> (r: bool)
        requires
            self.wf(),
            at < self@.len(),
        ensures
            r == handle_taken(self@, (at + 1) as usize, handle@),
    {
        let mut i: usize = 0;
        while i < self.rows.len()
            invariant
                self.wf(),
                at < self@.len(),
                i <= self.rows@.len(),
                forall|j: int|
                    0 <= j < i ==> !((#[trigger] self@[j]).msg_id == Some(handle@)
                        && self@[j].entry.id != at + 1),
            decreases self.rows@.len() - i,
        {
            if i != at {
                match &self.rows[i].msg_id {
                    Some(h) => {
                        if *h == *handle {
                            assert(self@[i as int].msg_id == Some(handle@));
                            return true;
                        }
                    },
                    None => {},
                }
            }
            i = i + 1;
        }
        false
    }

    /// Inserts an entry for `path` under `parent_id`, with the next id and
    /// no remote handle. Fails with a unique violation, and changes nothing,
    /// where the path is already there.
    pub fn insert_dir_entry(&mut self, parent_id: Option<usize>, path: String, metadata: Metadata) -> (r:
        Result<()>)
        requires
            old(self).wf(),
            old(self)@.len() < usize::MAX,
        ensures
            final(self).wf(),
            (final(self)@, r) == insert_model(old(self)@, parent_id, path@, metadata),
    {
        proof {
            lemma_insert_wf(self@, parent_id, path@, metadata);
        }
        match self.position_of_path(&path) {
            Some(_) => Err(Error::DB(DbError::UniqueViolation)),
            None => {
                let id: usize = self.rows.len() + 1;
                let ghost before = self@;
                self.rows.push(Row { entry: DirEntry { path, id, parent_id, metadata }, msg_id: None });
                assert(self@ =~= before.push(new_row(before, parent_id, path@, metadata)));
                Ok(())
            },
        }
    }

    /// The row with the path, where there is one.
    pub fn get_row_by_path(&self, path: &String) -> (r: Option<Row>)
        requires
            self.wf(),
        ensures
            match r {
                Some(row) => row_by_path(self@, path@) == Some(row@),
                None => row_by_path(self@, path@) is None,
            },
    {
        match self.position_of_path(path) {
            Some(i) => {
                proof {
                    lemma_row_by_path(self@, i as int);
                }
                let row = &self.rows[i];
                Some(Row { entry: row.entry.clone(), msg_id: row.msg_id.clone() })
            },
            None => None,
        }
    }

    /// The row with the id, where there is one.
    pub fn get_row_by_id(&self, id: usize) -> (r: Option<Row>)
        ensures
            match r {
                Some(row) => row_by_id(self@, id) == Some(row@),
                None => row_by_id(self@, id) is None,
            },
    {
        if 1 <= id && id <= self.rows.len() {
            let row = &self.rows[id - 1];
            Some(Row { entry: row.entry.clone(), msg_id: row.msg_id.clone() })
        } else {
            None
        }
    }

    /// The entry with the path. Absence is an answer, not a failure.
    pub fn get_dir_entry_by_path(&self, path: String) -> (r: Result<Option<DirEntry>>)
        requires
            self.wf(),
        ensures
            r is Ok,
            match r->Ok_0 {
                Some(e) => row_by_path(self@, path@) is Some && e@ == row_by_path(
                    self@,
                    path@,
                )->Some_0.entry,
                None => row_by_path(self@, path@) is None,
            },
    {
        match self.get_row_by_path(&path) {
            Some(row) => Ok(Some(row.entry)),
            None => Ok(None),
        }
    }

    /// The entry with the id. Absence is an answer, not a failure.
    pub fn get_dir_entry_by_id(&self, id: usize) -> (r: Result<Option<DirEntry>>)
        ensures
            r is Ok,
            match r->Ok_0 {
                Some(e) => row_by_id(self@, id) is Some && e@ == row_by_id(self@, id)->Some_0.entry,
                None => row_by_id(self@, id) is None,
            },
    {
        match self.get_row_by_id(id) {
            Some(row) => Ok(Some(row.entry)),
            None => Ok(None),
        }
    }

    /// A working copy of the entry with the path: nothing loaded,
    /// positioned at the start.
    pub fn get_file_by_path(&self, path: String) -> (r: Result<Option<File>>)
        requires
            self.wf(),
        ensures
            r is Ok,
            match r->Ok_0 {
                Some(f) => row_by_path(self@, path@) is Some && f@ == fresh_file(
                    row_by_path(self@, path@)->Some_0.entry,
                ),
                None => row_by_path(self@, path@) is None,
            },
    {
        match self.get_row_by_path(&path) {
            Some(row) => Ok(Some(File { dir_entry: row.entry, content: None, cursor_pos: 0 })),
            None => Ok(None),
        }
    }

    /// A working copy of the entry with the id: nothing loaded, positioned
    /// at the start.
    pub fn get_file_by_id(&self, id: usize) -> (r: Result<Option<File>>)
        ensures
            r is Ok,
            match r->Ok_0 {
                Some(f) => row_by_id(self@, id) is Some && f@ == fresh_file(
                    row_by_id(self@, id)->Some_0.entry,
                ),
                None => row_by_id(self@, id) is None,
            },
    {
        match self.get_row_by_id(id) {
            Some(row) => Ok(Some(File { dir_entry: row.entry, content: None, cursor_pos: 0 })),
            None => Ok(None),
        }
    }

    /// The entries directly under the entry with id `parent_id`, in the
    /// order of their insertion; none where it has no children or does not
    /// exist.
    pub fn get_dir_entries_by_parent_id(&self, parent_id: usize) -> (r: Result<Vec<DirEntry>>)
        ensures
            r is Ok,
            entries_view(r->Ok_0@) == children(self@, parent_id),
    {
        let ghost under = |r: RowView| r.entry.parent_id == Some(parent_id);
        let ghost entry_of = |r: RowView| r.entry;
        let mut out: Vec<DirEntry> = Vec::new();
        let mut i: usize = 0;
        proof {
            reveal(Seq::filter);
            assert(self@.take(0) =~= Seq::<RowView>::empty());
        }
        while i < self.rows.len()
            invariant
                i <= self.rows@.len(),
                self@.len() == self.rows@.len(),
                under == |r: RowView| r.entry.parent_id == Some(parent_id),
                entry_of == |r: RowView| r.entry,
                out@.len() == self@.take(i as int).filter(under).len(),
                forall|k: int|
                    0 <= k < out@.len() ==> (#[trigger] out@[k])@ == self@.take(i as int).filter(
                        under,
                    )[k].entry,
            decreases self.rows@.len() - i,
        {
            let row = &self.rows[i];
            let hit = match row.entry.parent_id {
                Some(p) => p == parent_id,
                None => false,
            };
            proof {
                assert(self@.take(i + 1).drop_last() =~= self@.take(i as int));
                assert(self@.take(i + 1).last() == self@[i as int]);
                reveal(Seq::filter);
                assert(hit == under(self@[i as int]));
            }
            if hit {
                out.push(row.entry.clone());
            }
            i = i + 1;
        }
        proof {
            assert(self@.take(i as int) =~= self@);
            assert(entries_view(out@) =~= children(self@, parent_id));
        }
        Ok(out)
    }

    /// Attaches a remote handle to the entry with the id, over any handle it
    /// had. Without such an entry nothing changes. Fails with a unique
    /// violation, and changes nothing, where another entry holds the handle.
    pub fn edit_discord_file_msg_id_by_id(&mut self, id: usize, msg_id: String) -> (r: Result<()>)
        requires
            old(self).wf(),
        ensures
            final(self).wf(),
            (final(self)@, r) == attach_model(old(self)@, id, msg_id@),
    {
        proof {
            lemma_attach_wf(self@, id, msg_id@);
        }
        if !(1 <= id && id <= self.rows.len()) {
            return Ok(());
        }
        if self.handle_in_use(id - 1, &msg_id) {
            return Err(Error::DB(DbError::UniqueViolation));
        }
        let ghost before = self@;
        let entry = self.rows[id - 1].entry.clone();
        self.rows.set(id - 1, Row { entry, msg_id: Some(msg_id) });
        assert(self@ =~= before.update(
            id - 1,
            RowView { entry: before[id - 1].entry, msg_id: Some(msg_id@) },
        ));
        Ok(())
    }
}

} // verus!
