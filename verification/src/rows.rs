//! The notes of folders that have been shown, kept to be shown again at once.

use vstd::prelude::*;

use crate::model::{clone_summaries, FolderId, NoteSummary};

verus! {

/// The notes of one folder.
#[derive(Debug)]
pub struct FolderRows {
    pub folder_id: FolderId,
    pub notes: Vec<NoteSummary>,
}

/// The notes of folders, by folder.
#[derive(Debug)]
pub struct RowCache {
    pub entries: Vec<FolderRows>,
}

/// What a list of folders holds; a later entry counts before an earlier one.
pub open spec fn rows_of(entries: Seq<FolderRows>) -> Map<Seq<char>, Seq<NoteSummary>>
    decreases entries.len(),
{
    if entries.len() == 0 {
        Map::empty()
    } else {
        rows_of(entries.drop_last()).insert(entries.last().folder_id@, entries.last().notes@)
    }
}

impl View for RowCache {
    type V = Map<Seq<char>, Seq<NoteSummary>>;

    open spec fn view(&self) -> Map<Seq<char>, Seq<NoteSummary>> {
        rows_of(self.entries@)
    }
}

/// The rows with one more note in the folder that it belongs to.
pub open spec fn rows_with(
    rows: Map<Seq<char>, Seq<NoteSummary>>,
    note: NoteSummary,
) -> Map<Seq<char>, Seq<NoteSummary>> {
    let id = note.folder_id@;
    rows.insert(
        id,
        if rows.dom().contains(id) {
            rows[id].push(note)
        } else {
            seq![note]
        },
    )
}

/// Notes, sorted by folder.
pub open spec fn rows_by_folder(notes: Seq<NoteSummary>) -> Map<Seq<char>, Seq<NoteSummary>>
    decreases notes.len(),
{
    if notes.len() == 0 {
        Map::empty()
    } else {
        rows_with(rows_by_folder(notes.drop_last()), notes.last())
    }
}

impl RowCache {
    pub fn new() -> (r: Self)
        ensures
            r@ == Map::<Seq<char>, Seq<NoteSummary>>::empty(),
    {
        RowCache { entries: Vec::new() }
    }

    /// The notes of a folder, where they are held.
    pub fn get(&self, id: &FolderId) -> (r: Option<Vec<NoteSummary>>)
        ensures
            match r {
                Some(notes) => self@.dom().contains(id@) && notes@ == self@[id@],
                None => !self@.dom().contains(id@),
            },
    {
        let mut i: usize = self.entries.len();
        assert(self.entries@.take(i as int) =~= self.entries@);
        while i > 0
            invariant
                i <= self.entries@.len(),
                ({
                    let rest = rows_of(self.entries@.take(i as int));
                    self@.dom().contains(id@) == rest.dom().contains(id@) && (self@.dom().contains(
                        id@,
                    ) ==> self@[id@] == rest[id@])
                }),
            decreases i,
        {
            i = i - 1;
            assert(self.entries@.take(i + 1).drop_last() =~= self.entries@.take(i as int));
            if self.entries[i].folder_id.same(id) {
                return Some(clone_summaries(&self.entries[i].notes));
            }
        }
        None
    }

    /// Lets go of the notes of a folder.
    pub fn remove(&mut self, id: &FolderId)
        ensures
            final(self)@ == old(self)@.remove(id@),
    {
        let ghost start = self.entries@;
        let ghost mut done: int = 0;
        let mut i: usize = 0;
        assert(start.take(0) =~= Seq::<FolderRows>::empty());
        assert(self.entries@.take(0) =~= Seq::<FolderRows>::empty());
        assert(rows_of(start.take(0)).remove(id@) =~= rows_of(self.entries@.take(0)));
        while i < self.entries.len()
            invariant
                i <= self.entries@.len(),
                0 <= done <= start.len(),
                self.entries@.skip(i as int) =~= start.skip(done),
                rows_of(self.entries@.take(i as int)) == rows_of(start.take(done)).remove(id@),
            decreases self.entries@.len() - i,
        {
            let ghost before = self.entries@;
            proof {
                assert(before.skip(i as int).len() == start.skip(done).len());
                assert(before.skip(i as int)[0] == start.skip(done)[0]);
                assert(start.take(done + 1).drop_last() =~= start.take(done));
            }
            if self.entries[i].folder_id.same(id) {
                self.entries.remove(i);
                proof {
                    assert(self.entries@.take(i as int) =~= before.take(i as int));
                    assert(self.entries@.skip(i as int) =~= before.skip(i as int).drop_first());
                    assert(start.skip(done + 1) =~= start.skip(done).drop_first());
                    assert(rows_of(start.take(done)).remove(id@) =~= rows_of(
                        start.take(done + 1),
                    ).remove(id@));
                    done = done + 1;
                }
            } else {
                proof {
                    assert(before.take(i + 1).drop_last() =~= before.take(i as int));
                    assert(before.skip(i + 1) =~= before.skip(i as int).drop_first());
                    assert(start.skip(done + 1) =~= start.skip(done).drop_first());
                    assert(rows_of(before.take(i + 1)) =~= rows_of(start.take(done + 1)).remove(
                        id@,
                    ));
                    done = done + 1;
                }
                i = i + 1;
            }
        }
        proof {
            assert(self.entries@.take(i as int) =~= self.entries@);
            assert(self.entries@.skip(i as int).len() == 0);
            assert(start.take(done) =~= start);
        }
    }

    /// Holds the notes of a folder.
    pub fn insert(&mut self, id: FolderId, notes: Vec<NoteSummary>)
        ensures
            final(self)@ == old(self)@.insert(id@, notes@),
    {
        self.remove(&id);
        let ghost before = self.entries@;
        self.entries.push(FolderRows { folder_id: id, notes });
        assert(self.entries@.drop_last() =~= before);
        assert(self@ =~= old(self)@.insert(id@, notes@));
    }

    /// Holds one more note of a folder.
    fn add(&mut self, note: &NoteSummary)
        ensures
            final(self)@ == rows_with(old(self)@, *note),
    {
        let mut notes = match self.get(&note.folder_id) {
            Some(notes) => notes,
            None => Vec::new(),
        };
        notes.push(note.clone());
        proof {
            if !self@.dom().contains(note.folder_id@) {
                assert(notes@ =~= seq![*note]);
            }
        }
        self.insert(note.folder_id.clone(), notes);
    }

    /// Holds notes by folder, and nothing else.
    pub fn from_notes(notes: &Vec<NoteSummary>) -> (r: Self)
        ensures
            r@ == rows_by_folder(notes@),
    {
        let mut rows = RowCache::new();
        let mut i: usize = 0;
        assert(notes@.take(0) =~= Seq::<NoteSummary>::empty());
        while i < notes.len()
            invariant
                i <= notes@.len(),
                rows@ == rows_by_folder(notes@.take(i as int)),
            decreases notes@.len() - i,
        {
            assert(notes@.take(i + 1).drop_last() =~= notes@.take(i as int));
            rows.add(&notes[i]);
            i = i + 1;
        }
        assert(notes@.take(i as int) =~= notes@);
        rows
    }
}

} // verus!
