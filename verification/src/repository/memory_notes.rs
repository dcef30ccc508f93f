//! A collection of notes that lives in memory.

use crate::models::note::{Note, NoteView};
use crate::models::oid::ObjectId;
use crate::models::{clone_texts, texts};
use crate::repository::note_collection::{
    any_note, found_views, note_at, selection, selects, NoteCollection, NoteFilter,
};
use crate::repository::note_repo::{
    distinct_note_ids, lemma_distinct_with, lemma_distinct_without, note_views, note_with_id,
    pinned, rewritten, unpinned, without_ref,
};
use crate::repository::StoreError;
use vstd::prelude::*;

verus! {

/// A collection of notes that lives in memory, in the order in which the
/// notes were inserted. It has no connection to lose: the one call that can
/// fail is an insert under an identifier that is already in use.
pub struct MemoryNotes {
    notes: Vec<Note>,
}

/// The references of `refs.take(n + 1)` that are kept are those of
/// `refs.take(n)`, and the one at `n` where it is another identifier.
proof fn lemma_without_ref_step(refs: Seq<ObjectId>, n: int, list_id: ObjectId)
    requires
        0 <= n < refs.len(),
    ensures
        without_ref(refs.take(n + 1), list_id) == if refs[n] == list_id {
            without_ref(refs.take(n), list_id)
        } else {
            without_ref(refs.take(n), list_id).push(refs[n])
        },
{
    reveal(Seq::filter);
    assert(refs.take(n + 1).drop_last() =~= refs.take(n));
}

/// Whether `refs` holds this identifier.
fn refers_to(refs: &Vec<ObjectId>, list_id: ObjectId) -> (found: bool)
    ensures
        found == refs@.contains(list_id),
{
    let mut k: usize = 0;
    while k < refs.len()
        invariant
            k <= refs.len(),
            forall|j: int| 0 <= j < k ==> refs@[j] != list_id,
        decreases refs.len() - k,
    {
        if refs[k] == list_id {
            return true;
        }
        k += 1;
    }
    false
}

/// A copy of the references to other lists.
fn refs_without(refs: &Vec<ObjectId>, list_id: ObjectId) -> (kept: Vec<ObjectId>)
    ensures
        kept@ == without_ref(refs@, list_id),
{
    let mut kept: Vec<ObjectId> = Vec::new();
    let mut n: usize = 0;
    proof {
        reveal(Seq::filter);
        assert(refs@.take(0) =~= Seq::<ObjectId>::empty());
        assert(kept@ =~= Seq::<ObjectId>::empty());
    }
    while n < refs.len()
        invariant
            n <= refs.len(),
            kept@ == without_ref(refs@.take(n as int), list_id),
        decreases refs.len() - n,
    {
        proof {
            lemma_without_ref_step(refs@, n as int, list_id);
        }
        if refs[n] != list_id {
            kept.push(refs[n]);
        }
        n += 1;
    }
    assert(refs@.take(n as int) =~= refs@);
    kept
}

/// Whether `note` passes the filter.
fn accepts(filter: &NoteFilter, note: &Note) -> (passes: bool)
    ensures
        passes == filter.matches(note@),
{
    let id_fits = match filter.id {
        Some(id) => note.id == id,
        None => true,
    };
    let owner_fits = match filter.user_id {
        Some(user_id) => note.user_id == user_id,
        None => true,
    };
    let pin_fits = match filter.todo_list {
        Some(list_id) => refers_to(&note.todo_lists, list_id),
        None => true,
    };
    id_fits && owner_fits && pin_fits
}

/// Whether no two of the documents share an identifier.
spec fn distinct_documents(found: Seq<Option<NoteView>>) -> bool {
    forall|a: int, b: int|
        0 <= a < b < found.len() ==> (#[trigger] found[a]).unwrap().id != (
        #[trigger] found[b]).unwrap().id
}

/// Whether `note` is one of the first `n` notes and passes the filter.
spec fn seen(notes: Seq<NoteView>, n: int, filter: NoteFilter, note: NoteView) -> bool {
    exists|i: int| 0 <= i < n && note_at(notes, i, filter) && notes[i] == note
}

impl MemoryNotes {
    /// A collection without notes.
    pub fn new() -> (collection: Self)
        ensures
            collection.notes() == Seq::<NoteView>::empty(),
            distinct_note_ids(collection.notes()),
            collection.reliable(),
    {
        let collection = MemoryNotes { notes: Vec::new() };
        assert(collection.notes() =~= Seq::<NoteView>::empty());
        collection
    }

    /// How many notes the collection holds.
    pub fn len(&self) -> (n: usize)
        ensures
            n == self.notes().len(),
    {
        self.notes.len()
    }

    /// The position of the first note that passes the filter.
    fn position(&self, filter: &NoteFilter) -> (found: Option<usize>)
        ensures
            match found {
                Some(i) => note_at(self.notes(), i as int, *filter),
                None => !any_note(self.notes(), *filter),
            },
    {
        let mut i: usize = 0;
        while i < self.notes.len()
            invariant
                i <= self.notes.len(),
                forall|j: int| 0 <= j < i ==> !note_at(self.notes(), j, *filter),
            decreases self.notes.len() - i,
        {
            if accepts(filter, &self.notes[i]) {
                return Some(i);
            }
            i += 1;
        }
        None
    }

    /// Whether some note has this identifier.
    fn holds_id(&self, note_id: ObjectId) -> (found: bool)
        ensures
            found == exists|i: int| note_with_id(self.notes(), i, note_id),
    {
        let mut i: usize = 0;
        while i < self.notes.len()
            invariant
                i <= self.notes.len(),
                forall|j: int| 0 <= j < i ==> !note_with_id(self.notes(), j, note_id),
            decreases self.notes.len() - i,
        {
            if self.notes[i].id == note_id {
                assert(note_with_id(self.notes(), i as int, note_id));
                return true;
            }
            i += 1;
        }
        false
    }

    /// Puts `note`, which has the same identifier, in the place of the note at
    /// position `i`.
    fn replace(&mut self, i: usize, note: Note)
        requires
            i < old(self).notes().len(),
            note.id == old(self).notes()[i as int].id,
            distinct_note_ids(old(self).notes()),
        ensures
            final(self).notes() == old(self).notes().update(i as int, note@),
            distinct_note_ids(final(self).notes()),
    {
        self.notes.set(i, note);
        assert(self.notes() =~= old(self).notes().update(i as int, note@));
    }
}

impl NoteCollection for MemoryNotes {
    closed spec fn notes(&self) -> Seq<NoteView> {
        note_views(self.notes@)
    }

    open spec fn reliable(&self) -> bool {
        true
    }

    fn insert_one(&mut self, note: &Note) -> (inserted: Result<(), StoreError>)
    {
        if self.holds_id(note.id) {
            return Err(StoreError);
        }
        self.notes.push(note.clone());
        proof {
            assert(self.notes() =~= old(self).notes().push(note@));
            lemma_distinct_with(old(self).notes(), note@);
        }
        Ok(())
    }

    /// The first note that passes the filter.
    fn find_one(&self, filter: NoteFilter) -> (found: Result<Option<Note>, StoreError>)
    {
        match self.position(&filter) {
            Some(i) => {
                let note = self.notes[i].clone();
                assert(note_at(self.notes(), i as int, filter) && self.notes()[i as int] == note@);
                Ok(Some(note))
            },
            None => Ok(None),
        }
    }

    /// The notes that pass the filter, in the order in which they were
    /// inserted. Every one of them can be read.
    fn find(&self, filter: NoteFilter) -> (found: Result<Vec<Option<Note>>, StoreError>)
    {
        let mut found: Vec<Option<Note>> = Vec::new();
        let mut n: usize = 0;
        while n < self.notes.len()
            invariant
                n <= self.notes.len(),
                distinct_note_ids(self.notes()),
                forall|k: int|
                    0 <= k < found.len() ==> (#[trigger] found_views(found@)[k]) is Some && seen(
                        self.notes(),
                        n as int,
                        filter,
                        found_views(found@)[k].unwrap(),
                    ),
                forall|i: int|
                    0 <= i < n && note_at(self.notes(), i, filter) ==> found_views(found@).contains(
                        Some(self.notes()[i]),
                    ),
                distinct_documents(found_views(found@)),
            decreases self.notes.len() - n,
        {
            let ghost before = found_views(found@);
            if accepts(&filter, &self.notes[n]) {
                let note = self.notes[n].clone();
                proof {
                    let after = found_views(found@.push(Some(note)));
                    assert(after =~= before.push(Some(note@)));
                    assert(note@ == self.notes()[n as int]);
                    assert forall|i: int|
                        0 <= i < n + 1 && note_at(self.notes(), i, filter) implies after.contains(
                        Some(self.notes()[i]),
                    ) by {
                        if i < n {
                            let k = before.index_of(Some(self.notes()[i]));
                            assert(after[k] == Some(self.notes()[i]));
                        } else {
                            assert(after[before.len() as int] == Some(self.notes()[i]));
                        }
                    }
                    assert forall|a: int, b: int| 0 <= a < b < after.len() implies (
                    #[trigger] after[a]).unwrap().id != (#[trigger] after[b]).unwrap().id by {
                        if b == before.len() {
                            assert(after[a] == before[a]);
                            assert(seen(self.notes(), n as int, filter, before[a].unwrap()));
                        } else {
                            assert(after[a] == before[a] && after[b] == before[b]);
                        }
                    }
                }
                found.push(Some(note));
            }
            proof {
                let after = found_views(found@);
                assert forall|k: int| 0 <= k < after.len() implies (#[trigger] after[k]) is Some
                    && seen(self.notes(), n + 1, filter, after[k].unwrap()) by {
                    if k < before.len() {
                        assert(after[k] == before[k]);
                        assert(seen(self.notes(), n as int, filter, before[k].unwrap()));
                    } else {
                        assert(note_at(self.notes(), n as int, filter));
                    }
                }
            }
            n += 1;
        }
        proof {
            let views = found_views(found@);
            assert forall|k: int| 0 <= k < views.len() implies (#[trigger] views[k] matches Some(
                note,
            ) ==> selects(self.notes(), filter, note)) by {
                assert(seen(self.notes(), n as int, filter, views[k].unwrap()));
            }
        }
        Ok(found)
    }

    /// Deletes the first note that passes the filter.
    fn delete_one(&mut self, filter: NoteFilter) -> (deleted: Result<bool, StoreError>)
    {
        match self.position(&filter) {
            Some(i) => {
                self.notes.remove(i);
                proof {
                    assert(self.notes() =~= old(self).notes().remove(i as int));
                    assert(note_at(old(self).notes(), i as int, filter));
                    lemma_distinct_without(old(self).notes(), i as int);
                }
                Ok(true)
            },
            None => Ok(false),
        }
    }

    /// Rewrites the first note that passes the filter.
    fn rewrite_one(&mut self, filter: NoteFilter, title: &str, content: &str, tags: Vec<String>)
        -> (matched: Result<bool, StoreError>)
    {
        match self.position(&filter) {
            Some(i) => {
                let note = Note {
                    id: self.notes[i].id,
                    user_id: self.notes[i].user_id,
                    title: title.to_owned(),
                    content: content.to_owned(),
                    tags,
                    todo_lists: self.notes[i].todo_lists.clone(),
                };
                assert(note@ == rewritten(self.notes()[i as int], title@, content@, texts(tags@)));
                self.replace(i, note);
                assert(note_at(old(self).notes(), i as int, filter));
                Ok(true)
            },
            None => Ok(false),
        }
    }

    /// Appends the reference to the first note that passes the filter.
    fn push_ref(&mut self, filter: NoteFilter, todo_list_id: ObjectId) -> (matched: Result<
        bool,
        StoreError,
    >)
    {
        match self.position(&filter) {
            Some(i) => {
                let mut todo_lists = self.notes[i].todo_lists.clone();
                todo_lists.push(todo_list_id);
                let note = Note {
                    id: self.notes[i].id,
                    user_id: self.notes[i].user_id,
                    title: self.notes[i].title.clone(),
                    content: self.notes[i].content.clone(),
                    tags: clone_texts(&self.notes[i].tags),
                    todo_lists,
                };
                assert(note@ == pinned(self.notes()[i as int], todo_list_id));
                self.replace(i, note);
                assert(note_at(old(self).notes(), i as int, filter));
                Ok(true)
            },
            None => Ok(false),
        }
    }

    /// Takes the references out of the first note that passes the filter.
    fn pull_ref(&mut self, filter: NoteFilter, todo_list_id: ObjectId) -> (matched: Result<
        bool,
        StoreError,
    >)
    {
        match self.position(&filter) {
            Some(i) => {
                let note = Note {
                    id: self.notes[i].id,
                    user_id: self.notes[i].user_id,
                    title: self.notes[i].title.clone(),
                    content: self.notes[i].content.clone(),
                    tags: clone_texts(&self.notes[i].tags),
                    todo_lists: refs_without(&self.notes[i].todo_lists, todo_list_id),
                };
                assert(note@ == unpinned(self.notes()[i as int], todo_list_id));
                self.replace(i, note);
                assert(note_at(old(self).notes(), i as int, filter));
                Ok(true)
            },
            None => Ok(false),
        }
    }
}

} // verus!
