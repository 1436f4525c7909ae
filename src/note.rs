//! The records that the notes table holds and that reads hand back.
use vstd::prelude::*;

verus! {

/// A stored note with its timestamps.
#[derive(Debug, Clone, PartialEq, Eq)]
pub struct Note {
    pub id: String,
    pub content: String,
    pub created_at: String,
    pub updated_at: String,
}

/// A day note as read back: its day (`YYYY-MM-DD`), its text, and the time of
/// its last write.
#[derive(Debug, Clone, PartialEq, Eq)]
pub struct DayNote {
    pub day: String,
    pub content: String,
    pub updated_at: String,
}

/// One row of a day-note query: the id, the markdown body and `updated_at`,
/// in that column order.
pub type DayRow = (String, String, String);

/// `n` carries the three columns of `row`, each in its own field.
pub open spec fn note_of_row(n: DayNote, row: DayRow) -> bool {
    &&& n.day@ == row.0@
    &&& n.content@ == row.1@
    &&& n.updated_at@ == row.2@
}

/// `notes` is `rows`, one note per row, in the same order.
pub open spec fn notes_of_rows(notes: Seq<DayNote>, rows: Seq<DayRow>) -> bool {
    &&& notes.len() == rows.len()
    &&& forall|i: int| 0 <= i < rows.len() ==> #[trigger] note_of_row(notes[i], rows[i])
}

impl DayNote {
    /// Builds the note that a query row describes.
    pub fn from_row(row: &DayRow) -> (n: DayNote)
        ensures
            note_of_row(n, *row),
    {
        DayNote { day: row.0.clone(), content: row.1.clone(), updated_at: row.2.clone() }
    }
}

/// Turns the rows of a query into notes, keeping their order.
pub fn day_notes_from_rows(rows: &Vec<DayRow>) -> (notes: Vec<DayNote>)
    ensures
        notes_of_rows(notes@, rows@),
{
    let mut notes: Vec<DayNote> = Vec::new();
    let mut i: usize = 0;
    while i < rows.len()
        invariant
            i <= rows@.len(),
            notes_of_rows(notes@, rows@.subrange(0, i as int)),
        decreases rows@.len() - i,
    {
        let n = DayNote::from_row(&rows[i]);
        notes.push(n);
        i = i + 1;
        assert(notes_of_rows(notes@, rows@.subrange(0, i as int))) by {
            assert forall|k: int| 0 <= k < i implies #[trigger] note_of_row(notes@[k], rows@.subrange(0, i as int)[k]) by {
                if k < i - 1 {
                    assert(rows@.subrange(0, i as int)[k] == rows@.subrange(0, i - 1)[k]);
                }
            }
        }
    }
    assert(rows@.subrange(0, rows@.len() as int) =~= rows@);
    notes
}

/// `rows[i]` is the first row whose id is `id`.
pub open spec fn first_row_with_id(rows: Seq<DayRow>, id: Seq<char>, i: int) -> bool {
    &&& 0 <= i < rows.len()
    &&& rows[i].0@ == id
    &&& forall|j: int| 0 <= j < i ==> rows[j].0@ != id
}

/// `found` is the note of the first row whose id is `id`, or `None` when no
/// row has it.
pub open spec fn is_lookup_answer(rows: Seq<DayRow>, id: Seq<char>, found: Option<DayNote>) -> bool {
    &&& found is None <==> forall|i: int| 0 <= i < rows.len() ==> rows[i].0@ != id
    &&& found matches Some(n) ==> n.day@ == id && exists|i: int|
        first_row_with_id(rows, id, i) && note_of_row(n, #[trigger] rows[i])
}

/// The note of the first row whose id is `id`, or `None` when no row has it.
/// A lookup by primary key yields at most one row.
pub fn day_note_with_id(rows: &Vec<DayRow>, id: &String) -> (found: Option<DayNote>)
    ensures
        is_lookup_answer(rows@, id@, found),
{
    let mut i: usize = 0;
    while i < rows.len()
        invariant
            i <= rows@.len(),
            forall|j: int| 0 <= j < i ==> rows@[j].0@ != id@,
        decreases rows@.len() - i,
    {
        if rows[i].0 == *id {
            let n = DayNote::from_row(&rows[i]);
            assert(first_row_with_id(rows@, id@, i as int));
            return Some(n);
        }
        i = i + 1;
    }
    None
}

/// `id` is one of `days`.
pub open spec fn names_day(days: Seq<String>, id: Seq<char>) -> bool {
    exists|j: int| 0 <= j < days.len() && #[trigger] days[j]@ == id
}

/// The rows whose id is one of `days`.
pub open spec fn asked_for(days: Seq<String>) -> spec_fn(DayRow) -> bool {
    |r: DayRow| names_day(days, r.0@)
}

/// Whether `id` is one of `days`.
pub fn contains_day(days: &Vec<String>, id: &String) -> (r: bool)
    ensures
        r == names_day(days@, id@),
{
    let mut j: usize = 0;
    while j < days.len()
        invariant
            j <= days@.len(),
            forall|k: int| 0 <= k < j ==> days@[k]@ != id@,
        decreases days@.len() - j,
    {
        if days[j] == *id {
            return true;
        }
        j = j + 1;
    }
    false
}

/// The notes of the rows whose id is one of `days`, in the order of `rows`.
pub fn day_notes_for_days(rows: &Vec<DayRow>, days: &Vec<String>) -> (notes: Vec<DayNote>)
    ensures
        notes_of_rows(notes@, rows@.filter(asked_for(days@))),
        forall|i: int| 0 <= i < notes@.len() ==> names_day(days@, #[trigger] notes@[i].day@),
{
    let mut notes: Vec<DayNote> = Vec::new();
    let ghost kept: Seq<DayRow> = Seq::empty();
    let mut i: usize = 0;
    proof {
        reveal(Seq::filter);
        assert(rows@.subrange(0, 0).filter(asked_for(days@)) =~= Seq::<DayRow>::empty());
    }
    while i < rows.len()
        invariant
            i <= rows@.len(),
            kept == rows@.subrange(0, i as int).filter(asked_for(days@)),
            notes_of_rows(notes@, kept),
            forall|k: int| 0 <= k < notes@.len() ==> names_day(days@, #[trigger] notes@[k].day@),
        decreases rows@.len() - i,
    {
        let ghost prefix = rows@.subrange(0, i as int);
        let ghost next = rows@.subrange(0, i + 1);
        proof {
            assert(next.drop_last() =~= prefix);
            assert(next.last() == rows@[i as int]);
            reveal(Seq::filter);
        }
        if contains_day(days, &rows[i].0) {
            let n = DayNote::from_row(&rows[i]);
            notes.push(n);
            proof {
                assert(asked_for(days@)(rows@[i as int]));
                kept = kept.push(rows@[i as int]);
                assert forall|k: int| 0 <= k < notes@.len() implies #[trigger] note_of_row(notes@[k], kept[k]) by {
                    if k < notes@.len() - 1 {
                        assert(note_of_row(notes@[k], kept.drop_last()[k]));
                    }
                }
                assert forall|k: int| 0 <= k < notes@.len() implies names_day(days@, #[trigger] notes@[k].day@) by {
                    if k == notes@.len() - 1 {
                        assert(notes@[k].day@ == rows@[i as int].0@);
                    }
                }
            }
        } else {
            proof {
                assert(!asked_for(days@)(rows@[i as int]));
            }
        }
        i = i + 1;
        assert(kept == next.filter(asked_for(days@)));
    }
    assert(rows@.subrange(0, rows@.len() as int) =~= rows@);
    notes
}

} // verus!
