//! The SQL text that the store runs: the schema and one statement per
//! operation. Every statement that reads or writes notes is restricted to
//! `note_type = 'day'`.
use vstd::prelude::*;

verus! {

/// The database file, inside the application-data directory.
pub const DATABASE_FILE_NAME: &'static str = "wt-database.sqlite";

/// The notes table. Timestamps default to the current UTC time, ISO-8601
/// with milliseconds.
pub const CREATE_NOTES_TABLE: &'static str = "CREATE TABLE IF NOT EXISTS notes (
    id TEXT PRIMARY KEY,
    body_markdown TEXT NOT NULL DEFAULT '',
    body_json TEXT NOT NULL DEFAULT '',
    folder_id TEXT,
    note_type TEXT NOT NULL DEFAULT 'day',
    is_archived INTEGER NOT NULL DEFAULT 0,
    created_at DATETIME NOT NULL DEFAULT (strftime('%Y-%m-%dT%H:%M:%fZ','now')),
    updated_at DATETIME NOT NULL DEFAULT (strftime('%Y-%m-%dT%H:%M:%fZ','now'))
);";

pub const CREATE_FOLDER_INDEX: &'static str = "CREATE INDEX IF NOT EXISTS idx_notes_folder ON notes(folder_id);";

pub const CREATE_TYPE_INDEX: &'static str = "CREATE INDEX IF NOT EXISTS idx_notes_type ON notes(note_type);";

pub const CREATE_UPDATED_INDEX: &'static str = "CREATE INDEX IF NOT EXISTS idx_notes_updated ON notes(updated_at);";

pub const CREATE_DAY_TYPE_INDEX: &'static str = "CREATE INDEX IF NOT EXISTS idx_notes_day_type ON notes(id, note_type);";

/// Writes a day note in the `daily` folder, replacing any row with that id.
/// Parameters: id, content.
pub const UPSERT_DAY_NOTE: &'static str = "INSERT OR REPLACE INTO notes (id, body_markdown, note_type, folder_id, updated_at) VALUES (?1, ?2, 'day', 'daily', strftime('%Y-%m-%dT%H:%M:%fZ','now'))";

/// Reads the day note with the given id. Parameter: id.
pub const SELECT_DAY_NOTE: &'static str = "SELECT id, body_markdown, updated_at FROM notes WHERE id = ?1 AND note_type = 'day'";

/// Reads every day note, by id descending.
pub const SELECT_ALL_DAY_NOTES: &'static str = "SELECT id, body_markdown, updated_at FROM notes WHERE note_type = 'day' ORDER BY id DESC";

/// What precedes the id placeholders in a read of several days.
pub const SELECT_DAYS_HEAD: &'static str = "SELECT id, body_markdown, updated_at FROM notes WHERE id IN (";

/// What follows the id placeholders in a read of several days.
pub const SELECT_DAYS_TAIL: &'static str = ") AND note_type = 'day' ORDER BY id DESC";

/// Removes the day note with the given id. Parameter: id.
pub const DELETE_DAY_NOTE: &'static str = "DELETE FROM notes WHERE id = ?1 AND note_type = 'day'";

/// The schema statements in the order they run: the table, then its indexes.
pub open spec fn schema_statements_spec() -> Seq<&'static str> {
    seq![
        CREATE_NOTES_TABLE,
        CREATE_FOLDER_INDEX,
        CREATE_TYPE_INDEX,
        CREATE_UPDATED_INDEX,
        CREATE_DAY_TYPE_INDEX,
    ]
}

/// The statements that create the schema, table first.
pub fn schema_statements() -> (r: Vec<&'static str>)
    ensures
        r@ == schema_statements_spec(),
{
    let r: Vec<&'static str> = vec![
        CREATE_NOTES_TABLE,
        CREATE_FOLDER_INDEX,
        CREATE_TYPE_INDEX,
        CREATE_UPDATED_INDEX,
        CREATE_DAY_TYPE_INDEX,
    ];
    assert(r@ =~= schema_statements_spec());
    r
}

/// `n` positional placeholders separated by commas: `?,?,...,?`.
pub open spec fn placeholder_list(n: nat) -> Seq<char>
    decreases n,
{
    if n == 0 {
        Seq::empty()
    } else if n == 1 {
        seq!['?']
    } else {
        placeholder_list((n - 1) as nat) + seq![',', '?']
    }
}

/// Builds the placeholder list for `n` bound values.
pub fn placeholders(n: usize) -> (r: String)
    ensures
        r@ == placeholder_list(n as nat),
{
    let mut r = String::new();
    if n == 0 {
        return r;
    }
    proof {
        reveal_strlit("?");
    }
    r.append("?");
    assert(r@ =~= placeholder_list(1));
    let mut i: usize = 1;
    while i < n
        invariant
            1 <= i <= n,
            r@ == placeholder_list(i as nat),
        decreases n - i,
    {
        let ghost before = r@;
        r.append(",?");
        i = i + 1;
        proof {
            reveal_strlit(",?");
        }
        assert(r@ =~= before + seq![',', '?']);
    }
    r
}

/// The query that reads the day notes whose id is one of `count` bound values.
pub open spec fn select_days_query_spec(count: nat) -> Seq<char> {
    SELECT_DAYS_HEAD@ + placeholder_list(count) + SELECT_DAYS_TAIL@
}

/// Builds the query that reads the day notes with any of `count` ids, by id
/// descending.
pub fn select_days_query(count: usize) -> (q: String)
    ensures
        q@ == select_days_query_spec(count as nat),
{
    let mut q = String::from_str(SELECT_DAYS_HEAD);
    let p = placeholders(count);
    q.append(p.as_str());
    q.append(SELECT_DAYS_TAIL);
    q
}

/// The upsert of day note `id` with `content`, and its parameters in order.
pub fn save_statement(id: String, content: String) -> (r: (&'static str, Vec<String>))
    ensures
        r.0 == UPSERT_DAY_NOTE,
        r.1@ == seq![id, content],
{
    let params: Vec<String> = vec![id, content];
    (UPSERT_DAY_NOTE, params)
}

/// The read of day note `id`, and its one parameter.
pub fn load_statement(id: String) -> (r: (&'static str, Vec<String>))
    ensures
        r.0 == SELECT_DAY_NOTE,
        r.1@ == seq![id],
{
    let params: Vec<String> = vec![id];
    (SELECT_DAY_NOTE, params)
}

/// The read of every day note, which takes no parameters.
pub fn list_statement() -> (r: (&'static str, Vec<String>))
    ensures
        r.0 == SELECT_ALL_DAY_NOTES,
        r.1@.len() == 0,
{
    (SELECT_ALL_DAY_NOTES, Vec::new())
}

/// The removal of day note `id`, and its one parameter.
pub fn delete_statement(id: String) -> (r: (&'static str, Vec<String>))
    ensures
        r.0 == DELETE_DAY_NOTE,
        r.1@ == seq![id],
{
    let params: Vec<String> = vec![id];
    (DELETE_DAY_NOTE, params)
}

} // verus!
