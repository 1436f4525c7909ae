//! The note repository: opening the database, creating its schema, and the
//! five operations on day notes. Each operation runs one statement on the
//! database it is given; SQLite makes that statement atomic. A `NoteDb`
//! records, as ghost state, each statement sent through it, so that the
//! contracts say exactly what each operation asked of SQLite.
use rusqlite::Connection;
use std::path::PathBuf;
use vstd::prelude::*;

use crate::note::{
    asked_for, day_note_with_id, day_notes_for_days, day_notes_from_rows, is_lookup_answer,
    names_day, notes_of_rows, DayNote, DayRow,
};
use crate::sql::{
    delete_statement, list_statement, load_statement, save_statement, schema_statements,
    schema_statements_spec, select_days_query, select_days_query_spec, DATABASE_FILE_NAME,
    DELETE_DAY_NOTE, SELECT_ALL_DAY_NOTES, SELECT_DAY_NOTE, UPSERT_DAY_NOTE,
};

verus! {

/// rusqlite's open database connection, carried through opaquely.
#[verifier::external_type_specification]
#[verifier::external_body]
pub struct ExConnection(rusqlite::Connection);

/// rusqlite's error, turned into its message by the operations.
#[verifier::external_type_specification]
#[verifier::external_body]
pub struct ExSqlError(rusqlite::Error);

/// std's owned file-system path.
#[verifier::external_type_specification]
#[verifier::external_body]
pub struct ExPathBuf(std::path::PathBuf);

/// Relies on `std::path::Path::join`: the path of `name` inside `dir`.
#[verifier::external_body]
fn join_path(dir: &PathBuf, name: &str) -> PathBuf {
    dir.join(name)
}

/// Relies on `rusqlite::Connection::open`: opens the database file at `path`,
/// creating it if absent.
#[verifier::external_body]
fn open_connection(path: &PathBuf) -> Result<Connection, rusqlite::Error> {
    Connection::open(path)
}

/// Relies on `rusqlite::Connection::execute`: runs one statement that returns
/// no rows, with `params` bound to `?1`, `?2`, ... in order.
#[verifier::external_body]
fn execute(conn: &Connection, sql: &str, params: &Vec<String>) -> Result<usize, rusqlite::Error> {
    conn.execute(sql, rusqlite::params_from_iter(params.iter()))
}

/// Relies on `rusqlite::Connection::prepare`, `Statement::query_map` and
/// `Row::get`: runs a query of three text columns with `params` bound in
/// order, and hands back its rows in the order SQLite yields them, or the
/// first error met.
#[verifier::external_body]
fn query_day_rows(conn: &Connection, sql: &str, params: &Vec<String>) -> Result<Vec<DayRow>, rusqlite::Error> {
    let mut stmt = conn.prepare(sql)?;
    let rows = stmt.query_map(rusqlite::params_from_iter(params.iter()), |row| {
        Ok((row.get(0)?, row.get(1)?, row.get(2)?))
    })?;
    rows.collect()
}

/// One statement as it was handed to SQLite: its text, its bound parameters
/// in order, and whether SQLite carried it out.
pub struct SentStatement {
    pub sql: Seq<char>,
    pub params: Seq<Seq<char>>,
    pub succeeded: bool,
}

/// The record of one statement.
pub open spec fn sent(sql: Seq<char>, params: Seq<Seq<char>>, succeeded: bool) -> SentStatement {
    SentStatement { sql, params, succeeded }
}

/// The text of each parameter, in order.
pub open spec fn param_views(params: Seq<String>) -> Seq<Seq<char>> {
    params.map_values(|p: String| p@)
}

/// An open notes database, with the record of every statement sent to it
/// through this value.
pub struct NoteDb {
    conn: Connection,
    log: Ghost<Seq<SentStatement>>,
}

impl NoteDb {
    /// The statements sent so far, oldest first.
    pub closed spec fn sent(&self) -> Seq<SentStatement> {
        self.log@
    }

    /// Wraps an open connection; nothing has been sent through it yet.
    pub fn new(conn: Connection) -> (db: NoteDb)
        ensures
            db.sent() == Seq::<SentStatement>::empty(),
    {
        NoteDb { conn, log: Ghost(Seq::empty()) }
    }

    /// The underlying connection.
    pub fn connection(&self) -> &Connection {
        &self.conn
    }

    /// Runs a statement that returns no rows, with SQLite's message on
    /// failure, and records it.
    fn run_statement(&mut self, sql: &str, params: &Vec<String>) -> (r: Result<usize, String>)
        ensures
            final(self).sent() == old(self).sent().push(sent(sql@, param_views(params@), r is Ok)),
    {
        let r = match execute(&self.conn, sql, params) {
            Ok(n) => Ok(n),
            Err(e) => Err(e.to_string()),
        };
        self.log = Ghost(self.log@.push(sent(sql@, param_views(params@), r is Ok)));
        r
    }

    /// Runs a query of day rows, with SQLite's message on failure, and
    /// records it.
    fn run_query(&mut self, sql: &str, params: &Vec<String>) -> (r: Result<Vec<DayRow>, String>)
        ensures
            final(self).sent() == old(self).sent().push(sent(sql@, param_views(params@), r is Ok)),
    {
        let r = match query_day_rows(&self.conn, sql, params) {
            Ok(rows) => Ok(rows),
            Err(e) => Err(e.to_string()),
        };
        self.log = Ghost(self.log@.push(sent(sql@, param_views(params@), r is Ok)));
        r
    }
}

/// The record of running the first `n` schema statements in order, each
/// without parameters: all succeeded, except the last when `last_failed`.
pub open spec fn schema_log(n: nat, last_failed: bool) -> Seq<SentStatement> {
    Seq::new(
        n,
        |i: int| sent(schema_statements_spec()[i]@, Seq::empty(), !(last_failed && i == n - 1)),
    )
}

/// The message when the application-data directory cannot be resolved.
pub const NO_APP_DATA_DIR: &'static str = "Failed to get app data directory";

/// Why the database could not be made ready at startup.
#[derive(Debug, Clone, PartialEq, Eq)]
pub enum InitError {
    /// The application-data directory could not be resolved.
    DirectoryResolution,
    /// The database file could not be opened; SQLite's message.
    Connection(String),
    /// The schema statement at this position, counted from 1, failed;
    /// SQLite's message.
    Schema { statement: usize, message: String },
}

/// What running schema statement `i` (counted from 0) leads to: nothing when
/// it succeeded, so the next one runs; otherwise the error that ends the
/// schema creation, naming the statement counted from 1.
pub fn schema_outcome(i: usize, res: Result<usize, String>) -> (r: Option<InitError>)
    requires
        i < usize::MAX,
    ensures
        res is Ok <==> r is None,
        res matches Err(m) ==> r == Some(InitError::Schema { statement: (i + 1) as usize, message: m }),
{
    match res {
        Ok(_) => None,
        Err(m) => Some(InitError::Schema { statement: i + 1, message: m }),
    }
}

/// Creates the notes table and its four indexes where they are missing: runs
/// the statements of `schema_statements` in order, going on after each that
/// succeeds and stopping at the first that fails (see `schema_outcome`).
/// Existing tables, indexes and rows are left as they are, so this is safe
/// to run on every start.
pub fn init_schema(db: &mut NoteDb) -> (r: Result<(), InitError>)
    ensures
        r is Ok ==> final(db).sent() == old(db).sent() + schema_log(
            schema_statements_spec().len(),
            false,
        ),
        r matches Err(e) ==> (e matches InitError::Schema { statement, .. }
            && 1 <= statement <= schema_statements_spec().len()
            && final(db).sent() == old(db).sent() + schema_log(statement as nat, true)),
{
    let statements = schema_statements();
    let no_params: Vec<String> = Vec::new();
    let ghost start = db.sent();
    let mut i: usize = 0;
    assert(start + schema_log(0, false) =~= start);
    while i < statements.len()
        invariant
            statements@ == schema_statements_spec(),
            no_params@.len() == 0,
            i <= statements@.len(),
            db.sent() == start + schema_log(i as nat, false),
            start == old(db).sent(),
        decreases statements@.len() - i,
    {
        let ghost before = db.sent();
        let res = db.run_statement(statements[i], &no_params);
        assert(param_views(no_params@) =~= Seq::<Seq<char>>::empty());
        match schema_outcome(i, res) {
            None => {
                assert(db.sent() =~= start + schema_log((i + 1) as nat, false));
            },
            Some(e) => {
                assert(db.sent() =~= start + schema_log((i + 1) as nat, true));
                return Err(e);
            },
        }
        i = i + 1;
    }
    Ok(())
}

/// What follows the attempt to open the database file at `db_path`: a failed
/// open is a connection error and nothing more runs; an open connection gets
/// the schema, and the path comes back once the schema is in place.
pub fn init_opened(db_path: PathBuf, opened: Result<NoteDb, String>) -> (r: Result<PathBuf, InitError>)
    ensures
        opened matches Err(m) ==> r == Err::<PathBuf, InitError>(InitError::Connection(m)),
        opened is Ok ==> !(r matches Err(InitError::Connection(_))),
        opened is Ok ==> !(r matches Err(InitError::DirectoryResolution)),
        r matches Ok(p) ==> p == db_path,
        r matches Err(InitError::Schema { statement, .. }) ==> 1 <= statement
            <= schema_statements_spec().len(),
{
    match opened {
        Err(m) => Err(InitError::Connection(m)),
        Ok(mut db) => match init_schema(&mut db) {
            Ok(()) => Ok(db_path),
            Err(e) => Err(e),
        },
    }
}

/// Makes the database ready: opens (or creates) the database file inside the
/// application-data directory and creates the schema there (see
/// `init_opened`). Hands back the file's path.
pub fn init_database(app_data_dir: Option<PathBuf>) -> (r: Result<PathBuf, InitError>)
    ensures
        app_data_dir is None <==> r matches Err(InitError::DirectoryResolution),
        r matches Err(InitError::Schema { statement, .. }) ==> 1 <= statement
            <= schema_statements_spec().len(),
{
    let dir = match app_data_dir {
        Some(d) => d,
        None => {
            return Err(InitError::DirectoryResolution);
        },
    };
    let db_path = join_path(&dir, DATABASE_FILE_NAME);
    let opened = match open_connection(&db_path) {
        Ok(c) => Ok(NoteDb::new(c)),
        Err(e) => Err(e.to_string()),
    };
    init_opened(db_path, opened)
}

/// Opens a fresh connection to the database file inside the
/// application-data directory; fails with `NO_APP_DATA_DIR` when that
/// directory could not be resolved.
pub fn get_db_connection(app_data_dir: Option<PathBuf>) -> (r: Result<NoteDb, String>)
    ensures
        app_data_dir is None ==> (r matches Err(m) && m@ == NO_APP_DATA_DIR@),
        r matches Ok(db) ==> db.sent() == Seq::<SentStatement>::empty(),
{
    let dir = match app_data_dir {
        Some(d) => d,
        None => {
            return Err(String::from_str(NO_APP_DATA_DIR));
        },
    };
    let db_path = join_path(&dir, DATABASE_FILE_NAME);
    match open_connection(&db_path) {
        Ok(c) => Ok(NoteDb::new(c)),
        Err(e) => Err(e.to_string()),
    }
}

/// What a statement that returns no rows comes to: success, or its message.
pub open spec fn write_outcome_spec(res: Result<usize, String>) -> Result<(), String> {
    match res {
        Ok(_) => Ok(()),
        Err(m) => Err(m),
    }
}

/// Maps the result of a statement that returns no rows.
pub fn write_outcome(res: Result<usize, String>) -> (r: Result<(), String>)
    ensures
        r == write_outcome_spec(res),
{
    match res {
        Ok(_) => Ok(()),
        Err(m) => Err(m),
    }
}

/// What a lookup of day note `id` comes to: the query's message when it
/// failed, otherwise the note of the row with that id, if any.
pub fn lookup_outcome(rows: Result<Vec<DayRow>, String>, id: &String) -> (r: Result<Option<DayNote>, String>)
    ensures
        rows is Err <==> r is Err,
        rows matches Err(m) ==> r == Err::<Option<DayNote>, String>(m),
        rows matches Ok(v) ==> (r matches Ok(found) && is_lookup_answer(v@, id@, found)),
{
    match rows {
        Ok(v) => Ok(day_note_with_id(&v, id)),
        Err(m) => Err(m),
    }
}

/// What a listing comes to: the query's message when it failed, otherwise
/// one note per row, in the rows' order.
pub fn listing_outcome(rows: Result<Vec<DayRow>, String>) -> (r: Result<Vec<DayNote>, String>)
    ensures
        rows is Err <==> r is Err,
        rows matches Err(m) ==> r == Err::<Vec<DayNote>, String>(m),
        rows matches Ok(v) ==> (r matches Ok(notes) && notes_of_rows(notes@, v@)),
{
    match rows {
        Ok(v) => Ok(day_notes_from_rows(&v)),
        Err(m) => Err(m),
    }
}

/// What a read of several days comes to: the query's message when it failed,
/// otherwise the notes of the rows whose id is one of `days`, in the rows'
/// order.
pub fn days_outcome(rows: Result<Vec<DayRow>, String>, days: &Vec<String>) -> (r: Result<Vec<DayNote>, String>)
    ensures
        rows is Err <==> r is Err,
        rows matches Err(m) ==> r == Err::<Vec<DayNote>, String>(m),
        rows matches Ok(v) ==> (r matches Ok(notes) && notes_of_rows(
            notes@,
            v@.filter(asked_for(days@)),
        ) && forall|i: int| 0 <= i < notes@.len() ==> names_day(days@, #[trigger] notes@[i].day@)),
{
    match rows {
        Ok(v) => Ok(day_notes_for_days(&v, days)),
        Err(m) => Err(m),
    }
}

/// Writes `content` as the day note `id`: sends the statement of
/// `save_statement` (a new row of type `day` in the `daily` folder, or a full
/// replacement of the row with that id, `updated_at` set to now), and
/// succeeds exactly when SQLite carried it out.
pub fn save_note(db: &mut NoteDb, id: String, content: String) -> (r: Result<(), String>)
    ensures
        final(db).sent() == old(db).sent().push(
            sent(UPSERT_DAY_NOTE@, seq![id@, content@], r is Ok),
        ),
{
    let ghost args = seq![id@, content@];
    let (sql, params) = save_statement(id, content);
    let res = db.run_statement(sql, &params);
    assert(param_views(params@) =~= args);
    write_outcome(res)
}

/// Reads the day note `id` with the query of `load_statement`; what comes
/// back is mapped by `lookup_outcome`: `None` when no day note has that id.
pub fn load_note(db: &mut NoteDb, id: String) -> (r: Result<Option<DayNote>, String>)
    ensures
        final(db).sent() == old(db).sent().push(sent(SELECT_DAY_NOTE@, seq![id@], r is Ok)),
        r matches Ok(Some(n)) ==> n.day@ == id@,
{
    let (sql, params) = load_statement(id.clone());
    let res = db.run_query(sql, &params);
    assert(param_views(params@) =~= seq![id@]);
    lookup_outcome(res, &id)
}

/// Reads the day notes whose id is one of `days`, by id descending; ids with
/// no note are skipped. An empty `days` gives an empty list and sends
/// nothing. Otherwise the query of `select_days_query` is sent with `days`
/// as its parameters, and what comes back is mapped by `days_outcome`.
pub fn load_notes_for_days(db: &mut NoteDb, days: Vec<String>) -> (r: Result<Vec<DayNote>, String>)
    ensures
        days@.len() == 0 ==> (r matches Ok(notes) && notes@.len() == 0 && final(db).sent()
            == old(db).sent()),
        days@.len() != 0 ==> final(db).sent() == old(db).sent().push(
            sent(select_days_query_spec(days@.len()), param_views(days@), r is Ok),
        ),
        r matches Ok(notes) ==> forall|i: int|
            0 <= i < notes@.len() ==> names_day(days@, #[trigger] notes@[i].day@),
{
    if days.len() == 0 {
        return Ok(Vec::new());
    }
    let query = select_days_query(days.len());
    let res = db.run_query(query.as_str(), &days);
    days_outcome(res, &days)
}

/// `load_notes_for_days` on a fresh connection to the database in the
/// application-data directory. An empty `days` gives an empty list without
/// opening anything; otherwise an unresolved directory fails with
/// `NO_APP_DATA_DIR`.
pub fn load_notes_for_days_in(app_data_dir: Option<PathBuf>, days: Vec<String>) -> (r: Result<Vec<DayNote>, String>)
    ensures
        days@.len() == 0 ==> (r matches Ok(notes) && notes@.len() == 0),
        days@.len() != 0 && app_data_dir is None ==> (r matches Err(m) && m@ == NO_APP_DATA_DIR@),
        r matches Ok(notes) ==> forall|i: int|
            0 <= i < notes@.len() ==> names_day(days@, #[trigger] notes@[i].day@),
{
    if days.len() == 0 {
        return Ok(Vec::new());
    }
    let mut db = get_db_connection(app_data_dir)?;
    load_notes_for_days(&mut db, days)
}

/// Reads every day note, by id descending: sends the query of
/// `list_statement`, and maps what comes back with `listing_outcome`.
pub fn list_notes(db: &mut NoteDb) -> (r: Result<Vec<DayNote>, String>)
    ensures
        final(db).sent() == old(db).sent().push(
            sent(SELECT_ALL_DAY_NOTES@, Seq::empty(), r is Ok),
        ),
        r matches Ok(notes) ==> exists|rows: Seq<DayRow>| #[trigger] notes_of_rows(notes@, rows),
{
    let (sql, params) = list_statement();
    let res = db.run_query(sql, &params);
    assert(param_views(params@) =~= Seq::<Seq<char>>::empty());
    let ghost got = res;
    let r = listing_outcome(res);
    proof {
        if r is Ok {
            assert(notes_of_rows(r->Ok_0@, got->Ok_0@));
        }
    }
    r
}

/// Removes the day note `id`: sends the statement of `delete_statement`,
/// and succeeds exactly when SQLite carried it out. Removing a note that does
/// not exist succeeds.
pub fn delete_note(db: &mut NoteDb, id: String) -> (r: Result<(), String>)
    ensures
        final(db).sent() == old(db).sent().push(sent(DELETE_DAY_NOTE@, seq![id@], r is Ok)),
{
    let ghost args = seq![id@];
    let (sql, params) = delete_statement(id);
    let res = db.run_statement(sql, &params);
    assert(param_views(params@) =~= args);
    write_outcome(res)
}

} // verus!
