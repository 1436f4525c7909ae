use day_notes::note::DayNote;
use day_notes::store::{
    delete_note, init_database, init_schema, list_notes, load_note, load_notes_for_days,
    save_note, InitError, NoteDb,
};
use rusqlite::Connection;

fn fresh_db() -> NoteDb {
    let mut db = NoteDb::new(Connection::open_in_memory().unwrap());
    init_schema(&mut db).unwrap();
    db
}

fn schema_text(conn: &Connection) -> Vec<(String, String)> {
    let mut stmt = conn
        .prepare("SELECT name, sql FROM sqlite_master ORDER BY name")
        .unwrap();
    let rows = stmt
        .query_map([], |row| Ok((row.get(0)?, row.get::<_, Option<String>>(1)?.unwrap_or_default())))
        .unwrap();
    rows.map(|r| r.unwrap()).collect()
}

fn count_rows(conn: &Connection) -> i64 {
    conn.query_row("SELECT COUNT(*) FROM notes", [], |row| row.get(0)).unwrap()
}

fn days(ids: &[&str]) -> Vec<String> {
    ids.iter().map(|s| s.to_string()).collect()
}

fn day_ids(notes: &[DayNote]) -> Vec<String> {
    notes.iter().map(|n| n.day.clone()).collect()
}

#[test]
fn schema_creation_twice_changes_nothing() {
    let mut db = fresh_db();
    save_note(&mut db, "2024-01-01".to_string(), "kept".to_string()).unwrap();
    let before = schema_text(db.connection());
    assert_eq!(init_schema(&mut db), Ok(()));
    assert_eq!(schema_text(db.connection()), before);
    let names: Vec<String> = before.iter().map(|(n, _)| n.clone()).collect();
    for name in [
        "idx_notes_day_type",
        "idx_notes_folder",
        "idx_notes_type",
        "idx_notes_updated",
        "notes",
    ] {
        assert!(names.contains(&name.to_string()), "missing {name}");
    }
    let note = load_note(&mut db, "2024-01-01".to_string()).unwrap().unwrap();
    assert_eq!(note.content, "kept");
}

#[test]
fn schema_failure_names_the_statement() {
    let mut db = NoteDb::new(Connection::open_in_memory().unwrap());
    db.connection().execute("CREATE TABLE notes (other TEXT)", []).unwrap();
    match init_schema(&mut db) {
        Err(InitError::Schema { statement, message }) => {
            assert_eq!(statement, 2);
            assert!(message.contains("folder_id"), "{message}");
        }
        other => panic!("unexpected {other:?}"),
    }
}

#[test]
fn init_without_directory_fails() {
    assert_eq!(init_database(None), Err(InitError::DirectoryResolution));
}

#[test]
fn save_then_load_round_trip() {
    let mut db = fresh_db();
    save_note(&mut db, "2024-01-01".to_string(), "hello".to_string()).unwrap();
    let note = load_note(&mut db, "2024-01-01".to_string()).unwrap().unwrap();
    assert_eq!(note.day, "2024-01-01");
    assert_eq!(note.content, "hello");
    save_note(&mut db, "2024-01-01".to_string(), "world".to_string()).unwrap();
    let note = load_note(&mut db, "2024-01-01".to_string()).unwrap().unwrap();
    assert_eq!(note.content, "world");
    assert_eq!(list_notes(&mut db).unwrap().len(), 1);
}

#[test]
fn saved_note_is_a_daily_day_note_with_timestamp() {
    let mut db = fresh_db();
    save_note(&mut db, "2024-03-09".to_string(), "x".to_string()).unwrap();
    let (kind, folder): (String, String) = db.connection()
        .query_row(
            "SELECT note_type, folder_id FROM notes WHERE id = '2024-03-09'",
            [],
            |row| Ok((row.get(0)?, row.get(1)?)),
        )
        .unwrap();
    assert_eq!(kind, "day");
    assert_eq!(folder, "daily");
    let note = load_note(&mut db, "2024-03-09".to_string()).unwrap().unwrap();
    let stamp = note.updated_at.as_bytes();
    assert_eq!(stamp.len(), 24, "{}", note.updated_at);
    assert_eq!(stamp[10], b'T');
    assert_eq!(stamp[19], b'.');
    assert_eq!(stamp[23], b'Z');
}

#[test]
fn load_of_missing_day_is_none() {
    let mut db = fresh_db();
    assert_eq!(load_note(&mut db, "2024-02-02".to_string()), Ok(None));
}

#[test]
fn load_many_of_nothing_touches_no_storage() {
    // No schema at all: any query would fail.
    let mut db = NoteDb::new(Connection::open_in_memory().unwrap());
    assert_eq!(load_notes_for_days(&mut db, Vec::new()), Ok(Vec::new()));
    assert!(load_notes_for_days(&mut db, days(&["2024-01-01"])).is_err());
}

#[test]
fn list_of_empty_table_is_empty() {
    let mut db = fresh_db();
    assert_eq!(list_notes(&mut db), Ok(Vec::new()));
}

#[test]
fn load_many_picks_the_given_days_in_descending_order() {
    let mut db = fresh_db();
    for (id, text) in [("2024-01-01", "a"), ("2024-01-02", "b"), ("2024-01-03", "c")] {
        save_note(&mut db, id.to_string(), text.to_string()).unwrap();
    }
    let notes = load_notes_for_days(&mut db, days(&["2024-01-01", "2024-01-03"])).unwrap();
    assert_eq!(day_ids(&notes), days(&["2024-01-03", "2024-01-01"]));
    assert_eq!(notes[0].content, "c");
    assert_eq!(notes[1].content, "a");
}

#[test]
fn load_many_skips_missing_and_repeated_days() {
    let mut db = fresh_db();
    save_note(&mut db, "2024-05-01".to_string(), "one".to_string()).unwrap();
    let notes =
        load_notes_for_days(&mut db, days(&["2024-05-01", "2024-05-07", "2024-05-01"])).unwrap();
    assert_eq!(day_ids(&notes), days(&["2024-05-01"]));
}

#[test]
fn list_gives_every_day_note_descending() {
    let mut db = fresh_db();
    for id in ["2024-01-02", "2023-12-31", "2024-01-10"] {
        save_note(&mut db, id.to_string(), String::new()).unwrap();
    }
    let notes = list_notes(&mut db).unwrap();
    assert_eq!(day_ids(&notes), days(&["2024-01-10", "2024-01-02", "2023-12-31"]));
}

#[test]
fn delete_is_idempotent() {
    let mut db = fresh_db();
    assert_eq!(delete_note(&mut db, "2024-01-01".to_string()), Ok(()));
    save_note(&mut db, "2024-01-01".to_string(), "gone soon".to_string()).unwrap();
    assert_eq!(delete_note(&mut db, "2024-01-01".to_string()), Ok(()));
    assert_eq!(load_note(&mut db, "2024-01-01".to_string()), Ok(None));
    assert_eq!(delete_note(&mut db, "2024-01-01".to_string()), Ok(()));
    assert_eq!(count_rows(db.connection()), 0);
}

#[test]
fn other_note_types_stay_invisible() {
    let mut db = fresh_db();
    db.connection().execute(
        "INSERT INTO notes (id, body_markdown, note_type) VALUES ('2024-01-05', 'secret', 'regular')",
        [],
    )
    .unwrap();
    save_note(&mut db, "2024-01-06".to_string(), "visible".to_string()).unwrap();
    assert_eq!(load_note(&mut db, "2024-01-05".to_string()), Ok(None));
    let many = load_notes_for_days(&mut db, days(&["2024-01-05", "2024-01-06"])).unwrap();
    assert_eq!(day_ids(&many), days(&["2024-01-06"]));
    assert_eq!(day_ids(&list_notes(&mut db).unwrap()), days(&["2024-01-06"]));
    assert_eq!(delete_note(&mut db, "2024-01-05".to_string()), Ok(()));
    assert_eq!(count_rows(db.connection()), 2);
}

#[test]
fn storage_errors_become_messages() {
    let mut db = NoteDb::new(Connection::open_in_memory().unwrap());
    let err = save_note(&mut db, "2024-01-01".to_string(), "x".to_string()).unwrap_err();
    assert!(err.contains("no such table"), "{err}");
    let err = load_note(&mut db, "2024-01-01".to_string()).unwrap_err();
    assert!(err.contains("no such table"), "{err}");
    assert!(list_notes(&mut db).unwrap_err().contains("no such table"));
    assert!(delete_note(&mut db, "2024-01-01".to_string()).unwrap_err().contains("no such table"));
}
