use anonymize_places::anonymizer::StringAnonymizer;
use anonymize_places::columns::{discover, places_column_specs, ColumnSpec, FUNCTION_NAME};
use anonymize_places::error::{Cause, RewriteFailed};
use anonymize_places::plan::plan;
use anonymize_places::rewrite::Rewrite;
use anonymize_places::schema::TableSchema;
use anonymize_places::sql::quote_identifier;
use anonymize_places::value::CellValue;
use rusqlite::types::{Value, ValueRef};
use rusqlite::{Connection, NO_PARAMS};
use std::sync::{Arc, Mutex};

fn cell_of(value: ValueRef) -> CellValue {
    match value {
        ValueRef::Null => CellValue::Null,
        ValueRef::Integer(i) => CellValue::Integer(i),
        ValueRef::Real(r) => CellValue::Real(r.to_bits()),
        ValueRef::Text(t) => CellValue::Text(t.to_string()),
        ValueRef::Blob(b) => CellValue::Blob(b.to_vec()),
    }
}

fn value_of(cell: CellValue) -> Value {
    match cell {
        CellValue::Null => Value::Null,
        CellValue::Integer(i) => Value::Integer(i),
        CellValue::Real(bits) => Value::Real(f64::from_bits(bits)),
        CellValue::Text(t) => Value::Text(t),
        CellValue::Blob(b) => Value::Blob(b),
    }
}

fn register(conn: &Connection, table: &Arc<Mutex<StringAnonymizer>>) {
    let table = Arc::clone(table);
    conn.create_scalar_function(FUNCTION_NAME, 1, true, move |ctx| {
        let mut table = table.lock().unwrap();
        Ok(value_of(table.anonymize_value(cell_of(ctx.get_raw(0)))))
    })
    .unwrap();
}

fn schema_of(conn: &Connection) -> Vec<TableSchema> {
    let mut names = conn.prepare("SELECT name FROM sqlite_master WHERE type = 'table'").unwrap();
    let names: Vec<String> =
        names.query_map(NO_PARAMS, |row| row.get(0)).unwrap().map(|name| name.unwrap()).collect();
    let mut schema = Vec::new();
    for name in names {
        let query = format!("PRAGMA table_info({})", quote_identifier(&name));
        let mut columns = conn.prepare(&query).unwrap();
        let columns: Vec<String> =
            columns.query_map(NO_PARAMS, |row| row.get(1)).unwrap().map(|c| c.unwrap()).collect();
        schema.push(TableSchema::new(name, columns));
    }
    schema
}

fn execute(conn: &Connection, mut run: Rewrite) -> Result<(), RewriteFailed> {
    while let Some(statement) = run.pending() {
        run.record(conn.execute_batch(&statement).map_err(|e| e.to_string()));
    }
    run.finish().unwrap()
}

fn rewrite(conn: &Connection, specs: &Vec<ColumnSpec>) -> Result<(), RewriteFailed> {
    let table = Arc::new(Mutex::new(StringAnonymizer::new()));
    register(conn, &table);
    execute(conn, Rewrite::prepare(specs, &schema_of(conn))?)
}

fn pages() -> Connection {
    let conn = Connection::open_in_memory().unwrap();
    conn.execute_batch(
        "CREATE TABLE pages (url TEXT NOT NULL, title TEXT, visits INTEGER);
         INSERT INTO pages VALUES ('http://a.com', 'A', 3);
         INSERT INTO pages VALUES ('http://b.com', 'A', 5);",
    )
    .unwrap();
    conn
}

fn rows_of_pages(conn: &Connection) -> Vec<(String, Option<String>, i64)> {
    let mut rows = conn.prepare("SELECT url, title, visits FROM pages ORDER BY rowid").unwrap();
    let rows = rows.query_map(NO_PARAMS, |row| (row.get(0), row.get(1), row.get(2))).unwrap();
    rows.map(|row| row.unwrap()).collect()
}

fn count_of(conn: &Connection, table: &str) -> i64 {
    conn.query_row(&format!("SELECT COUNT(*) FROM {}", table), NO_PARAMS, |row| row.get(0)).unwrap()
}

#[test]
fn equal_titles_stay_equal_and_urls_stay_distinct() {
    let conn = pages();
    let specs =
        vec![ColumnSpec::anonymize("pages", "url"), ColumnSpec::coalesce_anonymize("pages", "title")];
    assert_eq!(rewrite(&conn, &specs), Ok(()));
    let rows = rows_of_pages(&conn);
    assert_eq!(rows.len(), 2);
    let (first_url, first_title, first_visits) = rows[0].clone();
    let (second_url, second_title, second_visits) = rows[1].clone();
    assert_eq!(first_title, second_title);
    let title = first_title.unwrap();
    assert_eq!(title.chars().count(), 1);
    assert!(title.chars().all(|c| c.is_ascii_alphanumeric()));
    assert_ne!(first_url, second_url);
    assert_ne!(first_url, "http://a.com");
    assert_ne!(second_url, "http://b.com");
    assert_eq!(first_url.chars().count(), "http://a.com".chars().count());
    assert_eq!(second_url.chars().count(), "http://b.com".chars().count());
    assert!(first_url.chars().all(|c| c.is_ascii_alphanumeric()));
    assert!(second_url.chars().all(|c| c.is_ascii_alphanumeric()));
    assert_eq!((first_visits, second_visits), (3, 5));
}

#[test]
fn longer_titles_do_not_keep_their_text() {
    let conn = pages();
    conn.execute_batch("UPDATE pages SET title = 'A page about nothing much'").unwrap();
    let specs = vec![ColumnSpec::coalesce_anonymize("pages", "title")];
    assert_eq!(rewrite(&conn, &specs), Ok(()));
    let rows = rows_of_pages(&conn);
    assert_eq!(rows[0].1, rows[1].1);
    let title = rows[0].1.clone().unwrap();
    assert_ne!(title, "A page about nothing much");
    assert_eq!(title.len(), "A page about nothing much".len());
    assert_eq!(rows[0].0, "http://a.com");
    assert_eq!(rows[1].0, "http://b.com");
}

#[test]
fn same_text_in_two_tables_gets_one_replacement() {
    let conn = pages();
    conn.execute_batch(
        "CREATE TABLE bookmarks (title TEXT);
         INSERT INTO bookmarks VALUES ('http://a.com');
         INSERT INTO bookmarks VALUES ('something else');",
    )
    .unwrap();
    let specs = vec![
        ColumnSpec::anonymize("pages", "url"),
        ColumnSpec::coalesce_anonymize("bookmarks", "title"),
    ];
    assert_eq!(rewrite(&conn, &specs), Ok(()));
    let url = rows_of_pages(&conn)[0].0.clone();
    let bookmark: String = conn
        .query_row("SELECT title FROM bookmarks ORDER BY rowid LIMIT 1", NO_PARAMS, |row| row.get(0))
        .unwrap();
    assert_eq!(url, bookmark);
    assert_ne!(url, "http://a.com");
}

#[test]
fn absent_title_becomes_the_empty_text_when_coalesced() {
    let conn = pages();
    conn.execute_batch("INSERT INTO pages VALUES ('http://c.com', NULL, 0)").unwrap();
    let specs = vec![ColumnSpec::coalesce_anonymize("pages", "title")];
    assert_eq!(rewrite(&conn, &specs), Ok(()));
    let rows = rows_of_pages(&conn);
    assert_eq!(rows[2].1, Some(String::new()));
    let absent: i64 = conn
        .query_row("SELECT COUNT(*) FROM pages WHERE title IS NULL", NO_PARAMS, |row| row.get(0))
        .unwrap();
    assert_eq!(absent, 0);
}

#[test]
fn absent_title_stays_absent_when_not_coalesced() {
    let conn = pages();
    conn.execute_batch("INSERT INTO pages VALUES ('http://c.com', NULL, 0)").unwrap();
    let specs = vec![ColumnSpec::anonymize("pages", "title")];
    assert_eq!(rewrite(&conn, &specs), Ok(()));
    let rows = rows_of_pages(&conn);
    assert_eq!(rows[2].1, None);
    assert_eq!(rows[0].1, rows[1].1);
}

#[test]
fn empty_text_stays_empty_in_the_database() {
    let conn = pages();
    conn.execute_batch("INSERT INTO pages VALUES ('http://c.com', '', 0)").unwrap();
    let specs = vec![ColumnSpec::coalesce_anonymize("pages", "title")];
    assert_eq!(rewrite(&conn, &specs), Ok(()));
    assert_eq!(rows_of_pages(&conn)[2].1, Some(String::new()));
}

#[test]
fn table_marked_for_deletion_ends_empty() {
    let conn = pages();
    conn.execute_batch("CREATE TABLE hosts (host TEXT); CREATE TABLE annos (content TEXT);")
        .unwrap();
    for i in 0..25 {
        conn.execute_batch(&format!("INSERT INTO hosts VALUES ('host{}.example')", i)).unwrap();
    }
    let specs = vec![ColumnSpec::delete_all_rows("hosts"), ColumnSpec::delete_all_rows("annos")];
    assert_eq!(count_of(&conn, "hosts"), 25);
    assert_eq!(rewrite(&conn, &specs), Ok(()));
    assert_eq!(count_of(&conn, "hosts"), 0);
    assert_eq!(count_of(&conn, "annos"), 0);
    assert_eq!(count_of(&conn, "pages"), 2);
}

#[test]
fn column_is_set_to_the_constant() {
    let conn = pages();
    let specs = vec![ColumnSpec::set_constant("pages", "visits", 0)];
    assert_eq!(rewrite(&conn, &specs), Ok(()));
    let rows = rows_of_pages(&conn);
    assert_eq!((rows[0].2, rows[1].2), (0, 0));
    let specs = vec![ColumnSpec::set_constant("pages", "visits", i64::MIN)];
    assert_eq!(rewrite(&conn, &specs), Ok(()));
    assert_eq!(rows_of_pages(&conn)[0].2, i64::MIN);
}

#[test]
fn failure_of_the_last_statement_leaves_the_database_as_it_was() {
    let conn = pages();
    conn.execute_batch("CREATE TABLE hosts (host TEXT); INSERT INTO hosts VALUES ('a.com');")
        .unwrap();
    let before = rows_of_pages(&conn);
    let specs = vec![
        ColumnSpec::anonymize("pages", "url"),
        ColumnSpec::coalesce_anonymize("pages", "title"),
        ColumnSpec::delete_all_rows("hosts"),
    ];
    let mut statements = plan(&specs, &schema_of(&conn)).unwrap();
    statements.push(String::from("DELETE FROM \"gone\""));
    let table = Arc::new(Mutex::new(StringAnonymizer::new()));
    register(&conn, &table);
    let result = execute(&conn, Rewrite::new(statements));
    match result {
        Err(RewriteFailed { cause: Cause::StorageFailure { message } }) => {
            assert!(message.contains("gone"), "{}", message)
        }
        other => panic!("a storage failure was expected, got {:?}", other),
    }
    assert_eq!(rows_of_pages(&conn), before);
    assert_eq!(count_of(&conn, "hosts"), 1);
    assert!(conn.is_autocommit());
    assert_eq!(table.lock().unwrap().len(), 3);
}

#[test]
fn missing_column_fails_the_rewrite_before_it_starts() {
    let conn = pages();
    let before = rows_of_pages(&conn);
    let specs =
        vec![ColumnSpec::anonymize("pages", "url"), ColumnSpec::anonymize("pages", "description")];
    assert_eq!(
        rewrite(&conn, &specs),
        Err(RewriteFailed::new(Cause::SchemaMismatch {
            table: String::from("pages"),
            column: Some(String::from("description")),
        }))
    );
    assert_eq!(rows_of_pages(&conn), before);
}

#[test]
fn missing_table_fails_the_rewrite_before_it_starts() {
    let conn = pages();
    let before = rows_of_pages(&conn);
    let specs = vec![ColumnSpec::anonymize("pages", "url"), ColumnSpec::delete_all_rows("hosts")];
    assert_eq!(
        rewrite(&conn, &specs),
        Err(RewriteFailed::new(Cause::SchemaMismatch { table: String::from("hosts"), column: None }))
    );
    assert_eq!(rows_of_pages(&conn), before);
}

#[test]
fn places_list_fails_on_a_database_without_those_tables() {
    let conn = pages();
    assert_eq!(
        rewrite(&conn, &places_column_specs()),
        Err(RewriteFailed::new(Cause::SchemaMismatch {
            table: String::from("moz_origins"),
            column: None
        }))
    );
}

#[test]
fn generic_mode_rewrites_text_and_keeps_numbers() {
    let conn = pages();
    conn.execute_batch(
        "CREATE TABLE counters (id INTEGER PRIMARY KEY AUTOINCREMENT, label TEXT, ratio REAL, raw BLOB);
         INSERT INTO counters (label, ratio, raw) VALUES ('http://a.com', 0.25, x'0102');
         INSERT INTO counters (label, ratio, raw) VALUES (NULL, NULL, NULL);",
    )
    .unwrap();
    let schema = schema_of(&conn);
    assert!(schema.iter().any(|table| table.name == "sqlite_sequence"));
    let specs = discover(&schema);
    assert_eq!(
        specs,
        vec![
            ColumnSpec::anonymize("pages", "url"),
            ColumnSpec::anonymize("pages", "title"),
            ColumnSpec::anonymize("pages", "visits"),
            ColumnSpec::anonymize("counters", "id"),
            ColumnSpec::anonymize("counters", "label"),
            ColumnSpec::anonymize("counters", "ratio"),
            ColumnSpec::anonymize("counters", "raw"),
        ]
    );
    assert_eq!(rewrite(&conn, &specs), Ok(()));
    let rows = rows_of_pages(&conn);
    assert_eq!((rows[0].2, rows[1].2), (3, 5));
    assert_ne!(rows[0].0, "http://a.com");
    assert_eq!(rows[0].1, rows[1].1);
    let (id, label, ratio, raw): (i64, String, f64, Vec<u8>) = conn
        .query_row("SELECT id, label, ratio, raw FROM counters WHERE id = 1", NO_PARAMS, |row| {
            (row.get(0), row.get(1), row.get(2), row.get(3))
        })
        .unwrap();
    assert_eq!((id, ratio, raw), (1, 0.25, vec![1u8, 2u8]));
    assert_eq!(label, rows[0].0);
    let absent: i64 = conn
        .query_row(
            "SELECT COUNT(*) FROM counters WHERE label IS NULL AND ratio IS NULL AND raw IS NULL",
            NO_PARAMS,
            |row| row.get(0),
        )
        .unwrap();
    assert_eq!(absent, 1);
    let sequence: i64 = conn
        .query_row("SELECT seq FROM sqlite_sequence WHERE name = 'counters'", NO_PARAMS, |row| {
            row.get(0)
        })
        .unwrap();
    assert_eq!(sequence, 2);
}

#[test]
fn names_that_need_quoting_are_rewritten() {
    let conn = Connection::open_in_memory().unwrap();
    conn.execute_batch(
        "CREATE TABLE \"my \"\"pages\"\"\" (\"the url\" TEXT);
         INSERT INTO \"my \"\"pages\"\"\" VALUES ('http://a.com');",
    )
    .unwrap();
    let specs = vec![ColumnSpec::anonymize("my \"pages\"", "the url")];
    assert_eq!(rewrite(&conn, &specs), Ok(()));
    let url: String = conn
        .query_row("SELECT \"the url\" FROM \"my \"\"pages\"\"\"", NO_PARAMS, |row| row.get(0))
        .unwrap();
    assert_ne!(url, "http://a.com");
    assert_eq!(url.len(), 12);
}
