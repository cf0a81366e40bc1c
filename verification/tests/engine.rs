use rusqlite::types::Value;
use rusqlite::{params_from_iter, Connection};
use staticdb::backend::{Action, Journal, Notification, Outcome};
use staticdb::column::DropdownValue;
use staticdb::procedure;
use staticdb::procedure::{Answer, Ask};
use staticdb::column_type::{MetadataColumnType, Primitive};
use staticdb::data_query;
use staticdb::data_query::{DataColumn, QueryRows};
use staticdb::db;
use staticdb::error::Error;
use staticdb::sql::{SqlValue, Statement};
use staticdb::table;
use staticdb::table_data;
use staticdb::table_data::{Cell, CellValue, Coercion, RowCell};

fn values(s: &Statement) -> Vec<Value> {
    let mut out = Vec::new();
    for p in s.params.iter() {
        out.push(match p {
            SqlValue::Null => Value::Null,
            SqlValue::Integer(i) => Value::Integer(*i),
            SqlValue::Text(t) => Value::Text(t.clone()),
        });
    }
    out
}

fn storage(e: rusqlite::Error) -> Error {
    Error::Storage(format!("{}", e))
}

fn run(conn: &Connection, s: &Statement) -> Result<(), Error> {
    conn.execute(&s.sql, params_from_iter(values(s))).map_err(storage)?;
    Ok(())
}

fn run_all(conn: &Connection, plan: &Vec<Statement>) -> Result<(), Error> {
    for s in plan.iter() {
        run(conn, s)?;
    }
    Ok(())
}

fn rows(conn: &Connection, s: &Statement) -> Result<Vec<Vec<Value>>, Error> {
    let mut st = conn.prepare(&s.sql).map_err(storage)?;
    let n = st.column_count();
    let mut out = Vec::new();
    let mut rs = st.query(params_from_iter(values(s))).map_err(storage)?;
    while let Some(r) = rs.next().map_err(storage)? {
        let mut row = Vec::new();
        for i in 0..n {
            row.push(r.get::<_, Value>(i).map_err(storage)?);
        }
        out.push(row);
    }
    Ok(out)
}

fn as_int(v: &Value) -> i64 {
    match v {
        Value::Integer(i) => *i,
        _ => panic!("not an integer: {:?}", v),
    }
}

fn text(v: &Value) -> Option<String> {
    match v {
        Value::Null => None,
        Value::Text(t) => Some(t.clone()),
        Value::Integer(i) => Some(format!("{}", i)),
        Value::Real(f) => Some(format!("{}", f)),
        Value::Blob(_) => Some(String::from("blob")),
    }
}

fn open() -> Connection {
    let conn = Connection::open_in_memory().unwrap();
    conn.execute_batch("PRAGMA foreign_keys = ON;").unwrap();
    conn.execute_batch(db::SCHEMA).unwrap();
    conn
}

fn column_type(conn: &Connection, column_oid: i64) -> Result<Option<(MetadataColumnType, i64)>, Error> {
    let found = rows(conn, &staticdb::column::column_type_query(column_oid))?;
    Ok(found.first().map(|r| (MetadataColumnType::from_database(as_int(&r[0]), as_int(&r[1])), as_int(&r[2]))))
}

/// What the store holds in a cell of an answer, as the library reads it.
fn plain(v: Value) -> SqlValue {
    match v {
        Value::Null => SqlValue::Null,
        Value::Integer(i) => SqlValue::Integer(i),
        Value::Text(t) => SqlValue::Text(t),
        Value::Real(f) => SqlValue::Text(format!("{}", f)),
        Value::Blob(_) => SqlValue::Null,
    }
}

/// Carries out an action step by step: runs what each step names, reads what
/// it asks for and hands the answer back for the next step.
fn drive(conn: &Connection, action: &Action) -> Result<Outcome, Error> {
    let (mut progress, mut step) = procedure::begin(action)?;
    loop {
        if let Err(e) = run_all(conn, &step.run) {
            return Err(if step.saving { e.while_saving() } else { e });
        }
        let answer = match step.ask {
            Ask::Finish(outcome) => return Ok(outcome),
            Ask::Id => Answer::Id(conn.last_insert_rowid()),
            Ask::Render(coercion) => Answer::Text(render(coercion)?),
            Ask::Rows(query) => {
                let mut read = Vec::new();
                for r in rows(conn, &query)? {
                    read.push(r.into_iter().map(plain).collect());
                }
                Answer::Rows(read)
            }
        };
        let next = procedure::advance(progress, answer)?;
        progress = next.0;
        step = next.1;
    }
}

/// The text to store for a number: the arithmetic is in floating point,
/// which the library cannot hold.
fn render(coercion: Coercion) -> Result<Option<String>, Error> {
    match coercion {
        Coercion::Store(v) => Ok(v),
        Coercion::Truncate(s) => match s.parse::<f64>() {
            Ok(n) => Ok(Some(format!("{}", n as i64))),
            Err(_) => Err(Error::InvalidInteger),
        },
        Coercion::JulianFraction { julian_day, seconds_past_noon, nanosecond } => Ok(Some(format!(
            "{}",
            (julian_day as f64) + ((seconds_past_noon as f64) + (nanosecond as f64) / 1e9) / 86400.0
        ))),
    }
}

fn perform(conn: &Connection, action: &Action) -> Result<Outcome, Error> {
    conn.execute_batch("BEGIN;").map_err(storage)?;
    let outcome = drive(conn, action);
    match &outcome {
        Ok(_) => conn.execute_batch("COMMIT;").map_err(storage)?,
        Err(_) => conn.execute_batch("ROLLBACK;").map_err(storage)?,
    }
    outcome
}

fn execute(conn: &Connection, journal: &mut Journal, action: Action) -> Result<Vec<Notification>, Error> {
    let outcome = perform(conn, &action);
    let (notes, result) = journal.execute(action, outcome);
    result.map(|_| notes)
}

fn undo(conn: &Connection, journal: &mut Journal) -> Result<(), Error> {
    let outcome = match journal.next_undo() {
        Some(a) => perform(conn, a),
        None => Ok(Outcome::Done),
    };
    journal.undo(outcome).1
}

fn redo(conn: &Connection, journal: &mut Journal) -> Result<(), Error> {
    let outcome = match journal.next_redo() {
        Some(a) => perform(conn, a),
        None => Ok(Outcome::Done),
    };
    journal.redo(outcome).1
}

fn table_list(conn: &Connection) -> Vec<(i64, String)> {
    let mut out = Vec::new();
    for r in rows(conn, &table::send_metadata_list()).unwrap() {
        out.push((as_int(&r[0]), text(&r[1]).unwrap()));
    }
    out
}

fn read_row(conn: &Connection, table_oid: i64, row_oid: i64) -> Vec<RowCell> {
    let mut masters = Vec::new();
    for r in rows(conn, &data_query::masters_query(table_oid)).unwrap() {
        masters.push(data_query::MasterJoin { master_oid: as_int(&r[0]), inheritor_oid: as_int(&r[1]) });
    }
    let mut columns: Vec<DataColumn> = Vec::new();
    for r in rows(conn, &data_query::data_columns_query(table_oid)).unwrap() {
        columns.push(data_query::data_column_from_row(
            as_int(&r[0]),
            as_int(&r[1]),
            text(&r[2]).unwrap(),
            as_int(&r[3]),
            as_int(&r[4]),
            as_int(&r[5]) != 0,
            as_int(&r[6]) != 0,
            as_int(&r[7]) != 0,
        ));
    }
    let (sql, mut described) = describe(conn, table_oid, &masters, &columns, QueryRows::Row);
    for (place, query) in data_query::uniqueness_queries(&described) {
        for r in rows(conn, &query).unwrap() {
            described[place].invalid_nonunique_oid.insert(as_int(&r[0]));
        }
    }
    let mut st = conn.prepare(&sql).unwrap();
    let mut rs = st.query([row_oid]).unwrap();
    let row = match rs.next().unwrap() {
        None => None,
        Some(r) => {
            let mut cells = Vec::new();
            for c in described.iter() {
                cells.push(CellValue {
                    row_oid: r.get::<_, i64>(c.row_ord.as_str()).unwrap(),
                    true_value: match &c.true_ord {
                        Some(name) => r.get::<_, Option<String>>(name.as_str()).unwrap(),
                        None => None,
                    },
                    display_value: r.get::<_, Option<String>>(c.display_ord.as_str()).unwrap(),
                });
            }
            Some(cells)
        }
    };
    table_data::send_table_row(&described, &row).unwrap()
}

fn describe(
    conn: &Connection,
    table_oid: i64,
    masters: &Vec<data_query::MasterJoin>,
    columns: &Vec<DataColumn>,
    which: QueryRows,
) -> (String, Vec<data_query::Column>) {
    let mut keys = Vec::new();
    for r in rows(conn, &data_query::sort_keys_query(table_oid)).unwrap() {
        keys.push(data_query::SortKey { column_oid: as_int(&r[0]), ascending: as_int(&r[1]) != 0 });
    }
    data_query::construct_data_query(table_oid, masters, columns, &keys, which)
}

fn read_page(conn: &Connection, table_oid: i64, page_num: i64, page_size: i64) -> Vec<Cell> {
    let mut columns: Vec<DataColumn> = Vec::new();
    for r in rows(conn, &data_query::data_columns_query(table_oid)).unwrap() {
        columns.push(data_query::data_column_from_row(
            as_int(&r[0]),
            as_int(&r[1]),
            text(&r[2]).unwrap(),
            as_int(&r[3]),
            as_int(&r[4]),
            as_int(&r[5]) != 0,
            as_int(&r[6]) != 0,
            as_int(&r[7]) != 0,
        ));
    }
    let (sql, described) = describe(conn, table_oid, &Vec::new(), &columns, QueryRows::Page);
    let offset = data_query::page_offset(page_num, page_size).unwrap();
    let mut st = conn.prepare(&sql).unwrap();
    let mut rs = st.query([page_size, offset]).unwrap();
    let mut out = Vec::new();
    while let Some(r) = rs.next().unwrap() {
        let mut cells = Vec::new();
        for c in described.iter() {
            cells.push(CellValue {
                row_oid: r.get::<_, i64>(c.row_ord.as_str()).unwrap(),
                true_value: match &c.true_ord {
                    Some(name) => r.get::<_, Option<String>>(name.as_str()).unwrap(),
                    None => None,
                },
                display_value: r.get::<_, Option<String>>(c.display_ord.as_str()).unwrap(),
            });
        }
        let row_oid: i64 = r.get("t_OID").unwrap();
        let row_index: i64 = r.get("ROW_INDEX").unwrap();
        out.extend(table_data::send_table_data(&described, row_oid, row_index, &cells).unwrap());
    }
    out
}

fn display_of(cell: &RowCell) -> Option<String> {
    match cell {
        RowCell::ColumnValue { display_value, .. } => display_value.clone(),
        _ => panic!("not a column value"),
    }
}

fn surrogate(conn: &Connection, table_oid: i64) -> Vec<(i64, Option<String>, Option<String>)> {
    let sql = format!("SELECT OID, DISPLAY_VALUE, JSON_DISPLAY_VALUE FROM TABLE{}_SURROGATE ORDER BY OID;", table_oid);
    let mut out = Vec::new();
    for r in rows(conn, &Statement { sql, params: Vec::new() }).unwrap() {
        out.push((as_int(&r[0]), text(&r[1]), text(&r[2])));
    }
    out
}

fn row_ids(conn: &Connection, table_oid: i64) -> Vec<i64> {
    let sql = format!("SELECT OID FROM TABLE{} ORDER BY OID;", table_oid);
    let mut out = Vec::new();
    for r in rows(conn, &Statement { sql, params: Vec::new() }).unwrap() {
        out.push(as_int(&r[0]));
    }
    out
}

fn relation_exists(conn: &Connection, name: &str) -> bool {
    let s = Statement {
        sql: String::from("SELECT COUNT(*) FROM sqlite_master WHERE name = ?1;"),
        params: vec![SqlValue::Text(name.to_string())],
    };
    as_int(&rows(conn, &s).unwrap()[0][0]) > 0
}

fn new_column(table_oid: i64, name: &str, ty: MetadataColumnType, nullable: bool, unique: bool, key: bool) -> Action {
    Action::CreateTableColumn {
        table_oid,
        column_name: name.to_string(),
        column_type: ty,
        column_ordering: None,
        column_style: String::from("width: 100;"),
        is_nullable: nullable,
        is_unique: unique,
        is_primary_key: key,
    }
}

fn update(table_oid: i64, column_oid: i64, row_oid: i64, value: Option<&str>) -> Action {
    Action::UpdateTableCellStoredAsPrimitiveValue {
        table_oid,
        column_oid,
        row_oid,
        value: value.map(|v| v.to_string()),
    }
}

fn created(journal: &Journal) -> i64 {
    match journal.reverse.last().unwrap() {
        Action::DeleteTable { table_oid } => *table_oid,
        Action::DeleteTableColumn { column_oid, .. } => *column_oid,
        Action::DeleteTableRow { row_oid, .. } => *row_oid,
        other => panic!("nothing was created: {:?}", other),
    }
}

const TEXT: MetadataColumnType = MetadataColumnType::Primitive(Primitive::Text);
const DATE: MetadataColumnType = MetadataColumnType::Primitive(Primitive::Date);

#[test]
fn scenario_people_table_from_creation_to_undo() {
    let conn = open();
    let mut journal = Journal::new();

    // A table: the first id behind the seeded types.
    let notes = execute(&conn, &mut journal, Action::CreateTable { table_name: String::from("People") }).unwrap();
    assert_eq!(created(&journal), 10);
    assert_eq!(notes, vec![Notification::TableList, Notification::TableData(10)]);
    assert_eq!(table_list(&conn), vec![(10, String::from("People"))]);

    // A text column that may not be empty.
    execute(&conn, &mut journal, new_column(10, "Name", TEXT, false, false, false)).unwrap();
    assert_eq!(created(&journal), 11);
    assert!(relation_exists(&conn, "TABLE10_SURROGATE"));

    // A row.
    execute(&conn, &mut journal, Action::PushTableRow { table_oid: 10 }).unwrap();
    assert_eq!(created(&journal), 1);
    assert_eq!(
        surrogate(&conn, 10),
        vec![(1, Some(String::from("— NO PRIMARY KEY —")), Some(String::from("{}")))]
    );
    let cells = read_row(&conn, 10, 1);
    assert_eq!(cells.len(), 2);
    assert_eq!(cells[0], RowCell::RowExists { row_exists: true });
    match &cells[1] {
        RowCell::ColumnValue { column_oid, display_value, failed_validations, table_oid, row_oid, column_type, .. } => {
            assert_eq!(*column_oid, 11);
            assert_eq!(*table_oid, 10);
            assert_eq!(*row_oid, 1);
            assert_eq!(*column_type, TEXT);
            assert_eq!(*display_value, None);
            assert_eq!(failed_validations.len(), 1);
            assert_eq!(failed_validations[0].description, "Name cannot be NULL!");
        }
        other => panic!("unexpected cell {:?}", other),
    }

    // A value.
    execute(&conn, &mut journal, update(10, 11, 1, Some("Alice"))).unwrap();
    let cells = read_row(&conn, 10, 1);
    match &cells[1] {
        RowCell::ColumnValue { display_value, failed_validations, true_value, .. } => {
            assert_eq!(*display_value, Some(String::from("Alice")));
            assert_eq!(*true_value, Some(String::from("Alice")));
            assert!(failed_validations.is_empty());
        }
        other => panic!("unexpected cell {:?}", other),
    }

    // The column becomes the primary key.
    execute(
        &conn,
        &mut journal,
        Action::EditTableColumnMetadata {
            table_oid: 10,
            column_oid: 11,
            column_name: String::from("Name"),
            column_type: TEXT,
            column_style: String::from("width: 100;"),
            is_nullable: false,
            is_unique: false,
            is_primary_key: true,
        },
    )
    .unwrap();
    let shown = surrogate(&conn, 10);
    assert_eq!(shown.len(), 1);
    assert_eq!(shown[0].1, Some(String::from("Alice")));
    assert_eq!(shown[0].2, Some(String::from("{ \"Name\": \"Alice\" }")));

    // A date.
    execute(&conn, &mut journal, new_column(10, "DOB", DATE, true, false, false)).unwrap();
    let dob = created(&journal);
    execute(&conn, &mut journal, update(10, dob, 1, Some("1990-07-04"))).unwrap();
    let stored = rows(
        &conn,
        &Statement { sql: format!("SELECT COLUMN{}, TYPEOF(COLUMN{}) FROM TABLE10 WHERE OID = 1;", dob, dob), params: Vec::new() },
    )
    .unwrap();
    assert_eq!(stored[0][0], Value::Integer(2448077));
    assert_eq!(stored[0][1], Value::Text(String::from("integer")));
    let cells = read_row(&conn, 10, 1);
    assert_eq!(cells.len(), 3);
    assert_eq!(display_of(&cells[2]), Some(String::from("1990-07-04")));

    // Seven actions were recorded; six undos leave the table alone in place.
    assert_eq!(journal.reverse.len(), 7);
    for _ in 0..6 {
        undo(&conn, &mut journal).unwrap();
    }
    assert_eq!(journal.reverse.len(), 1);
    assert_eq!(journal.forward.len(), 6);
    assert_eq!(table_list(&conn), vec![(10, String::from("People"))]);
    assert_eq!(read_row(&conn, 10, 1), vec![RowCell::RowExists { row_exists: false }]);
    // The seventh takes the table away too.
    undo(&conn, &mut journal).unwrap();
    assert!(table_list(&conn).is_empty());
    assert!(journal.reverse.is_empty());
    // With nothing left to undo, nothing happens.
    undo(&conn, &mut journal).unwrap();
    assert!(table_list(&conn).is_empty());
    assert_eq!(journal.forward.len(), 7);
}

#[test]
fn execute_undo_redo_gives_what_execute_gave() {
    let conn = open();
    let mut journal = Journal::new();
    execute(&conn, &mut journal, Action::CreateTable { table_name: String::from("People") }).unwrap();
    execute(&conn, &mut journal, new_column(10, "Name", TEXT, true, false, true)).unwrap();
    execute(&conn, &mut journal, Action::PushTableRow { table_oid: 10 }).unwrap();
    execute(&conn, &mut journal, update(10, 11, 1, Some("Alice"))).unwrap();
    let after_execute = (table_list(&conn), read_row(&conn, 10, 1), surrogate(&conn, 10), journal.reverse.clone());
    undo(&conn, &mut journal).unwrap();
    assert_eq!(display_of(&read_row(&conn, 10, 1)[1]), None);
    redo(&conn, &mut journal).unwrap();
    assert_eq!(
        (table_list(&conn), read_row(&conn, 10, 1), surrogate(&conn, 10), journal.reverse.clone()),
        after_execute
    );
    assert!(journal.forward.is_empty());
}

#[test]
fn a_new_action_forgets_what_could_be_redone() {
    let conn = open();
    let mut journal = Journal::new();
    execute(&conn, &mut journal, Action::CreateTable { table_name: String::from("A") }).unwrap();
    execute(&conn, &mut journal, Action::PushTableRow { table_oid: 10 }).unwrap();
    undo(&conn, &mut journal).unwrap();
    assert_eq!(journal.forward.len(), 1);
    execute(&conn, &mut journal, Action::PushTableRow { table_oid: 10 }).unwrap();
    assert!(journal.forward.is_empty());
    assert_eq!(journal.reverse.len(), 2);
}

#[test]
fn a_failed_action_changes_neither_store_nor_journal() {
    let conn = open();
    let mut journal = Journal::new();
    execute(&conn, &mut journal, Action::CreateTable { table_name: String::from("Docs") }).unwrap();
    execute(
        &conn,
        &mut journal,
        new_column(10, "Body", MetadataColumnType::Primitive(Primitive::JSON), true, false, false),
    )
    .unwrap();
    execute(&conn, &mut journal, Action::PushTableRow { table_oid: 10 }).unwrap();
    execute(&conn, &mut journal, update(10, 11, 1, Some("{\"a\": [1, 2]}"))).unwrap();
    let before = read_row(&conn, 10, 1);
    let recorded = journal.reverse.clone();
    let refused = execute(&conn, &mut journal, update(10, 11, 1, Some("{\"a\": [1, 2")));
    assert_eq!(refused, Err(Error::InvalidJson));
    assert_eq!(read_row(&conn, 10, 1), before);
    assert_eq!(journal.reverse, recorded);
    // A table that does not exist: the store's error comes back as it is.
    let refused = execute(&conn, &mut journal, Action::PushTableRow { table_oid: 99 });
    assert!(matches!(refused, Err(Error::Storage(_))));
    assert_eq!(journal.reverse, recorded);
}

#[test]
fn insert_row_into_empty_table_takes_the_id() {
    let conn = open();
    let mut journal = Journal::new();
    execute(&conn, &mut journal, Action::CreateTable { table_name: String::from("T") }).unwrap();
    execute(&conn, &mut journal, Action::InsertTableRow { table_oid: 10, row_oid: 1 }).unwrap();
    assert_eq!(created(&journal), 1);
    assert_eq!(row_ids(&conn, 10), vec![1]);
}

#[test]
fn insert_row_before_dense_rows_shifts_them_up() {
    let conn = open();
    let mut journal = Journal::new();
    execute(&conn, &mut journal, Action::CreateTable { table_name: String::from("T") }).unwrap();
    execute(&conn, &mut journal, new_column(10, "Name", TEXT, true, false, false)).unwrap();
    for name in ["a", "b", "c", "d"] {
        execute(&conn, &mut journal, Action::PushTableRow { table_oid: 10 }).unwrap();
        let row = created(&journal);
        execute(&conn, &mut journal, update(10, 11, row, Some(name))).unwrap();
    }
    assert_eq!(row_ids(&conn, 10), vec![1, 2, 3, 4]);
    execute(&conn, &mut journal, Action::InsertTableRow { table_oid: 10, row_oid: 3 }).unwrap();
    assert_eq!(created(&journal), 3);
    assert_eq!(row_ids(&conn, 10), vec![1, 2, 3, 4, 5]);
    assert_eq!(display_of(&read_row(&conn, 10, 2)[1]), Some(String::from("b")));
    assert_eq!(display_of(&read_row(&conn, 10, 3)[1]), None);
    assert_eq!(display_of(&read_row(&conn, 10, 4)[1]), Some(String::from("c")));
    assert_eq!(display_of(&read_row(&conn, 10, 5)[1]), Some(String::from("d")));
    // Behind the last row the id is free.
    execute(&conn, &mut journal, Action::InsertTableRow { table_oid: 10, row_oid: 6 }).unwrap();
    assert_eq!(created(&journal), 6);
    assert_eq!(row_ids(&conn, 10), vec![1, 2, 3, 4, 5, 6]);
    // Before the first row the id below is free.
    execute(&conn, &mut journal, Action::InsertTableRow { table_oid: 10, row_oid: 1 }).unwrap();
    assert_eq!(created(&journal), 0);
    assert_eq!(row_ids(&conn, 10), vec![0, 1, 2, 3, 4, 5, 6]);
}

#[test]
fn a_column_created_at_an_ordering_moves_the_others_back() {
    let conn = open();
    let mut journal = Journal::new();
    execute(&conn, &mut journal, Action::CreateTable { table_name: String::from("T") }).unwrap();
    execute(&conn, &mut journal, new_column(10, "A", TEXT, true, false, false)).unwrap();
    execute(&conn, &mut journal, new_column(10, "B", TEXT, true, false, false)).unwrap();
    execute(&conn, &mut journal, new_column(10, "C", TEXT, true, false, false)).unwrap();
    execute(&conn, &mut journal, Action::DeleteTableColumn { table_oid: 10, column_oid: 13 }).unwrap();
    execute(
        &conn,
        &mut journal,
        Action::CreateTableColumn {
            table_oid: 10,
            column_name: String::from("N"),
            column_type: TEXT,
            column_ordering: Some(2),
            column_style: String::new(),
            is_nullable: true,
            is_unique: false,
            is_primary_key: false,
        },
    )
    .unwrap();
    let listed = rows(
        &conn,
        &Statement {
            sql: String::from("SELECT NAME, COLUMN_ORDERING, TRASH FROM METADATA_TABLE_COLUMN ORDER BY OID;"),
            params: Vec::new(),
        },
    )
    .unwrap();
    let listed: Vec<(Option<String>, i64, i64)> = listed.iter().map(|r| (text(&r[0]), as_int(&r[1]), as_int(&r[2]))).collect();
    assert_eq!(
        listed,
        vec![
            (Some(String::from("A")), 1, 0),
            (Some(String::from("B")), 3, 0),
            (Some(String::from("C")), 4, 1),
            (Some(String::from("N")), 2, 0),
        ]
    );
}

#[test]
fn deleting_a_multi_select_column_drops_link_and_values() {
    let conn = open();
    let mut journal = Journal::new();
    execute(&conn, &mut journal, Action::CreateTable { table_name: String::from("T") }).unwrap();
    execute(&conn, &mut journal, new_column(10, "Tags", MetadataColumnType::MultiSelectDropdown(0), true, false, false))
        .unwrap();
    let column_oid = created(&journal);
    let (ty, _) = column_type(&conn, column_oid).unwrap().unwrap();
    assert_eq!(ty, MetadataColumnType::MultiSelectDropdown(11));
    assert!(relation_exists(&conn, "TABLE11"));
    assert!(relation_exists(&conn, "TABLE11_MULTISELECT"));
    let plan = staticdb::column::delete(10, column_oid, ty);
    let texts: Vec<&str> = plan.iter().map(|s| s.sql.as_str()).collect();
    assert_eq!(
        texts,
        vec![
            "DELETE FROM METADATA_TABLE_COLUMN WHERE OID = ?1;",
            "DROP TABLE TABLE11_MULTISELECT;",
            "DROP TABLE TABLE11;",
            "DELETE FROM METADATA_TYPE WHERE OID = ?1;",
        ]
    );
    run_all(&conn, &plan).unwrap();
    assert!(!relation_exists(&conn, "TABLE11"));
    assert!(!relation_exists(&conn, "TABLE11_MULTISELECT"));
    assert_eq!(column_type(&conn, column_oid).unwrap(), None);
}

#[test]
fn a_reference_edited_to_text_keeps_the_ids_as_text() {
    let conn = open();
    let mut journal = Journal::new();
    execute(&conn, &mut journal, Action::CreateTable { table_name: String::from("People") }).unwrap();
    execute(&conn, &mut journal, new_column(10, "Name", TEXT, true, false, true)).unwrap();
    execute(&conn, &mut journal, Action::PushTableRow { table_oid: 10 }).unwrap();
    execute(&conn, &mut journal, update(10, 11, 1, Some("Alice"))).unwrap();
    execute(&conn, &mut journal, Action::CreateTable { table_name: String::from("Pets") }).unwrap();
    let pets = created(&journal);
    execute(&conn, &mut journal, new_column(pets, "Owner", MetadataColumnType::Reference(10), true, false, false)).unwrap();
    let owner = created(&journal);
    execute(&conn, &mut journal, Action::PushTableRow { table_oid: pets }).unwrap();
    execute(&conn, &mut journal, Action::PushTableRow { table_oid: pets }).unwrap();
    execute(&conn, &mut journal, update(pets, owner, 1, Some("1"))).unwrap();
    let cells = read_row(&conn, pets, 1);
    match &cells[1] {
        RowCell::ColumnValue { display_value, true_value, .. } => {
            assert_eq!(*display_value, Some(String::from("Alice")));
            assert_eq!(*true_value, Some(String::from("1")));
        }
        other => panic!("unexpected cell {:?}", other),
    }
    execute(
        &conn,
        &mut journal,
        Action::EditTableColumnMetadata {
            table_oid: pets,
            column_oid: owner,
            column_name: String::from("Owner"),
            column_type: TEXT,
            column_style: String::new(),
            is_nullable: true,
            is_unique: false,
            is_primary_key: false,
        },
    )
    .unwrap();
    let stored = rows(
        &conn,
        &Statement { sql: format!("SELECT OID, COLUMN{}, TYPEOF(COLUMN{}) FROM TABLE{} ORDER BY OID;", owner, owner, pets), params: Vec::new() },
    )
    .unwrap();
    assert_eq!(stored[0], vec![Value::Integer(1), Value::Text(String::from("1")), Value::Text(String::from("text"))]);
    assert_eq!(stored[1][1], Value::Null);
    assert_eq!(display_of(&read_row(&conn, pets, 1)[1]), Some(String::from("1")));
    assert!(!relation_exists(&conn, "TRANS_COLUMN3"));
}

#[test]
fn primary_keys_that_reference_each_other_are_refused_whole() {
    let conn = open();
    let mut journal = Journal::new();
    execute(&conn, &mut journal, Action::CreateTable { table_name: String::from("A") }).unwrap();
    execute(&conn, &mut journal, Action::CreateTable { table_name: String::from("B") }).unwrap();
    execute(&conn, &mut journal, new_column(11, "a", MetadataColumnType::Reference(10), true, false, true)).unwrap();
    let recorded = journal.reverse.len();
    let columns_before = rows(
        &conn,
        &Statement { sql: String::from("SELECT COUNT(*) FROM METADATA_TABLE_COLUMN;"), params: Vec::new() },
    )
    .unwrap();
    let refused = execute(&conn, &mut journal, new_column(10, "b", MetadataColumnType::Reference(11), true, false, true));
    assert_eq!(refused, Err(Error::SchemaCycle));
    assert_eq!(journal.reverse.len(), recorded);
    let columns_after = rows(
        &conn,
        &Statement { sql: String::from("SELECT COUNT(*) FROM METADATA_TABLE_COLUMN;"), params: Vec::new() },
    )
    .unwrap();
    assert_eq!(columns_before, columns_after);
    assert!(relation_exists(&conn, "TABLE10_SURROGATE"));
    assert!(relation_exists(&conn, "TABLE11_SURROGATE"));
    // A reference that is no primary key makes no circle.
    execute(&conn, &mut journal, new_column(10, "b", MetadataColumnType::Reference(11), true, false, false)).unwrap();
    // A table may reference itself in its primary key.
    execute(&conn, &mut journal, new_column(10, "self", MetadataColumnType::Reference(10), true, false, false)).unwrap();
}

#[test]
fn a_referring_key_shows_the_display_value_of_its_referent() {
    let conn = open();
    let mut journal = Journal::new();
    execute(&conn, &mut journal, Action::CreateTable { table_name: String::from("People") }).unwrap();
    execute(&conn, &mut journal, new_column(10, "Name", TEXT, true, false, true)).unwrap();
    execute(&conn, &mut journal, Action::PushTableRow { table_oid: 10 }).unwrap();
    execute(&conn, &mut journal, update(10, 11, 1, Some("Alice"))).unwrap();
    execute(&conn, &mut journal, Action::CreateTable { table_name: String::from("Pets") }).unwrap();
    let pets = created(&journal);
    execute(&conn, &mut journal, new_column(pets, "Owner", MetadataColumnType::Reference(10), true, false, true)).unwrap();
    let owner = created(&journal);
    execute(&conn, &mut journal, new_column(pets, "Born", DATE, true, false, true)).unwrap();
    let born = created(&journal);
    execute(&conn, &mut journal, Action::PushTableRow { table_oid: pets }).unwrap();
    execute(&conn, &mut journal, update(pets, owner, 1, Some("1"))).unwrap();
    execute(&conn, &mut journal, update(pets, born, 1, Some("2020-02-29"))).unwrap();
    let shown = surrogate(&conn, pets);
    assert_eq!(
        shown[0].1,
        Some(String::from("{ \"Owner\": { \"Name\": \"Alice\" }, \"Born\": \"2020-02-29\" }"))
    );
    // A change of the referent's key is seen through the referring view.
    execute(&conn, &mut journal, update(10, 11, 1, Some("Bob"))).unwrap();
    execute(&conn, &mut journal, Action::DeleteTableColumn { table_oid: pets, column_oid: born }).unwrap();
    assert_eq!(surrogate(&conn, pets)[0].1, Some(String::from("Bob")));
    execute(&conn, &mut journal, Action::DeleteTableColumn { table_oid: 10, column_oid: 11 }).unwrap();
    assert_eq!(surrogate(&conn, pets)[0].1, Some(String::from("— NO PRIMARY KEY —")));
    execute(&conn, &mut journal, Action::DeleteTableRow { table_oid: 10, row_oid: 1 }).unwrap();
    assert_eq!(surrogate(&conn, pets)[0].1, Some(String::from("— DELETED —")));
}

#[test]
fn values_read_back_as_their_type_renders_them() {
    let conn = open();
    let mut journal = Journal::new();
    execute(&conn, &mut journal, Action::CreateTable { table_name: String::from("T") }).unwrap();
    execute(&conn, &mut journal, Action::PushTableRow { table_oid: 10 }).unwrap();
    let cases = vec![
        (Primitive::Text, "hello", "hello"),
        (Primitive::Any, "anything", "anything"),
        (Primitive::Integer, "41.9", "41"),
        (Primitive::Integer, "-7", "-7"),
        (Primitive::Number, "2.5", "2.5"),
        (Primitive::Boolean, "1", "1"),
        (Primitive::JSON, "[1, {\"a\": null}]", "[1, {\"a\": null}]"),
        (Primitive::Date, "1990-07-04", "1990-07-04"),
        (Primitive::Date, "2000-01-01", "2000-01-01"),
        (Primitive::Timestamp, "1990-07-04T12:00:00", "1990-07-04T12:00:00Z"),
        (Primitive::Timestamp, "2024-03-01T06:30:15", "2024-03-01T06:30:15Z"),
    ];
    for (p, written, shown) in cases {
        execute(&conn, &mut journal, new_column(10, "c", MetadataColumnType::Primitive(p), true, false, false)).unwrap();
        let c = created(&journal);
        execute(&conn, &mut journal, update(10, c, 1, Some(written))).unwrap();
        let cells = read_row(&conn, 10, 1);
        assert_eq!(display_of(cells.last().unwrap()), Some(String::from(shown)), "{:?} {}", p, written);
        // Writing what was read back changes nothing for a date and for a timestamp.
        if p == Primitive::Date || p == Primitive::Timestamp {
            let stored = |conn: &Connection| {
                rows(conn, &Statement { sql: format!("SELECT COLUMN{} FROM TABLE10 WHERE OID = 1;", c), params: Vec::new() })
                    .unwrap()
            };
            let before = stored(&conn);
            execute(&conn, &mut journal, update(10, c, 1, Some(shown))).unwrap();
            assert_eq!(stored(&conn), before);
            let again = read_row(&conn, 10, 1);
            assert_eq!(display_of(again.last().unwrap()), Some(String::from(shown)));
        }
    }
    assert_eq!(
        execute(&conn, &mut journal, update(10, 11, 1, Some("x"))).err(),
        None
    );
}

#[test]
fn refused_values_name_their_kind() {
    let conn = open();
    let mut journal = Journal::new();
    execute(&conn, &mut journal, Action::CreateTable { table_name: String::from("T") }).unwrap();
    execute(&conn, &mut journal, Action::PushTableRow { table_oid: 10 }).unwrap();
    let cases = vec![
        (MetadataColumnType::Primitive(Primitive::Integer), "seven", Error::InvalidInteger),
        (MetadataColumnType::Primitive(Primitive::Date), "04/07/1990", Error::InvalidDate),
        (MetadataColumnType::Primitive(Primitive::Timestamp), "yesterday", Error::InvalidTimestamp),
        (MetadataColumnType::Primitive(Primitive::JSON), "{", Error::InvalidJson),
        (MetadataColumnType::MultiSelectDropdown(0), "1", Error::DomainRejected),
        (MetadataColumnType::ChildTable(0), "1", Error::DomainRejected),
    ];
    for (ty, written, error) in cases {
        execute(&conn, &mut journal, new_column(10, "c", ty, true, false, false)).unwrap();
        let c = created(&journal);
        let recorded = journal.reverse.len();
        assert_eq!(execute(&conn, &mut journal, update(10, c, 1, Some(written))), Err(error));
        assert_eq!(journal.reverse.len(), recorded);
    }
}

#[test]
fn unique_columns_flag_the_rows_that_share_a_value() {
    let conn = open();
    let mut journal = Journal::new();
    execute(&conn, &mut journal, Action::CreateTable { table_name: String::from("T") }).unwrap();
    execute(&conn, &mut journal, new_column(10, "Code", TEXT, true, true, false)).unwrap();
    for v in ["x", "y", "x"] {
        execute(&conn, &mut journal, Action::PushTableRow { table_oid: 10 }).unwrap();
        let row = created(&journal);
        execute(&conn, &mut journal, update(10, 11, row, Some(v))).unwrap();
    }
    let failed = |row: i64| match &read_row(&conn, 10, row)[1] {
        RowCell::ColumnValue { failed_validations, .. } => {
            failed_validations.iter().map(|f| f.description.clone()).collect::<Vec<String>>()
        }
        _ => panic!("not a column value"),
    };
    assert_eq!(failed(1), vec![String::from("Code value is not unique!")]);
    assert_eq!(failed(2), Vec::<String>::new());
    assert_eq!(failed(3), vec![String::from("Code value is not unique!")]);
}

#[test]
fn dropdown_values_are_set_listed_and_restored() {
    let conn = open();
    let mut journal = Journal::new();
    execute(&conn, &mut journal, Action::CreateTable { table_name: String::from("T") }).unwrap();
    execute(&conn, &mut journal, new_column(10, "Size", MetadataColumnType::SingleSelectDropdown(0), true, false, true)).unwrap();
    let c = created(&journal);
    let (ty, _) = column_type(&conn, c).unwrap().unwrap();
    assert_eq!(ty, MetadataColumnType::SingleSelectDropdown(11));
    let offer = |values: Vec<(Option<&str>, &str)>| Action::EditTableColumnDropdownValues {
        table_oid: 10,
        column_oid: c,
        dropdown_values: values
            .iter()
            .map(|(t, d)| DropdownValue { true_value: t.map(|s| s.to_string()), display_value: Some(d.to_string()) })
            .collect(),
    };
    let listed = |conn: &Connection| -> Vec<(Option<String>, Option<String>)> {
        rows(conn, &staticdb::column::get_table_column_dropdown_values(ty).unwrap())
            .unwrap()
            .iter()
            .map(|r| (text(&r[0]), text(&r[1])))
            .collect()
    };
    execute(&conn, &mut journal, offer(vec![(None, "S"), (None, "M")])).unwrap();
    assert_eq!(
        listed(&conn),
        vec![(Some(String::from("1")), Some(String::from("S"))), (Some(String::from("2")), Some(String::from("M")))]
    );
    execute(&conn, &mut journal, Action::PushTableRow { table_oid: 10 }).unwrap();
    execute(&conn, &mut journal, update(10, c, 1, Some("2"))).unwrap();
    assert_eq!(surrogate(&conn, 10)[0].1, Some(String::from("M")));
    // "M" stays under its id with a new text; "S" goes; "L" comes.
    execute(&conn, &mut journal, offer(vec![(Some("2"), "Medium"), (None, "L")])).unwrap();
    assert_eq!(
        listed(&conn),
        vec![(Some(String::from("2")), Some(String::from("Medium"))), (Some(String::from("3")), Some(String::from("L")))]
    );
    assert_eq!(surrogate(&conn, 10)[0].1, Some(String::from("Medium")));
    // The undo brings back what was offered before, under the same ids.
    undo(&conn, &mut journal).unwrap();
    assert_eq!(
        listed(&conn),
        vec![(Some(String::from("1")), Some(String::from("S"))), (Some(String::from("2")), Some(String::from("M")))]
    );
    assert_eq!(surrogate(&conn, 10)[0].1, Some(String::from("M")));
    redo(&conn, &mut journal).unwrap();
    assert_eq!(
        listed(&conn),
        vec![(Some(String::from("2")), Some(String::from("Medium"))), (Some(String::from("3")), Some(String::from("L")))]
    );
    assert_eq!(
        execute(&conn, &mut journal, offer(vec![(Some("two"), "M")])),
        Err(Error::AdHoc("Unable to parse dropdown value OID as integer."))
    );
    assert_eq!(listed(&conn).len(), 2);
}

#[test]
fn pages_come_in_the_order_of_the_sort_keys() {
    let conn = open();
    let mut journal = Journal::new();
    execute(&conn, &mut journal, Action::CreateTable { table_name: String::from("T") }).unwrap();
    execute(&conn, &mut journal, new_column(10, "Name", TEXT, true, false, false)).unwrap();
    for name in ["b", "c", "a"] {
        execute(&conn, &mut journal, Action::PushTableRow { table_oid: 10 }).unwrap();
        let row = created(&journal);
        execute(&conn, &mut journal, update(10, 11, row, Some(name))).unwrap();
    }
    let starts = |cells: &Vec<Cell>| -> Vec<(i64, i64)> {
        let mut out = Vec::new();
        for c in cells.iter() {
            if let Cell::RowStart { row_oid, row_index } = c {
                out.push((*row_oid, *row_index));
            }
        }
        out
    };
    // Without sort keys the rows come by their id.
    let page = read_page(&conn, 10, 1, 2);
    assert_eq!(page.len(), 4);
    assert_eq!(starts(&page), vec![(1, 1), (2, 2)]);
    assert_eq!(starts(&read_page(&conn, 10, 2, 2)), vec![(3, 3)]);
    assert!(read_page(&conn, 10, 3, 2).is_empty());
    // A trashed row is not read.
    execute(&conn, &mut journal, Action::DeleteTableRow { table_oid: 10, row_oid: 2 }).unwrap();
    assert_eq!(starts(&read_page(&conn, 10, 1, 10)), vec![(1, 1), (3, 2)]);
    undo(&conn, &mut journal).unwrap();
    // With a sort key they come by what the column shows.
    conn.execute(
        "INSERT INTO METADATA_TABLE_ORDERBY (TABLE_OID, COLUMN_OID, SORT_ORDERING, SORT_ASCENDING) VALUES (10, 11, 1, 0);",
        [],
    )
    .unwrap();
    let page = read_page(&conn, 10, 1, 10);
    let ids: Vec<i64> = starts(&page).iter().map(|s| s.0).collect();
    assert_eq!(ids, vec![2, 1, 3]);
}

#[test]
fn deleting_a_table_takes_what_its_columns_own() {
    let conn = open();
    let mut journal = Journal::new();
    execute(&conn, &mut journal, Action::CreateTable { table_name: String::from("T") }).unwrap();
    execute(&conn, &mut journal, new_column(10, "Tags", MetadataColumnType::MultiSelectDropdown(0), true, false, false)).unwrap();
    execute(&conn, &mut journal, new_column(10, "Size", MetadataColumnType::SingleSelectDropdown(0), true, false, false)).unwrap();
    execute(&conn, &mut journal, new_column(10, "Parts", MetadataColumnType::ChildTable(0), true, false, false)).unwrap();
    execute(&conn, &mut journal, new_column(13, "Kind", MetadataColumnType::SingleSelectDropdown(0), true, false, false)).unwrap();
    for name in ["TABLE10", "TABLE10_SURROGATE", "TABLE11", "TABLE11_MULTISELECT", "TABLE12", "TABLE13", "TABLE13_SURROGATE", "TABLE14"] {
        assert!(relation_exists(&conn, name), "{}", name);
    }
    let mut owned = Vec::new();
    for r in rows(&conn, &table::owned_types(10)).unwrap() {
        owned.push(MetadataColumnType::from_database(as_int(&r[0]), as_int(&r[1])));
    }
    assert_eq!(
        owned,
        vec![
            MetadataColumnType::SingleSelectDropdown(14),
            MetadataColumnType::MultiSelectDropdown(11),
            MetadataColumnType::SingleSelectDropdown(12),
            MetadataColumnType::ChildTable(13),
        ]
    );
    run_all(&conn, &table::delete(10, &owned)).unwrap();
    for name in ["TABLE10", "TABLE10_SURROGATE", "TABLE11", "TABLE11_MULTISELECT", "TABLE12", "TABLE13", "TABLE13_SURROGATE", "TABLE14"] {
        assert!(!relation_exists(&conn, name), "{}", name);
    }
    let left = rows(
        &conn,
        &Statement {
            sql: String::from("SELECT (SELECT COUNT(*) FROM METADATA_TYPE), (SELECT COUNT(*) FROM METADATA_TABLE), (SELECT COUNT(*) FROM METADATA_TABLE_COLUMN);"),
            params: Vec::new(),
        },
    )
    .unwrap();
    assert_eq!(left[0], vec![Value::Integer(10), Value::Integer(0), Value::Integer(0)]);
}

#[test]
fn set_valued_columns_show_their_members() {
    let conn = open();
    let mut journal = Journal::new();
    execute(&conn, &mut journal, Action::CreateTable { table_name: String::from("T") }).unwrap();
    execute(&conn, &mut journal, new_column(10, "Parts", MetadataColumnType::ChildTable(0), true, false, true)).unwrap();
    execute(&conn, &mut journal, new_column(10, "Tags", MetadataColumnType::MultiSelectDropdown(0), true, false, false)).unwrap();
    let tags = created(&journal);
    execute(&conn, &mut journal, Action::PushTableRow { table_oid: 10 }).unwrap();
    execute(&conn, &mut journal, Action::PushTableRow { table_oid: 10 }).unwrap();
    execute(
        &conn,
        &mut journal,
        Action::EditTableColumnDropdownValues {
            table_oid: 10,
            column_oid: tags,
            dropdown_values: vec![
                DropdownValue { true_value: None, display_value: Some(String::from("red")) },
                DropdownValue { true_value: None, display_value: Some(String::from("blue")) },
            ],
        },
    )
    .unwrap();
    conn.execute_batch(
        "INSERT INTO TABLE11 (PARENT_OID) VALUES (1); INSERT INTO TABLE11 (PARENT_OID) VALUES (1); INSERT INTO TABLE12_MULTISELECT (ROW_OID, VALUE_OID) VALUES (1, 1); INSERT INTO TABLE12_MULTISELECT (ROW_OID, VALUE_OID) VALUES (1, 2);",
    )
    .unwrap();
    let cells = read_row(&conn, 10, 1);
    assert_eq!(cells.len(), 3);
    match &cells[1] {
        RowCell::ColumnValue { display_value, true_value, .. } => {
            assert_eq!(*display_value, Some(String::from("[— NO PRIMARY KEY —,— NO PRIMARY KEY —]")));
            assert_eq!(*true_value, None);
        }
        other => panic!("unexpected cell {:?}", other),
    }
    match &cells[2] {
        RowCell::ColumnValue { display_value, true_value, .. } => {
            assert_eq!(*display_value, Some(String::from("[red,blue]")));
            assert_eq!(*true_value, Some(String::from("1,2")));
        }
        other => panic!("unexpected cell {:?}", other),
    }
    let empty = read_row(&conn, 10, 2);
    assert_eq!(display_of(&empty[1]), None);
    assert_eq!(display_of(&empty[2]), None);
    let shown = surrogate(&conn, 10);
    assert_eq!(shown[0].1, Some(String::from("[— NO PRIMARY KEY —,— NO PRIMARY KEY —]")));
    assert_eq!(shown[0].2, Some(String::from("{ \"Parts\": [{},{}] }")));
    // The writing of a cell is refused for both.
    assert_eq!(execute(&conn, &mut journal, update(10, tags, 1, Some("1"))), Err(Error::DomainRejected));
}

#[test]
fn a_single_key_is_shown_by_the_rule_of_its_type() {
    let conn = open();
    let mut journal = Journal::new();
    let cases = vec![
        (Primitive::Boolean, "1", "True", "{ \"k\": true }"),
        (Primitive::Boolean, "0", "False", "{ \"k\": false }"),
        (Primitive::Integer, "12", "12", "{ \"k\": 12 }"),
        (Primitive::Number, "1.5", "1.5", "{ \"k\": 1.5 }"),
        (Primitive::Text, "a b", "a b", "{ \"k\": \"a b\" }"),
        (Primitive::JSON, "[1]", "[1]", "{ \"k\": [1] }"),
        (Primitive::Date, "1990-07-04", "1990-07-04", "{ \"k\": \"1990-07-04\" }"),
        (Primitive::Timestamp, "1990-07-04T06:00:00", "1990-07-04T06:00:00Z", "{ \"k\": \"1990-07-04T06:00:00Z\" }"),
    ];
    for (p, written, shown, json) in cases {
        execute(&conn, &mut journal, Action::CreateTable { table_name: String::from("T") }).unwrap();
        let t = created(&journal);
        execute(&conn, &mut journal, new_column(t, "k", MetadataColumnType::Primitive(p), true, false, true)).unwrap();
        let c = created(&journal);
        execute(&conn, &mut journal, Action::PushTableRow { table_oid: t }).unwrap();
        execute(&conn, &mut journal, update(t, c, 1, Some(written))).unwrap();
        assert_eq!(
            surrogate(&conn, t),
            vec![(1, Some(String::from(shown)), Some(String::from(json)))],
            "{:?} {}",
            p,
            written
        );
        // A row in the trash shows that it is gone.
        execute(&conn, &mut journal, Action::DeleteTableRow { table_oid: t, row_oid: 1 }).unwrap();
        assert_eq!(
            surrogate(&conn, t),
            vec![(1, Some(String::from("— DELETED —")), Some(String::from("null")))]
        );
    }
}

#[test]
fn a_new_store_holds_the_primitive_types_and_no_table() {
    let conn = open();
    conn.execute_batch(db::CONNECTION_SETUP).unwrap();
    let seeded = rows(
        &conn,
        &Statement { sql: String::from("SELECT OID, MODE, TRASH FROM METADATA_TYPE ORDER BY OID;"), params: Vec::new() },
    )
    .unwrap();
    assert_eq!(seeded.len(), 10);
    for (i, r) in seeded.iter().enumerate() {
        assert_eq!(r, &vec![Value::Integer(i as i64), Value::Integer(0), Value::Integer(0)]);
    }
    assert!(table_list(&conn).is_empty());
    assert!(rows(&conn, &table::key_edges()).unwrap().is_empty());
    let enforced = rows(&conn, &Statement { sql: String::from("PRAGMA foreign_keys;"), params: Vec::new() }).unwrap();
    assert_eq!(enforced[0][0], Value::Integer(1));
}

#[test]
fn the_listings_read_what_the_actions_wrote() {
    let conn = open();
    let mut journal = Journal::new();
    execute(&conn, &mut journal, Action::CreateTable { table_name: String::from("Zoo") }).unwrap();
    execute(&conn, &mut journal, Action::CreateTable { table_name: String::from("Ark") }).unwrap();
    execute(&conn, &mut journal, Action::CreateTable { table_name: String::from("Gone") }).unwrap();
    execute(&conn, &mut journal, Action::DeleteTable { table_oid: 12 }).unwrap();
    assert_eq!(table_list(&conn), vec![(11, String::from("Ark")), (10, String::from("Zoo"))]);
    undo(&conn, &mut journal).unwrap();
    assert_eq!(table_list(&conn).len(), 3);
    redo(&conn, &mut journal).unwrap();
    assert_eq!(table_list(&conn).len(), 2);
    assert_eq!(rows(&conn, &table::get_metadata(10)).unwrap(), vec![vec![Value::Text(String::from("Zoo"))]]);
    assert!(rows(&conn, &table::get_metadata(12)).unwrap().is_empty());
    let referable = rows(&conn, &staticdb::column::send_type_metadata_list(MetadataColumnType::Reference(0))).unwrap();
    assert_eq!(referable.len(), 3);
    assert_eq!(referable[0], vec![Value::Integer(11), Value::Text(String::from("Ark"))]);
    assert!(rows(&conn, &staticdb::column::send_type_metadata_list(MetadataColumnType::ChildObject(0))).unwrap().is_empty());

    execute(&conn, &mut journal, new_column(10, "Name", TEXT, false, true, true)).unwrap();
    execute(&conn, &mut journal, new_column(10, "Tags", MetadataColumnType::MultiSelectDropdown(0), true, true, false)).unwrap();
    execute(&conn, &mut journal, new_column(10, "Old", DATE, true, false, false)).unwrap();
    let old = created(&journal);
    execute(&conn, &mut journal, Action::DeleteTableColumn { table_oid: 10, column_oid: old }).unwrap();
    let listed = rows(&conn, &staticdb::column::send_metadata_list(10)).unwrap();
    let listed: Vec<staticdb::column::Metadata> = listed
        .iter()
        .map(|r| {
            staticdb::column::metadata_from_row(
                as_int(&r[0]),
                text(&r[1]).unwrap(),
                as_int(&r[2]),
                text(&r[3]).unwrap(),
                as_int(&r[4]),
                as_int(&r[5]),
                as_int(&r[6]) != 0,
                as_int(&r[7]) != 0,
                as_int(&r[8]) != 0,
            )
        })
        .collect();
    assert_eq!(listed.len(), 2);
    assert_eq!(
        listed[0],
        staticdb::column::Metadata {
            oid: 13,
            name: String::from("Name"),
            column_ordering: 1,
            column_style: String::from("width: 100;"),
            column_type: TEXT,
            is_nullable: false,
            is_unique: true,
            is_primary_key: true,
        }
    );
    assert_eq!(listed[1].column_type, MetadataColumnType::MultiSelectDropdown(13));
    assert_eq!(listed[1].column_ordering, 2);
    // Rows that hold the same set of values are flagged for a unique multi-select.
    for _ in 0..3 {
        execute(&conn, &mut journal, Action::PushTableRow { table_oid: 10 }).unwrap();
    }
    conn.execute_batch(
        "INSERT INTO TABLE13 (VALUE) VALUES ('a'); INSERT INTO TABLE13 (VALUE) VALUES ('b'); INSERT INTO TABLE13_MULTISELECT VALUES (1, 1); INSERT INTO TABLE13_MULTISELECT VALUES (1, 2); INSERT INTO TABLE13_MULTISELECT VALUES (2, 2); INSERT INTO TABLE13_MULTISELECT VALUES (3, 2); INSERT INTO TABLE13_MULTISELECT VALUES (3, 1);",
    )
    .unwrap();
    let mut shared: Vec<i64> = rows(&conn, &data_query::nonunique_query(MetadataColumnType::MultiSelectDropdown(13), 10, 14))
        .unwrap()
        .iter()
        .map(|r| as_int(&r[0]))
        .collect();
    shared.sort();
    assert_eq!(shared, vec![1, 3]);
    // The query that only shows runs too.
    let columns: Vec<DataColumn> = rows(&conn, &data_query::data_columns_query(10))
        .unwrap()
        .iter()
        .map(|r| {
            data_query::data_column_from_row(
                as_int(&r[0]),
                as_int(&r[1]),
                text(&r[2]).unwrap(),
                as_int(&r[3]),
                as_int(&r[4]),
                as_int(&r[5]) != 0,
                as_int(&r[6]) != 0,
                as_int(&r[7]) != 0,
            )
        })
        .collect();
    let shown = rows(&conn, &Statement { sql: data_query::build_table_query(10, &columns), params: Vec::new() }).unwrap();
    assert_eq!(shown.len(), 3);
    assert_eq!(shown[0], vec![Value::Integer(1), Value::Integer(1), Value::Null, Value::Text(String::from("[a,b]"))]);
}

#[test]
fn inherited_columns_are_read_from_the_master() {
    let conn = open();
    let mut journal = Journal::new();
    execute(&conn, &mut journal, Action::CreateTable { table_name: String::from("Animal") }).unwrap();
    execute(&conn, &mut journal, new_column(10, "Name", TEXT, false, false, true)).unwrap();
    let name = created(&journal);
    execute(&conn, &mut journal, Action::CreateTable { table_name: String::from("Dog") }).unwrap();
    let dog = created(&journal);
    execute(&conn, &mut journal, new_column(dog, "Breed", TEXT, true, false, false)).unwrap();
    let breed = created(&journal);
    conn.execute_batch(&format!(
        "INSERT INTO METADATA_TABLE_INHERITANCE (INHERITOR_TABLE_OID, MASTER_TABLE_OID) VALUES ({dog}, 10); ALTER TABLE TABLE{dog} ADD COLUMN MASTER10_OID INTEGER REFERENCES TABLE10 (OID) ON UPDATE CASCADE ON DELETE CASCADE; INSERT INTO TABLE10 (OID, COLUMN{name}) VALUES (7, 'Rex'); INSERT INTO TABLE{dog} (OID, COLUMN{breed}, MASTER10_OID) VALUES (1, 'Collie', 7);"
    ))
    .unwrap();
    let cells = read_row(&conn, dog, 1);
    assert_eq!(cells.len(), 3);
    assert_eq!(
        cells[1],
        RowCell::ColumnValue {
            table_oid: 10,
            row_oid: 7,
            column_oid: name,
            column_type: TEXT,
            true_value: Some(String::from("Rex")),
            display_value: Some(String::from("Rex")),
            failed_validations: vec![],
        }
    );
    assert_eq!(
        cells[2],
        RowCell::ColumnValue {
            table_oid: dog,
            row_oid: 1,
            column_oid: breed,
            column_type: TEXT,
            true_value: Some(String::from("Collie")),
            display_value: Some(String::from("Collie")),
            failed_validations: vec![],
        }
    );
}
