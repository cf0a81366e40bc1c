use staticdb::backend::{Action, Journal, Notification, Outcome};
use staticdb::column_type::{MetadataColumnType, Primitive};
use staticdb::data_query::{
    build_table_query, construct_data_query, nonunique_query, page_offset, Column, DataColumn, MasterJoin, QueryRows,
    SortKey,
};
use staticdb::dependency::{update_surrogate_view, TableDependency};
use staticdb::error::{Error, FailedValidation};
use staticdb::procedure::{advance, begin, Answer, Ask, ColumnDraft, Progress, Step};
use staticdb::sql::{SqlValue, Statement};
use staticdb::table::{create_surrogate_view, create_surrogate_view_with, KeyColumn};
use staticdb::table_data::{
    coerce_primitive_value, date_coercion, insert, json_coercion, send_table_data, send_table_row,
    shift_to_utc, timestamp_coercion, try_update_primitive_value, validate, Cell, CellValue, Coercion, RowCell,
};
use staticdb::text::{column_name, int_string, parse_int, surrogate_name, table_name};

fn texts(plan: &Vec<Statement>) -> Vec<String> {
    plan.iter().map(|s| s.sql.clone()).collect()
}

#[test]
fn integers_are_written_in_decimal() {
    assert_eq!(int_string(0), "0");
    assert_eq!(int_string(7), "7");
    assert_eq!(int_string(10), "10");
    assert_eq!(int_string(-1), "-1");
    assert_eq!(int_string(2448077), "2448077");
    assert_eq!(int_string(i64::MAX), "9223372036854775807");
    assert_eq!(int_string(i64::MIN), "-9223372036854775808");
    assert_eq!(table_name(10), "TABLE10");
    assert_eq!(column_name(11), "COLUMN11");
    assert_eq!(surrogate_name(10), "TABLE10_SURROGATE");
}

#[test]
fn types_that_own_relations_are_materialized() {
    let (ty, plan) = MetadataColumnType::SingleSelectDropdown(0).create_for_table(12, 10);
    assert_eq!(ty, MetadataColumnType::SingleSelectDropdown(12));
    assert_eq!(
        texts(&plan),
        vec!["CREATE TABLE TABLE12 (OID INTEGER PRIMARY KEY, TRASH TINYINT NOT NULL DEFAULT 0, VALUE TEXT NOT NULL);"]
    );
    let (ty, plan) = MetadataColumnType::MultiSelectDropdown(0).create_for_table(12, 10);
    assert_eq!(ty, MetadataColumnType::MultiSelectDropdown(12));
    assert_eq!(plan.len(), 2);
    assert_eq!(
        plan[1].sql,
        "CREATE TABLE TABLE12_MULTISELECT (ROW_OID INTEGER REFERENCES TABLE10 (OID) ON UPDATE CASCADE ON DELETE CASCADE, VALUE_OID INTEGER REFERENCES TABLE12 (OID) ON UPDATE CASCADE ON DELETE CASCADE, PRIMARY KEY (ROW_OID, VALUE_OID));"
    );
    let (ty, plan) = MetadataColumnType::ChildTable(0).create_for_table(12, 10);
    assert_eq!(ty, MetadataColumnType::ChildTable(12));
    assert_eq!(plan.len(), 3);
    assert_eq!(
        plan[0].params,
        vec![SqlValue::Integer(12), SqlValue::Integer(10), SqlValue::Text(String::from("TABLE12"))]
    );
    for ty in [
        MetadataColumnType::Primitive(Primitive::Text),
        MetadataColumnType::Reference(10),
        MetadataColumnType::ChildObject(10),
    ] {
        assert!(!ty.is_adhoc());
        let (same, plan) = ty.create_for_table(12, 10);
        assert_eq!(same, ty);
        assert!(plan.is_empty());
        assert!(ty.delete_for_table().is_empty());
    }
    let statement = MetadataColumnType::MultiSelectDropdown(0).type_row_statement();
    assert_eq!(statement.sql, "INSERT INTO METADATA_TYPE (MODE) VALUES (?1);");
    assert_eq!(statement.params, vec![SqlValue::Integer(2)]);
    assert_eq!(
        texts(&MetadataColumnType::ChildTable(12).delete_for_table()),
        vec!["DROP VIEW TABLE12_SURROGATE;", "DROP TABLE TABLE12;", "DELETE FROM METADATA_TYPE WHERE OID = ?1;"]
    );
}

#[test]
fn row_insertion_picks_the_free_id() {
    let (oid, plan) = insert(10, 5, false, true, &vec![]);
    assert_eq!(oid, 5);
    assert_eq!(texts(&plan), vec!["INSERT INTO TABLE10 (OID) VALUES (?1);"]);
    assert_eq!(plan[0].params, vec![SqlValue::Integer(5)]);
    let (oid, plan) = insert(10, 5, true, false, &vec![7, 5]);
    assert_eq!(oid, 4);
    assert_eq!(plan.len(), 1);
    assert_eq!(plan[0].params, vec![SqlValue::Integer(4)]);
    let (oid, plan) = insert(10, 5, true, true, &vec![9, 6, 5]);
    assert_eq!(oid, 5);
    assert_eq!(
        texts(&plan),
        vec![
            "UPDATE TABLE10 SET OID = OID + 1 WHERE OID = ?1;",
            "UPDATE TABLE10 SET OID = OID + 1 WHERE OID = ?1;",
            "UPDATE TABLE10 SET OID = OID + 1 WHERE OID = ?1;",
            "INSERT INTO TABLE10 (OID) VALUES (?1);",
        ]
    );
    let bound: Vec<Vec<SqlValue>> = plan.iter().map(|s| s.params.clone()).collect();
    assert_eq!(
        bound,
        vec![
            vec![SqlValue::Integer(9)],
            vec![SqlValue::Integer(6)],
            vec![SqlValue::Integer(5)],
            vec![SqlValue::Integer(5)],
        ]
    );
}

fn dep(depth: i32, table: i64) -> TableDependency {
    TableDependency { dependency_depth: depth, table_oid: table }
}

#[test]
fn views_are_rebuilt_shallowest_first() {
    assert_eq!(update_surrogate_view(10, &vec![]), Ok(vec![dep(0, 10)]));
    // 11 and 12 refer to 10; 13 refers to 11 and to 10; 12 refers to 13.
    let edges = vec![(10, 11), (10, 12), (11, 13), (10, 13), (13, 12), (6, 10), (20, 21)];
    assert_eq!(
        update_surrogate_view(10, &edges),
        Ok(vec![dep(0, 10), dep(1, 11), dep(2, 13), dep(3, 12)])
    );
    assert_eq!(update_surrogate_view(13, &edges), Ok(vec![dep(0, 13), dep(1, 12)]));
    assert_eq!(update_surrogate_view(20, &edges), Ok(vec![dep(0, 20), dep(1, 21)]));
    // A table that refers to itself depends on nothing new.
    assert_eq!(update_surrogate_view(10, &vec![(10, 10)]), Ok(vec![dep(0, 10)]));
}

#[test]
fn circles_of_primary_keys_are_a_schema_cycle() {
    assert_eq!(update_surrogate_view(10, &vec![(10, 11), (11, 10)]), Err(Error::SchemaCycle));
    assert_eq!(update_surrogate_view(10, &vec![(10, 11), (11, 12), (12, 11)]), Err(Error::SchemaCycle));
    assert_eq!(update_surrogate_view(10, &vec![(10, 11), (11, 12), (12, 10)]), Err(Error::SchemaCycle));
    // A circle that the walk does not reach does not matter.
    assert_eq!(update_surrogate_view(10, &vec![(10, 11), (20, 21), (21, 20)]), Ok(vec![dep(0, 10), dep(1, 11)]));
}

#[test]
fn surrogate_view_without_and_with_keys() {
    let none = create_surrogate_view(10, &vec![]).unwrap();
    assert_eq!(
        none.sql,
        "CREATE VIEW TABLE10_SURROGATE AS SELECT t.OID, CASE WHEN t.TRASH = 0 THEN '— NO PRIMARY KEY —' ELSE '— DELETED —' END AS DISPLAY_VALUE, CASE WHEN t.TRASH = 0 THEN '{}' ELSE 'null' END AS JSON_DISPLAY_VALUE FROM TABLE10 t"
    );
    assert!(none.params.is_empty());
    let one = create_surrogate_view(
        10,
        &vec![KeyColumn { oid: 11, name: String::from("Na\"me"), column_type: MetadataColumnType::Primitive(Primitive::Text) }],
    )
    .unwrap();
    assert_eq!(
        one.sql,
        "CREATE VIEW TABLE10_SURROGATE AS SELECT t.OID, CASE WHEN t.TRASH = 0 THEN t.COLUMN11 ELSE '— DELETED —' END AS DISPLAY_VALUE, CASE WHEN t.TRASH = 0 THEN '{ ' || '\"Na\\\"me\": ' || CASE WHEN t.COLUMN11 IS NOT NULL THEN '\"' || t.COLUMN11 || '\"' ELSE 'null' END || ' }' ELSE 'null' END AS JSON_DISPLAY_VALUE FROM TABLE10 t"
    );
    let two = create_surrogate_view(
        10,
        &vec![
            KeyColumn { oid: 11, name: String::from("Kind"), column_type: MetadataColumnType::SingleSelectDropdown(12) },
            KeyColumn { oid: 13, name: String::from("Owner"), column_type: MetadataColumnType::Reference(14) },
        ],
    )
    .unwrap();
    assert!(two.sql.ends_with(
        " FROM TABLE10 t LEFT JOIN TABLE12 t1 ON t1.OID = t.COLUMN11 LEFT JOIN TABLE14_SURROGATE t2 ON t2.OID = t.COLUMN13"
    ));
    assert!(two.sql.contains("'\"Owner\": ' || t2.JSON_DISPLAY_VALUE"));
    assert!(two.sql.contains("'\"Kind\": ' || CASE WHEN t.COLUMN11 IS NOT NULL THEN '\"' || t1.VALUE || '\"' ELSE 'null' END || ', ' || '\"Owner\": '"));
    // One key for each column, or no statement.
    assert_eq!(create_surrogate_view_with(10, &vec![], &vec![String::from("\"x\"")]), None);
}

#[test]
fn values_are_coerced_to_their_column() {
    let json = MetadataColumnType::Primitive(Primitive::JSON);
    assert_eq!(
        coerce_primitive_value(json, Some(String::from("{\"a\": 1}"))),
        Ok(Coercion::Store(Some(String::from("{\"a\": 1}"))))
    );
    assert_eq!(coerce_primitive_value(json, Some(String::from("\"text\""))), Ok(Coercion::Store(Some(String::from("\"text\"")))));
    assert_eq!(coerce_primitive_value(json, Some(String::from("{\"a\": }"))), Err(Error::InvalidJson));
    assert_eq!(coerce_primitive_value(json, Some(String::from(""))), Err(Error::InvalidJson));
    assert_eq!(coerce_primitive_value(json, None), Ok(Coercion::Store(None)));
    let date = MetadataColumnType::Primitive(Primitive::Date);
    assert_eq!(
        coerce_primitive_value(date, Some(String::from("1990-07-04"))),
        Ok(Coercion::Store(Some(String::from("2448077"))))
    );
    assert_eq!(
        coerce_primitive_value(date, Some(String::from("2000-01-01"))),
        Ok(Coercion::Store(Some(String::from("2451545"))))
    );
    assert_eq!(coerce_primitive_value(date, Some(String::from("1990-13-04"))), Err(Error::InvalidDate));
    assert_eq!(coerce_primitive_value(date, Some(String::from("1990-07-32"))), Err(Error::InvalidDate));
    assert_eq!(coerce_primitive_value(date, Some(String::from("July 4th"))), Err(Error::InvalidDate));
    let stamp = MetadataColumnType::Primitive(Primitive::Timestamp);
    assert_eq!(
        coerce_primitive_value(stamp, Some(String::from("1990-07-04T18:00:00"))),
        Ok(Coercion::JulianFraction { julian_day: 2448077, seconds_past_noon: 21600, nanosecond: 0 })
    );
    assert_eq!(
        coerce_primitive_value(stamp, Some(String::from("1990-07-04T00:00:01.5"))),
        Ok(Coercion::JulianFraction { julian_day: 2448077, seconds_past_noon: -43199, nanosecond: 500000000 })
    );
    assert_eq!(coerce_primitive_value(stamp, Some(String::from("1990-07-04"))), Err(Error::InvalidTimestamp));
    assert_eq!(
        coerce_primitive_value(MetadataColumnType::Primitive(Primitive::Integer), Some(String::from("4.7"))),
        Ok(Coercion::Truncate(String::from("4.7")))
    );
    for ty in [
        MetadataColumnType::Primitive(Primitive::Text),
        MetadataColumnType::Primitive(Primitive::Any),
        MetadataColumnType::Primitive(Primitive::Number),
        MetadataColumnType::SingleSelectDropdown(12),
        MetadataColumnType::Reference(10),
        MetadataColumnType::ChildObject(10),
    ] {
        assert_eq!(coerce_primitive_value(ty, Some(String::from("{"))), Ok(Coercion::Store(Some(String::from("{")))));
        assert_eq!(coerce_primitive_value(ty, None), Ok(Coercion::Store(None)));
    }
    for ty in [MetadataColumnType::MultiSelectDropdown(12), MetadataColumnType::ChildTable(12)] {
        assert_eq!(coerce_primitive_value(ty, Some(String::from("1"))), Err(Error::DomainRejected));
        assert_eq!(coerce_primitive_value(ty, None), Err(Error::DomainRejected));
    }
}

#[test]
fn a_timestamp_with_an_offset_is_moved_to_utc() {
    let stamp = MetadataColumnType::Primitive(Primitive::Timestamp);
    assert_eq!(
        coerce_primitive_value(stamp, Some(String::from("1990-07-04T18:00:00+02:00"))),
        Ok(Coercion::JulianFraction { julian_day: 2448077, seconds_past_noon: 14400, nanosecond: 0 })
    );
    assert_eq!(
        coerce_primitive_value(stamp, Some(String::from("1990-07-04T01:30:00+02:00"))),
        Ok(Coercion::JulianFraction { julian_day: 2448076, seconds_past_noon: 41400, nanosecond: 0 })
    );
    assert_eq!(
        coerce_primitive_value(stamp, Some(String::from("1990-07-04T23:00:00-03:30"))),
        Ok(Coercion::JulianFraction { julian_day: 2448078, seconds_past_noon: -34200, nanosecond: 0 })
    );
    // A leap second at the end of a month stands for the last moment before it; elsewhere it is none.
    assert_eq!(
        coerce_primitive_value(stamp, Some(String::from("2016-12-31T23:59:60Z"))),
        Ok(Coercion::JulianFraction { julian_day: 2457754, seconds_past_noon: 43199, nanosecond: 999999999 })
    );
    assert_eq!(
        coerce_primitive_value(stamp, Some(String::from("2017-01-01T01:59:60+02:00"))),
        Ok(Coercion::JulianFraction { julian_day: 2457754, seconds_past_noon: 43199, nanosecond: 999999999 })
    );
    assert_eq!(
        coerce_primitive_value(stamp, Some(String::from("2016-12-30T23:59:60Z"))),
        Err(Error::InvalidTimestamp)
    );
    // Within two days of the last day a leap second is not read.
    assert_eq!(
        coerce_primitive_value(stamp, Some(String::from("9999-12-31T23:59:60Z"))),
        Err(Error::InvalidTimestamp)
    );
    // An offset that is none is refused.
    assert_eq!(
        coerce_primitive_value(stamp, Some(String::from("1990-07-04T18:00:00+99:00"))),
        Err(Error::InvalidTimestamp)
    );
    // Beyond the last year that can be held there is no value, and no failure either.
    assert_eq!(
        coerce_primitive_value(stamp, Some(String::from("9999-12-31T23:59:59-01:00"))),
        Err(Error::InvalidTimestamp)
    );
    assert_eq!(
        coerce_primitive_value(stamp, Some(String::from("9999-12-31T23:59:59+01:00"))),
        Ok(Coercion::JulianFraction { julian_day: 5373484, seconds_past_noon: 39599, nanosecond: 0 })
    );
    assert_eq!(
        coerce_primitive_value(stamp, Some(String::from("9999-12-31T23:59:59"))),
        Ok(Coercion::JulianFraction { julian_day: 5373484, seconds_past_noon: 43199, nanosecond: 0 })
    );
}

#[test]
fn a_timestamp_read_back_is_written_again_as_the_same_value() {
    let stamp = MetadataColumnType::Primitive(Primitive::Timestamp);
    assert_eq!(
        coerce_primitive_value(stamp, Some(String::from("1990-07-04T18:00:00Z"))),
        coerce_primitive_value(stamp, Some(String::from("1990-07-04T18:00:00")))
    );
}

#[test]
fn coercions_from_what_was_parsed() {
    assert_eq!(json_coercion(String::from("[]"), true), Ok(Coercion::Store(Some(String::from("[]")))));
    assert_eq!(json_coercion(String::from("[]"), false), Err(Error::InvalidJson));
    assert_eq!(date_coercion(Some(2448077)), Ok(Coercion::Store(Some(String::from("2448077")))));
    assert_eq!(date_coercion(Some(-5)), Ok(Coercion::Store(Some(String::from("-5")))));
    assert_eq!(date_coercion(None), Err(Error::InvalidDate));
    assert_eq!(
        timestamp_coercion(Some((2448077, 12, 0, 0, 0))),
        Ok(Coercion::JulianFraction { julian_day: 2448077, seconds_past_noon: 0, nanosecond: 0 })
    );
    assert_eq!(
        timestamp_coercion(Some((1, 23, 59, 59, 999))),
        Ok(Coercion::JulianFraction { julian_day: 1, seconds_past_noon: 43199, nanosecond: 999 })
    );
    assert_eq!(timestamp_coercion(None), Err(Error::InvalidTimestamp));
}

#[test]
fn an_update_reads_the_prior_value_cast_to_text() {
    let (c, prior) =
        try_update_primitive_value(10, 1, 11, MetadataColumnType::Primitive(Primitive::Text), Some(String::from("Alice")))
            .unwrap();
    assert_eq!(c, Coercion::Store(Some(String::from("Alice"))));
    assert_eq!(prior.sql, "SELECT CAST(COLUMN11 AS TEXT) AS PRIOR_VALUE FROM TABLE10 WHERE OID = ?1;");
    assert_eq!(prior.params, vec![SqlValue::Integer(1)]);
    for p in [Primitive::Date, Primitive::Timestamp, Primitive::Integer, Primitive::JSON] {
        let (_, prior) = try_update_primitive_value(10, 1, 11, MetadataColumnType::Primitive(p), None).unwrap();
        assert_eq!(prior.sql, "SELECT CAST(COLUMN11 AS TEXT) AS PRIOR_VALUE FROM TABLE10 WHERE OID = ?1;");
    }
    let (_, prior) = try_update_primitive_value(10, 1, 11, MetadataColumnType::Reference(20), None).unwrap();
    assert_eq!(prior, staticdb::table_data::prior_value_statement(10, 1, 11));
    assert_eq!(
        try_update_primitive_value(10, 1, 11, MetadataColumnType::Primitive(Primitive::JSON), Some(String::from("nul"))),
        Err(Error::InvalidJson)
    );
}

fn shown_column(nullable: bool, unique: bool, key: bool, shared: Vec<i64>) -> Column {
    Column {
        true_ord: Some(String::from("COLUMN11")),
        display_ord: String::from("COLUMN11"),
        table_oid: 10,
        row_ord: String::from("t_OID"),
        column_oid: 11,
        column_name: String::from("Name"),
        column_type: MetadataColumnType::Primitive(Primitive::Text),
        is_nullable: nullable,
        is_unique: unique,
        is_primary_key: key,
        invalid_nonunique_oid: shared.into_iter().collect(),
    }
}

fn failed(text: &str) -> FailedValidation {
    FailedValidation { description: String::from(text) }
}

#[test]
fn cells_carry_their_failed_validations() {
    let c = shown_column(false, true, true, vec![3, 1]);
    assert_eq!(
        validate(&c, 1, false, true),
        vec![failed("Name cannot be NULL!"), failed("Name value is not unique!"), failed("Primary key for this row is not unique!")]
    );
    assert_eq!(validate(&c, 2, true, false), vec![]);
    assert_eq!(validate(&c, 3, true, false), vec![failed("Name value is not unique!")]);
    assert_eq!(validate(&shown_column(true, false, true, vec![1]), 1, false, false), vec![]);
}

#[test]
fn rows_are_sent_cell_by_cell() {
    let columns = vec![shown_column(false, false, false, vec![])];
    assert_eq!(send_table_row(&columns, &None), Ok(vec![RowCell::RowExists { row_exists: false }]));
    let value = CellValue { row_oid: 4, true_value: None, display_value: None };
    assert_eq!(
        send_table_row(&columns, &Some(vec![value.clone()])),
        Ok(vec![
            RowCell::RowExists { row_exists: true },
            RowCell::ColumnValue {
                table_oid: 10,
                row_oid: 4,
                column_oid: 11,
                column_type: MetadataColumnType::Primitive(Primitive::Text),
                true_value: None,
                display_value: None,
                failed_validations: vec![failed("Name cannot be NULL!")],
            },
        ])
    );
    let value = CellValue { row_oid: 4, true_value: Some(String::from("a")), display_value: Some(String::from("A")) };
    assert_eq!(
        send_table_data(&columns, 4, 2, &vec![value.clone()]),
        Ok(vec![
            Cell::RowStart { row_oid: 4, row_index: 2 },
            Cell::ColumnValue {
                table_oid: 10,
                row_oid: 4,
                column_oid: 11,
                column_type: MetadataColumnType::Primitive(Primitive::Text),
                true_value: Some(String::from("a")),
                display_value: Some(String::from("A")),
                failed_validations: vec![],
            },
        ])
    );
    assert_eq!(
        send_table_data(&columns, 4, 2, &vec![]),
        Err(Error::AdHoc("A row was read without a value for each column."))
    );
    assert_eq!(
        send_table_row(&columns, &Some(vec![value.clone(), value])),
        Err(Error::AdHoc("A row was read without a value for each column."))
    );
}

#[test]
fn the_data_query_joins_masters_and_referents() {
    let columns = vec![
        DataColumn {
            oid: 11,
            table_oid: 10,
            name: String::from("Name"),
            column_type: MetadataColumnType::Primitive(Primitive::Text),
            is_nullable: true,
            is_unique: false,
            is_primary_key: false,
        },
        DataColumn {
            oid: 21,
            table_oid: 20,
            name: String::from("Owner"),
            column_type: MetadataColumnType::Reference(30),
            is_nullable: true,
            is_unique: true,
            is_primary_key: false,
        },
    ];
    let masters = vec![MasterJoin { master_oid: 20, inheritor_oid: 10 }];
    let (sql, described) = construct_data_query(10, &masters, &columns, &vec![], QueryRows::Page);
    assert_eq!(
        sql,
        "SELECT ROW_NUMBER() OVER (ORDER BY t.OID) AS ROW_INDEX, t.OID AS t_OID, m20.OID AS m20_OID, CAST(t.COLUMN11 AS TEXT) AS COLUMN11, COALESCE(t1.DISPLAY_VALUE, CASE WHEN m20.COLUMN21 IS NOT NULL THEN '— DELETED —' ELSE NULL END) AS COLUMN21, CAST(m20.COLUMN21 AS TEXT) AS _COLUMN21 FROM TABLE10 t INNER JOIN TABLE20 m20 ON t.MASTER20_OID = m20.OID LEFT JOIN TABLE30_SURROGATE t1 ON t1.OID = m20.COLUMN21 WHERE t.TRASH = 0 LIMIT ?1 OFFSET ?2"
    );
    assert_eq!(described.len(), 2);
    assert_eq!(described[0].true_ord, Some(String::from("COLUMN11")));
    assert_eq!(described[0].row_ord, "t_OID");
    assert_eq!(described[1].true_ord, Some(String::from("_COLUMN21")));
    assert_eq!(described[1].display_ord, "COLUMN21");
    assert_eq!(described[1].row_ord, "m20_OID");
    assert_eq!(described[1].table_oid, 20);
    assert_eq!(described[1].column_name, "Owner");
    assert!(described[1].is_unique);
    let (sql, _) = construct_data_query(10, &vec![], &vec![], &vec![], QueryRows::Row);
    assert_eq!(
        sql,
        "SELECT ROW_NUMBER() OVER (ORDER BY t.OID) AS ROW_INDEX, t.OID AS t_OID FROM TABLE10 t WHERE t.TRASH = 0 AND t.OID = ?1"
    );
    let keys = vec![SortKey { column_oid: 11, ascending: true }, SortKey { column_oid: 21, ascending: false }];
    let (sql, _) = construct_data_query(10, &vec![], &vec![], &keys, QueryRows::ChildPage);
    assert!(sql.ends_with(
        " WHERE t.TRASH = 0 AND t.PARENT_OID = ?1 ORDER BY COLUMN11 ASC, COLUMN21 DESC LIMIT ?2 OFFSET ?3"
    ));
    assert_eq!(
        build_table_query(10, &columns),
        "SELECT t.OID AS OID, ROW_NUMBER() OVER (ORDER BY t.OID) AS ROW_INDEX, CAST(t.COLUMN11 AS TEXT) AS COLUMN11, COALESCE(t1.DISPLAY_VALUE, CASE WHEN m20.COLUMN21 IS NOT NULL THEN '— DELETED —' ELSE NULL END) AS COLUMN21 FROM TABLE10 t LEFT JOIN TABLE30_SURROGATE t1 ON t1.OID = m20.COLUMN21 WHERE t.TRASH = 0"
    );
    assert_eq!(
        nonunique_query(MetadataColumnType::Primitive(Primitive::Text), 10, 11).sql,
        "SELECT t.OID FROM TABLE10 t INNER JOIN (SELECT COLUMN11, COUNT(OID) AS ROW_COUNT FROM TABLE10 GROUP BY COLUMN11 HAVING COUNT(OID) > 1) a ON a.COLUMN11 = t.COLUMN11;"
    );
}

#[test]
fn pages_start_behind_the_pages_before_them() {
    assert_eq!(page_offset(1, 50), Some(0));
    assert_eq!(page_offset(3, 50), Some(100));
    assert_eq!(page_offset(0, 50), Some(-50));
    assert_eq!(page_offset(i64::MAX, 2), None);
    assert_eq!(page_offset(i64::MIN, 1), None);
    assert_eq!(page_offset(i64::MIN, 0), Some(0));
}

#[test]
fn the_journal_records_inverses_and_says_what_to_send() {
    let mut journal = Journal::new();
    let (notes, result) = journal.execute(Action::CreateTable { table_name: String::from("People") }, Ok(Outcome::Created(10)));
    assert_eq!(result, Ok(()));
    assert_eq!(notes, vec![Notification::TableList, Notification::TableData(10)]);
    assert_eq!(journal.reverse, vec![Action::DeleteTable { table_oid: 10 }]);
    let (notes, result) = journal.execute(
        Action::UpdateTableCellStoredAsPrimitiveValue { table_oid: 10, column_oid: 11, row_oid: 1, value: Some(String::from("b")) },
        Ok(Outcome::PriorValue(Some(String::from("a")))),
    );
    assert_eq!(result, Ok(()));
    assert_eq!(notes, vec![Notification::TableData(10)]);
    assert_eq!(
        journal.next_undo(),
        Some(&Action::UpdateTableCellStoredAsPrimitiveValue { table_oid: 10, column_oid: 11, row_oid: 1, value: Some(String::from("a")) })
    );
    // A failed update is shown anew and leaves the stacks alone.
    let before = journal.reverse.clone();
    let (notes, result) = journal.execute(
        Action::UpdateTableCellStoredAsPrimitiveValue { table_oid: 10, column_oid: 11, row_oid: 1, value: Some(String::from("{")) },
        Err(Error::InvalidJson),
    );
    assert_eq!(result, Err(Error::InvalidJson));
    assert_eq!(notes, vec![Notification::TableData(10)]);
    assert_eq!(journal.reverse, before);
    // An answer of the wrong kind is refused.
    let (notes, result) = journal.execute(Action::PushTableRow { table_oid: 10 }, Ok(Outcome::Done));
    assert_eq!(result, Err(Error::AdHoc("The answer of the store does not fit the action.")));
    assert!(notes.is_empty());
    assert_eq!(journal.reverse, before);
    // An undo moves the top of the reverse stack, inverted, to the forward stack.
    let (notes, result) = journal.undo(Ok(Outcome::PriorValue(Some(String::from("b")))));
    assert_eq!(result, Ok(()));
    assert_eq!(notes, vec![Notification::TableData(10)]);
    assert_eq!(journal.reverse, vec![Action::DeleteTable { table_oid: 10 }]);
    assert_eq!(
        journal.forward,
        vec![Action::UpdateTableCellStoredAsPrimitiveValue { table_oid: 10, column_oid: 11, row_oid: 1, value: Some(String::from("b")) }]
    );
    // A failed undo leaves both stacks as they are.
    let (_, result) = journal.undo(Err(Error::Storage(String::from("locked"))));
    assert_eq!(result, Err(Error::Storage(String::from("locked"))));
    assert_eq!(journal.reverse, vec![Action::DeleteTable { table_oid: 10 }]);
    assert_eq!(journal.forward.len(), 1);
    let (notes, result) = journal.undo(Ok(Outcome::Done));
    assert_eq!(result, Ok(()));
    assert_eq!(notes, vec![Notification::TableList]);
    assert_eq!(journal.forward.last(), Some(&Action::RestoreDeletedTable { table_oid: 10 }));
    assert_eq!(journal.next_undo(), None);
    assert_eq!(journal.undo(Ok(Outcome::Done)), (vec![], Ok(())));
    let (_, result) = journal.redo(Ok(Outcome::Done));
    assert_eq!(result, Ok(()));
    assert_eq!(journal.reverse, vec![Action::DeleteTable { table_oid: 10 }]);
    assert_eq!(journal.forward.len(), 1);
}

#[test]
fn an_edit_is_undone_by_restoring_the_clone() {
    let mut journal = Journal::new();
    let edit = Action::EditTableColumnMetadata {
        table_oid: 10,
        column_oid: 11,
        column_name: String::from("Name"),
        column_type: MetadataColumnType::Primitive(Primitive::Text),
        column_style: String::new(),
        is_nullable: true,
        is_unique: false,
        is_primary_key: true,
    };
    let (notes, result) = journal.execute(edit.clone(), Ok(Outcome::Edited(None)));
    assert_eq!((notes, result), (vec![], Ok(())));
    assert!(journal.reverse.is_empty());
    let (notes, result) = journal.execute(edit, Ok(Outcome::Edited(Some(12))));
    assert_eq!((notes, result), (vec![Notification::TableData(10)], Ok(())));
    assert_eq!(
        journal.reverse,
        vec![Action::RestoreEditedTableColumnMetadata { table_oid: 10, column_oid: 11, prior_metadata_column_oid: 12 }]
    );
    let (_, result) = journal.undo(Ok(Outcome::Edited(Some(13))));
    assert_eq!(result, Ok(()));
    assert_eq!(
        journal.forward,
        vec![Action::RestoreEditedTableColumnMetadata { table_oid: 10, column_oid: 11, prior_metadata_column_oid: 13 }]
    );
}

#[test]
fn errors_have_their_messages() {
    assert_eq!(Error::AdHoc("No file is open!").message(), "No file is open!");
    assert_eq!(Error::Storage(String::from("disk full")).message(), "SQLite error occurred: disk full");
    assert_eq!(Error::Shell(String::from("no window")).message(), "Tauri error occurred: no window");
    assert_eq!(Error::InvalidJson.message(), "The provided value is invalid JSON.");
    assert_eq!(Error::InvalidDate.message(), "The provided value cannot be converted into a date.");
    assert_eq!(Error::InvalidTimestamp.message(), "The provided value cannot be converted into a timestamp.");
    assert_eq!(Error::InvalidInteger.message(), "The provided value cannot be converted into an integer.");
    assert_eq!(Error::SchemaCycle.message(), "There is an infinite loop of primary keys that reference each other!");
    assert_eq!(Error::DomainRejected.message(), "Value of column cannot be updated like a primitive value.");
    assert_eq!(
        Error::SaveInitialization(String::from("x")).message(),
        "Unable to record the state to undo to: x"
    );
    assert_eq!(Error::Storage(String::from("x")).while_saving(), Error::SaveInitialization(String::from("x")));
    assert_eq!(Error::InvalidJson.while_saving(), Error::InvalidJson);
    assert_eq!(Error::AdHoc("y").while_saving(), Error::AdHoc("y"));
    assert_eq!(Notification::TableList.event_name(), "update-table-list");
    assert_eq!(Notification::TableData(1).event_name(), "update-table-data");
    assert_eq!(Notification::TableRow(1, 2).event_name(), "update-table-row");
}

#[test]
fn integers_are_read_from_decimal_text() {
    let texts = [
        "", "-", "+", "0", "-0", "+5", "007", "42", "-42", "12a", "a12", " 5", "5 ", "1.0", "--1", "+-1", "١٢",
        "9223372036854775807", "9223372036854775808", "-9223372036854775808", "-9223372036854775809",
        "99999999999999999999999999999999999999999999", "-00000000000000000000000000000000000000000001",
    ];
    for t in texts {
        assert_eq!(parse_int(t), t.parse::<i64>().ok(), "{:?}", t);
    }
    assert_eq!(parse_int("-9223372036854775808"), Some(i64::MIN));
    assert_eq!(parse_int("9223372036854775808"), None);
    for n in [0, 1, -1, 9, 10, -10, 2448077, i64::MAX, i64::MIN] {
        assert_eq!(parse_int(&int_string(n)), Some(n));
    }
}

fn int_row(values: Vec<i64>) -> Vec<SqlValue> {
    values.into_iter().map(SqlValue::Integer).collect()
}

fn draft(ty: MetadataColumnType) -> ColumnDraft {
    ColumnDraft {
        table_oid: 10,
        column_name: String::from("Name"),
        column_type: ty,
        column_style: String::from("w"),
        is_nullable: true,
        is_unique: false,
        is_primary_key: true,
    }
}

#[test]
fn an_edit_of_a_missing_column_runs_nothing() {
    let text = MetadataColumnType::Primitive(Primitive::Text);
    let (progress, step) = begin(&Action::EditTableColumnMetadata {
        table_oid: 10,
        column_oid: 11,
        column_name: String::from("Name"),
        column_type: text,
        column_style: String::from("w"),
        is_nullable: true,
        is_unique: false,
        is_primary_key: true,
    })
    .unwrap();
    assert_eq!(progress, Progress::EditRead { column_oid: 11, draft: draft(text) });
    assert!(step.run.is_empty());
    assert_eq!(step.ask, Ask::Rows(staticdb::column::column_type_query(11)));
    let (progress, step) = advance(progress, Answer::Rows(vec![])).unwrap();
    assert_eq!(progress, Progress::Done);
    assert_eq!(step, Step { run: vec![], saving: false, ask: Ask::Finish(Outcome::Edited(None)) });
    assert_eq!(advance(Progress::Done, Answer::Id(1)), Err(Error::AdHoc("The answer of the store does not fit the step.")));
}

#[test]
fn an_edit_goes_from_snapshot_to_rebuild() {
    let text = MetadataColumnType::Primitive(Primitive::Text);
    let tags = MetadataColumnType::MultiSelectDropdown(0);
    // A column of table 10 that is a reference to table 20 becomes a multi-select.
    let read = Progress::EditRead { column_oid: 11, draft: draft(tags) };
    let (progress, step) = advance(read, Answer::Rows(vec![int_row(vec![20, 3, 10])])).unwrap();
    assert_eq!(
        progress,
        Progress::EditSnapshotted { column_oid: 11, owner: 10, prior: MetadataColumnType::Reference(20), draft: draft(tags) }
    );
    assert!(step.saving);
    assert_eq!(step.ask, Ask::Id);
    assert_eq!(texts(&step.run)[0], "DROP VIEW IF EXISTS TABLE10_SURROGATE;");
    assert!(texts(&step.run)[1].starts_with("INSERT INTO METADATA_TABLE_COLUMN (TRASH, "));
    let (progress, step) = advance(progress, Answer::Id(12)).unwrap();
    assert_eq!(
        progress,
        Progress::EditRetyped { column_oid: 11, owner: 10, clone_oid: 12, prior: MetadataColumnType::Reference(20), column_type: tags }
    );
    assert_eq!(step.ask, Ask::Id);
    assert!(!step.saving);
    let run = texts(&step.run);
    assert_eq!(run.len(), 4);
    assert!(run[0].starts_with("UPDATE METADATA_TABLE_COLUMN SET NAME = ?1"));
    assert_eq!(run[1], "CREATE TABLE TRANS_COLUMN12 AS SELECT OID, COLUMN11 AS VALUE FROM TABLE10;");
    assert_eq!(run[2], "ALTER TABLE TABLE10 DROP COLUMN COLUMN11;");
    assert_eq!(run[3], "INSERT INTO METADATA_TYPE (MODE) VALUES (?1);");
    let (progress, step) = advance(progress, Answer::Id(30)).unwrap();
    assert_eq!(progress, Progress::Rebuild { table_oid: 10, outcome: Outcome::Edited(Some(12)) });
    assert_eq!(step.ask, Ask::Rows(staticdb::table::key_edges()));
    let run = texts(&step.run);
    assert_eq!(run.len(), 4);
    assert!(run[0].starts_with("CREATE TABLE TABLE30 ("));
    assert!(run[1].starts_with("CREATE TABLE TABLE30_MULTISELECT ("));
    assert_eq!(run[2], "UPDATE METADATA_TABLE_COLUMN SET TYPE_OID = ?1 WHERE OID = ?2;");
    assert_eq!(run[3], "DROP TABLE TRANS_COLUMN12;");
    // Table 11 shows table 10 in its key: both views go, then both come back, 10 first.
    let (progress, step) = advance(progress, Answer::Rows(vec![int_row(vec![10, 11]), int_row(vec![6, 10])])).unwrap();
    assert_eq!(texts(&step.run), vec!["DROP VIEW IF EXISTS TABLE10_SURROGATE;", "DROP VIEW IF EXISTS TABLE11_SURROGATE;"]);
    assert_eq!(step.ask, Ask::Rows(staticdb::table::key_columns(10)));
    let (progress, step) = advance(progress, Answer::Rows(vec![])).unwrap();
    assert_eq!(step.run.len(), 1);
    assert!(step.run[0].sql.starts_with("CREATE VIEW TABLE10_SURROGATE AS SELECT t.OID, CASE WHEN t.TRASH = 0 THEN '— NO PRIMARY KEY —'"));
    assert_eq!(step.ask, Ask::Rows(staticdb::table::key_columns(11)));
    let key = vec![SqlValue::Integer(15), SqlValue::Text(String::from("Ten")), SqlValue::Integer(10), SqlValue::Integer(3)];
    let (progress, step) = advance(progress, Answer::Rows(vec![key])).unwrap();
    assert_eq!(progress, Progress::Done);
    assert!(step.run[0].sql.starts_with("CREATE VIEW TABLE11_SURROGATE AS SELECT t.OID, CASE WHEN t.TRASH = 0 THEN COALESCE(t1.DISPLAY_VALUE"));
    assert_eq!(step.ask, Ask::Finish(Outcome::Edited(Some(12))));
    // Without a change of type nothing is taken down or set up.
    let snapshotted = Progress::EditSnapshotted { column_oid: 11, owner: 10, prior: text, draft: draft(text) };
    let (progress, step) = advance(snapshotted, Answer::Id(12)).unwrap();
    assert_eq!(progress, Progress::Rebuild { table_oid: 10, outcome: Outcome::Edited(Some(12)) });
    assert_eq!(step.run.len(), 1);
}

#[test]
fn a_circle_of_keys_ends_the_steps_before_any_view_is_dropped() {
    let rebuild = Progress::Rebuild { table_oid: 10, outcome: Outcome::Done };
    assert_eq!(
        advance(rebuild.clone(), Answer::Rows(vec![int_row(vec![10, 11]), int_row(vec![11, 10])])),
        Err(Error::SchemaCycle)
    );
    assert_eq!(
        advance(rebuild.clone(), Answer::Rows(vec![vec![SqlValue::Null, SqlValue::Integer(1)]])),
        Err(Error::AdHoc("The answer of the store does not fit the step."))
    );
    assert_eq!(advance(rebuild, Answer::Id(3)), Err(Error::AdHoc("The answer of the store does not fit the step.")));
}

#[test]
fn a_column_is_created_in_its_steps() {
    let tags = MetadataColumnType::MultiSelectDropdown(0);
    let create = |ordering: Option<i64>, ty: MetadataColumnType| Action::CreateTableColumn {
        table_oid: 10,
        column_name: String::from("Name"),
        column_type: ty,
        column_ordering: ordering,
        column_style: String::from("w"),
        is_nullable: true,
        is_unique: false,
        is_primary_key: true,
    };
    let (progress, step) = begin(&create(None, tags)).unwrap();
    assert_eq!(progress, Progress::ColumnOrdering { draft: draft(tags) });
    assert!(step.run.is_empty());
    assert_eq!(step.ask, Ask::Rows(staticdb::column::next_ordering(10)));
    let (progress, step) = advance(progress, Answer::Rows(vec![int_row(vec![4])])).unwrap();
    assert_eq!(progress, Progress::ColumnTyped { draft: draft(tags), ordering: 4 });
    assert_eq!(texts(&step.run), vec!["INSERT INTO METADATA_TYPE (MODE) VALUES (?1);"]);
    let (progress, step) = advance(progress, Answer::Id(30)).unwrap();
    assert_eq!(progress, Progress::ColumnRecorded { table_oid: 10, column_type: MetadataColumnType::MultiSelectDropdown(30) });
    assert_eq!(step.run.len(), 3);
    assert_eq!(step.run[2].params[2], SqlValue::Integer(30));
    assert_eq!(step.run[2].params[3], SqlValue::Integer(4));
    let (progress, step) = advance(progress, Answer::Id(31)).unwrap();
    assert_eq!(progress, Progress::Rebuild { table_oid: 10, outcome: Outcome::Created(31) });
    assert!(step.run.is_empty());
    let text = MetadataColumnType::Primitive(Primitive::Text);
    let (progress, step) = begin(&create(Some(2), text)).unwrap();
    assert_eq!(progress, Progress::ColumnRecorded { table_oid: 10, column_type: text });
    assert_eq!(step.run.len(), 2);
    assert_eq!(step.run[0], staticdb::column::make_room(10, 2));
    let (_, step) = advance(progress, Answer::Id(31)).unwrap();
    assert_eq!(texts(&step.run), vec!["ALTER TABLE TABLE10 ADD COLUMN COLUMN31 TEXT;"]);
    assert_eq!(
        begin(&Action::InsertTableRow { table_oid: 10, row_oid: i64::MIN }),
        Err(Error::AdHoc("No row can stand before the lowest id."))
    );
}

#[test]
fn a_cell_is_written_in_its_steps() {
    let write = |value: &str| Action::UpdateTableCellStoredAsPrimitiveValue {
        table_oid: 10,
        column_oid: 11,
        row_oid: 1,
        value: Some(String::from(value)),
    };
    let (progress, step) = begin(&write("Alice")).unwrap();
    assert!(step.run.is_empty());
    assert_eq!(step.ask, Ask::Rows(staticdb::column::column_type_query(11)));
    // Without such a column nothing is written.
    assert_eq!(
        advance(progress.clone(), Answer::Rows(vec![])),
        Err(Error::Storage(String::from("Query returned no rows")))
    );
    // A text column: the prior text is read, then the value is written.
    let (progress, step) = advance(progress, Answer::Rows(vec![int_row(vec![6, 0, 10])])).unwrap();
    assert!(step.run.is_empty());
    assert_eq!(
        step.ask,
        Ask::Rows(staticdb::table_data::prior_value_statement(10, 1, 11))
    );
    let (progress, step) = advance(progress, Answer::Rows(vec![vec![SqlValue::Text(String::from("Bob"))]])).unwrap();
    assert_eq!(progress, Progress::Done);
    assert_eq!(step.run, vec![staticdb::table_data::update_value_statement(10, 1, 11, &Some(String::from("Alice")))]);
    assert_eq!(step.ask, Ask::Finish(Outcome::PriorValue(Some(String::from("Bob")))));
    // A JSON column refuses an ill-formed text before anything is read or run.
    let (progress, _) = begin(&write("{")).unwrap();
    assert_eq!(advance(progress, Answer::Rows(vec![int_row(vec![7, 0, 10])])), Err(Error::InvalidJson));
    // An integer column asks for the text of the number.
    let (progress, _) = begin(&write("4.7")).unwrap();
    let (progress, _) = advance(progress, Answer::Rows(vec![int_row(vec![2, 0, 10])])).unwrap();
    let (progress, step) = advance(progress, Answer::Rows(vec![vec![SqlValue::Null]])).unwrap();
    assert!(step.run.is_empty());
    assert_eq!(step.ask, Ask::Render(Coercion::Truncate(String::from("4.7"))));
    let (progress, step) = advance(progress, Answer::Text(Some(String::from("4")))).unwrap();
    assert_eq!(progress, Progress::Done);
    assert_eq!(step.run, vec![staticdb::table_data::update_value_statement(10, 1, 11, &Some(String::from("4")))]);
    assert_eq!(step.ask, Ask::Finish(Outcome::PriorValue(None)));
}

#[test]
fn dropdown_values_are_set_in_their_steps() {
    let values = vec![
        staticdb::column::DropdownValue { true_value: Some(String::from("2")), display_value: Some(String::from("M")) },
        staticdb::column::DropdownValue { true_value: None, display_value: Some(String::from("L")) },
    ];
    let action = Action::EditTableColumnDropdownValues { table_oid: 10, column_oid: 11, dropdown_values: values.clone() };
    let (progress, _) = begin(&action).unwrap();
    assert_eq!(progress, Progress::DropdownType { column_oid: 11, values: values.clone() });
    let (progress, step) = advance(progress, Answer::Rows(vec![int_row(vec![12, 1, 10])])).unwrap();
    assert_eq!(
        step.ask,
        Ask::Rows(staticdb::column::get_table_column_dropdown_values(MetadataColumnType::SingleSelectDropdown(12)).unwrap())
    );
    let now = vec![SqlValue::Text(String::from("2")), SqlValue::Text(String::from("Medium"))];
    let (progress, step) = advance(progress, Answer::Rows(vec![now])).unwrap();
    assert_eq!(progress, Progress::Done);
    assert_eq!(step.run.len(), 3);
    assert_eq!(step.run[0].sql, "UPDATE TABLE12 SET TRASH = 1;");
    assert_eq!(step.run[1].params, vec![SqlValue::Text(String::from("M")), SqlValue::Integer(2)]);
    assert_eq!(
        step.ask,
        Ask::Finish(Outcome::PriorDropdownValues(vec![staticdb::column::DropdownValue {
            true_value: Some(String::from("2")),
            display_value: Some(String::from("Medium")),
        }]))
    );
    // A text column offers no values: nothing is run and nothing is kept.
    let (progress, _) = begin(&action).unwrap();
    let (progress, step) = advance(progress, Answer::Rows(vec![int_row(vec![6, 0, 10])])).unwrap();
    assert_eq!(progress, Progress::Done);
    assert!(step.run.is_empty());
    assert_eq!(step.ask, Ask::Finish(Outcome::PriorDropdownValues(vec![])));
}

#[test]
fn the_shift_to_utc_is_that_of_the_time_crate() {
    let days = [-1930999, -1930998, -1930997, 0, 2448077, 2451545, 5373482, 5373483, 5373484];
    let clocks = [(0u8, 0u8, 0u8, 0u32), (0, 0, 1, 5), (11, 59, 59, 999_999_999), (12, 0, 0, 0), (23, 59, 59, 1), (1, 30, 0, 0)];
    let offsets = [-93599, -86400, -86399, -3600, -1, 0, 1, 59, 60, 3599, 3600, 7200, 86399, 86400, 93599];
    for jd in days {
        for (h, m, sec, ns) in clocks {
            for off in offsets {
                let date = time::Date::from_julian_day(jd).unwrap();
                let clock = time::Time::from_hms_nano(h, m, sec, ns).unwrap();
                let zone = time::UtcOffset::from_whole_seconds(off).unwrap();
                let expected = time::OffsetDateTime::new_in_offset(date, clock, zone)
                    .checked_to_utc()
                    .map(|u| (u.to_julian_day(), u.hour(), u.minute(), u.second(), u.nanosecond()));
                assert_eq!(shift_to_utc(jd, h, m, sec, ns, off), expected, "{} {}:{}:{} {}", jd, h, m, sec, off);
            }
        }
    }
    assert_eq!(time::Date::MIN.to_julian_day(), -1930999);
    assert_eq!(time::Date::MAX.to_julian_day(), 5373484);
    // Parts that are none, as the crate refuses them.
    assert!(time::Date::from_julian_day(5373485).is_err());
    assert_eq!(shift_to_utc(5373485, 0, 0, 0, 0, 0), None);
    assert_eq!(shift_to_utc(-1931000, 0, 0, 0, 0, 0), None);
    assert!(time::Time::from_hms_nano(24, 0, 0, 0).is_err());
    assert_eq!(shift_to_utc(0, 24, 0, 0, 0, 0), None);
    assert_eq!(shift_to_utc(0, 0, 60, 0, 0, 0), None);
    assert_eq!(shift_to_utc(0, 0, 0, 60, 0, 0), None);
    assert_eq!(shift_to_utc(0, 0, 0, 0, 1_000_000_000, 0), None);
    assert!(time::UtcOffset::from_whole_seconds(93600).is_err());
    assert!(time::UtcOffset::from_whole_seconds(-93600).is_err());
    assert_eq!(shift_to_utc(0, 0, 0, 0, 0, 93600), None);
    assert_eq!(shift_to_utc(0, 0, 0, 0, 0, -93600), None);
}

#[test]
fn timestamps_are_read_as_the_time_crate_reads_them() {
    let stamp = MetadataColumnType::Primitive(Primitive::Timestamp);
    let texts = [
        "1990-07-04T18:00:00",
        "1990-07-04T18:00:00Z",
        "1990-07-04T18:00:00.25+05:30",
        "1990-07-04T00:10:00+14:00",
        "1990-07-04T23:50:00-12:00",
        "2000-02-29T12:00:00-00:30",
        "2016-12-31T23:59:60Z",
        "2016-06-30T23:59:60Z",
        "2016-06-15T23:59:60Z",
        "1990-07-04",
        "1990-07-04T25:00:00",
        "1990-07-04T18:00:00+99:00",
        "0001-01-01T00:00:00+23:59",
        "-0044-03-15T12:00:00Z",
        "19900704T180000Z",
        "not a time",
        "",
    ];
    for t in texts {
        let expected = match time::UtcDateTime::parse(t, &time::format_description::well_known::Iso8601::DATE_TIME) {
            Ok(u) => Ok(Coercion::JulianFraction {
                julian_day: u.to_julian_day(),
                seconds_past_noon: (u.hour() as i64) * 3600 + (u.minute() as i64) * 60 + (u.second() as i64) - 43200,
                nanosecond: u.nanosecond(),
            }),
            Err(_) => Err(Error::InvalidTimestamp),
        };
        assert_eq!(coerce_primitive_value(stamp, Some(String::from(t))), expected, "{:?}", t);
    }
}
