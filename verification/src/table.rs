//! Tables: the statements that create, trash and delete them, and the
//! surrogate view that gives every row of a table its display value.

use vstd::prelude::*;
use crate::column_type::{
    delete_plan, delete_type_row, delete_type_row_model, multiselect_name, multiselect_name_text,
    MetadataColumnType, Primitive,
};
use crate::error::Error;
use crate::sql::{lemma_plan_push, plan_model, stmt, Param, SqlValue, Statement, StatementModel};
use crate::text::{
    column_name, column_name_text, nat_text, push_count, push_text, surrogate_name,
    surrogate_name_text, table_name, table_name_text, wrap, wrap2,
};

verus! {

/// A table as it is listed: its id and its name.
#[derive(Clone, Debug, PartialEq, Eq)]
pub struct BasicMetadata {
    pub oid: i64,
    pub name: String,
}

/// A primary-key column of a table, as the surrogate view needs it.
#[derive(Clone, Debug, PartialEq, Eq)]
pub struct KeyColumn {
    pub oid: i64,
    pub name: String,
    pub column_type: MetadataColumnType,
}

// ---------------------------------------------------------------------------
// Creating, trashing and deleting a table.

/// Records a new type for a table; the row id that the store gives it is the
/// id of the table.
pub open spec fn table_type_row_model() -> StatementModel {
    stmt("INSERT INTO METADATA_TYPE (MODE) VALUES (3);"@, Seq::empty())
}

/// Records the table `t` under `name`.
pub open spec fn table_row_model(t: int, name: Seq<char>) -> StatementModel {
    stmt(
        "INSERT INTO METADATA_TABLE (TYPE_OID, NAME) VALUES (?1, ?2);"@,
        seq![Param::Integer(t), Param::Text(name)],
    )
}

/// Creates the relation of table `t`.
pub open spec fn create_table_model(t: int) -> StatementModel {
    stmt(
        "CREATE TABLE "@ + table_name_text(t)
            + " (OID INTEGER PRIMARY KEY, TRASH INTEGER NOT NULL DEFAULT 0) STRICT;"@,
        Seq::empty(),
    )
}

/// Sets the trash flag of table `t` to `flag`.
pub open spec fn trash_table_model(t: int, flag: int) -> StatementModel {
    stmt(
        "UPDATE METADATA_TABLE SET TRASH = ?1 WHERE TYPE_OID = ?2;"@,
        seq![Param::Integer(flag), Param::Integer(t)],
    )
}

/// Drops the relation `name` if there is one.
pub open spec fn drop_table_if_exists_model(name: Seq<char>) -> StatementModel {
    stmt("DROP TABLE IF EXISTS "@ + name + ";"@, Seq::empty())
}

/// Drops the surrogate view of table `t` if there is one.
pub open spec fn drop_surrogate_model(t: int) -> StatementModel {
    stmt("DROP VIEW IF EXISTS "@ + surrogate_name_text(t) + ";"@, Seq::empty())
}

/// The statements that demolish what each type of `owned` owns and remove
/// the type, in their order.
pub open spec fn delete_owned_plan(owned: Seq<MetadataColumnType>) -> Seq<StatementModel>
    decreases owned.len(),
{
    if owned.len() == 0 {
        Seq::empty()
    } else {
        delete_owned_plan(owned.drop_last()) + delete_plan(owned.last())
    }
}

/// The statements that delete table `t` for good.
pub open spec fn delete_table_plan(t: int, owned: Seq<MetadataColumnType>) -> Seq<StatementModel> {
    (seq![drop_surrogate_model(t), drop_table_if_exists_model(table_name_text(t))]
        + delete_owned_plan(owned)).push(delete_type_row_model(t))
}

/// The statement that records a new type for a table.
pub fn table_type_row() -> (r: Statement)
    ensures
        r@ == table_type_row_model(),
{
    Statement::plain(String::from_str("INSERT INTO METADATA_TYPE (MODE) VALUES (3);"))
}

/// The statements that create the table `table_oid`, whose type was just
/// recorded, under `name`: its row in the meta-schema and its relation. Its
/// surrogate view is built next, as for any change of the table.
pub fn create(table_oid: i64, name: String) -> (r: Vec<Statement>)
    ensures
        plan_model(r@) == seq![
            table_row_model(table_oid as int, name@),
            create_table_model(table_oid as int),
        ],
{
    let mut plan: Vec<Statement> = Vec::new();
    plan.push(
        Statement::with2(
            String::from_str("INSERT INTO METADATA_TABLE (TYPE_OID, NAME) VALUES (?1, ?2);"),
            SqlValue::Integer(table_oid),
            SqlValue::Text(name),
        ),
    );
    plan.push(
        Statement::plain(
            wrap(
                "CREATE TABLE ",
                &table_name(table_oid),
                " (OID INTEGER PRIMARY KEY, TRASH INTEGER NOT NULL DEFAULT 0) STRICT;",
            ),
        ),
    );
    assert(plan_model(plan@) =~= seq![
        table_row_model(table_oid as int, name@),
        create_table_model(table_oid as int),
    ]);
    plan
}

fn trash_table(table_oid: i64, flag: i64) -> (r: Statement)
    ensures
        r@ == trash_table_model(table_oid as int, flag as int),
{
    Statement::with2(
        String::from_str("UPDATE METADATA_TABLE SET TRASH = ?1 WHERE TYPE_OID = ?2;"),
        SqlValue::Integer(flag),
        SqlValue::Integer(table_oid),
    )
}

/// The statement that flags a table as trash.
pub fn move_trash(table_oid: i64) -> (r: Statement)
    ensures
        r@ == trash_table_model(table_oid as int, 1),
{
    trash_table(table_oid, 1)
}

/// The statement that clears the trash flag of a table.
pub fn unmove_trash(table_oid: i64) -> (r: Statement)
    ensures
        r@ == trash_table_model(table_oid as int, 0),
{
    trash_table(table_oid, 0)
}

/// The statement that drops the surrogate view of a table.
pub fn drop_surrogate_view(table_oid: i64) -> (r: Statement)
    ensures
        r@ == drop_surrogate_model(table_oid as int),
{
    Statement::plain(wrap("DROP VIEW IF EXISTS ", &surrogate_name(table_oid), ";"))
}

fn drop_table_if_exists(oid: i64) -> (r: Statement)
    ensures
        r@ == drop_table_if_exists_model(table_name_text(oid as int)),
{
    Statement::plain(wrap("DROP TABLE IF EXISTS ", &table_name(oid), ";"))
}

/// The statement that lists the types that the columns of table `table_oid`
/// own, and those that the columns of its child tables own in turn, each
/// with its type id and mode, a child table behind what it owns.
pub fn owned_types(table_oid: i64) -> (r: Statement)
    ensures
        r@ == stmt(
            "WITH RECURSIVE OWNED (OID, MODE, DEPTH) AS (SELECT t.OID, t.MODE, 1 FROM METADATA_TABLE_COLUMN c INNER JOIN METADATA_TYPE t ON t.OID = c.TYPE_OID WHERE c.TABLE_OID = ?1 AND t.MODE IN (1, 2, 5) UNION SELECT t.OID, t.MODE, o.DEPTH + 1 FROM OWNED o INNER JOIN METADATA_TABLE_COLUMN c ON c.TABLE_OID = o.OID INNER JOIN METADATA_TYPE t ON t.OID = c.TYPE_OID WHERE t.MODE IN (1, 2, 5)) SELECT OID, MODE FROM OWNED GROUP BY OID ORDER BY MAX(DEPTH) DESC, OID;"@,
            seq![Param::Integer(table_oid as int)],
        ),
{
    Statement::with1(
        String::from_str(
            "WITH RECURSIVE OWNED (OID, MODE, DEPTH) AS (SELECT t.OID, t.MODE, 1 FROM METADATA_TABLE_COLUMN c INNER JOIN METADATA_TYPE t ON t.OID = c.TYPE_OID WHERE c.TABLE_OID = ?1 AND t.MODE IN (1, 2, 5) UNION SELECT t.OID, t.MODE, o.DEPTH + 1 FROM OWNED o INNER JOIN METADATA_TABLE_COLUMN c ON c.TABLE_OID = o.OID INNER JOIN METADATA_TYPE t ON t.OID = c.TYPE_OID WHERE t.MODE IN (1, 2, 5)) SELECT OID, MODE FROM OWNED GROUP BY OID ORDER BY MAX(DEPTH) DESC, OID;",
        ),
        SqlValue::Integer(table_oid),
    )
}

/// The statements that delete the table `table_oid` for good: its surrogate
/// view and its relation, what every type of `owned` owns, which are the
/// dropdowns and child tables of its columns, and last its type, with which
/// its row and its columns leave the meta-schema.
pub fn delete(table_oid: i64, owned: &Vec<MetadataColumnType>) -> (r: Vec<Statement>)
    ensures
        plan_model(r@) == delete_table_plan(table_oid as int, owned@),
{
    let mut plan: Vec<Statement> = Vec::new();
    plan.push(drop_surrogate_view(table_oid));
    plan.push(drop_table_if_exists(table_oid));
    let ghost head = seq![
        drop_surrogate_model(table_oid as int),
        drop_table_if_exists_model(table_name_text(table_oid as int)),
    ];
    assert(plan_model(plan@) =~= head + delete_owned_plan(owned@.take(0)));
    let mut i: usize = 0;
    while i < owned.len()
        invariant
            i <= owned.len(),
            plan_model(plan@) == head + delete_owned_plan(owned@.take(i as int)),
        decreases owned.len() - i,
    {
        let mut more: Vec<Statement> = owned[i].delete_for_table();
        let ghost before = plan@;
        let ghost added = more@;
        plan.append(&mut more);
        proof {
            assert(owned@.take(i + 1).drop_last() =~= owned@.take(i as int));
            assert(plan_model(plan@) =~= plan_model(before) + plan_model(added));
        }
        i = i + 1;
        assert(plan_model(plan@) =~= head + delete_owned_plan(owned@.take(i as int)));
    }
    assert(owned@.take(i as int) =~= owned@);
    let last: Statement = delete_type_row(table_oid);
    proof {
        lemma_plan_push(plan@, last);
    }
    plan.push(last);
    plan
}

/// The statement that lists the tables that are not trash, by name.
pub fn send_metadata_list() -> (r: Statement)
    ensures
        r@ == stmt(
            "SELECT TYPE_OID, NAME FROM METADATA_TABLE WHERE TRASH = 0 ORDER BY NAME ASC;"@,
            Seq::empty(),
        ),
{
    Statement::plain(
        String::from_str(
            "SELECT TYPE_OID, NAME FROM METADATA_TABLE WHERE TRASH = 0 ORDER BY NAME ASC;",
        ),
    )
}

/// The statement that reads the name of the table `table_oid`, unless it is
/// trash.
pub fn get_metadata(table_oid: i64) -> (r: Statement)
    ensures
        r@ == stmt(
            "SELECT NAME FROM METADATA_TABLE WHERE TRASH = 0 AND TYPE_OID = ?1;"@,
            seq![Param::Integer(table_oid as int)],
        ),
{
    Statement::with1(
        String::from_str("SELECT NAME FROM METADATA_TABLE WHERE TRASH = 0 AND TYPE_OID = ?1;"),
        SqlValue::Integer(table_oid),
    )
}

/// The statement that lists, for every primary-key column, the type id of
/// the column and the table that owns it: the edges along which surrogate
/// views depend on each other.
pub fn key_edges() -> (r: Statement)
    ensures
        r@ == stmt(
            "SELECT TYPE_OID, TABLE_OID FROM METADATA_TABLE_COLUMN WHERE IS_PRIMARY_KEY = 1;"@,
            Seq::empty(),
        ),
{
    Statement::plain(
        String::from_str(
            "SELECT TYPE_OID, TABLE_OID FROM METADATA_TABLE_COLUMN WHERE IS_PRIMARY_KEY = 1;",
        ),
    )
}

/// The statement that lists the primary-key columns of table `table_oid`
/// that are not trash, in their order.
pub fn key_columns(table_oid: i64) -> (r: Statement)
    ensures
        r@ == stmt(
            "SELECT c.OID, c.NAME, c.TYPE_OID, t.MODE FROM METADATA_TABLE_COLUMN c INNER JOIN METADATA_TYPE t ON t.OID = c.TYPE_OID WHERE c.TABLE_OID = ?1 AND c.TRASH = 0 AND c.IS_PRIMARY_KEY = 1 ORDER BY c.COLUMN_ORDERING;"@,
            seq![Param::Integer(table_oid as int)],
        ),
{
    Statement::with1(
        String::from_str(
            "SELECT c.OID, c.NAME, c.TYPE_OID, t.MODE FROM METADATA_TABLE_COLUMN c INNER JOIN METADATA_TYPE t ON t.OID = c.TYPE_OID WHERE c.TABLE_OID = ?1 AND c.TRASH = 0 AND c.IS_PRIMARY_KEY = 1 ORDER BY c.COLUMN_ORDERING;",
        ),
        SqlValue::Integer(table_oid),
    )
}

// ---------------------------------------------------------------------------
// The surrogate view.

/// The physical column `c` of the table that is shown.
pub open spec fn col_text(c: int) -> Seq<char> {
    "t."@ + column_name_text(c)
}

/// The alias of the `n`-th relation joined to the table that is shown.
pub open spec fn alias_text(n: nat) -> Seq<char> {
    "t"@ + nat_text(n)
}

/// Whether a column of type `t` is shown through a joined relation.
pub open spec fn uses_alias(t: MetadataColumnType) -> bool {
    t is SingleSelectDropdown || t is Reference || t is ChildObject
}

/// `x` between double quotes, as an expression.
pub open spec fn quoted(x: Seq<char>) -> Seq<char> {
    "'\"' || "@ + x + " || '\"'"@
}

/// `x` where the column `col` holds a value, the JSON literal `null` where
/// it holds none.
pub open spec fn unless_null(col: Seq<char>, x: Seq<char>) -> Seq<char> {
    "CASE WHEN "@ + col + " IS NOT NULL THEN "@ + x + " ELSE 'null' END"@
}

/// The expression that shows the column `col` of type `t`, joined under
/// `alias` where it needs a join, when it is the only primary key.
pub open spec fn single_expr(t: MetadataColumnType, col: Seq<char>, alias: Seq<char>) -> Seq<char> {
    match t {
        MetadataColumnType::Primitive(Primitive::Boolean) => "CASE WHEN "@ + col
            + " = 1 THEN 'True' ELSE 'False' END"@,
        MetadataColumnType::Primitive(Primitive::Text) => col,
        MetadataColumnType::Primitive(Primitive::Date) => "DATE("@ + col + ", 'julianday')"@,
        MetadataColumnType::Primitive(Primitive::Timestamp) => "STRFTIME('%FT%TZ', "@ + col
            + ", 'julianday')"@,
        MetadataColumnType::Primitive(Primitive::File) => "CASE WHEN "@ + col
            + " IS NULL THEN NULL ELSE '{}' END"@,
        MetadataColumnType::Primitive(Primitive::Image) => "CASE WHEN "@ + col
            + " IS NULL THEN NULL ELSE '{}' END"@,
        MetadataColumnType::Primitive(_) => "CAST("@ + col + " AS TEXT)"@,
        MetadataColumnType::SingleSelectDropdown(_) => alias + ".VALUE"@,
        MetadataColumnType::MultiSelectDropdown(v) => "(SELECT '[' || GROUP_CONCAT(b.VALUE) || ']' FROM "@
            + multiselect_name_text(v as int) + " a INNER JOIN "@ + table_name_text(v as int)
            + " b ON b.OID = a.VALUE_OID WHERE a.ROW_OID = t.OID GROUP BY a.ROW_OID)"@,
        MetadataColumnType::Reference(_) => "COALESCE("@ + alias
            + ".DISPLAY_VALUE, CASE WHEN "@ + col + " IS NOT NULL THEN '— DELETED —' ELSE NULL END)"@,
        MetadataColumnType::ChildObject(_) => "COALESCE("@ + alias
            + ".DISPLAY_VALUE, CASE WHEN "@ + col + " IS NOT NULL THEN '— DELETED —' ELSE NULL END)"@,
        MetadataColumnType::ChildTable(v) => "'[' || (SELECT GROUP_CONCAT(a.DISPLAY_VALUE) FROM "@
            + surrogate_name_text(v as int) + " a INNER JOIN "@ + table_name_text(v as int)
            + " b ON b.OID = a.OID WHERE b.PARENT_OID = t.OID GROUP BY b.PARENT_OID) || ']'"@,
    }
}

/// The expression that gives the column's value as JSON.
pub open spec fn json_value_expr(t: MetadataColumnType, col: Seq<char>, alias: Seq<char>) -> Seq<
    char,
> {
    match t {
        MetadataColumnType::Primitive(Primitive::Boolean) => "CASE WHEN "@ + col
            + " = 1 THEN 'true' ELSE 'false' END"@,
        MetadataColumnType::Primitive(Primitive::Text) => unless_null(
            col,
            quoted(single_expr(t, col, alias)),
        ),
        MetadataColumnType::Primitive(Primitive::Date) => unless_null(
            col,
            quoted(single_expr(t, col, alias)),
        ),
        MetadataColumnType::Primitive(Primitive::Timestamp) => unless_null(
            col,
            quoted(single_expr(t, col, alias)),
        ),
        MetadataColumnType::Primitive(Primitive::File) => unless_null(col, "'{}'"@),
        MetadataColumnType::Primitive(Primitive::Image) => unless_null(col, "'{}'"@),
        MetadataColumnType::Primitive(_) => unless_null(col, single_expr(t, col, alias)),
        MetadataColumnType::SingleSelectDropdown(_) => unless_null(
            col,
            quoted(single_expr(t, col, alias)),
        ),
        MetadataColumnType::MultiSelectDropdown(v) => "COALESCE('[' || (SELECT GROUP_CONCAT(b.VALUE) FROM "@
            + multiselect_name_text(v as int) + " a INNER JOIN "@ + table_name_text(v as int)
            + " b ON b.OID = a.VALUE_OID WHERE a.ROW_OID = t.OID GROUP BY a.ROW_OID) || ']', 'null')"@,
        MetadataColumnType::Reference(_) => alias + ".JSON_DISPLAY_VALUE"@,
        MetadataColumnType::ChildObject(_) => alias + ".JSON_DISPLAY_VALUE"@,
        MetadataColumnType::ChildTable(v) => "'[' || (SELECT GROUP_CONCAT(a.JSON_DISPLAY_VALUE) FROM "@
            + surrogate_name_text(v as int) + " a INNER JOIN "@ + table_name_text(v as int)
            + " b ON b.OID = a.OID WHERE b.PARENT_OID = t.OID GROUP BY b.PARENT_OID) || ']'"@,
    }
}

/// The expression that gives the column as a member of a JSON object, under
/// the key `key`, which is the column's name as a JSON string.
pub open spec fn json_expr(
    t: MetadataColumnType,
    col: Seq<char>,
    alias: Seq<char>,
    key: Seq<char>,
) -> Seq<char> {
    "'"@ + key + ": ' || "@ + json_value_expr(t, col, alias)
}

/// The relation that is joined to show the column, if one is.
pub open spec fn join_text(t: MetadataColumnType, col: Seq<char>, alias: Seq<char>) -> Seq<char> {
    match t {
        MetadataColumnType::SingleSelectDropdown(v) => " LEFT JOIN "@ + table_name_text(v as int)
            + " "@ + alias + " ON "@ + alias + ".OID = "@ + col,
        MetadataColumnType::Reference(v) => " LEFT JOIN "@ + surrogate_name_text(v as int) + " "@
            + alias + " ON "@ + alias + ".OID = "@ + col,
        MetadataColumnType::ChildObject(v) => " LEFT JOIN "@ + surrogate_name_text(v as int) + " "@
            + alias + " ON "@ + alias + ".OID = "@ + col,
        _ => Seq::empty(),
    }
}

/// How many of the first `k` columns are shown through a joined relation.
pub open spec fn aliases_used(cols: Seq<KeyColumn>, k: int) -> nat
    decreases k,
{
    if k <= 0 {
        0
    } else {
        aliases_used(cols, k - 1) + if uses_alias(cols[k - 1].column_type) {
            1nat
        } else {
            0nat
        }
    }
}

/// The alias under which the relation of column `k` is joined.
pub open spec fn alias_at(cols: Seq<KeyColumn>, k: int) -> Seq<char> {
    alias_text(aliases_used(cols, k) + 1)
}

/// The JSON members of the first `k` columns, joined by commas.
pub open spec fn json_members(cols: Seq<KeyColumn>, keys: Seq<String>, k: int) -> Seq<char>
    decreases k,
{
    if k <= 0 {
        Seq::empty()
    } else {
        let member = json_expr(
            cols[k - 1].column_type,
            col_text(cols[k - 1].oid as int),
            alias_at(cols, k - 1),
            keys[k - 1]@,
        );
        if k == 1 {
            member
        } else {
            json_members(cols, keys, k - 1) + " || ', ' || "@ + member
        }
    }
}

/// The joins of the first `k` columns.
pub open spec fn joins_text(cols: Seq<KeyColumn>, k: int) -> Seq<char>
    decreases k,
{
    if k <= 0 {
        Seq::empty()
    } else {
        joins_text(cols, k - 1) + join_text(
            cols[k - 1].column_type,
            col_text(cols[k - 1].oid as int),
            alias_at(cols, k - 1),
        )
    }
}

/// The expression of a row's JSON display value: an object with one member
/// for each primary-key column.
pub open spec fn json_display_text(cols: Seq<KeyColumn>, keys: Seq<String>) -> Seq<char> {
    if cols.len() == 0 {
        "'{}'"@
    } else {
        "'{ ' || "@ + json_members(cols, keys, cols.len() as int) + " || ' }'"@
    }
}

/// The expression of a row's display value: the single primary-key column,
/// the JSON object where there are several, a fixed text where there is none.
pub open spec fn display_text(cols: Seq<KeyColumn>, keys: Seq<String>) -> Seq<char> {
    if cols.len() == 0 {
        "'— NO PRIMARY KEY —'"@
    } else if cols.len() == 1 {
        single_expr(cols[0].column_type, col_text(cols[0].oid as int), alias_at(cols, 0))
    } else {
        json_display_text(cols, keys)
    }
}

/// The statement that creates the surrogate view of table `t` with the
/// primary-key columns `cols`, whose names as JSON strings are `keys`.
pub open spec fn create_surrogate_model(t: int, cols: Seq<KeyColumn>, keys: Seq<String>) -> StatementModel {
    stmt(
        "CREATE VIEW "@ + surrogate_name_text(t) + " AS SELECT t.OID, CASE WHEN t.TRASH = 0 THEN "@
            + display_text(cols, keys)
            + " ELSE '— DELETED —' END AS DISPLAY_VALUE, CASE WHEN t.TRASH = 0 THEN "@
            + json_display_text(cols, keys) + " ELSE 'null' END AS JSON_DISPLAY_VALUE FROM "@
            + table_name_text(t) + " t"@ + joins_text(cols, cols.len() as int),
        Seq::empty(),
    )
}

/// `t.COLUMN<oid>`.
pub fn col_ref(oid: i64) -> (r: String)
    ensures
        r@ == col_text(oid as int),
{
    let mut buf: String = String::from_str("t.");
    push_text(&mut buf, &column_name(oid));
    buf
}

/// `t<n>`.
pub fn alias(n: usize) -> (r: String)
    ensures
        r@ == alias_text(n as nat),
{
    let mut buf: String = String::from_str("t");
    push_count(&mut buf, n);
    buf
}

fn suffixed(x: &String, after: &str) -> (r: String)
    ensures
        r@ == x@ + after@,
{
    let mut buf: String = x.clone();
    buf.append(after);
    buf
}

fn quote(x: &String) -> (r: String)
    ensures
        r@ == quoted(x@),
{
    wrap("'\"' || ", x, " || '\"'")
}

fn guard_null(col: &String, x: &String) -> (r: String)
    ensures
        r@ == unless_null(col@, x@),
{
    wrap2("CASE WHEN ", col, " IS NOT NULL THEN ", x, " ELSE 'null' END")
}

/// The expression that shows a column when it is the only primary key.
pub fn single_expression(t: MetadataColumnType, col: &String, alias: &String) -> (r: String)
    ensures
        r@ == single_expr(t, col@, alias@),
{
    match t {
        MetadataColumnType::Primitive(Primitive::Boolean) => wrap(
            "CASE WHEN ",
            col,
            " = 1 THEN 'True' ELSE 'False' END",
        ),
        MetadataColumnType::Primitive(Primitive::Text) => col.clone(),
        MetadataColumnType::Primitive(Primitive::Date) => wrap("DATE(", col, ", 'julianday')"),
        MetadataColumnType::Primitive(Primitive::Timestamp) => wrap(
            "STRFTIME('%FT%TZ', ",
            col,
            ", 'julianday')",
        ),
        MetadataColumnType::Primitive(Primitive::File) => wrap(
            "CASE WHEN ",
            col,
            " IS NULL THEN NULL ELSE '{}' END",
        ),
        MetadataColumnType::Primitive(Primitive::Image) => wrap(
            "CASE WHEN ",
            col,
            " IS NULL THEN NULL ELSE '{}' END",
        ),
        MetadataColumnType::Primitive(_) => wrap("CAST(", col, " AS TEXT)"),
        MetadataColumnType::SingleSelectDropdown(_) => suffixed(alias, ".VALUE"),
        MetadataColumnType::MultiSelectDropdown(v) => wrap2(
            "(SELECT '[' || GROUP_CONCAT(b.VALUE) || ']' FROM ",
            &multiselect_name(v),
            " a INNER JOIN ",
            &table_name(v),
            " b ON b.OID = a.VALUE_OID WHERE a.ROW_OID = t.OID GROUP BY a.ROW_OID)",
        ),
        MetadataColumnType::Reference(_) => wrap2(
            "COALESCE(",
            alias,
            ".DISPLAY_VALUE, CASE WHEN ",
            col,
            " IS NOT NULL THEN '— DELETED —' ELSE NULL END)",
        ),
        MetadataColumnType::ChildObject(_) => wrap2(
            "COALESCE(",
            alias,
            ".DISPLAY_VALUE, CASE WHEN ",
            col,
            " IS NOT NULL THEN '— DELETED —' ELSE NULL END)",
        ),
        MetadataColumnType::ChildTable(v) => wrap2(
            "'[' || (SELECT GROUP_CONCAT(a.DISPLAY_VALUE) FROM ",
            &surrogate_name(v),
            " a INNER JOIN ",
            &table_name(v),
            " b ON b.OID = a.OID WHERE b.PARENT_OID = t.OID GROUP BY b.PARENT_OID) || ']'",
        ),
    }
}

fn json_value_expression(t: MetadataColumnType, col: &String, alias: &String) -> (r: String)
    ensures
        r@ == json_value_expr(t, col@, alias@),
{
    match t {
        MetadataColumnType::Primitive(Primitive::Boolean) => wrap(
            "CASE WHEN ",
            col,
            " = 1 THEN 'true' ELSE 'false' END",
        ),
        MetadataColumnType::Primitive(Primitive::Text) => guard_null(
            col,
            &quote(&single_expression(t, col, alias)),
        ),
        MetadataColumnType::Primitive(Primitive::Date) => guard_null(
            col,
            &quote(&single_expression(t, col, alias)),
        ),
        MetadataColumnType::Primitive(Primitive::Timestamp) => guard_null(
            col,
            &quote(&single_expression(t, col, alias)),
        ),
        MetadataColumnType::Primitive(Primitive::File) => guard_null(col, &String::from_str("'{}'")),
        MetadataColumnType::Primitive(Primitive::Image) => guard_null(
            col,
            &String::from_str("'{}'"),
        ),
        MetadataColumnType::Primitive(_) => guard_null(col, &single_expression(t, col, alias)),
        MetadataColumnType::SingleSelectDropdown(_) => guard_null(
            col,
            &quote(&single_expression(t, col, alias)),
        ),
        MetadataColumnType::MultiSelectDropdown(v) => wrap2(
            "COALESCE('[' || (SELECT GROUP_CONCAT(b.VALUE) FROM ",
            &multiselect_name(v),
            " a INNER JOIN ",
            &table_name(v),
            " b ON b.OID = a.VALUE_OID WHERE a.ROW_OID = t.OID GROUP BY a.ROW_OID) || ']', 'null')",
        ),
        MetadataColumnType::Reference(_) => suffixed(alias, ".JSON_DISPLAY_VALUE"),
        MetadataColumnType::ChildObject(_) => suffixed(alias, ".JSON_DISPLAY_VALUE"),
        MetadataColumnType::ChildTable(v) => wrap2(
            "'[' || (SELECT GROUP_CONCAT(a.JSON_DISPLAY_VALUE) FROM ",
            &surrogate_name(v),
            " a INNER JOIN ",
            &table_name(v),
            " b ON b.OID = a.OID WHERE b.PARENT_OID = t.OID GROUP BY b.PARENT_OID) || ']'",
        ),
    }
}

/// The join that shows a column, or nothing where it needs none.
pub fn join_clause(t: MetadataColumnType, col: &String, alias: &String) -> (r: String)
    ensures
        r@ == join_text(t, col@, alias@),
{
    let relation: String = match t {
        MetadataColumnType::SingleSelectDropdown(v) => table_name(v),
        MetadataColumnType::Reference(v) => surrogate_name(v),
        MetadataColumnType::ChildObject(v) => surrogate_name(v),
        _ => {
            return String::new();
        },
    };
    let mut buf: String = wrap2(" LEFT JOIN ", &relation, " ", alias, " ON ");
    push_text(&mut buf, alias);
    buf.append(".OID = ");
    push_text(&mut buf, col);
    buf
}

/// Whether a column of type `t` is shown through a joined relation.
pub fn joins_relation(t: MetadataColumnType) -> (r: bool)
    ensures
        r == uses_alias(t),
{
    match t {
        MetadataColumnType::SingleSelectDropdown(_) => true,
        MetadataColumnType::Reference(_) => true,
        MetadataColumnType::ChildObject(_) => true,
        _ => false,
    }
}

/// The statement that creates the surrogate view of table `table_oid` from
/// its primary-key columns `columns`, in their order, and `keys`, the name of
/// each column as a JSON string; nothing where there is not one key for each
/// column.
pub fn create_surrogate_view_with(table_oid: i64, columns: &Vec<KeyColumn>, keys: &Vec<String>) -> (r:
    Option<Statement>)
    ensures
        keys.len() != columns.len() ==> r is None,
        keys.len() == columns.len() ==> r is Some && r->Some_0@ == create_surrogate_model(
            table_oid as int,
            columns@,
            keys@,
        ),
{
    if keys.len() != columns.len() {
        return None;
    }
    let mut members: String = String::new();
    let mut joins: String = String::new();
    let mut single: String = String::new();
    let mut used: usize = 0;
    let mut i: usize = 0;
    while i < columns.len()
        invariant
            i <= columns.len(),
            keys.len() == columns.len(),
            used == aliases_used(columns@, i as int),
            used <= i,
            members@ == json_members(columns@, keys@, i as int),
            joins@ == joins_text(columns@, i as int),
            i >= 1 ==> single@ == single_expr(
                columns@[0].column_type,
                col_text(columns@[0].oid as int),
                alias_at(columns@, 0),
            ),
        decreases columns.len() - i,
    {
        let t: MetadataColumnType = columns[i].column_type;
        let col: String = col_ref(columns[i].oid);
        let a: String = alias(used + 1);
        let mut member: String = wrap("'", &keys[i], ": ' || ");
        push_text(&mut member, &json_value_expression(t, &col, &a));
        if i == 0 {
            single = single_expression(t, &col, &a);
            members = member;
        } else {
            members.append(" || ', ' || ");
            push_text(&mut members, &member);
        }
        push_text(&mut joins, &join_clause(t, &col, &a));
        if joins_relation(t) {
            used = used + 1;
        }
        i = i + 1;
    }
    let json: String = if columns.len() == 0 {
        String::from_str("'{}'")
    } else {
        wrap("'{ ' || ", &members, " || ' }'")
    };
    let display: String = if columns.len() == 0 {
        String::from_str("'— NO PRIMARY KEY —'")
    } else if columns.len() == 1 {
        single
    } else {
        json.clone()
    };
    let mut sql: String = wrap2(
        "CREATE VIEW ",
        &surrogate_name(table_oid),
        " AS SELECT t.OID, CASE WHEN t.TRASH = 0 THEN ",
        &display,
        " ELSE '— DELETED —' END AS DISPLAY_VALUE, CASE WHEN t.TRASH = 0 THEN ",
    );
    push_text(&mut sql, &json);
    sql.append(" ELSE 'null' END AS JSON_DISPLAY_VALUE FROM ");
    push_text(&mut sql, &table_name(table_oid));
    sql.append(" t");
    push_text(&mut sql, &joins);
    Some(Statement::plain(sql))
}

/// The text that `serde_json` writes for the string `name`: the JSON string
/// that spells it.
pub uninterp spec fn json_string_of(name: Seq<char>) -> Seq<char>;

/// Calls `serde_json::to_string` on a string. Trusted: it succeeds, since a
/// string is written into memory without a step that can fail, and what it
/// writes is a function of the string alone, named [`json_string_of`].
#[verifier::external_body]
fn json_string(name: &String) -> (r: Option<String>)
    ensures
        r is Some,
        r matches Some(s) ==> s@ == json_string_of(name@),
{
    serde_json::to_string(name).ok()
}

/// Whether `keys` holds the name of each column of `cols` as a JSON string.
pub open spec fn keys_of(keys: Seq<String>, cols: Seq<KeyColumn>) -> bool {
    keys.len() == cols.len() && forall|i: int|
        0 <= i < cols.len() ==> (#[trigger] keys[i])@ == json_string_of(cols[i].name@)
}

/// The statement that creates the surrogate view of table `table_oid` from
/// its primary-key columns `columns`, in their order, each under its name as
/// a JSON string. There is always one.
pub fn create_surrogate_view(table_oid: i64, columns: &Vec<KeyColumn>) -> (r: Result<
    Statement,
    Error,
>)
    ensures
        r is Ok,
        exists|keys: Seq<String>|
            keys_of(keys, columns@) && r->Ok_0@ == create_surrogate_model(
                table_oid as int,
                columns@,
                keys,
            ),
        columns@.len() == 0 ==> r->Ok_0@ == create_surrogate_model(
            table_oid as int,
            Seq::empty(),
            Seq::empty(),
        ),
{
    let mut keys: Vec<String> = Vec::new();
    let mut i: usize = 0;
    while i < columns.len()
        invariant
            i <= columns.len(),
            keys_of(keys@, columns@.take(i as int)),
        decreases columns.len() - i,
    {
        let key: String = json_string(&columns[i].name).unwrap();
        keys.push(key);
        i = i + 1;
    }
    assert(columns@.take(i as int) =~= columns@);
    if columns.len() == 0 {
        assert(keys@ =~= Seq::empty());
        assert(columns@ =~= Seq::empty());
    }
    Ok(create_surrogate_view_with(table_oid, columns, &keys).unwrap())
}

} // verus!
