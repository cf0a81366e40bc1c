//! Columns: their metadata, the statements that create, edit, trash and
//! delete them, and the values of dropdown columns.

use vstd::prelude::*;
use crate::column_type::{
    create_plan, is_adhoc, materialized_type, type_oid_of, delete_plan, delete_type_row, delete_type_row_model, drop_table, drop_table_model,
    has_physical_column, multiselect_name, sqlite_type_text, MetadataColumnType, Primitive,
};
use crate::error::Error;
use crate::sql::{
    flag_param, lemma_plan_push, plan_model, stmt, text_param, Param, SqlValue, Statement,
    StatementModel,
};
use crate::text::{
    column_name, column_name_text, int_of_text, int_text, parse_int, push_int, push_text, surrogate_name,
    surrogate_name_text, table_name, table_name_text, wrap, wrap2,
};

verus! {

/// The metadata of a column, as listed for a table.
#[derive(Clone, Debug, PartialEq, Eq)]
pub struct Metadata {
    pub oid: i64,
    pub name: String,
    pub column_ordering: i64,
    pub column_style: String,
    pub column_type: MetadataColumnType,
    pub is_nullable: bool,
    pub is_unique: bool,
    pub is_primary_key: bool,
}

/// A value that a dropdown offers: the value that is stored, as text, and
/// the text that is shown.
#[derive(Clone, Debug, PartialEq, Eq)]
pub struct DropdownValue {
    pub true_value: Option<String>,
    pub display_value: Option<String>,
}

/// A type that has a table of its own, as listed for a reference column.
#[derive(Clone, Debug, PartialEq, Eq)]
pub struct BasicTypeMetadata {
    pub oid: i64,
    pub name: String,
}

// ---------------------------------------------------------------------------
// The order of the columns of a table.

/// What the meta-schema holds of a column, as far as its place goes.
pub struct ColumnPlace {
    pub oid: int,
    pub table_oid: int,
    pub ordering: int,
    pub trash: bool,
}

/// Whether the column makes room for a new column of table `t` at `o`.
pub open spec fn makes_room(c: ColumnPlace, t: int, o: int) -> bool {
    c.table_oid == t && c.ordering >= o
}

/// The columns once room is made in table `t` at ordering `o`: what
/// [`make_room`] asks of the store.
pub open spec fn with_room(cols: Seq<ColumnPlace>, t: int, o: int) -> Seq<ColumnPlace> {
    Seq::new(
        cols.len(),
        |i: int|
            if makes_room(cols[i], t, o) {
                ColumnPlace { ordering: cols[i].ordering + 1, ..cols[i] }
            } else {
                cols[i]
            },
    )
}

/// No two columns of table `t` that are not trash share an ordering.
pub open spec fn orderings_distinct(cols: Seq<ColumnPlace>, t: int) -> bool {
    forall|i: int, j: int|
        0 <= i < j < cols.len() && cols[i].table_oid == t && cols[j].table_oid == t && !cols[i].trash
            && !cols[j].trash ==> cols[i].ordering != cols[j].ordering
}

/// The statement that makes room for a column of table `t` at ordering `o`.
pub open spec fn make_room_model(t: int, o: int) -> StatementModel {
    stmt(
        "UPDATE METADATA_TABLE_COLUMN SET COLUMN_ORDERING = COLUMN_ORDERING + 1 WHERE TABLE_OID = ?1 AND COLUMN_ORDERING >= ?2;"@,
        seq![Param::Integer(t), Param::Integer(o)],
    )
}

/// After room is made at `o`, every column of the table that stood at `o`
/// or behind, in the trash or not, stands one place further back; every
/// column before `o` and every column of another table stands where it
/// stood; no column of the table stands at `o`; and columns that stood apart
/// still do.
pub proof fn lemma_room_made(cols: Seq<ColumnPlace>, t: int, o: int)
    ensures
        with_room(cols, t, o).len() == cols.len(),
        forall|i: int|
            0 <= i < cols.len() && makes_room(cols[i], t, o) ==> #[trigger] with_room(cols, t, o)[i]
                == (ColumnPlace { ordering: cols[i].ordering + 1, ..cols[i] }),
        forall|i: int|
            0 <= i < cols.len() && !makes_room(cols[i], t, o) ==> #[trigger] with_room(cols, t, o)[i]
                == cols[i],
        forall|i: int|
            0 <= i < cols.len() && !cols[i].trash && cols[i].table_oid == t && cols[i].ordering >= o
                ==> (#[trigger] with_room(cols, t, o)[i]).ordering == cols[i].ordering + 1,
        forall|i: int|
            0 <= i < cols.len() && (cols[i].table_oid != t || cols[i].ordering < o) ==> #[trigger] with_room(
                cols,
                t,
                o,
            )[i] == cols[i],
        forall|i: int|
            0 <= i < cols.len() && with_room(cols, t, o)[i].table_oid == t ==> (#[trigger] with_room(
                cols,
                t,
                o,
            )[i]).ordering != o,
        orderings_distinct(cols, t) ==> orderings_distinct(with_room(cols, t, o), t),
{
}

// ---------------------------------------------------------------------------
// Creating, trashing and deleting a column.

/// The clause that declares the physical column of a column of type `t`.
pub open spec fn column_declaration(t: MetadataColumnType) -> Seq<char> {
    match t {
        MetadataColumnType::Primitive(p) => sqlite_type_text(p),
        MetadataColumnType::SingleSelectDropdown(v) => "INTEGER REFERENCES "@ + table_name_text(
            v as int,
        ) + " (OID) ON UPDATE CASCADE ON DELETE SET NULL"@,
        _ => "INTEGER REFERENCES "@ + table_name_text(type_target(t)) + " (OID) ON UPDATE CASCADE ON DELETE SET DEFAULT"@,
    }
}

/// The table or type that a type which is no primitive names.
pub open spec fn type_target(t: MetadataColumnType) -> int {
    match t {
        MetadataColumnType::Primitive(_) => 0,
        MetadataColumnType::SingleSelectDropdown(v) => v as int,
        MetadataColumnType::MultiSelectDropdown(v) => v as int,
        MetadataColumnType::Reference(v) => v as int,
        MetadataColumnType::ChildObject(v) => v as int,
        MetadataColumnType::ChildTable(v) => v as int,
    }
}

/// The storage class to which a value carried over into a column of type
/// `t` is cast.
pub open spec fn carried_type_text(t: MetadataColumnType) -> Seq<char> {
    match t {
        MetadataColumnType::Primitive(p) => sqlite_type_text(p),
        _ => "INTEGER"@,
    }
}

/// Adds the physical column of column `c` of type `ty` to table `t`.
pub open spec fn add_column_model(t: int, c: int, ty: MetadataColumnType) -> StatementModel {
    stmt(
        "ALTER TABLE "@ + table_name_text(t) + " ADD COLUMN "@ + column_name_text(c) + " "@
            + column_declaration(ty) + ";"@,
        Seq::empty(),
    )
}

/// Drops the physical column of column `c` from table `t`.
pub open spec fn drop_column_model(t: int, c: int) -> StatementModel {
    stmt(
        "ALTER TABLE "@ + table_name_text(t) + " DROP COLUMN "@ + column_name_text(c) + ";"@,
        Seq::empty(),
    )
}

/// Removes the column `c` from the meta-schema.
pub open spec fn delete_column_row_model(c: int) -> StatementModel {
    stmt("DELETE FROM METADATA_TABLE_COLUMN WHERE OID = ?1;"@, seq![Param::Integer(c)])
}

/// Sets the trash flag of column `c` to `flag`.
pub open spec fn trash_column_model(c: int, flag: int) -> StatementModel {
    stmt(
        "UPDATE METADATA_TABLE_COLUMN SET TRASH = ?1 WHERE OID = ?2;"@,
        seq![Param::Integer(flag), Param::Integer(c)],
    )
}

/// Records a new column under the id behind the highest id of any type and
/// any column; the row id that the store reports is that id.
pub open spec fn column_row_model(
    t: int,
    name: Seq<char>,
    type_oid: int,
    ordering: int,
    style: Seq<char>,
    is_nullable: bool,
    is_unique: bool,
    is_primary_key: bool,
) -> StatementModel {
    stmt(
        "INSERT INTO METADATA_TABLE_COLUMN (OID, TABLE_OID, NAME, TYPE_OID, COLUMN_ORDERING, COLUMN_CSS_STYLE, IS_NULLABLE, IS_UNIQUE, IS_PRIMARY_KEY) VALUES ((SELECT MAX(OID) + 1 FROM (SELECT MAX(OID) AS OID FROM METADATA_TYPE UNION ALL SELECT MAX(OID) AS OID FROM METADATA_TABLE_COLUMN)), ?1, ?2, ?3, ?4, ?5, ?6, ?7, ?8);"@,
        seq![
            Param::Integer(t),
            Param::Text(name),
            Param::Integer(type_oid),
            Param::Integer(ordering),
            Param::Text(style),
            flag_param(is_nullable),
            flag_param(is_unique),
            flag_param(is_primary_key),
        ],
    )
}

/// The statements that delete column `c` of type `ty` from table `t`: its
/// physical column where it has one, its row in the meta-schema, and what
/// its type owns.
pub open spec fn delete_column_plan(t: int, c: int, ty: MetadataColumnType) -> Seq<StatementModel> {
    (if has_physical_column(ty) {
        seq![drop_column_model(t, c)]
    } else {
        Seq::empty()
    }).push(delete_column_row_model(c)) + delete_plan(ty)
}

/// The statement that makes room for a new column of table `table_oid` at
/// `column_ordering`.
pub fn make_room(table_oid: i64, column_ordering: i64) -> (r: Statement)
    ensures
        r@ == make_room_model(table_oid as int, column_ordering as int),
{
    Statement::with2(
        String::from_str(
            "UPDATE METADATA_TABLE_COLUMN SET COLUMN_ORDERING = COLUMN_ORDERING + 1 WHERE TABLE_OID = ?1 AND COLUMN_ORDERING >= ?2;",
        ),
        SqlValue::Integer(table_oid),
        SqlValue::Integer(column_ordering),
    )
}

/// The statement that asks for the ordering behind the last column of table
/// `table_oid`.
pub fn next_ordering(table_oid: i64) -> (r: Statement)
    ensures
        r@ == stmt(
            "SELECT COALESCE(MAX(COLUMN_ORDERING), 0) + 1 FROM METADATA_TABLE_COLUMN WHERE TABLE_OID = ?1;"@,
            seq![Param::Integer(table_oid as int)],
        ),
{
    Statement::with1(
        String::from_str(
            "SELECT COALESCE(MAX(COLUMN_ORDERING), 0) + 1 FROM METADATA_TABLE_COLUMN WHERE TABLE_OID = ?1;",
        ),
        SqlValue::Integer(table_oid),
    )
}

fn column_declaration_text(t: MetadataColumnType) -> (r: String)
    ensures
        r@ == column_declaration(t),
{
    match t {
        MetadataColumnType::Primitive(p) => String::from_str(p.get_sqlite_type()),
        MetadataColumnType::SingleSelectDropdown(v) => wrap(
            "INTEGER REFERENCES ",
            &table_name(v),
            " (OID) ON UPDATE CASCADE ON DELETE SET NULL",
        ),
        MetadataColumnType::MultiSelectDropdown(v) => wrap(
            "INTEGER REFERENCES ",
            &table_name(v),
            " (OID) ON UPDATE CASCADE ON DELETE SET DEFAULT",
        ),
        MetadataColumnType::Reference(v) => wrap(
            "INTEGER REFERENCES ",
            &table_name(v),
            " (OID) ON UPDATE CASCADE ON DELETE SET DEFAULT",
        ),
        MetadataColumnType::ChildObject(v) => wrap(
            "INTEGER REFERENCES ",
            &table_name(v),
            " (OID) ON UPDATE CASCADE ON DELETE SET DEFAULT",
        ),
        MetadataColumnType::ChildTable(v) => wrap(
            "INTEGER REFERENCES ",
            &table_name(v),
            " (OID) ON UPDATE CASCADE ON DELETE SET DEFAULT",
        ),
    }
}

fn physical(t: MetadataColumnType) -> (r: bool)
    ensures
        r == has_physical_column(t),
{
    match t {
        MetadataColumnType::MultiSelectDropdown(_) => false,
        MetadataColumnType::ChildTable(_) => false,
        _ => true,
    }
}

fn add_column(table_oid: i64, column_oid: i64, t: MetadataColumnType) -> (r: Statement)
    ensures
        r@ == add_column_model(table_oid as int, column_oid as int, t),
{
    let mut sql: String = wrap2(
        "ALTER TABLE ",
        &table_name(table_oid),
        " ADD COLUMN ",
        &column_name(column_oid),
        " ",
    );
    push_text(&mut sql, &column_declaration_text(t));
    sql.append(";");
    Statement::plain(sql)
}

fn drop_column(table_oid: i64, column_oid: i64) -> (r: Statement)
    ensures
        r@ == drop_column_model(table_oid as int, column_oid as int),
{
    Statement::plain(
        wrap2("ALTER TABLE ", &table_name(table_oid), " DROP COLUMN ", &column_name(column_oid), ";"),
    )
}

fn delete_column_row(column_oid: i64) -> (r: Statement)
    ensures
        r@ == delete_column_row_model(column_oid as int),
{
    Statement::with1(
        String::from_str("DELETE FROM METADATA_TABLE_COLUMN WHERE OID = ?1;"),
        SqlValue::Integer(column_oid),
    )
}

/// The statement that records a new column of table `table_oid`, at
/// `column_ordering`, with the materialized type `column_type`.
pub fn create(
    table_oid: i64,
    column_name: String,
    column_type: MetadataColumnType,
    column_ordering: i64,
    column_style: String,
    is_nullable: bool,
    is_unique: bool,
    is_primary_key: bool,
) -> (r: Statement)
    ensures
        r@ == column_row_model(
            table_oid as int,
            column_name@,
            crate::column_type::type_oid_of(column_type),
            column_ordering as int,
            column_style@,
            is_nullable,
            is_unique,
            is_primary_key,
        ),
{
    let mut params: Vec<SqlValue> = Vec::new();
    params.push(SqlValue::Integer(table_oid));
    params.push(SqlValue::Text(column_name));
    params.push(SqlValue::Integer(column_type.get_type_oid()));
    params.push(SqlValue::Integer(column_ordering));
    params.push(SqlValue::Text(column_style));
    params.push(SqlValue::flag(is_nullable));
    params.push(SqlValue::flag(is_unique));
    params.push(SqlValue::flag(is_primary_key));
    let r = Statement::with_params(
        String::from_str(
            "INSERT INTO METADATA_TABLE_COLUMN (OID, TABLE_OID, NAME, TYPE_OID, COLUMN_ORDERING, COLUMN_CSS_STYLE, IS_NULLABLE, IS_UNIQUE, IS_PRIMARY_KEY) VALUES ((SELECT MAX(OID) + 1 FROM (SELECT MAX(OID) AS OID FROM METADATA_TYPE UNION ALL SELECT MAX(OID) AS OID FROM METADATA_TABLE_COLUMN)), ?1, ?2, ?3, ?4, ?5, ?6, ?7, ?8);",
        ),
        params,
    );
    assert(r@.params =~= column_row_model(
        table_oid as int,
        column_name@,
        crate::column_type::type_oid_of(column_type),
        column_ordering as int,
        column_style@,
        is_nullable,
        is_unique,
        is_primary_key,
    ).params);
    r
}

/// The statement that adds the physical column of the new column
/// `column_oid`, or nothing where its type keeps its data in a relation of
/// its own.
pub fn create_physical(table_oid: i64, column_oid: i64, column_type: MetadataColumnType) -> (r:
    Option<Statement>)
    ensures
        r is Some == has_physical_column(column_type),
        r matches Some(s) ==> s@ == add_column_model(
            table_oid as int,
            column_oid as int,
            column_type,
        ),
{
    if physical(column_type) {
        Some(add_column(table_oid, column_oid, column_type))
    } else {
        None
    }
}

/// The statement that flags a column as trash.
pub fn move_trash(column_oid: i64) -> (r: Statement)
    ensures
        r@ == trash_column_model(column_oid as int, 1),
{
    Statement::with2(
        String::from_str("UPDATE METADATA_TABLE_COLUMN SET TRASH = ?1 WHERE OID = ?2;"),
        SqlValue::Integer(1),
        SqlValue::Integer(column_oid),
    )
}

/// The statement that clears the trash flag of a column.
pub fn unmove_trash(column_oid: i64) -> (r: Statement)
    ensures
        r@ == trash_column_model(column_oid as int, 0),
{
    Statement::with2(
        String::from_str("UPDATE METADATA_TABLE_COLUMN SET TRASH = ?1 WHERE OID = ?2;"),
        SqlValue::Integer(0),
        SqlValue::Integer(column_oid),
    )
}

fn extend(plan: &mut Vec<Statement>, more: Vec<Statement>)
    ensures
        plan_model(final(plan)@) == plan_model(old(plan)@) + plan_model(more@),
{
    let ghost all = more@;
    let mut more = more;
    plan.append(&mut more);
    assert(plan_model(plan@) =~= plan_model(old(plan)@) + plan_model(all));
}

/// The statements that delete the column `column_oid` of table `table_oid`
/// for good. With a multi-select, the link relation and the values relation
/// go too.
pub fn delete(table_oid: i64, column_oid: i64, column_type: MetadataColumnType) -> (r: Vec<
    Statement,
>)
    ensures
        plan_model(r@) == delete_column_plan(table_oid as int, column_oid as int, column_type),
{
    let mut plan: Vec<Statement> = Vec::new();
    if physical(column_type) {
        plan.push(drop_column(table_oid, column_oid));
    }
    let row: Statement = delete_column_row(column_oid);
    proof {
        lemma_plan_push(plan@, row);
    }
    plan.push(row);
    assert(plan_model(plan@) =~= (if has_physical_column(column_type) {
        seq![drop_column_model(table_oid as int, column_oid as int)]
    } else {
        Seq::empty()
    }).push(delete_column_row_model(column_oid as int)));
    extend(&mut plan, column_type.delete_for_table());
    plan
}

// ---------------------------------------------------------------------------
// Editing a column.

/// Name of the relation that carries the values of a column over a change
/// of its type; `clone` is the id of the clone that keeps the prior metadata.
pub open spec fn staging_name_text(clone: int) -> Seq<char> {
    "TRANS_COLUMN"@ + int_text(clone)
}

/// Copies the values of column `c` of table `t` into the staging relation.
pub open spec fn stage_model(t: int, c: int, clone: int) -> StatementModel {
    stmt(
        "CREATE TABLE "@ + staging_name_text(clone) + " AS SELECT OID, "@ + column_name_text(c)
            + " AS VALUE FROM "@ + table_name_text(t) + ";"@,
        Seq::empty(),
    )
}

/// Copies the staged values back into column `c`, cast to the storage class
/// of `ty`; a row whose value does not fit keeps the default.
pub open spec fn carry_over_model(t: int, c: int, clone: int, ty: MetadataColumnType) -> StatementModel {
    stmt(
        "UPDATE OR IGNORE "@ + table_name_text(t) + " AS t SET "@ + column_name_text(c)
            + " = CAST(trans.VALUE AS "@ + carried_type_text(ty) + ") FROM "@ + staging_name_text(
            clone,
        ) + " AS trans WHERE t.OID = trans.OID;"@,
        Seq::empty(),
    )
}

/// Records `type_oid` as the type of column `c`.
pub open spec fn retype_model(c: int, type_oid: int) -> StatementModel {
    stmt(
        "UPDATE METADATA_TABLE_COLUMN SET TYPE_OID = ?1 WHERE OID = ?2;"@,
        seq![Param::Integer(type_oid), Param::Integer(c)],
    )
}

/// Keeps the metadata of column `c` in a clone that is trash; the row id
/// that the store gives the clone is what an undo needs.
pub open spec fn snapshot_model(c: int) -> StatementModel {
    stmt(
        "INSERT INTO METADATA_TABLE_COLUMN (TRASH, TABLE_OID, NAME, TYPE_OID, COLUMN_CSS_STYLE, COLUMN_ORDERING, IS_NULLABLE, IS_UNIQUE, IS_PRIMARY_KEY, DEFAULT_VALUE) SELECT 1 AS TRASH, TABLE_OID, NAME, TYPE_OID, COLUMN_CSS_STYLE, COLUMN_ORDERING, IS_NULLABLE, IS_UNIQUE, IS_PRIMARY_KEY, DEFAULT_VALUE FROM METADATA_TABLE_COLUMN WHERE OID = ?1;"@,
        seq![Param::Integer(c)],
    )
}

/// Writes the new metadata of column `c`.
pub open spec fn update_metadata_model(
    c: int,
    name: Seq<char>,
    type_oid: int,
    style: Seq<char>,
    is_nullable: bool,
    is_unique: bool,
    is_primary_key: bool,
) -> StatementModel {
    stmt(
        "UPDATE METADATA_TABLE_COLUMN SET NAME = ?1, TYPE_OID = ?2, COLUMN_CSS_STYLE = ?3, IS_NULLABLE = ?4, IS_UNIQUE = ?5, IS_PRIMARY_KEY = ?6 WHERE OID = ?7;"@,
        seq![
            Param::Text(name),
            Param::Integer(type_oid),
            Param::Text(style),
            flag_param(is_nullable),
            flag_param(is_unique),
            flag_param(is_primary_key),
            Param::Integer(c),
        ],
    )
}

/// The statements that take down what column `c` had under its prior type,
/// when its type changes: its values are staged and its physical column is
/// dropped where it has one, and what the prior type owns is demolished.
pub open spec fn demolition_plan(
    t: int,
    c: int,
    clone: int,
    prior: MetadataColumnType,
    new: MetadataColumnType,
) -> Seq<StatementModel> {
    if prior == new {
        Seq::empty()
    } else {
        (if has_physical_column(prior) {
            seq![stage_model(t, c, clone), drop_column_model(t, c)]
        } else {
            Seq::empty()
        }) + delete_plan(prior)
    }
}

/// The statements that set up column `c` under its new type, when its type
/// changes: the relations of the new type, recorded under the fresh type id
/// `new_oid`; the type of the column, unless it is a primitive; the physical
/// column; and, where values were staged, their carry-over into the new
/// physical column and the end of the staging relation.
pub open spec fn construction_plan(
    t: int,
    c: int,
    clone: int,
    prior: MetadataColumnType,
    new: MetadataColumnType,
    new_oid: i64,
) -> Seq<StatementModel> {
    let ty = materialized_type(new, new_oid);
    if prior == new {
        Seq::empty()
    } else {
        create_plan(new, new_oid as int, t) + (if ty is Primitive {
            Seq::empty()
        } else {
            seq![retype_model(c, type_oid_of(ty))]
        }) + (if has_physical_column(ty) {
            seq![add_column_model(t, c, ty)]
        } else {
            Seq::empty()
        }) + (if has_physical_column(prior) {
            (if has_physical_column(ty) {
                seq![carry_over_model(t, c, clone, ty)]
            } else {
                Seq::empty()
            }).push(drop_table_model(staging_name_text(clone)))
        } else {
            Seq::empty()
        })
    }
}

fn staging_name(clone_oid: i64) -> (r: String)
    ensures
        r@ == staging_name_text(clone_oid as int),
{
    let mut buf: String = String::from_str("TRANS_COLUMN");
    push_int(&mut buf, clone_oid);
    buf
}

fn carried_type(t: MetadataColumnType) -> (r: &'static str)
    ensures
        r@ == carried_type_text(t),
{
    match t {
        MetadataColumnType::Primitive(p) => p.get_sqlite_type(),
        _ => "INTEGER",
    }
}

/// The statement that keeps the prior metadata of a column in a clone.
pub fn snapshot(column_oid: i64) -> (r: Statement)
    ensures
        r@ == snapshot_model(column_oid as int),
{
    Statement::with1(
        String::from_str(
            "INSERT INTO METADATA_TABLE_COLUMN (TRASH, TABLE_OID, NAME, TYPE_OID, COLUMN_CSS_STYLE, COLUMN_ORDERING, IS_NULLABLE, IS_UNIQUE, IS_PRIMARY_KEY, DEFAULT_VALUE) SELECT 1 AS TRASH, TABLE_OID, NAME, TYPE_OID, COLUMN_CSS_STYLE, COLUMN_ORDERING, IS_NULLABLE, IS_UNIQUE, IS_PRIMARY_KEY, DEFAULT_VALUE FROM METADATA_TABLE_COLUMN WHERE OID = ?1;",
        ),
        SqlValue::Integer(column_oid),
    )
}

/// The statement that reads the type id and mode of a column and the table
/// that owns it.
pub fn column_type_query(column_oid: i64) -> (r: Statement)
    ensures
        r@ == stmt(
            "SELECT c.TYPE_OID, t.MODE, c.TABLE_OID FROM METADATA_TABLE_COLUMN c INNER JOIN METADATA_TYPE t ON t.OID = c.TYPE_OID WHERE c.OID = ?1;"@,
            seq![Param::Integer(column_oid as int)],
        ),
{
    Statement::with1(
        String::from_str(
            "SELECT c.TYPE_OID, t.MODE, c.TABLE_OID FROM METADATA_TABLE_COLUMN c INNER JOIN METADATA_TYPE t ON t.OID = c.TYPE_OID WHERE c.OID = ?1;",
        ),
        SqlValue::Integer(column_oid),
    )
}

/// The statement that writes the new metadata of a column.
pub fn update_metadata(
    column_oid: i64,
    column_name: String,
    column_type: MetadataColumnType,
    column_style: String,
    is_nullable: bool,
    is_unique: bool,
    is_primary_key: bool,
) -> (r: Statement)
    ensures
        r@ == update_metadata_model(
            column_oid as int,
            column_name@,
            type_oid_of(column_type),
            column_style@,
            is_nullable,
            is_unique,
            is_primary_key,
        ),
{
    let mut params: Vec<SqlValue> = Vec::new();
    params.push(SqlValue::Text(column_name));
    params.push(SqlValue::Integer(column_type.get_type_oid()));
    params.push(SqlValue::Text(column_style));
    params.push(SqlValue::flag(is_nullable));
    params.push(SqlValue::flag(is_unique));
    params.push(SqlValue::flag(is_primary_key));
    params.push(SqlValue::Integer(column_oid));
    let r = Statement::with_params(
        String::from_str(
            "UPDATE METADATA_TABLE_COLUMN SET NAME = ?1, TYPE_OID = ?2, COLUMN_CSS_STYLE = ?3, IS_NULLABLE = ?4, IS_UNIQUE = ?5, IS_PRIMARY_KEY = ?6 WHERE OID = ?7;",
        ),
        params,
    );
    assert(r@.params =~= update_metadata_model(
        column_oid as int,
        column_name@,
        type_oid_of(column_type),
        column_style@,
        is_nullable,
        is_unique,
        is_primary_key,
    ).params);
    r
}

/// The statement that records the new type of a column whose type changes
/// to one that owns relations of its own; nothing where the type stays or
/// owns nothing. It runs between the two halves of the change.
pub fn edit_type_row(prior_type: MetadataColumnType, column_type: MetadataColumnType) -> (r: Option<
    Statement,
>)
    ensures
        r is Some == (prior_type != column_type && is_adhoc(column_type)),
        r matches Some(s) ==> s@ == crate::column_type::type_row_model(
            crate::column_type::type_mode_of(column_type),
        ),
{
    if prior_type == column_type {
        None
    } else {
        column_type.type_row()
    }
}

/// The first half of a change of type: the statements that take down what
/// the column had under `prior_type`. Without a change of type there is
/// nothing to do.
pub fn edit(
    table_oid: i64,
    column_oid: i64,
    clone_oid: i64,
    prior_type: MetadataColumnType,
    column_type: MetadataColumnType,
) -> (r: Vec<Statement>)
    ensures
        plan_model(r@) == demolition_plan(
            table_oid as int,
            column_oid as int,
            clone_oid as int,
            prior_type,
            column_type,
        ),
{
    let mut plan: Vec<Statement> = Vec::new();
    if prior_type == column_type {
        assert(plan_model(plan@) =~= Seq::empty());
        return plan;
    }
    if physical(prior_type) {
        let mut sql: String = wrap2(
            "CREATE TABLE ",
            &staging_name(clone_oid),
            " AS SELECT OID, ",
            &column_name(column_oid),
            " AS VALUE FROM ",
        );
        push_text(&mut sql, &table_name(table_oid));
        sql.append(";");
        plan.push(Statement::plain(sql));
        plan.push(drop_column(table_oid, column_oid));
    }
    assert(plan_model(plan@) =~= (if has_physical_column(prior_type) {
        seq![
            stage_model(table_oid as int, column_oid as int, clone_oid as int),
            drop_column_model(table_oid as int, column_oid as int),
        ]
    } else {
        Seq::empty()
    }));
    extend(&mut plan, prior_type.delete_for_table());
    plan
}

/// The second half of a change of type: the statements that set the column
/// up under `column_type`, recorded under the fresh type id `new_type_oid`
/// where it is ad hoc, and carry its staged values over.
pub fn edit_construction(
    table_oid: i64,
    column_oid: i64,
    clone_oid: i64,
    prior_type: MetadataColumnType,
    column_type: MetadataColumnType,
    new_type_oid: i64,
) -> (r: Vec<Statement>)
    ensures
        plan_model(r@) == construction_plan(
            table_oid as int,
            column_oid as int,
            clone_oid as int,
            prior_type,
            column_type,
            new_type_oid,
        ),
{
    if prior_type == column_type {
        let plan: Vec<Statement> = Vec::new();
        assert(plan_model(plan@) =~= Seq::empty());
        return plan;
    }
    let (ty, mut plan) = column_type.create_for_table(new_type_oid, table_oid);
    let mut tail: Vec<Statement> = Vec::new();
    match ty {
        MetadataColumnType::Primitive(_) => {},
        _ => {
            tail.push(
                Statement::with2(
                    String::from_str("UPDATE METADATA_TABLE_COLUMN SET TYPE_OID = ?1 WHERE OID = ?2;"),
                    SqlValue::Integer(ty.get_type_oid()),
                    SqlValue::Integer(column_oid),
                ),
            );
        },
    }
    let ghost retype = plan_model(tail@);
    assert(retype =~= (if ty is Primitive {
        Seq::<StatementModel>::empty()
    } else {
        seq![retype_model(column_oid as int, type_oid_of(ty))]
    }));
    if physical(ty) {
        let s: Statement = add_column(table_oid, column_oid, ty);
        proof {
            lemma_plan_push(tail@, s);
        }
        tail.push(s);
    }
    let ghost added = plan_model(tail@);
    if physical(prior_type) {
        if physical(ty) {
            let mut sql: String = wrap2(
                "UPDATE OR IGNORE ",
                &table_name(table_oid),
                " AS t SET ",
                &column_name(column_oid),
                " = CAST(trans.VALUE AS ",
            );
            sql.append(carried_type(ty));
            sql.append(") FROM ");
            push_text(&mut sql, &staging_name(clone_oid));
            sql.append(" AS trans WHERE t.OID = trans.OID;");
            let s: Statement = Statement::plain(sql);
            proof {
                lemma_plan_push(tail@, s);
            }
            tail.push(s);
        }
        let s: Statement = drop_table(&staging_name(clone_oid));
        proof {
            lemma_plan_push(tail@, s);
        }
        tail.push(s);
    }
    extend(&mut plan, tail);
    assert(plan_model(plan@) =~= construction_plan(
        table_oid as int,
        column_oid as int,
        clone_oid as int,
        prior_type,
        column_type,
        new_type_oid,
    ));
    plan
}

/// A column that referenced rows and becomes a text column keeps the ids of
/// the rows as text: its values are staged before its physical column is
/// dropped, and carried over with a cast to text.
pub proof fn lemma_reference_to_text_carries_over(t: int, c: int, clone: int, target: i64, new_oid: i64)
    ensures
        demolition_plan(
            t,
            c,
            clone,
            MetadataColumnType::Reference(target),
            MetadataColumnType::Primitive(Primitive::Text),
        ) =~= seq![stage_model(t, c, clone), drop_column_model(t, c)],
        construction_plan(
            t,
            c,
            clone,
            MetadataColumnType::Reference(target),
            MetadataColumnType::Primitive(Primitive::Text),
            new_oid,
        ) =~= seq![
            add_column_model(t, c, MetadataColumnType::Primitive(Primitive::Text)),
            carry_over_model(t, c, clone, MetadataColumnType::Primitive(Primitive::Text)),
            drop_table_model(staging_name_text(clone)),
        ],
        carried_type_text(MetadataColumnType::Primitive(Primitive::Text)) == "TEXT"@,
{
}

// ---------------------------------------------------------------------------
// Reading columns.

/// The column that a row of the meta-schema describes.
pub fn metadata_from_row(
    oid: i64,
    name: String,
    column_ordering: i64,
    column_style: String,
    type_oid: i64,
    type_mode: i64,
    is_nullable: bool,
    is_unique: bool,
    is_primary_key: bool,
) -> (r: Metadata)
    ensures
        r == (Metadata {
            oid,
            name,
            column_ordering,
            column_style,
            column_type: crate::column_type::column_type_of(type_oid, type_mode),
            is_nullable,
            is_unique,
            is_primary_key,
        }),
{
    Metadata {
        oid,
        name,
        column_ordering,
        column_style,
        column_type: MetadataColumnType::from_database(type_oid, type_mode),
        is_nullable,
        is_unique,
        is_primary_key,
    }
}

/// The statement that reads the metadata of the column `column_oid`.
pub fn get_metadata(column_oid: i64) -> (r: Statement)
    ensures
        r@ == stmt(
            "SELECT c.OID, c.NAME, c.COLUMN_ORDERING, c.COLUMN_CSS_STYLE, c.TYPE_OID, t.MODE, c.IS_NULLABLE, c.IS_UNIQUE, c.IS_PRIMARY_KEY FROM METADATA_TABLE_COLUMN c INNER JOIN METADATA_TYPE t ON t.OID = c.TYPE_OID WHERE c.OID = ?1;"@,
            seq![Param::Integer(column_oid as int)],
        ),
{
    Statement::with1(
        String::from_str(
            "SELECT c.OID, c.NAME, c.COLUMN_ORDERING, c.COLUMN_CSS_STYLE, c.TYPE_OID, t.MODE, c.IS_NULLABLE, c.IS_UNIQUE, c.IS_PRIMARY_KEY FROM METADATA_TABLE_COLUMN c INNER JOIN METADATA_TYPE t ON t.OID = c.TYPE_OID WHERE c.OID = ?1;",
        ),
        SqlValue::Integer(column_oid),
    )
}

/// The statement that lists the columns of table `table_oid` that are not
/// trash, in their order.
pub fn send_metadata_list(table_oid: i64) -> (r: Statement)
    ensures
        r@ == stmt(
            "SELECT c.OID, c.NAME, c.COLUMN_ORDERING, c.COLUMN_CSS_STYLE, c.TYPE_OID, t.MODE, c.IS_NULLABLE, c.IS_UNIQUE, c.IS_PRIMARY_KEY FROM METADATA_TABLE_COLUMN c INNER JOIN METADATA_TYPE t ON t.OID = c.TYPE_OID WHERE c.TABLE_OID = ?1 AND c.TRASH = 0 ORDER BY c.COLUMN_ORDERING ASC;"@,
            seq![Param::Integer(table_oid as int)],
        ),
{
    Statement::with1(
        String::from_str(
            "SELECT c.OID, c.NAME, c.COLUMN_ORDERING, c.COLUMN_CSS_STYLE, c.TYPE_OID, t.MODE, c.IS_NULLABLE, c.IS_UNIQUE, c.IS_PRIMARY_KEY FROM METADATA_TABLE_COLUMN c INNER JOIN METADATA_TYPE t ON t.OID = c.TYPE_OID WHERE c.TABLE_OID = ?1 AND c.TRASH = 0 ORDER BY c.COLUMN_ORDERING ASC;",
        ),
        SqlValue::Integer(table_oid),
    )
}

/// The statement that lists the tables whose type has the mode of
/// `column_type`, by name.
pub fn send_type_metadata_list(column_type: MetadataColumnType) -> (r: Statement)
    ensures
        r@ == stmt(
            "SELECT tbl.TYPE_OID, tbl.NAME FROM METADATA_TABLE tbl INNER JOIN METADATA_TYPE typ ON typ.OID = tbl.TYPE_OID WHERE typ.MODE = ?1 ORDER BY tbl.NAME;"@,
            seq![Param::Integer(crate::column_type::type_mode_of(column_type))],
        ),
{
    Statement::with1(
        String::from_str(
            "SELECT tbl.TYPE_OID, tbl.NAME FROM METADATA_TABLE tbl INNER JOIN METADATA_TYPE typ ON typ.OID = tbl.TYPE_OID WHERE typ.MODE = ?1 ORDER BY tbl.NAME;",
        ),
        SqlValue::Integer(column_type.get_type_mode()),
    )
}

// ---------------------------------------------------------------------------
// Dropdown values.

/// The view of an optional text.
pub open spec fn shown(v: Option<String>) -> Option<Seq<char>> {
    match v {
        Some(s) => Some(s@),
        None => None,
    }
}

/// Flags every value of the dropdown type `t` as trash.
pub open spec fn trash_values_model(t: int) -> StatementModel {
    stmt("UPDATE "@ + table_name_text(t) + " SET TRASH = 1;"@, Seq::empty())
}

/// Keeps one value of the dropdown type `t`: the value `existing` comes back
/// from the trash under its id, with the text `display`; without `existing`
/// a new value is added.
pub open spec fn dropdown_value_model(t: int, existing: Option<i64>, display: Option<Seq<char>>) -> StatementModel {
    match existing {
        Some(oid) => stmt(
            "UPDATE "@ + table_name_text(t) + " SET TRASH = 0, VALUE = ?1 WHERE OID = ?2;"@,
            seq![text_param(display), Param::Integer(oid as int)],
        ),
        None => stmt(
            "INSERT INTO "@ + table_name_text(t) + " (VALUE) VALUES (?1);"@,
            seq![text_param(display)],
        ),
    }
}

/// The statements that set the values of the dropdown type `t` to the first
/// `k` of `values`; `None` where the stored value of one of them spells no
/// integer.
pub open spec fn dropdown_plan(t: int, values: Seq<DropdownValue>, k: int) -> Option<
    Seq<StatementModel>,
>
    decreases k,
{
    if k <= 0 {
        Some(seq![trash_values_model(t)])
    } else {
        match dropdown_plan(t, values, k - 1) {
            None => None,
            Some(plan) => match values[k - 1].true_value {
                None => Some(
                    plan.push(dropdown_value_model(t, None, shown(values[k - 1].display_value))),
                ),
                Some(text) => match int_of_text(text@) {
                    Some(oid) => Some(
                        plan.push(
                            dropdown_value_model(t, Some(oid), shown(values[k - 1].display_value)),
                        ),
                    ),
                    None => None,
                },
            },
        }
    }
}

proof fn lemma_dropdown_plan_stays_none(t: int, values: Seq<DropdownValue>, k: int)
    requires
        0 <= k <= values.len(),
        dropdown_plan(t, values, k) is None,
    ensures
        dropdown_plan(t, values, values.len() as int) is None,
    decreases values.len() - k,
{
    if k < values.len() {
        assert(dropdown_plan(t, values, k + 1) is None);
        lemma_dropdown_plan_stays_none(t, values, k + 1);
    }
}

/// The statement that keeps one value of the dropdown type `type_oid`.
pub fn dropdown_value_statement(type_oid: i64, existing: Option<i64>, display_value: &Option<String>) -> (r:
    Statement)
    ensures
        r@ == dropdown_value_model(type_oid as int, existing, shown(*display_value)),
{
    let t: String = table_name(type_oid);
    match existing {
        Some(oid) => Statement::with2(
            wrap("UPDATE ", &t, " SET TRASH = 0, VALUE = ?1 WHERE OID = ?2;"),
            SqlValue::optional_text(display_value),
            SqlValue::Integer(oid),
        ),
        None => Statement::with1(
            wrap("INSERT INTO ", &t, " (VALUE) VALUES (?1);"),
            SqlValue::optional_text(display_value),
        ),
    }
}

/// The statements that set the values of the dropdown column of type
/// `column_type` to `dropdown_values`, in their order: every value goes to
/// the trash, then each value given comes back or is added. A column that is
/// no dropdown needs no statement. A stored value that is no integer is
/// refused, and nothing is to be run.
pub fn set_table_column_dropdown_values(
    column_type: MetadataColumnType,
    dropdown_values: &Vec<DropdownValue>,
) -> (r: Result<Vec<Statement>, Error>)
    ensures
        !(column_type is SingleSelectDropdown || column_type is MultiSelectDropdown) ==> r is Ok
            && r->Ok_0@.len() == 0,
        column_type is SingleSelectDropdown || column_type is MultiSelectDropdown ==> match dropdown_plan(
            type_target(column_type),
            dropdown_values@,
            dropdown_values.len() as int,
        ) {
            Some(plan) => r is Ok && plan_model(r->Ok_0@) == plan,
            None => r == Err::<Vec<Statement>, Error>(
                Error::AdHoc("Unable to parse dropdown value OID as integer."),
            ),
        },
{
    let mut plan: Vec<Statement> = Vec::new();
    let type_oid: i64 = match column_type {
        MetadataColumnType::SingleSelectDropdown(v) => v,
        MetadataColumnType::MultiSelectDropdown(v) => v,
        _ => {
            return Ok(plan);
        },
    };
    plan.push(Statement::plain(wrap("UPDATE ", &table_name(type_oid), " SET TRASH = 1;")));
    assert(plan_model(plan@) =~= seq![trash_values_model(type_oid as int)]);
    let mut i: usize = 0;
    while i < dropdown_values.len()
        invariant
            i <= dropdown_values.len(),
            type_oid == type_target(column_type),
            column_type is SingleSelectDropdown || column_type is MultiSelectDropdown,
            dropdown_plan(type_oid as int, dropdown_values@, i as int) == Some(plan_model(plan@)),
        decreases dropdown_values.len() - i,
    {
        let existing: Option<i64> = match &dropdown_values[i].true_value {
            Some(text) => match parse_int(text.as_str()) {
                Some(oid) => Some(oid),
                None => {
                    proof {
                        lemma_dropdown_plan_stays_none(
                            type_oid as int,
                            dropdown_values@,
                            i as int + 1,
                        );
                    }
                    return Err(Error::AdHoc("Unable to parse dropdown value OID as integer."));
                },
            },
            None => None,
        };
        let s: Statement = dropdown_value_statement(
            type_oid,
            existing,
            &dropdown_values[i].display_value,
        );
        proof {
            lemma_plan_push(plan@, s);
        }
        plan.push(s);
        i = i + 1;
    }
    Ok(plan)
}

/// The statement that lists the values that a column of type `column_type`
/// offers, each with its id as text and the text that is shown: the values
/// of a dropdown that are not trash, the rows of a referenced table. Other
/// columns offer none.
pub fn get_table_column_dropdown_values(column_type: MetadataColumnType) -> (r: Option<Statement>)
    ensures
        match column_type {
            MetadataColumnType::SingleSelectDropdown(v) => r is Some && r->Some_0@ == stmt(
                "SELECT CAST(OID AS TEXT) AS OID, VALUE AS DISPLAY_VALUE FROM "@ + table_name_text(
                    v as int,
                ) + " WHERE TRASH = 0 ORDER BY OID;"@,
                Seq::empty(),
            ),
            MetadataColumnType::MultiSelectDropdown(v) => r is Some && r->Some_0@ == stmt(
                "SELECT CAST(OID AS TEXT) AS OID, VALUE AS DISPLAY_VALUE FROM "@ + table_name_text(
                    v as int,
                ) + " WHERE TRASH = 0 ORDER BY OID;"@,
                Seq::empty(),
            ),
            MetadataColumnType::Reference(v) => r is Some && r->Some_0@ == stmt(
                "SELECT CAST(OID AS TEXT) AS OID, DISPLAY_VALUE FROM "@ + surrogate_name_text(
                    v as int,
                ) + ";"@,
                Seq::empty(),
            ),
            _ => r is None,
        },
{
    match column_type {
        MetadataColumnType::SingleSelectDropdown(v) => Some(
            Statement::plain(
                wrap(
                    "SELECT CAST(OID AS TEXT) AS OID, VALUE AS DISPLAY_VALUE FROM ",
                    &table_name(v),
                    " WHERE TRASH = 0 ORDER BY OID;",
                ),
            ),
        ),
        MetadataColumnType::MultiSelectDropdown(v) => Some(
            Statement::plain(
                wrap(
                    "SELECT CAST(OID AS TEXT) AS OID, VALUE AS DISPLAY_VALUE FROM ",
                    &table_name(v),
                    " WHERE TRASH = 0 ORDER BY OID;",
                ),
            ),
        ),
        MetadataColumnType::Reference(v) => Some(
            Statement::plain(
                wrap("SELECT CAST(OID AS TEXT) AS OID, DISPLAY_VALUE FROM ", &surrogate_name(v), ";"),
            ),
        ),
        _ => None,
    }
}

/// Deleting a multi-select column drops its link relation and its values
/// relation and removes its type, whatever the column.
pub proof fn lemma_multi_select_delete_drops_relations(t: int, c: int, values: i64)
    ensures
        delete_column_plan(t, c, MetadataColumnType::MultiSelectDropdown(values)) =~= seq![
            delete_column_row_model(c),
            drop_table_model(crate::column_type::multiselect_name_text(values as int)),
            drop_table_model(table_name_text(values as int)),
            delete_type_row_model(values as int),
        ],
{
}

} // verus!
