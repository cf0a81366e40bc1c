//! The query that reads the rows of a table for display: for each column
//! that is not trash a display expression and, where the column is edited by
//! id, the expression of the stored value.

use std::collections::HashSet;
use vstd::prelude::*;
use crate::column_type::{
    multiselect_name, multiselect_name_text, MetadataColumnType, Primitive,
};
use crate::sql::{stmt, Param, SqlValue, Statement, StatementModel};
use crate::table::{alias, alias_text, join_clause, join_text, joins_relation, uses_alias};
use crate::text::{
    column_name, column_name_text, int_text, push_int, push_text, surrogate_name,
    surrogate_name_text, table_name, table_name_text, wrap, wrap2,
};

verus! {

/// A column as the meta-schema lists it for the reading of data.
#[derive(Clone, Debug, PartialEq, Eq)]
pub struct DataColumn {
    pub oid: i64,
    /// The table that owns the column: the table that is read, or a master.
    pub table_oid: i64,
    pub name: String,
    pub column_type: MetadataColumnType,
    pub is_nullable: bool,
    pub is_unique: bool,
    pub is_primary_key: bool,
}

/// A master table from which the table that is read inherits, and the table
/// that holds the reference to it.
#[derive(Clone, Copy, Debug, PartialEq, Eq, Structural)]
pub struct MasterJoin {
    pub master_oid: i64,
    pub inheritor_oid: i64,
}

/// Which rows the query reads.
#[derive(Clone, Copy, Debug, PartialEq, Eq, Structural)]
pub enum QueryRows {
    /// The row whose id is bound to `?1`.
    Row,
    /// The rows of the parent bound to `?1`; `?2` rows from row `?3` on.
    ChildPage,
    /// `?1` rows from row `?2` on.
    Page,
}

/// A column by whose display value the rows are ordered.
#[derive(Clone, Copy, Debug, PartialEq, Eq, Structural)]
pub struct SortKey {
    pub column_oid: i64,
    pub ascending: bool,
}

/// A column of the result, with the names under which its values are read.
#[derive(Debug, PartialEq, Eq)]
pub struct Column {
    /// The name of the stored value, where the column has one to edit.
    pub true_ord: Option<String>,
    /// The name of the display value.
    pub display_ord: String,
    /// The table that owns the column.
    pub table_oid: i64,
    /// The name of the id of the row within the owning table.
    pub row_ord: String,
    pub column_oid: i64,
    pub column_name: String,
    pub column_type: MetadataColumnType,
    pub is_nullable: bool,
    pub is_unique: bool,
    pub is_primary_key: bool,
    /// The rows whose value another row shares; filled by the caller from
    /// the answer to [`nonunique_query`].
    pub invalid_nonunique_oid: HashSet<i64>,
}

/// The alias of the table `owner` in a query that reads table `t`.
pub open spec fn source_text(owner: int, t: int) -> Seq<char> {
    if owner == t {
        "t"@
    } else {
        "m"@ + int_text(owner)
    }
}

/// The expression that shows a column: `col` is its physical column, `alias`
/// the relation joined for it, `source` the alias of its table.
pub open spec fn display_expr(
    t: MetadataColumnType,
    col: Seq<char>,
    alias: Seq<char>,
    source: Seq<char>,
) -> Seq<char> {
    match t {
        MetadataColumnType::Primitive(Primitive::Date) => "DATE("@ + col + ", 'julianday')"@,
        MetadataColumnType::Primitive(Primitive::Timestamp) => "STRFTIME('%FT%TZ', "@ + col
            + ", 'julianday')"@,
        MetadataColumnType::Primitive(Primitive::File) => "CASE WHEN "@ + col
            + " IS NULL THEN NULL ELSE 'File' END"@,
        MetadataColumnType::Primitive(Primitive::Image) => "CASE WHEN "@ + col
            + " IS NULL THEN NULL ELSE 'Thumbnail' END"@,
        MetadataColumnType::Primitive(_) => "CAST("@ + col + " AS TEXT)"@,
        MetadataColumnType::SingleSelectDropdown(_) => alias + ".VALUE"@,
        MetadataColumnType::MultiSelectDropdown(v) => "(SELECT '[' || GROUP_CONCAT(b.VALUE) || ']' FROM "@
            + multiselect_name_text(v as int) + " a INNER JOIN "@ + table_name_text(v as int)
            + " b ON b.OID = a.VALUE_OID WHERE a.ROW_OID = "@ + source + ".OID GROUP BY a.ROW_OID)"@,
        MetadataColumnType::Reference(_) => "COALESCE("@ + alias
            + ".DISPLAY_VALUE, CASE WHEN "@ + col + " IS NOT NULL THEN '— DELETED —' ELSE NULL END)"@,
        MetadataColumnType::ChildObject(_) => "COALESCE("@ + alias
            + ".DISPLAY_VALUE, CASE WHEN "@ + col + " IS NOT NULL THEN '— DELETED —' ELSE NULL END)"@,
        MetadataColumnType::ChildTable(v) => "(SELECT '[' || GROUP_CONCAT(a.DISPLAY_VALUE) || ']' FROM "@
            + surrogate_name_text(v as int) + " a INNER JOIN "@ + table_name_text(v as int)
            + " b ON b.OID = a.OID WHERE b.PARENT_OID = "@ + source + ".OID GROUP BY b.PARENT_OID)"@,
    }
}

/// The expression of the stored value of a column that is edited by id: the
/// id, or the ids joined by commas; a primitive and a child table have none
/// apart from what is shown.
pub open spec fn true_expr(
    t: MetadataColumnType,
    col: Seq<char>,
    alias: Seq<char>,
    source: Seq<char>,
) -> Option<Seq<char>> {
    match t {
        MetadataColumnType::SingleSelectDropdown(_) => Some("CAST("@ + alias + ".OID AS TEXT)"@),
        MetadataColumnType::MultiSelectDropdown(v) => Some(
            "(SELECT GROUP_CONCAT(CAST(b.OID AS TEXT)) FROM "@ + multiselect_name_text(v as int)
                + " a INNER JOIN "@ + table_name_text(v as int)
                + " b ON b.OID = a.VALUE_OID WHERE a.ROW_OID = "@ + source
                + ".OID GROUP BY a.ROW_OID)"@,
        ),
        MetadataColumnType::Reference(_) => Some("CAST("@ + col + " AS TEXT)"@),
        MetadataColumnType::ChildObject(_) => Some("CAST("@ + col + " AS TEXT)"@),
        _ => None,
    }
}

/// What a column adds to the list of selected expressions.
pub open spec fn column_clause(
    t: MetadataColumnType,
    c: int,
    col: Seq<char>,
    alias: Seq<char>,
    source: Seq<char>,
) -> Seq<char> {
    ", "@ + display_expr(t, col, alias, source) + " AS "@ + column_name_text(c) + match true_expr(
        t,
        col,
        alias,
        source,
    ) {
        Some(x) => ", "@ + x + " AS _"@ + column_name_text(c),
        None => Seq::empty(),
    }
}

/// How many of the first `k` columns are shown through a joined relation.
pub open spec fn joined_before(cols: Seq<DataColumn>, k: int) -> nat
    decreases k,
{
    if k <= 0 {
        0
    } else {
        joined_before(cols, k - 1) + if uses_alias(cols[k - 1].column_type) {
            1nat
        } else {
            0nat
        }
    }
}

/// The physical column of column `k`, with the alias of its table.
pub open spec fn data_col(cols: Seq<DataColumn>, t: int, k: int) -> Seq<char> {
    source_text(cols[k].table_oid as int, t) + "."@ + column_name_text(cols[k].oid as int)
}

/// What the first `k` columns add to the list of selected expressions.
pub open spec fn select_text(cols: Seq<DataColumn>, t: int, k: int) -> Seq<char>
    decreases k,
{
    if k <= 0 {
        Seq::empty()
    } else {
        select_text(cols, t, k - 1) + column_clause(
            cols[k - 1].column_type,
            cols[k - 1].oid as int,
            data_col(cols, t, k - 1),
            alias_text(joined_before(cols, k - 1) + 1),
            source_text(cols[k - 1].table_oid as int, t),
        )
    }
}

/// The joins of the first `k` columns.
pub open spec fn column_joins_text(cols: Seq<DataColumn>, t: int, k: int) -> Seq<char>
    decreases k,
{
    if k <= 0 {
        Seq::empty()
    } else {
        column_joins_text(cols, t, k - 1) + join_text(
            cols[k - 1].column_type,
            data_col(cols, t, k - 1),
            alias_text(joined_before(cols, k - 1) + 1),
        )
    }
}

/// The ids of the rows of the first `k` masters, as selected expressions.
pub open spec fn master_oids_text(masters: Seq<MasterJoin>, k: int) -> Seq<char>
    decreases k,
{
    if k <= 0 {
        Seq::empty()
    } else {
        master_oids_text(masters, k - 1) + ", m"@ + int_text(masters[k - 1].master_oid as int)
            + ".OID AS m"@ + int_text(masters[k - 1].master_oid as int) + "_OID"@
    }
}

/// The joins of the first `k` masters.
pub open spec fn master_joins_text(masters: Seq<MasterJoin>, t: int, k: int) -> Seq<char>
    decreases k,
{
    if k <= 0 {
        Seq::empty()
    } else {
        master_joins_text(masters, t, k - 1) + " INNER JOIN "@ + table_name_text(
            masters[k - 1].master_oid as int,
        ) + " m"@ + int_text(masters[k - 1].master_oid as int) + " ON "@ + source_text(
            masters[k - 1].inheritor_oid as int,
            t,
        ) + ".MASTER"@ + int_text(masters[k - 1].master_oid as int) + "_OID = m"@ + int_text(
            masters[k - 1].master_oid as int,
        ) + ".OID"@
    }
}

/// The condition that chooses the rows.
pub open spec fn condition_text(rows: QueryRows) -> Seq<char> {
    match rows {
        QueryRows::Row => " AND t.OID = ?1"@,
        QueryRows::ChildPage => " AND t.PARENT_OID = ?1"@,
        QueryRows::Page => Seq::empty(),
    }
}

/// The limits of a page.
pub open spec fn limit_text(rows: QueryRows) -> Seq<char> {
    match rows {
        QueryRows::Row => Seq::empty(),
        QueryRows::ChildPage => " LIMIT ?2 OFFSET ?3"@,
        QueryRows::Page => " LIMIT ?1 OFFSET ?2"@,
    }
}

/// One sort key: the display value of the column, and the direction.
pub open spec fn sort_key_text(key: SortKey) -> Seq<char> {
    column_name_text(key.column_oid as int) + if key.ascending {
        " ASC"@
    } else {
        " DESC"@
    }
}

/// The first `k` sort keys, as an `ORDER BY` clause; nothing without keys.
pub open spec fn order_text(keys: Seq<SortKey>, k: int) -> Seq<char>
    decreases k,
{
    if k <= 0 {
        Seq::empty()
    } else if k == 1 {
        " ORDER BY "@ + sort_key_text(keys[0])
    } else {
        order_text(keys, k - 1) + ", "@ + sort_key_text(keys[k - 1])
    }
}

/// The query that reads table `t`.
pub open spec fn data_query_text(
    t: int,
    masters: Seq<MasterJoin>,
    cols: Seq<DataColumn>,
    keys: Seq<SortKey>,
    rows: QueryRows,
) -> Seq<char> {
    "SELECT ROW_NUMBER() OVER (ORDER BY t.OID) AS ROW_INDEX, t.OID AS t_OID"@ + master_oids_text(
        masters,
        masters.len() as int,
    ) + select_text(cols, t, cols.len() as int) + " FROM "@ + table_name_text(t) + " t"@
        + master_joins_text(masters, t, masters.len() as int) + column_joins_text(
        cols,
        t,
        cols.len() as int,
    ) + " WHERE t.TRASH = 0"@ + condition_text(rows) + order_text(keys, keys.len() as int)
        + limit_text(rows)
}

/// The name under which the stored value of a column of type `ty` is read.
pub open spec fn true_ord_text(ty: MetadataColumnType, c: int) -> Option<Seq<char>> {
    match ty {
        MetadataColumnType::Primitive(_) => Some(column_name_text(c)),
        MetadataColumnType::ChildTable(_) => None,
        _ => Some("_"@ + column_name_text(c)),
    }
}

/// Whether `r` is the column of the result that `d` gives in a query that
/// reads table `t`.
pub open spec fn describes(r: Column, d: DataColumn, t: int) -> bool {
    &&& match r.true_ord {
        Some(s) => true_ord_text(d.column_type, d.oid as int) == Some(s@),
        None => true_ord_text(d.column_type, d.oid as int) is None,
    }
    &&& r.display_ord@ == column_name_text(d.oid as int)
    &&& r.table_oid == d.table_oid
    &&& r.row_ord@ == source_text(d.table_oid as int, t) + "_OID"@
    &&& r.column_oid == d.oid
    &&& r.column_name == d.name
    &&& r.column_type == d.column_type
    &&& r.is_nullable == d.is_nullable
    &&& r.is_unique == d.is_unique
    &&& r.is_primary_key == d.is_primary_key
    &&& r.invalid_nonunique_oid@ == Set::<i64>::empty()
}

/// The statement that lists the rows of a unique column whose value another
/// row shares. The values of a multi-select are compared as the list of
/// their ids.
pub open spec fn nonunique_model(ty: MetadataColumnType, owner: int, c: int) -> StatementModel {
    match ty {
        MetadataColumnType::MultiSelectDropdown(v) => stmt(
            "WITH TABLE_SURROGATE AS (SELECT ROW_OID, GROUP_CONCAT(CAST(VALUE_OID AS TEXT)) AS VALUE_LIST FROM (SELECT ROW_OID, VALUE_OID FROM "@
                + multiselect_name_text(v as int)
                + " ORDER BY ROW_OID, VALUE_OID) GROUP BY ROW_OID) SELECT t.ROW_OID AS OID FROM TABLE_SURROGATE t INNER JOIN (SELECT VALUE_LIST, COUNT(ROW_OID) AS ROW_COUNT FROM TABLE_SURROGATE GROUP BY VALUE_LIST HAVING COUNT(ROW_OID) > 1) a ON a.VALUE_LIST = t.VALUE_LIST;"@,
            Seq::empty(),
        ),
        _ => stmt(
            "SELECT t.OID FROM "@ + table_name_text(owner) + " t INNER JOIN (SELECT "@
                + column_name_text(c) + ", COUNT(OID) AS ROW_COUNT FROM "@ + table_name_text(owner)
                + " GROUP BY "@ + column_name_text(c) + " HAVING COUNT(OID) > 1) a ON a."@
                + column_name_text(c) + " = t."@ + column_name_text(c) + ";"@,
            Seq::empty(),
        ),
    }
}

fn source(owner: i64, table_oid: i64) -> (r: String)
    ensures
        r@ == source_text(owner as int, table_oid as int),
{
    if owner == table_oid {
        String::from_str("t")
    } else {
        let mut buf: String = String::from_str("m");
        push_int(&mut buf, owner);
        buf
    }
}

fn display_expression(t: MetadataColumnType, col: &String, alias: &String, source: &String) -> (r:
    String)
    ensures
        r@ == display_expr(t, col@, alias@, source@),
{
    match t {
        MetadataColumnType::Primitive(Primitive::Date) => wrap("DATE(", col, ", 'julianday')"),
        MetadataColumnType::Primitive(Primitive::Timestamp) => wrap(
            "STRFTIME('%FT%TZ', ",
            col,
            ", 'julianday')",
        ),
        MetadataColumnType::Primitive(Primitive::File) => wrap(
            "CASE WHEN ",
            col,
            " IS NULL THEN NULL ELSE 'File' END",
        ),
        MetadataColumnType::Primitive(Primitive::Image) => wrap(
            "CASE WHEN ",
            col,
            " IS NULL THEN NULL ELSE 'Thumbnail' END",
        ),
        MetadataColumnType::Primitive(_) => wrap("CAST(", col, " AS TEXT)"),
        MetadataColumnType::SingleSelectDropdown(_) => {
            let mut buf: String = alias.clone();
            buf.append(".VALUE");
            buf
        },
        MetadataColumnType::MultiSelectDropdown(v) => {
            let mut buf: String = wrap2(
                "(SELECT '[' || GROUP_CONCAT(b.VALUE) || ']' FROM ",
                &multiselect_name(v),
                " a INNER JOIN ",
                &table_name(v),
                " b ON b.OID = a.VALUE_OID WHERE a.ROW_OID = ",
            );
            push_text(&mut buf, source);
            buf.append(".OID GROUP BY a.ROW_OID)");
            buf
        },
        MetadataColumnType::Reference(_) => wrap2(
            "COALESCE(",
            alias,
            ".DISPLAY_VALUE, CASE WHEN ",
            col,
            " IS NOT NULL THEN '— DELETED —' ELSE NULL END)",
        ),
        MetadataColumnType::ChildObject(_) => wrap2(
            "COALESCE(",
            alias,
            ".DISPLAY_VALUE, CASE WHEN ",
            col,
            " IS NOT NULL THEN '— DELETED —' ELSE NULL END)",
        ),
        MetadataColumnType::ChildTable(v) => {
            let mut buf: String = wrap2(
                "(SELECT '[' || GROUP_CONCAT(a.DISPLAY_VALUE) || ']' FROM ",
                &surrogate_name(v),
                " a INNER JOIN ",
                &table_name(v),
                " b ON b.OID = a.OID WHERE b.PARENT_OID = ",
            );
            push_text(&mut buf, source);
            buf.append(".OID GROUP BY b.PARENT_OID)");
            buf
        },
    }
}

fn true_expression(t: MetadataColumnType, col: &String, alias: &String, source: &String) -> (r:
    Option<String>)
    ensures
        match r {
            Some(s) => true_expr(t, col@, alias@, source@) == Some(s@),
            None => true_expr(t, col@, alias@, source@) is None,
        },
{
    match t {
        MetadataColumnType::SingleSelectDropdown(_) => Some(wrap("CAST(", alias, ".OID AS TEXT)")),
        MetadataColumnType::MultiSelectDropdown(v) => {
            let mut buf: String = wrap2(
                "(SELECT GROUP_CONCAT(CAST(b.OID AS TEXT)) FROM ",
                &multiselect_name(v),
                " a INNER JOIN ",
                &table_name(v),
                " b ON b.OID = a.VALUE_OID WHERE a.ROW_OID = ",
            );
            push_text(&mut buf, source);
            buf.append(".OID GROUP BY a.ROW_OID)");
            Some(buf)
        },
        MetadataColumnType::Reference(_) => Some(wrap("CAST(", col, " AS TEXT)")),
        MetadataColumnType::ChildObject(_) => Some(wrap("CAST(", col, " AS TEXT)")),
        _ => None,
    }
}

fn true_ord(ty: MetadataColumnType, column_oid: i64) -> (r: Option<String>)
    ensures
        match r {
            Some(s) => true_ord_text(ty, column_oid as int) == Some(s@),
            None => true_ord_text(ty, column_oid as int) is None,
        },
{
    match ty {
        MetadataColumnType::Primitive(_) => Some(column_name(column_oid)),
        MetadataColumnType::ChildTable(_) => None,
        _ => {
            let mut buf: String = String::from_str("_");
            push_text(&mut buf, &column_name(column_oid));
            Some(buf)
        },
    }
}

/// The statement that lists the rows of column `column_oid`, of type
/// `column_type` and owned by table `owner`, whose value another row shares.
pub fn nonunique_query(column_type: MetadataColumnType, owner: i64, column_oid: i64) -> (r:
    Statement)
    ensures
        r@ == nonunique_model(column_type, owner as int, column_oid as int),
{
    match column_type {
        MetadataColumnType::MultiSelectDropdown(v) => Statement::plain(
            wrap(
                "WITH TABLE_SURROGATE AS (SELECT ROW_OID, GROUP_CONCAT(CAST(VALUE_OID AS TEXT)) AS VALUE_LIST FROM (SELECT ROW_OID, VALUE_OID FROM ",
                &multiselect_name(v),
                " ORDER BY ROW_OID, VALUE_OID) GROUP BY ROW_OID) SELECT t.ROW_OID AS OID FROM TABLE_SURROGATE t INNER JOIN (SELECT VALUE_LIST, COUNT(ROW_OID) AS ROW_COUNT FROM TABLE_SURROGATE GROUP BY VALUE_LIST HAVING COUNT(ROW_OID) > 1) a ON a.VALUE_LIST = t.VALUE_LIST;",
            ),
        ),
        _ => {
            let c: String = column_name(column_oid);
            let t: String = table_name(owner);
            let mut sql: String = wrap2(
                "SELECT t.OID FROM ",
                &t,
                " t INNER JOIN (SELECT ",
                &c,
                ", COUNT(OID) AS ROW_COUNT FROM ",
            );
            push_text(&mut sql, &t);
            sql.append(" GROUP BY ");
            push_text(&mut sql, &c);
            sql.append(" HAVING COUNT(OID) > 1) a ON a.");
            push_text(&mut sql, &c);
            sql.append(" = t.");
            push_text(&mut sql, &c);
            sql.append(";");
            Statement::plain(sql)
        },
    }
}

/// The statement that lists the sort keys of table `table_oid`, the first
/// key first.
pub fn sort_keys_query(table_oid: i64) -> (r: Statement)
    ensures
        r@ == stmt(
            "SELECT COLUMN_OID, SORT_ASCENDING FROM METADATA_TABLE_ORDERBY WHERE TABLE_OID = ?1 ORDER BY SORT_ORDERING;"@,
            seq![Param::Integer(table_oid as int)],
        ),
{
    Statement::with1(
        String::from_str(
            "SELECT COLUMN_OID, SORT_ASCENDING FROM METADATA_TABLE_ORDERBY WHERE TABLE_OID = ?1 ORDER BY SORT_ORDERING;",
        ),
        SqlValue::Integer(table_oid),
    )
}

/// Builds the query that reads table `table_oid` and describes the columns
/// of its result. `masters` lists the tables from which it inherits, in the
/// order in which they are joined; `columns` lists the columns that are not
/// trash, its own and the inherited ones, in their order; `sort_keys` lists
/// the columns by which the rows are ordered, which come by their id
/// without any.
pub fn construct_data_query(
    table_oid: i64,
    masters: &Vec<MasterJoin>,
    columns: &Vec<DataColumn>,
    sort_keys: &Vec<SortKey>,
    rows: QueryRows,
) -> (r: (String, Vec<Column>))
    ensures
        r.0@ == data_query_text(table_oid as int, masters@, columns@, sort_keys@, rows),
        r.1@.len() == columns@.len(),
        forall|k: int|
            0 <= k < columns@.len() ==> describes(#[trigger] r.1@[k], columns@[k], table_oid as int),
{
    let mut oids: String = String::new();
    let mut master_joins: String = String::new();
    let mut m: usize = 0;
    while m < masters.len()
        invariant
            m <= masters.len(),
            oids@ == master_oids_text(masters@, m as int),
            master_joins@ == master_joins_text(masters@, table_oid as int, m as int),
        decreases masters.len() - m,
    {
        let id: i64 = masters[m].master_oid;
        oids.append(", m");
        push_int(&mut oids, id);
        oids.append(".OID AS m");
        push_int(&mut oids, id);
        oids.append("_OID");
        master_joins.append(" INNER JOIN ");
        push_text(&mut master_joins, &table_name(id));
        master_joins.append(" m");
        push_int(&mut master_joins, id);
        master_joins.append(" ON ");
        push_text(&mut master_joins, &source(masters[m].inheritor_oid, table_oid));
        master_joins.append(".MASTER");
        push_int(&mut master_joins, id);
        master_joins.append("_OID = m");
        push_int(&mut master_joins, id);
        master_joins.append(".OID");
        m = m + 1;
    }
    let mut select: String = String::new();
    let mut joins: String = String::new();
    let mut described: Vec<Column> = Vec::new();
    let mut used: usize = 0;
    let mut i: usize = 0;
    while i < columns.len()
        invariant
            i <= columns.len(),
            used == joined_before(columns@, i as int),
            used <= i,
            select@ == select_text(columns@, table_oid as int, i as int),
            joins@ == column_joins_text(columns@, table_oid as int, i as int),
            described@.len() == i,
            forall|k: int|
                0 <= k < i ==> describes(#[trigger] described@[k], columns@[k], table_oid as int),
        decreases columns.len() - i,
    {
        let d: &DataColumn = &columns[i];
        let ty: MetadataColumnType = d.column_type;
        let src: String = source(d.table_oid, table_oid);
        let name: String = column_name(d.oid);
        let mut col: String = src.clone();
        col.append(".");
        push_text(&mut col, &name);
        let a: String = alias(used + 1);
        select.append(", ");
        push_text(&mut select, &display_expression(ty, &col, &a, &src));
        select.append(" AS ");
        push_text(&mut select, &name);
        match true_expression(ty, &col, &a, &src) {
            Some(x) => {
                select.append(", ");
                push_text(&mut select, &x);
                select.append(" AS _");
                push_text(&mut select, &name);
            },
            None => {},
        }
        assert(select@ =~= select_text(columns@, table_oid as int, i as int) + column_clause(
            ty,
            d.oid as int,
            col@,
            a@,
            src@,
        ));
        push_text(&mut joins, &join_clause(ty, &col, &a));
        if joins_relation(ty) {
            used = used + 1;
        }
        let mut row_ord: String = src;
        row_ord.append("_OID");
        described.push(
            Column {
                true_ord: true_ord(ty, d.oid),
                display_ord: name,
                table_oid: d.table_oid,
                row_ord,
                column_oid: d.oid,
                column_name: d.name.clone(),
                column_type: ty,
                is_nullable: d.is_nullable,
                is_unique: d.is_unique,
                is_primary_key: d.is_primary_key,
                invalid_nonunique_oid: HashSet::new(),
            },
        );
        i = i + 1;
    }
    let mut sql: String = String::from_str(
        "SELECT ROW_NUMBER() OVER (ORDER BY t.OID) AS ROW_INDEX, t.OID AS t_OID",
    );
    push_text(&mut sql, &oids);
    push_text(&mut sql, &select);
    sql.append(" FROM ");
    push_text(&mut sql, &table_name(table_oid));
    sql.append(" t");
    push_text(&mut sql, &master_joins);
    push_text(&mut sql, &joins);
    sql.append(" WHERE t.TRASH = 0");
    match rows {
        QueryRows::Row => sql.append(" AND t.OID = ?1"),
        QueryRows::ChildPage => sql.append(" AND t.PARENT_OID = ?1"),
        QueryRows::Page => {},
    }
    let mut order: String = String::new();
    let mut k: usize = 0;
    while k < sort_keys.len()
        invariant
            k <= sort_keys.len(),
            order@ == order_text(sort_keys@, k as int),
        decreases sort_keys.len() - k,
    {
        if k == 0 {
            order = String::from_str(" ORDER BY ");
        } else {
            order.append(", ");
        }
        let mut key: String = column_name(sort_keys[k].column_oid);
        if sort_keys[k].ascending {
            key.append(" ASC");
        } else {
            key.append(" DESC");
        }
        push_text(&mut order, &key);
        k = k + 1;
    }
    push_text(&mut sql, &order);
    match rows {
        QueryRows::Row => {},
        QueryRows::ChildPage => sql.append(" LIMIT ?2 OFFSET ?3"),
        QueryRows::Page => sql.append(" LIMIT ?1 OFFSET ?2"),
    }
    (sql, described)
}

/// The number of rows to pass over before page `page_num` of `page_size`
/// rows, the first page being page 1; nothing where it does not fit.
pub open spec fn page_offset_of(page_num: i64, page_size: i64) -> Option<i64> {
    if i64::MIN <= page_size * (page_num - 1) <= i64::MAX {
        Some((page_size * (page_num - 1)) as i64)
    } else {
        None
    }
}

/// The number of rows to pass over before page `page_num`.
pub fn page_offset(page_num: i64, page_size: i64) -> (r: Option<i64>)
    ensures
        r == page_offset_of(page_num, page_size),
{
    let before: i128 = (page_num as i128) - 1;
    assert(-0x8000_0000_0000_0000 * 0x8000_0000_0000_0001 <= (page_size as int) * (before as int)
        <= 0x8000_0000_0000_0000 * 0x8000_0000_0000_0001) by (nonlinear_arith)
        requires
            -0x8000_0000_0000_0000 <= page_size as int <= 0x7fff_ffff_ffff_ffff,
            -0x8000_0000_0000_0001 <= before as int <= 0x7fff_ffff_ffff_fffe,
    ;
    let offset: i128 = (page_size as i128) * before;
    if offset < -0x8000_0000_0000_0000 || offset > 0x7fff_ffff_ffff_ffff {
        None
    } else {
        Some(offset as i64)
    }
}

/// The statement that lists the columns that a reading of table `table_oid`
/// shows: the columns that are not trash of the table and of every table
/// from which it inherits, in their order.
pub fn data_columns_query(table_oid: i64) -> (r: Statement)
    ensures
        r@ == stmt(
            "WITH RECURSIVE SUPERTYPE_QUERY (TYPE_OID) AS (SELECT ?1 UNION SELECT u.MASTER_TABLE_OID AS TYPE_OID FROM SUPERTYPE_QUERY s INNER JOIN METADATA_TABLE_INHERITANCE u ON u.INHERITOR_TABLE_OID = s.TYPE_OID WHERE u.TRASH = 0) SELECT c.OID, c.TABLE_OID, c.NAME, c.TYPE_OID, t.MODE, c.IS_NULLABLE, c.IS_UNIQUE, c.IS_PRIMARY_KEY FROM METADATA_TABLE_COLUMN c INNER JOIN METADATA_TYPE t ON t.OID = c.TYPE_OID WHERE c.TABLE_OID IN (SELECT * FROM SUPERTYPE_QUERY) AND c.TRASH = 0 ORDER BY c.COLUMN_ORDERING;"@,
            seq![Param::Integer(table_oid as int)],
        ),
{
    Statement::with1(
        String::from_str(
            "WITH RECURSIVE SUPERTYPE_QUERY (TYPE_OID) AS (SELECT ?1 UNION SELECT u.MASTER_TABLE_OID AS TYPE_OID FROM SUPERTYPE_QUERY s INNER JOIN METADATA_TABLE_INHERITANCE u ON u.INHERITOR_TABLE_OID = s.TYPE_OID WHERE u.TRASH = 0) SELECT c.OID, c.TABLE_OID, c.NAME, c.TYPE_OID, t.MODE, c.IS_NULLABLE, c.IS_UNIQUE, c.IS_PRIMARY_KEY FROM METADATA_TABLE_COLUMN c INNER JOIN METADATA_TYPE t ON t.OID = c.TYPE_OID WHERE c.TABLE_OID IN (SELECT * FROM SUPERTYPE_QUERY) AND c.TRASH = 0 ORDER BY c.COLUMN_ORDERING;",
        ),
        SqlValue::Integer(table_oid),
    )
}

/// The statement that lists the tables from which table `table_oid`
/// inherits, each with a table that holds the reference to it, the nearest
/// first.
pub fn masters_query(table_oid: i64) -> (r: Statement)
    ensures
        r@ == stmt(
            "WITH RECURSIVE SUPERTYPE_QUERY (LEVEL, SUPERTYPE_OID, INHERITOR_TYPE_OID) AS (SELECT 1, u.MASTER_TABLE_OID, u.INHERITOR_TABLE_OID FROM METADATA_TABLE_INHERITANCE u WHERE u.TRASH = 0 AND u.INHERITOR_TABLE_OID = ?1 UNION SELECT s.LEVEL + 1, u.MASTER_TABLE_OID, u.INHERITOR_TABLE_OID FROM SUPERTYPE_QUERY s INNER JOIN METADATA_TABLE_INHERITANCE u ON u.INHERITOR_TABLE_OID = s.SUPERTYPE_OID WHERE u.TRASH = 0) SELECT SUPERTYPE_OID, MIN(INHERITOR_TYPE_OID) AS INHERITOR_OID, MAX(LEVEL) AS MAX_LEVEL FROM SUPERTYPE_QUERY GROUP BY SUPERTYPE_OID ORDER BY MAX_LEVEL ASC;"@,
            seq![Param::Integer(table_oid as int)],
        ),
{
    Statement::with1(
        String::from_str(
            "WITH RECURSIVE SUPERTYPE_QUERY (LEVEL, SUPERTYPE_OID, INHERITOR_TYPE_OID) AS (SELECT 1, u.MASTER_TABLE_OID, u.INHERITOR_TABLE_OID FROM METADATA_TABLE_INHERITANCE u WHERE u.TRASH = 0 AND u.INHERITOR_TABLE_OID = ?1 UNION SELECT s.LEVEL + 1, u.MASTER_TABLE_OID, u.INHERITOR_TABLE_OID FROM SUPERTYPE_QUERY s INNER JOIN METADATA_TABLE_INHERITANCE u ON u.INHERITOR_TABLE_OID = s.SUPERTYPE_OID WHERE u.TRASH = 0) SELECT SUPERTYPE_OID, MIN(INHERITOR_TYPE_OID) AS INHERITOR_OID, MAX(LEVEL) AS MAX_LEVEL FROM SUPERTYPE_QUERY GROUP BY SUPERTYPE_OID ORDER BY MAX_LEVEL ASC;",
        ),
        SqlValue::Integer(table_oid),
    )
}

/// The column that a row of the answer to [`data_columns_query`] describes.
pub fn data_column_from_row(
    oid: i64,
    table_oid: i64,
    name: String,
    type_oid: i64,
    type_mode: i64,
    is_nullable: bool,
    is_unique: bool,
    is_primary_key: bool,
) -> (r: DataColumn)
    ensures
        r == (DataColumn {
            oid,
            table_oid,
            name,
            column_type: crate::column_type::column_type_of(type_oid, type_mode),
            is_nullable,
            is_unique,
            is_primary_key,
        }),
{
    DataColumn {
        oid,
        table_oid,
        name,
        column_type: MetadataColumnType::from_database(type_oid, type_mode),
        is_nullable,
        is_unique,
        is_primary_key,
    }
}

/// What the first `k` columns add to the list of selected expressions when
/// only what is shown is read.
pub open spec fn shown_select_text(cols: Seq<DataColumn>, t: int, k: int) -> Seq<char>
    decreases k,
{
    if k <= 0 {
        Seq::empty()
    } else {
        shown_select_text(cols, t, k - 1) + ", "@ + display_expr(
            cols[k - 1].column_type,
            data_col(cols, t, k - 1),
            alias_text(joined_before(cols, k - 1) + 1),
            source_text(cols[k - 1].table_oid as int, t),
        ) + " AS "@ + column_name_text(cols[k - 1].oid as int)
    }
}

/// The query that shows the rows of table `t` that are not trash.
pub open spec fn table_query_text(t: int, cols: Seq<DataColumn>) -> Seq<char> {
    "SELECT t.OID AS OID, ROW_NUMBER() OVER (ORDER BY t.OID) AS ROW_INDEX"@ + shown_select_text(
        cols,
        t,
        cols.len() as int,
    ) + " FROM "@ + table_name_text(t) + " t"@ + column_joins_text(cols, t, cols.len() as int)
        + " WHERE t.TRASH = 0"@
}

/// Builds the query that shows the rows of table `table_oid` that are not
/// trash: for each of `columns`, in their order, its display value.
pub fn build_table_query(table_oid: i64, columns: &Vec<DataColumn>) -> (r: String)
    ensures
        r@ == table_query_text(table_oid as int, columns@),
{
    let mut select: String = String::new();
    let mut joins: String = String::new();
    let mut used: usize = 0;
    let mut i: usize = 0;
    while i < columns.len()
        invariant
            i <= columns.len(),
            used == joined_before(columns@, i as int),
            used <= i,
            select@ == shown_select_text(columns@, table_oid as int, i as int),
            joins@ == column_joins_text(columns@, table_oid as int, i as int),
        decreases columns.len() - i,
    {
        let ty: MetadataColumnType = columns[i].column_type;
        let src: String = source(columns[i].table_oid, table_oid);
        let name: String = column_name(columns[i].oid);
        let mut col: String = src.clone();
        col.append(".");
        push_text(&mut col, &name);
        let a: String = alias(used + 1);
        select.append(", ");
        push_text(&mut select, &display_expression(ty, &col, &a, &src));
        select.append(" AS ");
        push_text(&mut select, &name);
        push_text(&mut joins, &join_clause(ty, &col, &a));
        if joins_relation(ty) {
            used = used + 1;
        }
        i = i + 1;
    }
    let mut sql: String = String::from_str(
        "SELECT t.OID AS OID, ROW_NUMBER() OVER (ORDER BY t.OID) AS ROW_INDEX",
    );
    push_text(&mut sql, &select);
    sql.append(" FROM ");
    push_text(&mut sql, &table_name(table_oid));
    sql.append(" t");
    push_text(&mut sql, &joins);
    sql.append(" WHERE t.TRASH = 0");
    sql
}

/// The uniqueness queries of the first `k` columns: for each column that is
/// unique, in their order, its place among the columns and the statement
/// that lists the rows whose value another row shares.
pub open spec fn unique_queries_of(columns: Seq<Column>, k: int) -> Seq<(int, StatementModel)>
    decreases k,
{
    if k <= 0 {
        Seq::empty()
    } else if columns[k - 1].is_unique {
        unique_queries_of(columns, k - 1).push(
            (
                k - 1,
                nonunique_model(
                    columns[k - 1].column_type,
                    columns[k - 1].table_oid as int,
                    columns[k - 1].column_oid as int,
                ),
            ),
        )
    } else {
        unique_queries_of(columns, k - 1)
    }
}

/// What a list of queries holds: each place and statement.
pub open spec fn queries_model(queries: Seq<(usize, Statement)>) -> Seq<(int, StatementModel)> {
    Seq::new(queries.len(), |i: int| (queries[i].0 as int, queries[i].1@))
}

/// The queries that fill the uniqueness witness of the columns of a result:
/// one for each column that is unique and none for any other, each with the
/// place of its column. The rows that a query lists go into
/// `invalid_nonunique_oid` of the column at that place.
pub fn uniqueness_queries(columns: &Vec<Column>) -> (r: Vec<(usize, Statement)>)
    ensures
        queries_model(r@) == unique_queries_of(columns@, columns.len() as int),
{
    let mut queries: Vec<(usize, Statement)> = Vec::new();
    let mut i: usize = 0;
    assert(queries_model(queries@) =~= unique_queries_of(columns@, 0));
    while i < columns.len()
        invariant
            i <= columns.len(),
            queries_model(queries@) == unique_queries_of(columns@, i as int),
        decreases columns.len() - i,
    {
        if columns[i].is_unique {
            let q: Statement = nonunique_query(
                columns[i].column_type,
                columns[i].table_oid,
                columns[i].column_oid,
            );
            let ghost before = queries@;
            queries.push((i, q));
            assert(queries_model(queries@) =~= queries_model(before).push((i as int, q@)));
        }
        i = i + 1;
    }
    queries
}

/// Every query stands for a unique column, at the place that it names; the
/// places rise; and every unique column has its query.
pub proof fn lemma_unique_columns_are_asked(columns: Seq<Column>, k: int)
    requires
        0 <= k <= columns.len(),
    ensures
        forall|i: int|
            0 <= i < unique_queries_of(columns, k).len() ==> {
                let q = #[trigger] unique_queries_of(columns, k)[i];
                &&& 0 <= q.0 < k
                &&& columns[q.0].is_unique
                &&& q.1 == nonunique_model(
                    columns[q.0].column_type,
                    columns[q.0].table_oid as int,
                    columns[q.0].column_oid as int,
                )
            },
        forall|i: int, j: int|
            0 <= i < j < unique_queries_of(columns, k).len() ==> (#[trigger] unique_queries_of(
                columns,
                k,
            )[i]).0 < (#[trigger] unique_queries_of(columns, k)[j]).0,
        forall|c: int|
            0 <= c < k && (#[trigger] columns[c]).is_unique ==> exists|i: int|
                0 <= i < unique_queries_of(columns, k).len() && (#[trigger] unique_queries_of(
                    columns,
                    k,
                )[i]).0 == c,
    decreases k,
{
    if k > 0 {
        lemma_unique_columns_are_asked(columns, k - 1);
        let before = unique_queries_of(columns, k - 1);
        let now = unique_queries_of(columns, k);
        assert forall|c: int| 0 <= c < k && (#[trigger] columns[c]).is_unique implies exists|i: int|
            0 <= i < now.len() && (#[trigger] now[i]).0 == c by {
            if c < k - 1 {
                let i = choose|i: int| 0 <= i < before.len() && (#[trigger] before[i]).0 == c;
                assert(now[i].0 == c);
            } else {
                assert(now[now.len() - 1].0 == c);
            }
        }
    }
}

} // verus!
