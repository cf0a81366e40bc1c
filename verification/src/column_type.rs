//! The closed algebra of column types, its encoding in the meta-schema and
//! the relations that an ad-hoc type owns.

use vstd::prelude::*;
use crate::sql::{plan_model, stmt, Param, SqlValue, Statement, StatementModel};
use crate::text::{push_text, surrogate_name, surrogate_name_text, table_name, table_name_text};

verus! {

/// A primitive kind of value.
#[derive(Clone, Copy, Debug, PartialEq, Eq, Structural)]
pub enum Primitive {
    Any,
    Boolean,
    Integer,
    Number,
    Date,
    Timestamp,
    Text,
    JSON,
    File,
    Image,
}

/// The type of a column.
#[derive(Clone, Copy, Debug, PartialEq, Eq, Structural)]
pub enum MetadataColumnType {
    Primitive(Primitive),
    SingleSelectDropdown(i64),
    MultiSelectDropdown(i64),
    Reference(i64),
    ChildObject(i64),
    ChildTable(i64),
}

/// The storage class in which values of `p` are kept.
pub open spec fn sqlite_type_text(p: Primitive) -> Seq<char> {
    match p {
        Primitive::Any => "ANY"@,
        Primitive::Boolean => "INTEGER"@,
        Primitive::Integer => "INTEGER"@,
        Primitive::Number => "REAL"@,
        Primitive::Date => "INTEGER"@,
        Primitive::Timestamp => "REAL"@,
        Primitive::Text => "TEXT"@,
        Primitive::JSON => "TEXT"@,
        Primitive::File => "BLOB"@,
        Primitive::Image => "BLOB"@,
    }
}

/// The well-known type id of `p`.
pub open spec fn primitive_oid(p: Primitive) -> int {
    match p {
        Primitive::Any => 0,
        Primitive::Boolean => 1,
        Primitive::Integer => 2,
        Primitive::Number => 3,
        Primitive::Date => 4,
        Primitive::Timestamp => 5,
        Primitive::Text => 6,
        Primitive::JSON => 7,
        Primitive::File => 8,
        Primitive::Image => 9,
    }
}

/// The type id under which `t` is recorded.
pub open spec fn type_oid_of(t: MetadataColumnType) -> int {
    match t {
        MetadataColumnType::Primitive(p) => primitive_oid(p),
        MetadataColumnType::SingleSelectDropdown(oid) => oid as int,
        MetadataColumnType::MultiSelectDropdown(oid) => oid as int,
        MetadataColumnType::Reference(oid) => oid as int,
        MetadataColumnType::ChildObject(oid) => oid as int,
        MetadataColumnType::ChildTable(oid) => oid as int,
    }
}

/// The mode under which `t` is recorded.
pub open spec fn type_mode_of(t: MetadataColumnType) -> int {
    match t {
        MetadataColumnType::Primitive(_) => 0,
        MetadataColumnType::SingleSelectDropdown(_) => 1,
        MetadataColumnType::MultiSelectDropdown(_) => 2,
        MetadataColumnType::Reference(_) => 3,
        MetadataColumnType::ChildObject(_) => 4,
        MetadataColumnType::ChildTable(_) => 5,
    }
}

/// The type that the pair of a type id and a mode stands for. A pair that
/// stands for nothing is read as `Primitive(Any)`.
pub open spec fn column_type_of(type_oid: i64, type_mode: i64) -> MetadataColumnType {
    if type_mode == 0 {
        MetadataColumnType::Primitive(
            if type_oid == 1 {
                Primitive::Boolean
            } else if type_oid == 2 {
                Primitive::Integer
            } else if type_oid == 3 {
                Primitive::Number
            } else if type_oid == 4 {
                Primitive::Date
            } else if type_oid == 5 {
                Primitive::Timestamp
            } else if type_oid == 6 {
                Primitive::Text
            } else if type_oid == 7 {
                Primitive::JSON
            } else if type_oid == 8 {
                Primitive::File
            } else if type_oid == 9 {
                Primitive::Image
            } else {
                Primitive::Any
            },
        )
    } else if type_mode == 1 {
        MetadataColumnType::SingleSelectDropdown(type_oid)
    } else if type_mode == 2 {
        MetadataColumnType::MultiSelectDropdown(type_oid)
    } else if type_mode == 3 {
        MetadataColumnType::Reference(type_oid)
    } else if type_mode == 4 {
        MetadataColumnType::ChildObject(type_oid)
    } else if type_mode == 5 {
        MetadataColumnType::ChildTable(type_oid)
    } else {
        MetadataColumnType::Primitive(Primitive::Any)
    }
}

/// Whether `t` owns relations of its own, made for one host table.
pub open spec fn is_adhoc(t: MetadataColumnType) -> bool {
    t is SingleSelectDropdown || t is MultiSelectDropdown || t is ChildTable
}

/// Whether a column of type `t` has a physical column in its table.
pub open spec fn has_physical_column(t: MetadataColumnType) -> bool {
    !(t is MultiSelectDropdown || t is ChildTable)
}

/// Name of the link relation of the multi-select type `oid`.
pub open spec fn multiselect_name_text(oid: int) -> Seq<char> {
    table_name_text(oid) + "_MULTISELECT"@
}

/// The statement that records a new type of mode `mode`.
pub open spec fn type_row_model(mode: int) -> StatementModel {
    stmt("INSERT INTO METADATA_TYPE (MODE) VALUES (?1);"@, seq![Param::Integer(mode)])
}

/// The statement that removes the type `oid` from the meta-schema.
pub open spec fn delete_type_row_model(oid: int) -> StatementModel {
    stmt("DELETE FROM METADATA_TYPE WHERE OID = ?1;"@, seq![Param::Integer(oid)])
}

/// The statement that creates the relation of dropdown values of type `oid`.
pub open spec fn create_values_model(oid: int) -> StatementModel {
    stmt(
        "CREATE TABLE "@ + table_name_text(oid)
            + " (OID INTEGER PRIMARY KEY, TRASH TINYINT NOT NULL DEFAULT 0, VALUE TEXT NOT NULL);"@,
        Seq::empty(),
    )
}

/// The statement that creates the link relation between the rows of table
/// `host` and the values of the multi-select type `oid`.
pub open spec fn create_link_model(oid: int, host: int) -> StatementModel {
    stmt(
        "CREATE TABLE "@ + multiselect_name_text(oid) + " (ROW_OID INTEGER REFERENCES "@
            + table_name_text(host)
            + " (OID) ON UPDATE CASCADE ON DELETE CASCADE, VALUE_OID INTEGER REFERENCES "@
            + table_name_text(oid)
            + " (OID) ON UPDATE CASCADE ON DELETE CASCADE, PRIMARY KEY (ROW_OID, VALUE_OID));"@,
        Seq::empty(),
    )
}

/// The statement that records the child table `oid` of table `host`.
pub open spec fn child_table_row_model(oid: int, host: int) -> StatementModel {
    stmt(
        "INSERT INTO METADATA_TABLE (TYPE_OID, PARENT_TABLE_OID, NAME) VALUES (?1, ?2, ?3);"@,
        seq![Param::Integer(oid), Param::Integer(host), Param::Text(table_name_text(oid))],
    )
}

/// The statement that creates the relation of the child table `oid`, whose
/// rows belong to rows of table `host`.
pub open spec fn create_child_model(oid: int, host: int) -> StatementModel {
    stmt(
        "CREATE TABLE "@ + table_name_text(oid)
            + " (OID INTEGER PRIMARY KEY, TRASH BOOLEAN NOT NULL DEFAULT 0, PARENT_OID INTEGER NOT NULL REFERENCES "@
            + table_name_text(host) + " (OID) ON UPDATE CASCADE ON DELETE CASCADE);"@,
        Seq::empty(),
    )
}

/// The statement that creates the first surrogate view of the child table
/// `oid`, which has no primary key yet.
pub open spec fn create_child_view_model(oid: int) -> StatementModel {
    stmt(
        "CREATE VIEW "@ + surrogate_name_text(oid)
            + " (OID, DISPLAY_VALUE, JSON_DISPLAY_VALUE) AS SELECT OID, CASE WHEN TRASH = 0 THEN '— NO PRIMARY KEY —' ELSE '— DELETED —' END AS DISPLAY_VALUE, CASE WHEN TRASH = 0 THEN '{}' ELSE 'null' END AS JSON_DISPLAY_VALUE FROM "@
            + table_name_text(oid) + ";"@,
        Seq::empty(),
    )
}

/// The statement that drops the relation named `name`.
pub open spec fn drop_table_model(name: Seq<char>) -> StatementModel {
    stmt("DROP TABLE "@ + name + ";"@, Seq::empty())
}

/// The statement that drops the view named `name`.
pub open spec fn drop_view_model(name: Seq<char>) -> StatementModel {
    stmt("DROP VIEW "@ + name + ";"@, Seq::empty())
}

/// The type that `t` becomes once it is recorded under the fresh type id
/// `new_oid`: an ad-hoc type takes the id, any other type stays as it is.
pub open spec fn materialized_type(t: MetadataColumnType, new_oid: i64) -> MetadataColumnType {
    match t {
        MetadataColumnType::SingleSelectDropdown(_) => MetadataColumnType::SingleSelectDropdown(
            new_oid,
        ),
        MetadataColumnType::MultiSelectDropdown(_) => MetadataColumnType::MultiSelectDropdown(
            new_oid,
        ),
        MetadataColumnType::ChildTable(_) => MetadataColumnType::ChildTable(new_oid),
        _ => t,
    }
}

/// The statements that create the relations of `t` under the fresh type id
/// `new_oid`, for the host table `host`.
pub open spec fn create_plan(t: MetadataColumnType, new_oid: int, host: int) -> Seq<
    StatementModel,
> {
    match t {
        MetadataColumnType::SingleSelectDropdown(_) => seq![create_values_model(new_oid)],
        MetadataColumnType::MultiSelectDropdown(_) => seq![
            create_values_model(new_oid),
            create_link_model(new_oid, host),
        ],
        MetadataColumnType::ChildTable(_) => seq![
            child_table_row_model(new_oid, host),
            create_child_model(new_oid, host),
            create_child_view_model(new_oid),
        ],
        _ => Seq::empty(),
    }
}

/// The statements that demolish the relations of `t` and remove its type.
pub open spec fn delete_plan(t: MetadataColumnType) -> Seq<StatementModel> {
    match t {
        MetadataColumnType::SingleSelectDropdown(oid) => seq![
            drop_table_model(table_name_text(oid as int)),
            delete_type_row_model(oid as int),
        ],
        MetadataColumnType::MultiSelectDropdown(oid) => seq![
            drop_table_model(multiselect_name_text(oid as int)),
            drop_table_model(table_name_text(oid as int)),
            delete_type_row_model(oid as int),
        ],
        MetadataColumnType::ChildTable(oid) => seq![
            drop_view_model(surrogate_name_text(oid as int)),
            drop_table_model(table_name_text(oid as int)),
            delete_type_row_model(oid as int),
        ],
        _ => Seq::empty(),
    }
}

impl Primitive {
    /// The storage class in which values of this kind are kept.
    pub fn get_sqlite_type(&self) -> (r: &'static str)
        ensures
            r@ == sqlite_type_text(*self),
    {
        match self {
            Primitive::Any => "ANY",
            Primitive::Boolean => "INTEGER",
            Primitive::Integer => "INTEGER",
            Primitive::Number => "REAL",
            Primitive::Date => "INTEGER",
            Primitive::Timestamp => "REAL",
            Primitive::Text => "TEXT",
            Primitive::JSON => "TEXT",
            Primitive::File => "BLOB",
            Primitive::Image => "BLOB",
        }
    }

    /// The well-known type id of this kind.
    pub fn get_type_oid(&self) -> (r: i64)
        ensures
            r == primitive_oid(*self),
    {
        match self {
            Primitive::Any => 0,
            Primitive::Boolean => 1,
            Primitive::Integer => 2,
            Primitive::Number => 3,
            Primitive::Date => 4,
            Primitive::Timestamp => 5,
            Primitive::Text => 6,
            Primitive::JSON => 7,
            Primitive::File => 8,
            Primitive::Image => 9,
        }
    }
}

/// `TABLE<oid>_MULTISELECT`.
pub fn multiselect_name(oid: i64) -> (r: String)
    ensures
        r@ == multiselect_name_text(oid as int),
{
    let mut buf: String = table_name(oid);
    buf.append("_MULTISELECT");
    buf
}

/// The statement that drops the relation `name`.
pub fn drop_table(name: &String) -> (r: Statement)
    ensures
        r@ == drop_table_model(name@),
{
    let mut sql: String = String::from_str("DROP TABLE ");
    push_text(&mut sql, name);
    sql.append(";");
    Statement::plain(sql)
}

/// The statement that drops the view `name`.
pub fn drop_view(name: &String) -> (r: Statement)
    ensures
        r@ == drop_view_model(name@),
{
    let mut sql: String = String::from_str("DROP VIEW ");
    push_text(&mut sql, name);
    sql.append(";");
    Statement::plain(sql)
}

/// The statement that removes the type `oid` from the meta-schema.
pub fn delete_type_row(oid: i64) -> (r: Statement)
    ensures
        r@ == delete_type_row_model(oid as int),
{
    Statement::with1(
        String::from_str("DELETE FROM METADATA_TYPE WHERE OID = ?1;"),
        SqlValue::Integer(oid),
    )
}

fn create_values(oid: i64) -> (r: Statement)
    ensures
        r@ == create_values_model(oid as int),
{
    let mut sql: String = String::from_str("CREATE TABLE ");
    push_text(&mut sql, &table_name(oid));
    sql.append(
        " (OID INTEGER PRIMARY KEY, TRASH TINYINT NOT NULL DEFAULT 0, VALUE TEXT NOT NULL);",
    );
    Statement::plain(sql)
}

fn create_link(oid: i64, host: i64) -> (r: Statement)
    ensures
        r@ == create_link_model(oid as int, host as int),
{
    let mut sql: String = String::from_str("CREATE TABLE ");
    push_text(&mut sql, &multiselect_name(oid));
    sql.append(" (ROW_OID INTEGER REFERENCES ");
    push_text(&mut sql, &table_name(host));
    sql.append(" (OID) ON UPDATE CASCADE ON DELETE CASCADE, VALUE_OID INTEGER REFERENCES ");
    push_text(&mut sql, &table_name(oid));
    sql.append(" (OID) ON UPDATE CASCADE ON DELETE CASCADE, PRIMARY KEY (ROW_OID, VALUE_OID));");
    Statement::plain(sql)
}

fn child_table_row(oid: i64, host: i64) -> (r: Statement)
    ensures
        r@ == child_table_row_model(oid as int, host as int),
{
    Statement::with3(
        String::from_str(
            "INSERT INTO METADATA_TABLE (TYPE_OID, PARENT_TABLE_OID, NAME) VALUES (?1, ?2, ?3);",
        ),
        SqlValue::Integer(oid),
        SqlValue::Integer(host),
        SqlValue::Text(table_name(oid)),
    )
}

fn create_child(oid: i64, host: i64) -> (r: Statement)
    ensures
        r@ == create_child_model(oid as int, host as int),
{
    let mut sql: String = String::from_str("CREATE TABLE ");
    push_text(&mut sql, &table_name(oid));
    sql.append(
        " (OID INTEGER PRIMARY KEY, TRASH BOOLEAN NOT NULL DEFAULT 0, PARENT_OID INTEGER NOT NULL REFERENCES ",
    );
    push_text(&mut sql, &table_name(host));
    sql.append(" (OID) ON UPDATE CASCADE ON DELETE CASCADE);");
    Statement::plain(sql)
}

fn create_child_view(oid: i64) -> (r: Statement)
    ensures
        r@ == create_child_view_model(oid as int),
{
    let mut sql: String = String::from_str("CREATE VIEW ");
    push_text(&mut sql, &surrogate_name(oid));
    sql.append(
        " (OID, DISPLAY_VALUE, JSON_DISPLAY_VALUE) AS SELECT OID, CASE WHEN TRASH = 0 THEN '— NO PRIMARY KEY —' ELSE '— DELETED —' END AS DISPLAY_VALUE, CASE WHEN TRASH = 0 THEN '{}' ELSE 'null' END AS JSON_DISPLAY_VALUE FROM ",
    );
    push_text(&mut sql, &table_name(oid));
    sql.append(";");
    Statement::plain(sql)
}

impl MetadataColumnType {
    /// Reads a type from its type id and mode.
    pub fn from_database(type_oid: i64, type_mode: i64) -> (r: MetadataColumnType)
        ensures
            r == column_type_of(type_oid, type_mode),
    {
        if type_mode == 0 {
            if type_oid == 1 {
                MetadataColumnType::Primitive(Primitive::Boolean)
            } else if type_oid == 2 {
                MetadataColumnType::Primitive(Primitive::Integer)
            } else if type_oid == 3 {
                MetadataColumnType::Primitive(Primitive::Number)
            } else if type_oid == 4 {
                MetadataColumnType::Primitive(Primitive::Date)
            } else if type_oid == 5 {
                MetadataColumnType::Primitive(Primitive::Timestamp)
            } else if type_oid == 6 {
                MetadataColumnType::Primitive(Primitive::Text)
            } else if type_oid == 7 {
                MetadataColumnType::Primitive(Primitive::JSON)
            } else if type_oid == 8 {
                MetadataColumnType::Primitive(Primitive::File)
            } else if type_oid == 9 {
                MetadataColumnType::Primitive(Primitive::Image)
            } else {
                MetadataColumnType::Primitive(Primitive::Any)
            }
        } else if type_mode == 1 {
            MetadataColumnType::SingleSelectDropdown(type_oid)
        } else if type_mode == 2 {
            MetadataColumnType::MultiSelectDropdown(type_oid)
        } else if type_mode == 3 {
            MetadataColumnType::Reference(type_oid)
        } else if type_mode == 4 {
            MetadataColumnType::ChildObject(type_oid)
        } else if type_mode == 5 {
            MetadataColumnType::ChildTable(type_oid)
        } else {
            MetadataColumnType::Primitive(Primitive::Any)
        }
    }

    /// The type id under which this type is recorded.
    pub fn get_type_oid(&self) -> (r: i64)
        ensures
            r == type_oid_of(*self),
    {
        match self {
            MetadataColumnType::Primitive(p) => p.get_type_oid(),
            MetadataColumnType::SingleSelectDropdown(oid) => *oid,
            MetadataColumnType::MultiSelectDropdown(oid) => *oid,
            MetadataColumnType::Reference(oid) => *oid,
            MetadataColumnType::ChildObject(oid) => *oid,
            MetadataColumnType::ChildTable(oid) => *oid,
        }
    }

    /// The mode under which this type is recorded.
    pub fn get_type_mode(&self) -> (r: i64)
        ensures
            r == type_mode_of(*self),
    {
        match self {
            MetadataColumnType::Primitive(_) => 0,
            MetadataColumnType::SingleSelectDropdown(_) => 1,
            MetadataColumnType::MultiSelectDropdown(_) => 2,
            MetadataColumnType::Reference(_) => 3,
            MetadataColumnType::ChildObject(_) => 4,
            MetadataColumnType::ChildTable(_) => 5,
        }
    }

    /// Whether this type owns relations of its own and so needs a fresh type
    /// id before a column can have it.
    pub fn is_adhoc(&self) -> (r: bool)
        ensures
            r == is_adhoc(*self),
    {
        match self {
            MetadataColumnType::SingleSelectDropdown(_) => true,
            MetadataColumnType::MultiSelectDropdown(_) => true,
            MetadataColumnType::ChildTable(_) => true,
            _ => false,
        }
    }

    /// The statement that records a new type of this mode; the row id that the
    /// store gives it is the fresh type id.
    pub fn type_row_statement(&self) -> (r: Statement)
        ensures
            r@ == type_row_model(type_mode_of(*self)),
    {
        Statement::with1(
            String::from_str("INSERT INTO METADATA_TYPE (MODE) VALUES (?1);"),
            SqlValue::Integer(self.get_type_mode()),
        )
    }

    /// The statement that records this type before a column can have it, for
    /// a type that owns relations of its own; nothing for any other type.
    pub fn type_row(&self) -> (r: Option<Statement>)
        ensures
            r is Some == is_adhoc(*self),
            r matches Some(s) ==> s@ == type_row_model(type_mode_of(*self)),
    {
        if self.is_adhoc() {
            Some(self.type_row_statement())
        } else {
            None
        }
    }

    /// Materializes this type for the host table `table_oid` under the fresh
    /// type id `new_type_oid`: the type as it is recorded from now on, and the
    /// statements that create its relations. A type that is not ad hoc stays
    /// as it is and needs no statement.
    pub fn create_for_table(self, new_type_oid: i64, table_oid: i64) -> (r: (
        MetadataColumnType,
        Vec<Statement>,
    ))
        ensures
            r.0 == materialized_type(self, new_type_oid),
            plan_model(r.1@) == create_plan(self, new_type_oid as int, table_oid as int),
    {
        let mut plan: Vec<Statement> = Vec::new();
        match self {
            MetadataColumnType::SingleSelectDropdown(_) => {
                plan.push(create_values(new_type_oid));
                assert(plan_model(plan@) =~= create_plan(
                    self,
                    new_type_oid as int,
                    table_oid as int,
                ));
                (MetadataColumnType::SingleSelectDropdown(new_type_oid), plan)
            },
            MetadataColumnType::MultiSelectDropdown(_) => {
                plan.push(create_values(new_type_oid));
                plan.push(create_link(new_type_oid, table_oid));
                assert(plan_model(plan@) =~= create_plan(
                    self,
                    new_type_oid as int,
                    table_oid as int,
                ));
                (MetadataColumnType::MultiSelectDropdown(new_type_oid), plan)
            },
            MetadataColumnType::ChildTable(_) => {
                plan.push(child_table_row(new_type_oid, table_oid));
                plan.push(create_child(new_type_oid, table_oid));
                plan.push(create_child_view(new_type_oid));
                assert(plan_model(plan@) =~= create_plan(
                    self,
                    new_type_oid as int,
                    table_oid as int,
                ));
                (MetadataColumnType::ChildTable(new_type_oid), plan)
            },
            _ => {
                assert(plan_model(plan@) =~= create_plan(
                    self,
                    new_type_oid as int,
                    table_oid as int,
                ));
                (self, plan)
            },
        }
    }

    /// The statements that demolish what this type owns: the link relation of
    /// a multi-select, the values relation or the child table with its view,
    /// and last the type itself. A type that is not ad hoc owns nothing.
    pub fn delete_for_table(self) -> (r: Vec<Statement>)
        ensures
            plan_model(r@) == delete_plan(self),
    {
        let mut plan: Vec<Statement> = Vec::new();
        match self {
            MetadataColumnType::SingleSelectDropdown(oid) => {
                plan.push(drop_table(&table_name(oid)));
                plan.push(delete_type_row(oid));
            },
            MetadataColumnType::MultiSelectDropdown(oid) => {
                plan.push(drop_table(&multiselect_name(oid)));
                plan.push(drop_table(&table_name(oid)));
                plan.push(delete_type_row(oid));
            },
            MetadataColumnType::ChildTable(oid) => {
                plan.push(drop_view(&surrogate_name(oid)));
                plan.push(drop_table(&table_name(oid)));
                plan.push(delete_type_row(oid));
            },
            _ => {},
        }
        assert(plan_model(plan@) =~= delete_plan(self));
        plan
    }
}

/// Every type is read back from the type id and the mode under which it is
/// recorded.
pub proof fn lemma_type_round_trip(t: MetadataColumnType)
    ensures
        column_type_of(type_oid_of(t) as i64, type_mode_of(t) as i64) == t,
        0 <= type_mode_of(t) <= 5,
{
}

/// A pair whose mode is none of 0 to 5, or whose mode is 0 and whose type id
/// is none of 1 to 9, is read as `Primitive(Any)`.
pub proof fn lemma_unknown_pair_is_any(type_oid: i64, type_mode: i64)
    requires
        !(0 <= type_mode <= 5) || (type_mode == 0 && !(1 <= type_oid <= 9)),
    ensures
        column_type_of(type_oid, type_mode) == MetadataColumnType::Primitive(Primitive::Any),
{
}

} // verus!
