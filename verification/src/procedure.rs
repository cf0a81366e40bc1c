//! The order of the steps of an action. An action runs against the store
//! step by step: each step names the statements to run and what to read
//! afterwards, and what was read decides the next step. The caller runs the
//! statements and reads; every decision stands here.
//!
//! A change of a column goes from the snapshot of its metadata over the new
//! metadata, the demolition of what its prior type had, the creation of what
//! its new type needs and the carry-over of its values to the rebuilding of
//! the surrogate views.

use vstd::prelude::*;
use crate::backend::{Action, Outcome};
use crate::column::{dropdown_plan, type_target, DropdownValue};
use crate::column::{
    add_column_model, column_row_model, construction_plan, demolition_plan, make_room_model,
    snapshot_model, trash_column_model, update_metadata_model,
};
use crate::column_type::{
    column_type_of, create_plan, has_physical_column, is_adhoc, materialized_type, type_mode_of,
    type_oid_of, type_row_model, MetadataColumnType,
};
use crate::dependency::{rebuild_order, update_surrogate_view, walk, walk_depth, TableDependency};
use crate::error::Error;
use crate::sql::{lemma_plan_push, plan_model, stmt, Param, SqlValue, Statement, StatementModel};
use crate::table::{
    create_surrogate_model, create_table_model, drop_surrogate_model, keys_of, table_row_model,
    table_type_row_model, trash_table_model, KeyColumn,
};
use crate::table_data::{
    coercion_of, insert_plan, inserted_row_oid, prior_value_model, probe_row_model, push_row_model,
    restore_row_model, rows_from_model, text_view, trash_row_model, update_value_model, Coercion,
};

verus! {

/// What the caller reads after it has run the statements of a step.
#[derive(Clone, Debug, PartialEq, Eq)]
pub enum Ask {
    /// The row id of the last row that was inserted.
    Id,
    /// The rows that the query answers.
    Rows(Statement),
    /// The text to store for a value that is a number in floating point.
    Render(Coercion),
    /// Nothing: the action is carried out, with this answer for the journal.
    Finish(Outcome),
}

/// One step: the statements to run, in their order, and what to read afterwards.
/// `saving` marks the step that records the state to undo to, whose failure
/// is told apart.
#[derive(Clone, Debug, PartialEq, Eq)]
pub struct Step {
    pub run: Vec<Statement>,
    pub saving: bool,
    pub ask: Ask,
}

/// What the caller read.
#[derive(Clone, Debug, PartialEq, Eq)]
pub enum Answer {
    Id(i64),
    Rows(Vec<Vec<SqlValue>>),
    Text(Option<String>),
}

/// What a column is to be: the arguments of its creation or its edit.
#[derive(Clone, Debug, PartialEq, Eq)]
pub struct ColumnDraft {
    pub table_oid: i64,
    pub column_name: String,
    pub column_type: MetadataColumnType,
    pub column_style: String,
    pub is_nullable: bool,
    pub is_unique: bool,
    pub is_primary_key: bool,
}

/// How far an action has come.
#[derive(Clone, Debug, PartialEq, Eq)]
pub enum Progress {
    /// Nothing is left to do.
    Done,
    /// The type of a new table is recorded; its id is read.
    TableTyped { table_name: String },
    /// The references between primary keys are read, to rebuild the views
    /// from `table_oid` on.
    Rebuild { table_oid: i64, outcome: Outcome },
    /// The views of `order` are dropped and those before `next` are built;
    /// the key columns of the table at `next` are read.
    Views { order: Vec<TableDependency>, next: usize, outcome: Outcome },
    /// The ordering behind the last column is read.
    ColumnOrdering { draft: ColumnDraft },
    /// The type of a new column is recorded; its id is read.
    ColumnTyped { draft: ColumnDraft, ordering: i64 },
    /// The new column is recorded; its id is read.
    ColumnRecorded { table_oid: i64, column_type: MetadataColumnType },
    /// The type of the column to edit and its table are read.
    EditRead { column_oid: i64, draft: ColumnDraft },
    /// The prior metadata is kept in a clone; the id of the clone is read.
    EditSnapshotted { column_oid: i64, owner: i64, prior: MetadataColumnType, draft: ColumnDraft },
    /// The prior type is taken down and the new type is recorded; its id is
    /// read.
    EditRetyped {
        column_oid: i64,
        owner: i64,
        clone_oid: i64,
        prior: MetadataColumnType,
        column_type: MetadataColumnType,
    },
    /// The metadata kept in a clone is read, to edit the column back to it.
    RestoreRead { table_oid: i64, column_oid: i64 },
    /// A row is appended; its id is read.
    RowPushed,
    /// Whether the id of a row to insert is in use is read.
    InsertTarget { table_oid: i64, row_oid: i64 },
    /// Whether the id below is in use is read.
    InsertPrevious { table_oid: i64, row_oid: i64, target_exists: bool },
    /// The ids from the id of the row upwards are read.
    InsertListed { table_oid: i64, row_oid: i64, target_exists: bool, previous_exists: bool },
    /// The type of the column of a cell to write is read.
    UpdateType { table_oid: i64, row_oid: i64, column_oid: i64, value: Option<String> },
    /// The value is coerced; the text of the cell as it is now is read.
    UpdatePrior { table_oid: i64, row_oid: i64, column_oid: i64, coercion: Coercion },
    /// The text to store is asked for.
    UpdateRendered { table_oid: i64, row_oid: i64, column_oid: i64, prior_text: Option<String> },
    /// The type of the column whose dropdown values change is read.
    DropdownType { column_oid: i64, values: Vec<DropdownValue> },
    /// The values as they are now are read.
    DropdownPrior { column_type: MetadataColumnType, values: Vec<DropdownValue> },
}

/// The error for an answer that is not what the step asked for.
pub open spec fn misfit() -> Error {
    Error::AdHoc("The answer of the store does not fit the step.")
}

/// The integer at place `j` of a row, if there is one.
pub open spec fn int_at(row: Seq<SqlValue>, j: int) -> Option<i64> {
    if 0 <= j < row.len() && row[j] is Integer {
        Some(row[j]->Integer_0)
    } else {
        None
    }
}

/// The text at place `j` of a row, if there is one.
pub open spec fn text_at(row: Seq<SqlValue>, j: int) -> Option<String> {
    if 0 <= j < row.len() && row[j] is Text {
        Some(row[j]->Text_0)
    } else {
        None
    }
}

/// The reference that a row of the answer to the question for the key edges
/// describes.
pub open spec fn edge_of(row: Vec<SqlValue>) -> Option<(i64, i64)> {
    if int_at(row@, 0) is Some && int_at(row@, 1) is Some {
        Some((int_at(row@, 0)->Some_0, int_at(row@, 1)->Some_0))
    } else {
        None
    }
}

/// The references that the rows describe; `None` where a row describes none.
pub open spec fn edges_of(rows: Seq<Vec<SqlValue>>) -> Option<Seq<(i64, i64)>> {
    if forall|i: int| 0 <= i < rows.len() ==> edge_of(#[trigger] rows[i]) is Some {
        Some(Seq::new(rows.len(), |i: int| edge_of(rows[i])->Some_0))
    } else {
        None
    }
}

/// The key column that a row describes: its id, name, type id and mode.
pub open spec fn key_column_of(row: Vec<SqlValue>) -> Option<KeyColumn> {
    if int_at(row@, 0) is Some && text_at(row@, 1) is Some && int_at(row@, 2) is Some && int_at(
        row@,
        3,
    ) is Some {
        Some(
            KeyColumn {
                oid: int_at(row@, 0)->Some_0,
                name: text_at(row@, 1)->Some_0,
                column_type: column_type_of(int_at(row@, 2)->Some_0, int_at(row@, 3)->Some_0),
            },
        )
    } else {
        None
    }
}

/// The key columns that the rows describe; `None` where a row describes
/// none.
pub open spec fn key_columns_of(rows: Seq<Vec<SqlValue>>) -> Option<Seq<KeyColumn>> {
    if forall|i: int| 0 <= i < rows.len() ==> key_column_of(#[trigger] rows[i]) is Some {
        Some(Seq::new(rows.len(), |i: int| key_column_of(rows[i])->Some_0))
    } else {
        None
    }
}

/// The ids in the first place of each row; `None` where a row has none.
pub open spec fn ids_of(rows: Seq<Vec<SqlValue>>) -> Option<Seq<i64>> {
    if forall|i: int| 0 <= i < rows.len() ==> int_at((#[trigger] rows[i])@, 0) is Some {
        Some(Seq::new(rows.len(), |i: int| int_at(rows[i]@, 0)->Some_0))
    } else {
        None
    }
}

/// What was read for the column to edit: its prior type and the table that
/// owns it; `None` where the row is not of that form.
pub open spec fn prior_of(row: Vec<SqlValue>) -> Option<(MetadataColumnType, i64)> {
    if int_at(row@, 0) is Some && int_at(row@, 1) is Some && int_at(row@, 2) is Some {
        Some(
            (
                column_type_of(int_at(row@, 0)->Some_0, int_at(row@, 1)->Some_0),
                int_at(row@, 2)->Some_0,
            ),
        )
    } else {
        None
    }
}

/// The draft of a column from the metadata kept in a clone: name, style,
/// type and flags, for table `table_oid`.
pub open spec fn draft_of(row: Vec<SqlValue>, table_oid: i64) -> Option<ColumnDraft> {
    if text_at(row@, 1) is Some && text_at(row@, 3) is Some && int_at(row@, 4) is Some && int_at(
        row@,
        5,
    ) is Some && int_at(row@, 6) is Some && int_at(row@, 7) is Some && int_at(row@, 8) is Some {
        Some(
            ColumnDraft {
                table_oid,
                column_name: text_at(row@, 1)->Some_0,
                column_type: column_type_of(int_at(row@, 4)->Some_0, int_at(row@, 5)->Some_0),
                column_style: text_at(row@, 3)->Some_0,
                is_nullable: int_at(row@, 6)->Some_0 != 0,
                is_unique: int_at(row@, 7)->Some_0 != 0,
                is_primary_key: int_at(row@, 8)->Some_0 != 0,
            },
        )
    } else {
        None
    }
}

/// The step runs `run`, is the saving step or not, and then reads an id.
pub open spec fn reads_id(step: Step, run: Seq<StatementModel>, saving: bool) -> bool {
    plan_model(step.run@) == run && step.saving == saving && step.ask is Id
}

/// The step runs `run` and then reads the rows of `query`.
pub open spec fn reads_rows(step: Step, run: Seq<StatementModel>, query: StatementModel) -> bool {
    plan_model(step.run@) == run && !step.saving && step.ask is Rows && step.ask->Rows_0@ == query
}

/// The step runs `run` and ends the action with `outcome`.
pub open spec fn finishes(step: Step, run: Seq<StatementModel>, outcome: Outcome) -> bool {
    plan_model(step.run@) == run && !step.saving && step.ask == Ask::Finish(outcome)
}

/// The question for the references between primary keys.
pub open spec fn key_edges_model() -> StatementModel {
    stmt(
        "SELECT TYPE_OID, TABLE_OID FROM METADATA_TABLE_COLUMN WHERE IS_PRIMARY_KEY = 1;"@,
        Seq::empty(),
    )
}

/// The question for the key columns of table `t`.
pub open spec fn key_columns_model(t: int) -> StatementModel {
    stmt(
        "SELECT c.OID, c.NAME, c.TYPE_OID, t.MODE FROM METADATA_TABLE_COLUMN c INNER JOIN METADATA_TYPE t ON t.OID = c.TYPE_OID WHERE c.TABLE_OID = ?1 AND c.TRASH = 0 AND c.IS_PRIMARY_KEY = 1 ORDER BY c.COLUMN_ORDERING;"@,
        seq![Param::Integer(t)],
    )
}

/// The question for the type of column `c` and the table that owns it.
pub open spec fn column_type_query_model(c: int) -> StatementModel {
    stmt(
        "SELECT c.TYPE_OID, t.MODE, c.TABLE_OID FROM METADATA_TABLE_COLUMN c INNER JOIN METADATA_TYPE t ON t.OID = c.TYPE_OID WHERE c.OID = ?1;"@,
        seq![Param::Integer(c)],
    )
}

/// The statements that drop the view of every table of `order`.
pub open spec fn drops_of(order: Seq<TableDependency>) -> Seq<StatementModel> {
    Seq::new(order.len(), |i: int| drop_surrogate_model(order[i].table_oid as int))
}

/// The statement that records the column of `draft` at `ordering`, with the
/// type `ty`.
pub open spec fn draft_row_model(draft: ColumnDraft, ty: MetadataColumnType, ordering: i64) -> StatementModel {
    column_row_model(
        draft.table_oid as int,
        draft.column_name@,
        type_oid_of(ty),
        ordering as int,
        draft.column_style@,
        draft.is_nullable,
        draft.is_unique,
        draft.is_primary_key,
    )
}

/// The statement that writes the metadata of `draft` to column `c`.
pub open spec fn draft_update_model(c: int, draft: ColumnDraft) -> StatementModel {
    update_metadata_model(
        c,
        draft.column_name@,
        type_oid_of(draft.column_type),
        draft.column_style@,
        draft.is_nullable,
        draft.is_unique,
        draft.is_primary_key,
    )
}

fn cell_int(row: &Vec<SqlValue>, j: usize) -> (r: Option<i64>)
    ensures
        r == int_at(row@, j as int),
{
    if j < row.len() {
        match &row[j] {
            SqlValue::Integer(i) => Some(*i),
            _ => None,
        }
    } else {
        None
    }
}

fn cell_text(row: &Vec<SqlValue>, j: usize) -> (r: Option<String>)
    ensures
        r == text_at(row@, j as int),
{
    if j < row.len() {
        match &row[j] {
            SqlValue::Text(s) => Some(s.clone()),
            _ => None,
        }
    } else {
        None
    }
}

fn read_edges(rows: &Vec<Vec<SqlValue>>) -> (r: Option<Vec<(i64, i64)>>)
    ensures
        match edges_of(rows@) {
            Some(edges) => r is Some && r->Some_0@ == edges,
            None => r is None,
        },
{
    let mut edges: Vec<(i64, i64)> = Vec::new();
    let mut i: usize = 0;
    while i < rows.len()
        invariant
            i <= rows.len(),
            forall|k: int| 0 <= k < i ==> edge_of(#[trigger] rows@[k]) is Some,
            edges@ == Seq::new(i as nat, |k: int| edge_of(rows@[k])->Some_0),
        decreases rows.len() - i,
    {
        match (cell_int(&rows[i], 0), cell_int(&rows[i], 1)) {
            (Some(a), Some(b)) => {
                edges.push((a, b));
            },
            _ => {
                assert(edge_of(rows@[i as int]) is None);
                return None;
            },
        }
        i = i + 1;
        assert(edges@ =~= Seq::new(i as nat, |k: int| edge_of(rows@[k])->Some_0));
    }
    Some(edges)
}

fn read_key_columns(rows: &Vec<Vec<SqlValue>>) -> (r: Option<Vec<KeyColumn>>)
    ensures
        match key_columns_of(rows@) {
            Some(columns) => r is Some && r->Some_0@ == columns,
            None => r is None,
        },
{
    let mut columns: Vec<KeyColumn> = Vec::new();
    let mut i: usize = 0;
    while i < rows.len()
        invariant
            i <= rows.len(),
            forall|k: int| 0 <= k < i ==> key_column_of(#[trigger] rows@[k]) is Some,
            columns@ == Seq::new(i as nat, |k: int| key_column_of(rows@[k])->Some_0),
        decreases rows.len() - i,
    {
        match (
            cell_int(&rows[i], 0),
            cell_text(&rows[i], 1),
            cell_int(&rows[i], 2),
            cell_int(&rows[i], 3),
        ) {
            (Some(oid), Some(name), Some(type_oid), Some(mode)) => {
                columns.push(
                    KeyColumn {
                        oid,
                        name,
                        column_type: MetadataColumnType::from_database(type_oid, mode),
                    },
                );
            },
            _ => {
                assert(key_column_of(rows@[i as int]) is None);
                return None;
            },
        }
        i = i + 1;
        assert(columns@ =~= Seq::new(i as nat, |k: int| key_column_of(rows@[k])->Some_0));
    }
    Some(columns)
}

fn read_ids(rows: &Vec<Vec<SqlValue>>) -> (r: Option<Vec<i64>>)
    ensures
        match ids_of(rows@) {
            Some(ids) => r is Some && r->Some_0@ == ids,
            None => r is None,
        },
{
    let mut ids: Vec<i64> = Vec::new();
    let mut i: usize = 0;
    while i < rows.len()
        invariant
            i <= rows.len(),
            forall|k: int| 0 <= k < i ==> int_at((#[trigger] rows@[k])@, 0) is Some,
            ids@ == Seq::new(i as nat, |k: int| int_at(rows@[k]@, 0)->Some_0),
        decreases rows.len() - i,
    {
        match cell_int(&rows[i], 0) {
            Some(id) => {
                ids.push(id);
            },
            None => {
                return None;
            },
        }
        i = i + 1;
        assert(ids@ =~= Seq::new(i as nat, |k: int| int_at(rows@[k]@, 0)->Some_0));
    }
    Some(ids)
}

fn read_prior(row: &Vec<SqlValue>) -> (r: Option<(MetadataColumnType, i64)>)
    ensures
        r == prior_of(*row),
{
    match (cell_int(row, 0), cell_int(row, 1), cell_int(row, 2)) {
        (Some(type_oid), Some(mode), Some(owner)) => Some(
            (MetadataColumnType::from_database(type_oid, mode), owner),
        ),
        _ => None,
    }
}

fn read_draft(row: &Vec<SqlValue>, table_oid: i64) -> (r: Option<ColumnDraft>)
    ensures
        r == draft_of(*row, table_oid),
{
    match (
        cell_text(row, 1),
        cell_text(row, 3),
        cell_int(row, 4),
        cell_int(row, 5),
        cell_int(row, 6),
        cell_int(row, 7),
        cell_int(row, 8),
    ) {
        (Some(name), Some(style), Some(type_oid), Some(mode), Some(n), Some(u), Some(k)) => Some(
            ColumnDraft {
                table_oid,
                column_name: name,
                column_type: MetadataColumnType::from_database(type_oid, mode),
                column_style: style,
                is_nullable: n != 0,
                is_unique: u != 0,
                is_primary_key: k != 0,
            },
        ),
        _ => None,
    }
}

fn one(s: Statement) -> (r: Vec<Statement>)
    ensures
        plan_model(r@) == seq![s@],
{
    let mut plan: Vec<Statement> = Vec::new();
    plan.push(s);
    assert(plan_model(plan@) =~= seq![s@]);
    plan
}

fn none() -> (r: Vec<Statement>)
    ensures
        plan_model(r@) == Seq::<StatementModel>::empty(),
{
    let plan: Vec<Statement> = Vec::new();
    assert(plan_model(plan@) =~= Seq::<StatementModel>::empty());
    plan
}

fn with_last(plan: Vec<Statement>, s: Statement) -> (r: Vec<Statement>)
    ensures
        plan_model(r@) == plan_model(plan@).push(s@),
{
    let mut plan = plan;
    proof {
        lemma_plan_push(plan@, s);
    }
    plan.push(s);
    plan
}

fn joined(plan: Vec<Statement>, more: Vec<Statement>) -> (r: Vec<Statement>)
    ensures
        plan_model(r@) == plan_model(plan@) + plan_model(more@),
{
    let mut plan = plan;
    let mut more = more;
    let ghost a = plan@;
    let ghost b = more@;
    plan.append(&mut more);
    assert(plan_model(plan@) =~= plan_model(a) + plan_model(b));
    plan
}

/// The step that starts the rebuilding of the views from `table_oid` on,
/// after `run`: the references between primary keys are read.
fn rebuild(run: Vec<Statement>, table_oid: i64, outcome: Outcome) -> (r: (Progress, Step))
    ensures
        r.0 == (Progress::Rebuild { table_oid, outcome }),
        reads_rows(r.1, plan_model(run@), key_edges_model()),
{
    (
        Progress::Rebuild { table_oid, outcome },
        Step { run, saving: false, ask: Ask::Rows(crate::table::key_edges()) },
    )
}

/// Whether `r` is the step that records the column of `draft` at `ordering`
/// after `run`: first its type, where the type owns relations, else the
/// column itself; the id of what was recorded is read.
pub open spec fn records_column(
    run: Seq<StatementModel>,
    draft: ColumnDraft,
    ordering: i64,
    r: (Progress, Step),
) -> bool {
    if is_adhoc(draft.column_type) {
        r.0 == (Progress::ColumnTyped { draft, ordering }) && reads_id(
            r.1,
            run.push(type_row_model(type_mode_of(draft.column_type))),
            false,
        )
    } else {
        r.0 == (Progress::ColumnRecorded {
            table_oid: draft.table_oid,
            column_type: draft.column_type,
        }) && reads_id(r.1, run.push(draft_row_model(draft, draft.column_type, ordering)), false)
    }
}

fn record_column(run: Vec<Statement>, draft: ColumnDraft, ordering: i64) -> (r: (Progress, Step))
    ensures
        records_column(plan_model(run@), draft, ordering, r),
{
    match draft.column_type.type_row() {
        Some(s) => (
            Progress::ColumnTyped { draft, ordering },
            Step { run: with_last(run, s), saving: false, ask: Ask::Id },
        ),
        None => {
            let table_oid: i64 = draft.table_oid;
            let column_type: MetadataColumnType = draft.column_type;
            let row: Statement = crate::column::create(
                draft.table_oid,
                draft.column_name,
                draft.column_type,
                ordering,
                draft.column_style,
                draft.is_nullable,
                draft.is_unique,
                draft.is_primary_key,
            );
            (
                Progress::ColumnRecorded { table_oid, column_type },
                Step { run: with_last(run, row), saving: false, ask: Ask::Id },
            )
        },
    }
}

/// The first step of the edit of column `column_oid` to `draft`: what the
/// column is now is read before anything is written.
pub fn begin_edit(column_oid: i64, draft: ColumnDraft) -> (r: (Progress, Step))
    ensures
        r.0 == (Progress::EditRead { column_oid, draft }),
        reads_rows(r.1, Seq::empty(), column_type_query_model(column_oid as int)),
{
    (
        Progress::EditRead { column_oid, draft },
        Step {
            run: none(),
            saving: false,
            ask: Ask::Rows(crate::column::column_type_query(column_oid)),
        },
    )
}

/// What the second step of an edit is, given what was read for the column.
/// A column that does not exist is not edited: nothing is run and the
/// action ends without a clone. For a column that exists the view of its
/// table is dropped and its metadata is kept in a clone, whose id is read.
pub open spec fn edit_read_post(
    column_oid: i64,
    draft: ColumnDraft,
    rows: Seq<Vec<SqlValue>>,
    r: Result<(Progress, Step), Error>,
) -> bool {
    if rows.len() == 0 {
        r is Ok && r->Ok_0.0 == Progress::Done && finishes(
            r->Ok_0.1,
            Seq::empty(),
            Outcome::Edited(None),
        )
    } else if prior_of(rows[0]) is None {
        r == Err::<(Progress, Step), Error>(misfit())
    } else {
        r is Ok && r->Ok_0.0 == (Progress::EditSnapshotted {
            column_oid,
            owner: prior_of(rows[0])->Some_0.1,
            prior: prior_of(rows[0])->Some_0.0,
            draft,
        }) && reads_id(
            r->Ok_0.1,
            seq![
                drop_surrogate_model(prior_of(rows[0])->Some_0.1 as int),
                snapshot_model(column_oid as int),
            ],
            true,
        )
    }
}

/// The second step of an edit, from what was read for the column.
pub fn edit_after_read(column_oid: i64, draft: ColumnDraft, rows: &Vec<Vec<SqlValue>>) -> (r: Result<
    (Progress, Step),
    Error,
>)
    ensures
        edit_read_post(column_oid, draft, rows@, r),
{
    if rows.len() == 0 {
        return Ok(
            (
                Progress::Done,
                Step { run: none(), saving: false, ask: Ask::Finish(Outcome::Edited(None)) },
            ),
        );
    }
    match read_prior(&rows[0]) {
        None => Err(Error::AdHoc("The answer of the store does not fit the step.")),
        Some((prior, owner)) => {
            let run: Vec<Statement> = with_last(
                one(crate::table::drop_surrogate_view(owner)),
                crate::column::snapshot(column_oid),
            );
            assert(plan_model(run@) =~= seq![
                drop_surrogate_model(owner as int),
                snapshot_model(column_oid as int),
            ]);
            Ok(
                (
                    Progress::EditSnapshotted { column_oid, owner, prior, draft },
                    Step { run, saving: true, ask: Ask::Id },
                ),
            )
        },
    }
}

/// What the third step of an edit is, given the id of the clone: the new
/// metadata is written and what the column had under its prior type is
/// taken down. Where the new type owns relations it is recorded and its id
/// is read; else the column is set up under its new type, its values are
/// carried over, and the rebuilding of the views starts.
pub open spec fn edit_snapshot_post(
    column_oid: i64,
    owner: i64,
    prior: MetadataColumnType,
    draft: ColumnDraft,
    clone_oid: i64,
    r: (Progress, Step),
) -> bool {
    let taken_down = seq![draft_update_model(column_oid as int, draft)] + demolition_plan(
        owner as int,
        column_oid as int,
        clone_oid as int,
        prior,
        draft.column_type,
    );
    if prior != draft.column_type && is_adhoc(draft.column_type) {
        r.0 == (Progress::EditRetyped {
            column_oid,
            owner,
            clone_oid,
            prior,
            column_type: draft.column_type,
        }) && reads_id(
            r.1,
            taken_down.push(type_row_model(type_mode_of(draft.column_type))),
            false,
        )
    } else {
        r.0 == (Progress::Rebuild { table_oid: owner, outcome: Outcome::Edited(Some(clone_oid)) })
            && reads_rows(
            r.1,
            taken_down + construction_plan(
                owner as int,
                column_oid as int,
                clone_oid as int,
                prior,
                draft.column_type,
                0,
            ),
            key_edges_model(),
        )
    }
}

/// The third step of an edit, with the id of the clone.
pub fn edit_after_snapshot(
    column_oid: i64,
    owner: i64,
    prior: MetadataColumnType,
    draft: ColumnDraft,
    clone_oid: i64,
) -> (r: (Progress, Step))
    ensures
        edit_snapshot_post(column_oid, owner, prior, draft, clone_oid, r),
{
    let column_type: MetadataColumnType = draft.column_type;
    let update: Statement = crate::column::update_metadata(
        column_oid,
        draft.column_name,
        draft.column_type,
        draft.column_style,
        draft.is_nullable,
        draft.is_unique,
        draft.is_primary_key,
    );
    let run: Vec<Statement> = joined(
        one(update),
        crate::column::edit(owner, column_oid, clone_oid, prior, column_type),
    );
    match crate::column::edit_type_row(prior, column_type) {
        Some(s) => (
            Progress::EditRetyped { column_oid, owner, clone_oid, prior, column_type },
            Step { run: with_last(run, s), saving: false, ask: Ask::Id },
        ),
        None => rebuild(
            joined(
                run,
                crate::column::edit_construction(owner, column_oid, clone_oid, prior, column_type, 0),
            ),
            owner,
            Outcome::Edited(Some(clone_oid)),
        ),
    }
}

/// The state in which the type of the column `column_oid` is read, to set
/// its dropdown values to `values`.
pub open spec fn dropdown_state(p: Progress, column_oid: i64, values: Seq<DropdownValue>) -> bool {
    p matches Progress::DropdownType { column_oid: c, values: v } && c == column_oid && v@ == values
}

fn copy_text(v: &Option<String>) -> (r: Option<String>)
    ensures
        r == *v,
{
    match v {
        Some(s) => Some(s.clone()),
        None => None,
    }
}

fn copy_values(values: &Vec<DropdownValue>) -> (r: Vec<DropdownValue>)
    ensures
        r@ == values@,
{
    let mut out: Vec<DropdownValue> = Vec::new();
    let mut i: usize = 0;
    while i < values.len()
        invariant
            i <= values.len(),
            out@ == values@.take(i as int),
        decreases values.len() - i,
    {
        out.push(
            DropdownValue {
                true_value: copy_text(&values[i].true_value),
                display_value: copy_text(&values[i].display_value),
            },
        );
        i = i + 1;
        assert(out@ =~= values@.take(i as int));
    }
    assert(values@.take(i as int) =~= values@);
    out
}

/// The first step of an action.
pub fn begin(action: &Action) -> (r: Result<(Progress, Step), Error>)
    ensures
        match *action {
            Action::CreateTable { table_name } => r is Ok && r->Ok_0.0 == (Progress::TableTyped {
                table_name,
            }) && reads_id(r->Ok_0.1, seq![table_type_row_model()], false),
            Action::DeleteTable { table_oid } => r is Ok && r->Ok_0.0 == Progress::Done && finishes(
                r->Ok_0.1,
                seq![trash_table_model(table_oid as int, 1)],
                Outcome::Done,
            ),
            Action::RestoreDeletedTable { table_oid } => r is Ok && r->Ok_0.0 == Progress::Done
                && finishes(r->Ok_0.1, seq![trash_table_model(table_oid as int, 0)], Outcome::Done),
            Action::CreateTableColumn {
                table_oid,
                column_name,
                column_type,
                column_ordering,
                column_style,
                is_nullable,
                is_unique,
                is_primary_key,
            } => {
                let draft = ColumnDraft {
                    table_oid,
                    column_name,
                    column_type,
                    column_style,
                    is_nullable,
                    is_unique,
                    is_primary_key,
                };
                match column_ordering {
                    None => r is Ok && r->Ok_0.0 == (Progress::ColumnOrdering { draft })
                        && plan_model(r->Ok_0.1.run@) == Seq::<StatementModel>::empty()
                        && r->Ok_0.1.ask is Rows,
                    Some(o) => r is Ok && records_column(
                        seq![make_room_model(table_oid as int, o as int)],
                        draft,
                        o,
                        r->Ok_0,
                    ),
                }
            },
            Action::EditTableColumnMetadata {
                table_oid,
                column_oid,
                column_name,
                column_type,
                column_style,
                is_nullable,
                is_unique,
                is_primary_key,
            } => r is Ok && r->Ok_0.0 == (Progress::EditRead {
                column_oid,
                draft: ColumnDraft {
                    table_oid,
                    column_name,
                    column_type,
                    column_style,
                    is_nullable,
                    is_unique,
                    is_primary_key,
                },
            }) && reads_rows(r->Ok_0.1, Seq::empty(), column_type_query_model(column_oid as int)),
            Action::RestoreEditedTableColumnMetadata { table_oid, column_oid, .. } => r is Ok
                && r->Ok_0.0 == (Progress::RestoreRead { table_oid, column_oid }) && plan_model(
                r->Ok_0.1.run@,
            ) == Seq::<StatementModel>::empty() && r->Ok_0.1.ask is Rows,
            Action::DeleteTableColumn { table_oid, column_oid } => r is Ok && r->Ok_0.0 == (
            Progress::Rebuild { table_oid, outcome: Outcome::Done }) && reads_rows(
                r->Ok_0.1,
                seq![trash_column_model(column_oid as int, 1)],
                key_edges_model(),
            ),
            Action::RestoreDeletedTableColumn { table_oid, column_oid } => r is Ok && r->Ok_0.0 == (
            Progress::Rebuild { table_oid, outcome: Outcome::Done }) && reads_rows(
                r->Ok_0.1,
                seq![trash_column_model(column_oid as int, 0)],
                key_edges_model(),
            ),
            Action::PushTableRow { table_oid } => r is Ok && r->Ok_0.0 == Progress::RowPushed
                && reads_id(r->Ok_0.1, seq![push_row_model(table_oid as int)], false),
            Action::InsertTableRow { table_oid, row_oid } => if row_oid == i64::MIN {
                r == Err::<(Progress, Step), Error>(
                    Error::AdHoc("No row can stand before the lowest id."),
                )
            } else {
                r is Ok && r->Ok_0.0 == (Progress::InsertTarget { table_oid, row_oid })
                    && reads_rows(
                    r->Ok_0.1,
                    Seq::empty(),
                    probe_row_model(table_oid as int, row_oid as int),
                )
            },
            Action::DeleteTableRow { table_oid, row_oid } => r is Ok && r->Ok_0.0 == Progress::Done
                && finishes(
                r->Ok_0.1,
                seq![trash_row_model(table_oid as int, row_oid as int)],
                Outcome::Done,
            ),
            Action::RestoreDeletedTableRow { table_oid, row_oid } => r is Ok && r->Ok_0.0
                == Progress::Done && finishes(
                r->Ok_0.1,
                seq![restore_row_model(table_oid as int, row_oid as int)],
                Outcome::Done,
            ),
            Action::UpdateTableCellStoredAsPrimitiveValue {
                table_oid,
                column_oid,
                row_oid,
                value,
            } => r is Ok && r->Ok_0.0 == (Progress::UpdateType {
                table_oid,
                row_oid,
                column_oid,
                value,
            }) && reads_rows(r->Ok_0.1, Seq::empty(), column_type_query_model(column_oid as int)),
            Action::EditTableColumnDropdownValues { column_oid, dropdown_values, .. } => r is Ok
                && dropdown_state(r->Ok_0.0, column_oid, dropdown_values@) && reads_rows(
                r->Ok_0.1,
                Seq::empty(),
                column_type_query_model(column_oid as int),
            ),
        },
{
    match action {
        Action::CreateTable { table_name } => Ok(
            (
                Progress::TableTyped { table_name: table_name.clone() },
                Step { run: one(crate::table::table_type_row()), saving: false, ask: Ask::Id },
            ),
        ),
        Action::DeleteTable { table_oid } => Ok(
            (
                Progress::Done,
                Step {
                    run: one(crate::table::move_trash(*table_oid)),
                    saving: false,
                    ask: Ask::Finish(Outcome::Done),
                },
            ),
        ),
        Action::RestoreDeletedTable { table_oid } => Ok(
            (
                Progress::Done,
                Step {
                    run: one(crate::table::unmove_trash(*table_oid)),
                    saving: false,
                    ask: Ask::Finish(Outcome::Done),
                },
            ),
        ),
        Action::CreateTableColumn {
            table_oid,
            column_name,
            column_type,
            column_ordering,
            column_style,
            is_nullable,
            is_unique,
            is_primary_key,
        } => {
            let draft = ColumnDraft {
                table_oid: *table_oid,
                column_name: column_name.clone(),
                column_type: *column_type,
                column_style: column_style.clone(),
                is_nullable: *is_nullable,
                is_unique: *is_unique,
                is_primary_key: *is_primary_key,
            };
            match column_ordering {
                Some(o) => Ok(
                    record_column(one(crate::column::make_room(*table_oid, *o)), draft, *o),
                ),
                None => Ok(
                    (
                        Progress::ColumnOrdering { draft },
                        Step {
                            run: none(),
                            saving: false,
                            ask: Ask::Rows(crate::column::next_ordering(*table_oid)),
                        },
                    ),
                ),
            }
        },
        Action::EditTableColumnMetadata {
            table_oid,
            column_oid,
            column_name,
            column_type,
            column_style,
            is_nullable,
            is_unique,
            is_primary_key,
        } => Ok(
            begin_edit(
                *column_oid,
                ColumnDraft {
                    table_oid: *table_oid,
                    column_name: column_name.clone(),
                    column_type: *column_type,
                    column_style: column_style.clone(),
                    is_nullable: *is_nullable,
                    is_unique: *is_unique,
                    is_primary_key: *is_primary_key,
                },
            ),
        ),
        Action::RestoreEditedTableColumnMetadata {
            table_oid,
            column_oid,
            prior_metadata_column_oid,
        } => Ok(
            (
                Progress::RestoreRead { table_oid: *table_oid, column_oid: *column_oid },
                Step {
                    run: none(),
                    saving: false,
                    ask: Ask::Rows(crate::column::get_metadata(*prior_metadata_column_oid)),
                },
            ),
        ),
        Action::DeleteTableColumn { table_oid, column_oid } => Ok(
            rebuild(one(crate::column::move_trash(*column_oid)), *table_oid, Outcome::Done),
        ),
        Action::RestoreDeletedTableColumn { table_oid, column_oid } => Ok(
            rebuild(one(crate::column::unmove_trash(*column_oid)), *table_oid, Outcome::Done),
        ),
        Action::PushTableRow { table_oid } => Ok(
            (
                Progress::RowPushed,
                Step { run: one(crate::table_data::push(*table_oid)), saving: false, ask: Ask::Id },
            ),
        ),
        Action::InsertTableRow { table_oid, row_oid } => {
            if *row_oid == i64::MIN {
                Err(Error::AdHoc("No row can stand before the lowest id."))
            } else {
                Ok(
                    (
                        Progress::InsertTarget { table_oid: *table_oid, row_oid: *row_oid },
                        Step {
                            run: none(),
                            saving: false,
                            ask: Ask::Rows(crate::table_data::probe_row(*table_oid, *row_oid)),
                        },
                    ),
                )
            }
        },
        Action::DeleteTableRow { table_oid, row_oid } => Ok(
            (
                Progress::Done,
                Step {
                    run: one(crate::table_data::move_trash(*table_oid, *row_oid)),
                    saving: false,
                    ask: Ask::Finish(Outcome::Done),
                },
            ),
        ),
        Action::RestoreDeletedTableRow { table_oid, row_oid } => Ok(
            (
                Progress::Done,
                Step {
                    run: one(crate::table_data::unmove_trash(*table_oid, *row_oid)),
                    saving: false,
                    ask: Ask::Finish(Outcome::Done),
                },
            ),
        ),
        Action::UpdateTableCellStoredAsPrimitiveValue { table_oid, column_oid, row_oid, value } => Ok(
            (
                Progress::UpdateType {
                    table_oid: *table_oid,
                    row_oid: *row_oid,
                    column_oid: *column_oid,
                    value: copy_text(value),
                },
                Step {
                    run: none(),
                    saving: false,
                    ask: Ask::Rows(crate::column::column_type_query(*column_oid)),
                },
            ),
        ),
        Action::EditTableColumnDropdownValues { column_oid, dropdown_values, .. } => Ok(
            (
                Progress::DropdownType {
                    column_oid: *column_oid,
                    values: copy_values(dropdown_values),
                },
                Step {
                    run: none(),
                    saving: false,
                    ask: Ask::Rows(crate::column::column_type_query(*column_oid)),
                },
            ),
        ),
    }
}

/// The state in which the views of `order` before `next` are built.
pub open spec fn views_state(
    p: Progress,
    order: Seq<TableDependency>,
    next: int,
    outcome: Outcome,
) -> bool {
    p matches Progress::Views { order: v, next: n, outcome: o } && v@ == order && n == next && o
        == outcome
}

/// `run` is the one statement that creates the surrogate view of table `t`
/// from the key columns `cols`, each under its name as a JSON string.
pub open spec fn builds_view(run: Seq<Statement>, t: i64, cols: Seq<KeyColumn>) -> bool {
    run.len() == 1 && exists|keys: Seq<String>|
        keys_of(keys, cols) && run[0]@ == create_surrogate_model(t as int, cols, keys)
}

/// What follows the reading of the references between primary keys: a
/// circle of them ends the action with `SchemaCycle` before any view is
/// touched; else the views of the table and of its dependents are dropped,
/// and the key columns of the first table to rebuild are read.
pub open spec fn rebuild_post(
    table_oid: i64,
    outcome: Outcome,
    rows: Seq<Vec<SqlValue>>,
    r: Result<(Progress, Step), Error>,
) -> bool {
    match edges_of(rows) {
        None => r == Err::<(Progress, Step), Error>(misfit()),
        Some(edges) => match walk(edges, table_oid, Seq::empty(), walk_depth(edges.len())) {
            None => r == Err::<(Progress, Step), Error>(Error::SchemaCycle),
            Some(found) => {
                let order = rebuild_order(found);
                r is Ok && if order.len() == 0 {
                    r->Ok_0.0 == Progress::Done && finishes(r->Ok_0.1, drops_of(order), outcome)
                } else {
                    views_state(r->Ok_0.0, order, 0, outcome) && reads_rows(
                        r->Ok_0.1,
                        drops_of(order),
                        key_columns_model(order[0].table_oid as int),
                    )
                }
            },
        },
    }
}

/// What follows the reading of the key columns of the table at `next`: its
/// view is created; then the key columns of the next table are read, or,
/// behind the last table, the action ends.
pub open spec fn views_post(
    order: Seq<TableDependency>,
    next: int,
    outcome: Outcome,
    rows: Seq<Vec<SqlValue>>,
    r: Result<(Progress, Step), Error>,
) -> bool {
    if !(0 <= next < order.len()) || key_columns_of(rows) is None {
        r == Err::<(Progress, Step), Error>(misfit())
    } else {
        r is Ok && builds_view(r->Ok_0.1.run@, order[next].table_oid, key_columns_of(rows)->Some_0)
            && !r->Ok_0.1.saving && if next + 1 < order.len() {
            views_state(r->Ok_0.0, order, next + 1, outcome) && r->Ok_0.1.ask is Rows
                && r->Ok_0.1.ask->Rows_0@ == key_columns_model(order[next + 1].table_oid as int)
        } else {
            r->Ok_0.0 == Progress::Done && r->Ok_0.1.ask == Ask::Finish(outcome)
        }
    }
}

/// The rebuilding of the views, from the references between primary keys.
pub fn rebuild_after_edges(table_oid: i64, outcome: Outcome, rows: &Vec<Vec<SqlValue>>) -> (r:
    Result<(Progress, Step), Error>)
    ensures
        rebuild_post(table_oid, outcome, rows@, r),
{
    let edges: Vec<(i64, i64)> = match read_edges(rows) {
        None => {
            return Err(Error::AdHoc("The answer of the store does not fit the step."));
        },
        Some(edges) => edges,
    };
    let order: Vec<TableDependency> = match update_surrogate_view(table_oid, &edges) {
        Err(e) => {
            return Err(e);
        },
        Ok(order) => order,
    };
    let mut run: Vec<Statement> = Vec::new();
    let mut i: usize = 0;
    assert(plan_model(run@) =~= drops_of(order@.take(0)));
    while i < order.len()
        invariant
            i <= order.len(),
            plan_model(run@) == drops_of(order@.take(i as int)),
        decreases order.len() - i,
    {
        let s: Statement = crate::table::drop_surrogate_view(order[i].table_oid);
        proof {
            lemma_plan_push(run@, s);
        }
        run.push(s);
        i = i + 1;
        assert(plan_model(run@) =~= drops_of(order@.take(i as int)));
    }
    assert(order@.take(i as int) =~= order@);
    if order.len() == 0 {
        Ok((Progress::Done, Step { run, saving: false, ask: Ask::Finish(outcome) }))
    } else {
        let first: i64 = order[0].table_oid;
        Ok(
            (
                Progress::Views { order, next: 0, outcome },
                Step { run, saving: false, ask: Ask::Rows(crate::table::key_columns(first)) },
            ),
        )
    }
}

/// The building of one view, from the key columns that were read.
pub fn views_after_columns(
    order: Vec<TableDependency>,
    next: usize,
    outcome: Outcome,
    rows: &Vec<Vec<SqlValue>>,
) -> (r: Result<(Progress, Step), Error>)
    ensures
        views_post(order@, next as int, outcome, rows@, r),
{
    if next >= order.len() {
        return Err(Error::AdHoc("The answer of the store does not fit the step."));
    }
    let columns: Vec<KeyColumn> = match read_key_columns(rows) {
        None => {
            return Err(Error::AdHoc("The answer of the store does not fit the step."));
        },
        Some(columns) => columns,
    };
    let view: Statement = match crate::table::create_surrogate_view(order[next].table_oid, &columns) {
        Ok(s) => s,
        Err(e) => {
            return Err(e);
        },
    };
    let mut run: Vec<Statement> = Vec::new();
    run.push(view);
    assert(builds_view(run@, order@[next as int].table_oid, columns@)) by {
        let keys = choose|keys: Seq<String>|
            keys_of(keys, columns@) && view@ == create_surrogate_model(
                order@[next as int].table_oid as int,
                columns@,
                keys,
            );
        assert(keys_of(keys, columns@) && run@[0]@ == create_surrogate_model(
            order@[next as int].table_oid as int,
            columns@,
            keys,
        ));
    }
    if next + 1 < order.len() {
        let following: i64 = order[next + 1].table_oid;
        Ok(
            (
                Progress::Views { order, next: next + 1, outcome },
                Step { run, saving: false, ask: Ask::Rows(crate::table::key_columns(following)) },
            ),
        )
    } else {
        Ok((Progress::Done, Step { run, saving: false, ask: Ask::Finish(outcome) }))
    }
}

/// What follows the recording of a new column's type under `new_oid`: the
/// relations of the type are created and the column is recorded with the
/// type as it is from now on; the id of the column is read.
pub open spec fn column_typed_post(
    draft: ColumnDraft,
    ordering: i64,
    new_oid: i64,
    r: (Progress, Step),
) -> bool {
    let ty = materialized_type(draft.column_type, new_oid);
    r.0 == (Progress::ColumnRecorded { table_oid: draft.table_oid, column_type: ty }) && reads_id(
        r.1,
        create_plan(draft.column_type, new_oid as int, draft.table_oid as int).push(
            draft_row_model(draft, ty, ordering),
        ),
        false,
    )
}

/// The recording of a column whose type was just recorded.
pub fn column_after_typed(draft: ColumnDraft, ordering: i64, new_oid: i64) -> (r: (Progress, Step))
    ensures
        column_typed_post(draft, ordering, new_oid, r),
{
    let (ty, plan) = draft.column_type.create_for_table(new_oid, draft.table_oid);
    let table_oid: i64 = draft.table_oid;
    let row: Statement = crate::column::create(
        draft.table_oid,
        draft.column_name,
        ty,
        ordering,
        draft.column_style,
        draft.is_nullable,
        draft.is_unique,
        draft.is_primary_key,
    );
    (
        Progress::ColumnRecorded { table_oid, column_type: ty },
        Step { run: with_last(plan, row), saving: false, ask: Ask::Id },
    )
}

/// What follows the recording of the new column `column_oid`: its physical
/// column is added where its type has one, and the rebuilding of the views
/// of its table starts; the action will end with the id of the column.
pub open spec fn column_recorded_post(
    table_oid: i64,
    column_type: MetadataColumnType,
    column_oid: i64,
    r: (Progress, Step),
) -> bool {
    r.0 == (Progress::Rebuild { table_oid, outcome: Outcome::Created(column_oid) }) && reads_rows(
        r.1,
        if has_physical_column(column_type) {
            seq![add_column_model(table_oid as int, column_oid as int, column_type)]
        } else {
            Seq::empty()
        },
        key_edges_model(),
    )
}

/// The physical column of a column that was just recorded.
pub fn column_after_recorded(table_oid: i64, column_type: MetadataColumnType, column_oid: i64) -> (r:
    (Progress, Step))
    ensures
        column_recorded_post(table_oid, column_type, column_oid, r),
{
    let run: Vec<Statement> = match crate::column::create_physical(
        table_oid,
        column_oid,
        column_type,
    ) {
        Some(s) => one(s),
        None => none(),
    };
    rebuild(run, table_oid, Outcome::Created(column_oid))
}

/// What follows the reading of an id or of rows in the states of an action
/// that have one successor only.
pub open spec fn simple_post(p: Progress, answer: Answer, r: Result<(Progress, Step), Error>) -> bool {
    match (p, answer) {
        (Progress::TableTyped { table_name }, Answer::Id(t)) => r is Ok && r->Ok_0.0 == (
        Progress::Rebuild { table_oid: t, outcome: Outcome::Created(t) }) && reads_rows(
            r->Ok_0.1,
            seq![table_row_model(t as int, table_name@), create_table_model(t as int)],
            key_edges_model(),
        ),
        (Progress::ColumnOrdering { draft }, Answer::Rows(rows)) => if rows@.len() > 0 && int_at(
            rows@[0]@,
            0,
        ) is Some {
            r is Ok && records_column(Seq::empty(), draft, int_at(rows@[0]@, 0)->Some_0, r->Ok_0)
        } else {
            r == Err::<(Progress, Step), Error>(misfit())
        },
        (
            Progress::EditRetyped { column_oid, owner, clone_oid, prior, column_type },
            Answer::Id(new_oid),
        ) => r is Ok && r->Ok_0.0 == (Progress::Rebuild {
            table_oid: owner,
            outcome: Outcome::Edited(Some(clone_oid)),
        }) && reads_rows(
            r->Ok_0.1,
            construction_plan(
                owner as int,
                column_oid as int,
                clone_oid as int,
                prior,
                column_type,
                new_oid,
            ),
            key_edges_model(),
        ),
        (Progress::RestoreRead { table_oid, column_oid }, Answer::Rows(rows)) => if rows@.len()
            == 0 {
            r is Ok && r->Ok_0.0 == Progress::Done && finishes(
                r->Ok_0.1,
                Seq::empty(),
                Outcome::Edited(None),
            )
        } else if draft_of(rows@[0], table_oid) is None {
            r == Err::<(Progress, Step), Error>(misfit())
        } else {
            r is Ok && r->Ok_0.0 == (Progress::EditRead {
                column_oid,
                draft: draft_of(rows@[0], table_oid)->Some_0,
            }) && reads_rows(r->Ok_0.1, Seq::empty(), column_type_query_model(column_oid as int))
        },
        (Progress::RowPushed, Answer::Id(row_oid)) => r is Ok && r->Ok_0.0 == Progress::Done
            && finishes(r->Ok_0.1, Seq::empty(), Outcome::Created(row_oid)),
        (Progress::InsertTarget { table_oid, row_oid }, Answer::Rows(rows)) => if row_oid
            == i64::MIN {
            r == Err::<(Progress, Step), Error>(misfit())
        } else {
            r is Ok && r->Ok_0.0 == (Progress::InsertPrevious {
                table_oid,
                row_oid,
                target_exists: rows@.len() > 0,
            }) && reads_rows(
                r->Ok_0.1,
                Seq::empty(),
                probe_row_model(table_oid as int, row_oid - 1),
            )
        },
        (Progress::InsertPrevious { table_oid, row_oid, target_exists }, Answer::Rows(rows)) => r is Ok
            && r->Ok_0.0 == (Progress::InsertListed {
            table_oid,
            row_oid,
            target_exists,
            previous_exists: rows@.len() > 0,
        }) && reads_rows(
            r->Ok_0.1,
            Seq::empty(),
            rows_from_model(table_oid as int, row_oid as int),
        ),
        (
            Progress::InsertListed { table_oid, row_oid, target_exists, previous_exists },
            Answer::Rows(rows),
        ) => if row_oid == i64::MIN || ids_of(rows@) is None {
            r == Err::<(Progress, Step), Error>(misfit())
        } else {
            r is Ok && r->Ok_0.0 == Progress::Done && finishes(
                r->Ok_0.1,
                insert_plan(
                    table_oid as int,
                    row_oid,
                    target_exists,
                    previous_exists,
                    ids_of(rows@)->Some_0,
                ),
                Outcome::Created(inserted_row_oid(row_oid, target_exists, previous_exists) as i64),
            )
        },
        _ => true,
    }
}

/// `r` is the failure of a question that had to find a row and found none.
pub open spec fn no_rows(r: Result<(Progress, Step), Error>) -> bool {
    r matches Err(Error::Storage(m)) && m@ == "Query returned no rows"@
}

/// What follows the reading of the type of the column of a cell to write:
/// the value is coerced to the type; a value that the type refuses ends the
/// action with its error before anything is run; else the text of the cell
/// as it is now is read.
pub open spec fn update_type_post(
    table_oid: i64,
    row_oid: i64,
    column_oid: i64,
    value: Option<String>,
    rows: Seq<Vec<SqlValue>>,
    r: Result<(Progress, Step), Error>,
) -> bool {
    if rows.len() == 0 {
        no_rows(r)
    } else if prior_of(rows[0]) is None {
        r == Err::<(Progress, Step), Error>(misfit())
    } else {
        match coercion_of(prior_of(rows[0])->Some_0.0, text_view(value)) {
            Err(e) => r == Err::<(Progress, Step), Error>(e),
            Ok(model) => r is Ok && (r->Ok_0.0 matches Progress::UpdatePrior {
                table_oid: t,
                row_oid: ro,
                column_oid: c,
                coercion,
            } && t == table_oid && ro == row_oid && c == column_oid && coercion@ == model)
                && reads_rows(
                r->Ok_0.1,
                Seq::empty(),
                prior_value_model(table_oid as int, row_oid as int, column_oid as int),
            ),
        }
    }
}

/// What follows the reading of the text of the cell as it is now: a value
/// that is stored as it is is written and the action ends with the prior
/// text; for a number in floating point the text to store is asked for.
pub open spec fn update_prior_post(
    table_oid: i64,
    row_oid: i64,
    column_oid: i64,
    coercion: Coercion,
    rows: Seq<Vec<SqlValue>>,
    r: Result<(Progress, Step), Error>,
) -> bool {
    if rows.len() == 0 {
        no_rows(r)
    } else {
        let prior = text_at(rows[0]@, 0);
        match coercion {
            Coercion::Store(v) => r is Ok && r->Ok_0.0 == Progress::Done && finishes(
                r->Ok_0.1,
                seq![
                    update_value_model(
                        table_oid as int,
                        row_oid as int,
                        column_oid as int,
                        text_view(v),
                    ),
                ],
                Outcome::PriorValue(prior),
            ),
            _ => r is Ok && r->Ok_0.0 == (Progress::UpdateRendered {
                table_oid,
                row_oid,
                column_oid,
                prior_text: prior,
            }) && plan_model(r->Ok_0.1.run@) == Seq::<StatementModel>::empty()
                && !r->Ok_0.1.saving && r->Ok_0.1.ask == Ask::Render(coercion),
        }
    }
}

/// The dropdown value that a row of the answer describes: its id as text
/// and the text that is shown.
pub open spec fn dropdown_value_of(row: Vec<SqlValue>) -> DropdownValue {
    DropdownValue { true_value: text_at(row@, 0), display_value: text_at(row@, 1) }
}

/// The statements that set the dropdown values of a column of type `ty` to
/// `values`; `None` where a stored value spells no integer.
pub open spec fn set_values_plan(ty: MetadataColumnType, values: Seq<DropdownValue>) -> Option<
    Seq<StatementModel>,
> {
    if ty is SingleSelectDropdown || ty is MultiSelectDropdown {
        dropdown_plan(type_target(ty), values, values.len() as int)
    } else {
        Some(Seq::empty())
    }
}

/// `r` ends the action: `values` are set and `prior` is what the journal
/// keeps; a stored value that spells no integer is refused.
pub open spec fn sets_values(
    ty: MetadataColumnType,
    values: Seq<DropdownValue>,
    prior: Seq<DropdownValue>,
    r: Result<(Progress, Step), Error>,
) -> bool {
    match set_values_plan(ty, values) {
        None => r == Err::<(Progress, Step), Error>(
            Error::AdHoc("Unable to parse dropdown value OID as integer."),
        ),
        Some(plan) => r is Ok && r->Ok_0.0 == Progress::Done && plan_model(r->Ok_0.1.run@) == plan
            && !r->Ok_0.1.saving && (r->Ok_0.1.ask matches Ask::Finish(
            Outcome::PriorDropdownValues(p),
        ) && p@ == prior),
    }
}

/// What follows the reading of the type of the column whose dropdown values
/// change: the values that it offers now are read; a column that offers
/// none has nothing to keep.
pub open spec fn dropdown_type_post(
    values: Seq<DropdownValue>,
    rows: Seq<Vec<SqlValue>>,
    r: Result<(Progress, Step), Error>,
) -> bool {
    if rows.len() == 0 {
        no_rows(r)
    } else if prior_of(rows[0]) is None {
        r == Err::<(Progress, Step), Error>(misfit())
    } else {
        let ty = prior_of(rows[0])->Some_0.0;
        if ty is SingleSelectDropdown || ty is MultiSelectDropdown || ty is Reference {
            r is Ok && (r->Ok_0.0 matches Progress::DropdownPrior { column_type: t, values: v } && t
                == ty && v@ == values) && plan_model(r->Ok_0.1.run@) == Seq::<
                StatementModel,
            >::empty() && !r->Ok_0.1.saving && r->Ok_0.1.ask is Rows
        } else {
            sets_values(ty, values, Seq::empty(), r)
        }
    }
}

/// What follows the reading of the values as they are now: the new values
/// are set and the action ends with the prior ones.
pub open spec fn dropdown_prior_post(
    ty: MetadataColumnType,
    values: Seq<DropdownValue>,
    rows: Seq<Vec<SqlValue>>,
    r: Result<(Progress, Step), Error>,
) -> bool {
    sets_values(ty, values, Seq::new(rows.len(), |i: int| dropdown_value_of(rows[i])), r)
}

fn no_rows_error() -> (r: Result<(Progress, Step), Error>)
    ensures
        no_rows(r),
{
    Err(Error::Storage(String::from_str("Query returned no rows")))
}

fn set_values(ty: MetadataColumnType, values: &Vec<DropdownValue>, prior: Vec<DropdownValue>) -> (r:
    Result<(Progress, Step), Error>)
    ensures
        sets_values(ty, values@, prior@, r),
{
    match crate::column::set_table_column_dropdown_values(ty, values) {
        Err(e) => Err(e),
        Ok(plan) => {
            assert(plan_model(plan@) == set_values_plan(ty, values@)->Some_0) by {
                if !(ty is SingleSelectDropdown || ty is MultiSelectDropdown) {
                    assert(plan_model(plan@) =~= Seq::<StatementModel>::empty());
                }
            }
            Ok(
                (
                    Progress::Done,
                    Step {
                        run: plan,
                        saving: false,
                        ask: Ask::Finish(Outcome::PriorDropdownValues(prior)),
                    },
                ),
            )
        },
    }
}

/// The step after the type of the column of a cell to write was read.
pub fn update_after_type(
    table_oid: i64,
    row_oid: i64,
    column_oid: i64,
    value: Option<String>,
    rows: &Vec<Vec<SqlValue>>,
) -> (r: Result<(Progress, Step), Error>)
    ensures
        update_type_post(table_oid, row_oid, column_oid, value, rows@, r),
{
    if rows.len() == 0 {
        return no_rows_error();
    }
    match read_prior(&rows[0]) {
        None => Err(Error::AdHoc("The answer of the store does not fit the step.")),
        Some((ty, _)) => match crate::table_data::try_update_primitive_value(
            table_oid,
            row_oid,
            column_oid,
            ty,
            value,
        ) {
            Err(e) => Err(e),
            Ok((coercion, prior)) => Ok(
                (
                    Progress::UpdatePrior { table_oid, row_oid, column_oid, coercion },
                    Step { run: none(), saving: false, ask: Ask::Rows(prior) },
                ),
            ),
        },
    }
}

/// The step after the text of the cell as it is now was read.
pub fn update_after_prior(
    table_oid: i64,
    row_oid: i64,
    column_oid: i64,
    coercion: Coercion,
    rows: &Vec<Vec<SqlValue>>,
) -> (r: Result<(Progress, Step), Error>)
    ensures
        update_prior_post(table_oid, row_oid, column_oid, coercion, rows@, r),
{
    if rows.len() == 0 {
        return no_rows_error();
    }
    let prior: Option<String> = cell_text(&rows[0], 0);
    match coercion {
        Coercion::Store(v) => Ok(
            (
                Progress::Done,
                Step {
                    run: one(
                        crate::table_data::update_value_statement(table_oid, row_oid, column_oid, &v),
                    ),
                    saving: false,
                    ask: Ask::Finish(Outcome::PriorValue(prior)),
                },
            ),
        ),
        other => Ok(
            (
                Progress::UpdateRendered { table_oid, row_oid, column_oid, prior_text: prior },
                Step { run: none(), saving: false, ask: Ask::Render(other) },
            ),
        ),
    }
}

/// The step after the type of the column whose dropdown values change was
/// read.
pub fn dropdown_after_type(values: Vec<DropdownValue>, rows: &Vec<Vec<SqlValue>>) -> (r: Result<
    (Progress, Step),
    Error,
>)
    ensures
        dropdown_type_post(values@, rows@, r),
{
    if rows.len() == 0 {
        return no_rows_error();
    }
    match read_prior(&rows[0]) {
        None => Err(Error::AdHoc("The answer of the store does not fit the step.")),
        Some((ty, _)) => match crate::column::get_table_column_dropdown_values(ty) {
            Some(query) => Ok(
                (
                    Progress::DropdownPrior { column_type: ty, values },
                    Step { run: none(), saving: false, ask: Ask::Rows(query) },
                ),
            ),
            None => set_values(ty, &values, Vec::new()),
        },
    }
}

/// The step after the dropdown values as they are now were read.
pub fn dropdown_after_prior(
    column_type: MetadataColumnType,
    values: Vec<DropdownValue>,
    rows: &Vec<Vec<SqlValue>>,
) -> (r: Result<(Progress, Step), Error>)
    ensures
        dropdown_prior_post(column_type, values@, rows@, r),
{
    let mut prior: Vec<DropdownValue> = Vec::new();
    let mut i: usize = 0;
    while i < rows.len()
        invariant
            i <= rows.len(),
            prior@ == Seq::new(i as nat, |k: int| dropdown_value_of(rows@[k])),
        decreases rows.len() - i,
    {
        prior.push(
            DropdownValue {
                true_value: cell_text(&rows[i], 0),
                display_value: cell_text(&rows[i], 1),
            },
        );
        i = i + 1;
        assert(prior@ =~= Seq::new(i as nat, |k: int| dropdown_value_of(rows@[k])));
    }
    set_values(column_type, &values, prior)
}

/// What the next step is, from how far the action has come and what was
/// read: the one function that orders the steps of every action.
pub open spec fn advance_post(
    p: Progress,
    answer: Answer,
    r: Result<(Progress, Step), Error>,
) -> bool {
    match (p, answer) {
        (Progress::Rebuild { table_oid, outcome }, Answer::Rows(rows)) => rebuild_post(
            table_oid,
            outcome,
            rows@,
            r,
        ),
        (Progress::Views { order, next, outcome }, Answer::Rows(rows)) => views_post(
            order@,
            next as int,
            outcome,
            rows@,
            r,
        ),
        (Progress::ColumnTyped { draft, ordering }, Answer::Id(new_oid)) => r is Ok
            && column_typed_post(draft, ordering, new_oid, r->Ok_0),
        (Progress::ColumnRecorded { table_oid, column_type }, Answer::Id(column_oid)) => r is Ok
            && column_recorded_post(table_oid, column_type, column_oid, r->Ok_0),
        (Progress::EditRead { column_oid, draft }, Answer::Rows(rows)) => edit_read_post(
            column_oid,
            draft,
            rows@,
            r,
        ),
        (Progress::EditSnapshotted { column_oid, owner, prior, draft }, Answer::Id(clone_oid)) => r is Ok
            && edit_snapshot_post(column_oid, owner, prior, draft, clone_oid, r->Ok_0),
        (Progress::TableTyped { .. }, Answer::Id(_)) => simple_post(p, answer, r),
        (Progress::ColumnOrdering { .. }, Answer::Rows(_)) => simple_post(p, answer, r),
        (Progress::EditRetyped { .. }, Answer::Id(_)) => simple_post(p, answer, r),
        (Progress::RestoreRead { .. }, Answer::Rows(_)) => simple_post(p, answer, r),
        (Progress::RowPushed, Answer::Id(_)) => simple_post(p, answer, r),
        (Progress::InsertTarget { .. }, Answer::Rows(_)) => simple_post(p, answer, r),
        (Progress::InsertPrevious { .. }, Answer::Rows(_)) => simple_post(p, answer, r),
        (Progress::InsertListed { .. }, Answer::Rows(_)) => simple_post(p, answer, r),
        (Progress::UpdateType { table_oid, row_oid, column_oid, value }, Answer::Rows(rows)) => update_type_post(
            table_oid,
            row_oid,
            column_oid,
            value,
            rows@,
            r,
        ),
        (
            Progress::UpdatePrior { table_oid, row_oid, column_oid, coercion },
            Answer::Rows(rows),
        ) => update_prior_post(table_oid, row_oid, column_oid, coercion, rows@, r),
        (
            Progress::UpdateRendered { table_oid, row_oid, column_oid, prior_text },
            Answer::Text(text),
        ) => r is Ok && r->Ok_0.0 == Progress::Done && finishes(
            r->Ok_0.1,
            seq![
                update_value_model(
                    table_oid as int,
                    row_oid as int,
                    column_oid as int,
                    text_view(text),
                ),
            ],
            Outcome::PriorValue(prior_text),
        ),
        (Progress::DropdownType { column_oid, values }, Answer::Rows(rows)) => dropdown_type_post(
            values@,
            rows@,
            r,
        ),
        (Progress::DropdownPrior { column_type, values }, Answer::Rows(rows)) => dropdown_prior_post(
            column_type,
            values@,
            rows@,
            r,
        ),
        _ => r == Err::<(Progress, Step), Error>(misfit()),
    }
}

/// The next step of an action, from how far it has come and what was read.
/// An answer of another kind than the step asked for, and any answer once
/// nothing is left to do, is refused.
pub fn advance(progress: Progress, answer: Answer) -> (r: Result<(Progress, Step), Error>)
    ensures
        advance_post(progress, answer, r),
{
    match progress {
        Progress::TableTyped { table_name } => match answer {
            Answer::Id(t) => Ok(
                rebuild(crate::table::create(t, table_name), t, Outcome::Created(t)),
            ),
            _ => Err(Error::AdHoc("The answer of the store does not fit the step.")),
        },
        Progress::Rebuild { table_oid, outcome } => match answer {
            Answer::Rows(rows) => rebuild_after_edges(table_oid, outcome, &rows),
            _ => Err(Error::AdHoc("The answer of the store does not fit the step.")),
        },
        Progress::Views { order, next, outcome } => match answer {
            Answer::Rows(rows) => views_after_columns(order, next, outcome, &rows),
            _ => Err(Error::AdHoc("The answer of the store does not fit the step.")),
        },
        Progress::ColumnOrdering { draft } => match answer {
            Answer::Rows(rows) => {
                if rows.len() == 0 {
                    return Err(Error::AdHoc("The answer of the store does not fit the step."));
                }
                match cell_int(&rows[0], 0) {
                    Some(ordering) => Ok(record_column(none(), draft, ordering)),
                    None => Err(Error::AdHoc("The answer of the store does not fit the step.")),
                }
            },
            _ => Err(Error::AdHoc("The answer of the store does not fit the step.")),
        },
        Progress::ColumnTyped { draft, ordering } => match answer {
            Answer::Id(new_oid) => Ok(column_after_typed(draft, ordering, new_oid)),
            _ => Err(Error::AdHoc("The answer of the store does not fit the step.")),
        },
        Progress::ColumnRecorded { table_oid, column_type } => match answer {
            Answer::Id(column_oid) => Ok(column_after_recorded(table_oid, column_type, column_oid)),
            _ => Err(Error::AdHoc("The answer of the store does not fit the step.")),
        },
        Progress::EditRead { column_oid, draft } => match answer {
            Answer::Rows(rows) => edit_after_read(column_oid, draft, &rows),
            _ => Err(Error::AdHoc("The answer of the store does not fit the step.")),
        },
        Progress::EditSnapshotted { column_oid, owner, prior, draft } => match answer {
            Answer::Id(clone_oid) => Ok(
                edit_after_snapshot(column_oid, owner, prior, draft, clone_oid),
            ),
            _ => Err(Error::AdHoc("The answer of the store does not fit the step.")),
        },
        Progress::EditRetyped { column_oid, owner, clone_oid, prior, column_type } => match answer {
            Answer::Id(new_oid) => Ok(
                rebuild(
                    crate::column::edit_construction(
                        owner,
                        column_oid,
                        clone_oid,
                        prior,
                        column_type,
                        new_oid,
                    ),
                    owner,
                    Outcome::Edited(Some(clone_oid)),
                ),
            ),
            _ => Err(Error::AdHoc("The answer of the store does not fit the step.")),
        },
        Progress::RestoreRead { table_oid, column_oid } => match answer {
            Answer::Rows(rows) => {
                if rows.len() == 0 {
                    return Ok(
                        (
                            Progress::Done,
                            Step {
                                run: none(),
                                saving: false,
                                ask: Ask::Finish(Outcome::Edited(None)),
                            },
                        ),
                    );
                }
                match read_draft(&rows[0], table_oid) {
                    Some(draft) => Ok(begin_edit(column_oid, draft)),
                    None => Err(Error::AdHoc("The answer of the store does not fit the step.")),
                }
            },
            _ => Err(Error::AdHoc("The answer of the store does not fit the step.")),
        },
        Progress::RowPushed => match answer {
            Answer::Id(row_oid) => Ok(
                (
                    Progress::Done,
                    Step {
                        run: none(),
                        saving: false,
                        ask: Ask::Finish(Outcome::Created(row_oid)),
                    },
                ),
            ),
            _ => Err(Error::AdHoc("The answer of the store does not fit the step.")),
        },
        Progress::InsertTarget { table_oid, row_oid } => match answer {
            Answer::Rows(rows) => {
                if row_oid == i64::MIN {
                    return Err(Error::AdHoc("The answer of the store does not fit the step."));
                }
                Ok(
                    (
                        Progress::InsertPrevious {
                            table_oid,
                            row_oid,
                            target_exists: rows.len() > 0,
                        },
                        Step {
                            run: none(),
                            saving: false,
                            ask: Ask::Rows(crate::table_data::probe_row(table_oid, row_oid - 1)),
                        },
                    ),
                )
            },
            _ => Err(Error::AdHoc("The answer of the store does not fit the step.")),
        },
        Progress::InsertPrevious { table_oid, row_oid, target_exists } => match answer {
            Answer::Rows(rows) => Ok(
                (
                    Progress::InsertListed {
                        table_oid,
                        row_oid,
                        target_exists,
                        previous_exists: rows.len() > 0,
                    },
                    Step {
                        run: none(),
                        saving: false,
                        ask: Ask::Rows(crate::table_data::rows_from(table_oid, row_oid)),
                    },
                ),
            ),
            _ => Err(Error::AdHoc("The answer of the store does not fit the step.")),
        },
        Progress::InsertListed { table_oid, row_oid, target_exists, previous_exists } => match answer {
            Answer::Rows(rows) => {
                if row_oid == i64::MIN {
                    return Err(Error::AdHoc("The answer of the store does not fit the step."));
                }
                match read_ids(&rows) {
                    None => Err(Error::AdHoc("The answer of the store does not fit the step.")),
                    Some(ids) => {
                        let (oid, plan) = crate::table_data::insert(
                            table_oid,
                            row_oid,
                            target_exists,
                            previous_exists,
                            &ids,
                        );
                        Ok(
                            (
                                Progress::Done,
                                Step {
                                    run: plan,
                                    saving: false,
                                    ask: Ask::Finish(Outcome::Created(oid)),
                                },
                            ),
                        )
                    },
                }
            },
            _ => Err(Error::AdHoc("The answer of the store does not fit the step.")),
        },
        Progress::UpdateType { table_oid, row_oid, column_oid, value } => match answer {
            Answer::Rows(rows) => update_after_type(table_oid, row_oid, column_oid, value, &rows),
            _ => Err(Error::AdHoc("The answer of the store does not fit the step.")),
        },
        Progress::UpdatePrior { table_oid, row_oid, column_oid, coercion } => match answer {
            Answer::Rows(rows) => update_after_prior(table_oid, row_oid, column_oid, coercion, &rows),
            _ => Err(Error::AdHoc("The answer of the store does not fit the step.")),
        },
        Progress::UpdateRendered { table_oid, row_oid, column_oid, prior_text } => match answer {
            Answer::Text(text) => Ok(
                (
                    Progress::Done,
                    Step {
                        run: one(
                            crate::table_data::update_value_statement(
                                table_oid,
                                row_oid,
                                column_oid,
                                &text,
                            ),
                        ),
                        saving: false,
                        ask: Ask::Finish(Outcome::PriorValue(prior_text)),
                    },
                ),
            ),
            _ => Err(Error::AdHoc("The answer of the store does not fit the step.")),
        },
        Progress::DropdownType { column_oid: _, values } => match answer {
            Answer::Rows(rows) => dropdown_after_type(values, &rows),
            _ => Err(Error::AdHoc("The answer of the store does not fit the step.")),
        },
        Progress::DropdownPrior { column_type, values } => match answer {
            Answer::Rows(rows) => dropdown_after_prior(column_type, values, &rows),
            _ => Err(Error::AdHoc("The answer of the store does not fit the step.")),
        },
        Progress::Done => Err(Error::AdHoc("The answer of the store does not fit the step.")),
    }
}

/// Every edit of a column that exists comes to the rebuilding of the views
/// of the table that owns the column, at once or after the new type was
/// recorded; and where the primary keys then reference each other in a
/// circle, the action ends there with `SchemaCycle` and no further step.
pub proof fn lemma_edit_refuses_circle(
    column_oid: i64,
    owner: i64,
    prior: MetadataColumnType,
    draft: ColumnDraft,
    clone_oid: i64,
    new_oid: i64,
    rows: Vec<Vec<SqlValue>>,
    snapshotted: (Progress, Step),
    retyped: Result<(Progress, Step), Error>,
    rebuilt: Result<(Progress, Step), Error>,
)
    requires
        edit_snapshot_post(column_oid, owner, prior, draft, clone_oid, snapshotted),
        advance_post(snapshotted.0, Answer::Id(new_oid), retyped),
        edges_of(rows@) is Some,
        walk(
            edges_of(rows@)->Some_0,
            owner,
            Seq::empty(),
            walk_depth(edges_of(rows@)->Some_0.len()),
        ) is None,
        snapshotted.0 is Rebuild ==> advance_post(snapshotted.0, Answer::Rows(rows), rebuilt),
        snapshotted.0 is EditRetyped ==> retyped is Ok && advance_post(
            retyped->Ok_0.0,
            Answer::Rows(rows),
            rebuilt,
        ),
    ensures
        snapshotted.0 is Rebuild || snapshotted.0 is EditRetyped,
        rebuilt == Err::<(Progress, Step), Error>(Error::SchemaCycle),
{
}

} // verus!
