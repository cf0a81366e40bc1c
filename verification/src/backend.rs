//! The action journal: every mutation is an [`Action`]; what the store
//! answers to it gives the action that undoes it, kept on one of two stacks.
//!
//! The journal decides, the caller acts: the caller runs an action against
//! the store and hands the store's answer to the journal, which records the
//! inverse and says which notifications to send.

use vstd::prelude::*;
use crate::column::DropdownValue;
use crate::column_type::MetadataColumnType;
use crate::error::Error;

verus! {

/// One mutation of the store, as the user meant it.
#[derive(Clone, Debug, PartialEq, Eq)]
pub enum Action {
    CreateTable { table_name: String },
    DeleteTable { table_oid: i64 },
    RestoreDeletedTable { table_oid: i64 },
    CreateTableColumn {
        table_oid: i64,
        column_name: String,
        column_type: MetadataColumnType,
        column_ordering: Option<i64>,
        column_style: String,
        is_nullable: bool,
        is_unique: bool,
        is_primary_key: bool,
    },
    EditTableColumnMetadata {
        table_oid: i64,
        column_oid: i64,
        column_name: String,
        column_type: MetadataColumnType,
        column_style: String,
        is_nullable: bool,
        is_unique: bool,
        is_primary_key: bool,
    },
    RestoreEditedTableColumnMetadata {
        table_oid: i64,
        column_oid: i64,
        prior_metadata_column_oid: i64,
    },
    EditTableColumnDropdownValues {
        table_oid: i64,
        column_oid: i64,
        dropdown_values: Vec<DropdownValue>,
    },
    DeleteTableColumn { table_oid: i64, column_oid: i64 },
    RestoreDeletedTableColumn { table_oid: i64, column_oid: i64 },
    PushTableRow { table_oid: i64 },
    InsertTableRow { table_oid: i64, row_oid: i64 },
    DeleteTableRow { table_oid: i64, row_oid: i64 },
    RestoreDeletedTableRow { table_oid: i64, row_oid: i64 },
    UpdateTableCellStoredAsPrimitiveValue {
        table_oid: i64,
        column_oid: i64,
        row_oid: i64,
        value: Option<String>,
    },
}

/// What the store answered to an action that it carried out.
#[derive(Clone, Debug, PartialEq, Eq)]
pub enum Outcome {
    /// A flag was set or cleared; there is nothing to hand back.
    Done,
    /// The id of the table, column or row that was created.
    Created(i64),
    /// The id of the trashed clone that keeps a column's prior metadata, or
    /// nothing where there is no such column.
    Edited(Option<i64>),
    /// The dropdown values as they were before they were replaced.
    PriorDropdownValues(Vec<DropdownValue>),
    /// The text of a cell as it was before it was written.
    PriorValue(Option<String>),
}

/// A message to the user interface.
#[derive(Clone, Copy, Debug, PartialEq, Eq, Structural)]
pub enum Notification {
    /// The list of tables changed.
    TableList,
    /// The data or the columns of a table changed.
    TableData(i64),
    /// One row of a table changed.
    TableRow(i64, i64),
}

/// The two stacks of the journal, the last entry of each on top.
pub struct Journal {
    pub reverse: Vec<Action>,
    pub forward: Vec<Action>,
}

/// What a journal holds.
pub struct JournalModel {
    pub reverse: Seq<Action>,
    pub forward: Seq<Action>,
}

impl View for Journal {
    type V = JournalModel;

    open spec fn view(&self) -> JournalModel {
        JournalModel { reverse: self.reverse@, forward: self.forward@ }
    }
}

/// The table that `a` is about; 0 for the creation of a table, which has
/// none yet.
pub open spec fn table_of(a: Action) -> i64 {
    match a {
        Action::CreateTable { .. } => 0,
        Action::DeleteTable { table_oid } => table_oid,
        Action::RestoreDeletedTable { table_oid } => table_oid,
        Action::CreateTableColumn { table_oid, .. } => table_oid,
        Action::EditTableColumnMetadata { table_oid, .. } => table_oid,
        Action::RestoreEditedTableColumnMetadata { table_oid, .. } => table_oid,
        Action::EditTableColumnDropdownValues { table_oid, .. } => table_oid,
        Action::DeleteTableColumn { table_oid, .. } => table_oid,
        Action::RestoreDeletedTableColumn { table_oid, .. } => table_oid,
        Action::PushTableRow { table_oid } => table_oid,
        Action::InsertTableRow { table_oid, .. } => table_oid,
        Action::DeleteTableRow { table_oid, .. } => table_oid,
        Action::RestoreDeletedTableRow { table_oid, .. } => table_oid,
        Action::UpdateTableCellStoredAsPrimitiveValue { table_oid, .. } => table_oid,
    }
}

/// Whether `o` is the kind of answer that the store gives to `a`.
pub open spec fn fits(a: Action, o: Outcome) -> bool {
    match a {
        Action::CreateTable { .. } => o is Created,
        Action::CreateTableColumn { .. } => o is Created,
        Action::PushTableRow { .. } => o is Created,
        Action::InsertTableRow { .. } => o is Created,
        Action::EditTableColumnMetadata { .. } => o is Edited,
        Action::RestoreEditedTableColumnMetadata { .. } => o is Edited,
        Action::EditTableColumnDropdownValues { .. } => o is PriorDropdownValues,
        Action::UpdateTableCellStoredAsPrimitiveValue { .. } => o is PriorValue,
        _ => o is Done,
    }
}

/// The error with which `a` is refused, given what the store answered, or
/// `None` where it is recorded: the store's own error, or an answer of the
/// wrong kind.
pub open spec fn refusal_of(a: Action, outcome: Result<Outcome, Error>) -> Option<Error> {
    match outcome {
        Err(e) => Some(e),
        Ok(o) => if !fits(a, o) {
            Some(Error::AdHoc("The answer of the store does not fit the action."))
        } else {
            None
        },
    }
}

/// The action that undoes `a`, given the answer `o` of the store; `None`
/// where `a` changed nothing or `o` does not fit.
pub open spec fn inverse_of(a: Action, o: Outcome) -> Option<Action> {
    match a {
        Action::CreateTable { .. } => match o {
            Outcome::Created(oid) => Some(Action::DeleteTable { table_oid: oid }),
            _ => None,
        },
        Action::DeleteTable { table_oid } => match o {
            Outcome::Done => Some(Action::RestoreDeletedTable { table_oid }),
            _ => None,
        },
        Action::RestoreDeletedTable { table_oid } => match o {
            Outcome::Done => Some(Action::DeleteTable { table_oid }),
            _ => None,
        },
        Action::CreateTableColumn { table_oid, .. } => match o {
            Outcome::Created(oid) => Some(Action::DeleteTableColumn { table_oid, column_oid: oid }),
            _ => None,
        },
        Action::EditTableColumnMetadata { table_oid, column_oid, .. } => match o {
            Outcome::Edited(Some(clone_oid)) => Some(
                Action::RestoreEditedTableColumnMetadata {
                    table_oid,
                    column_oid,
                    prior_metadata_column_oid: clone_oid,
                },
            ),
            _ => None,
        },
        Action::RestoreEditedTableColumnMetadata { table_oid, column_oid, .. } => match o {
            Outcome::Edited(Some(clone_oid)) => Some(
                Action::RestoreEditedTableColumnMetadata {
                    table_oid,
                    column_oid,
                    prior_metadata_column_oid: clone_oid,
                },
            ),
            _ => None,
        },
        Action::EditTableColumnDropdownValues { table_oid, column_oid, .. } => match o {
            Outcome::PriorDropdownValues(prior) => Some(
                Action::EditTableColumnDropdownValues {
                    table_oid,
                    column_oid,
                    dropdown_values: prior,
                },
            ),
            _ => None,
        },
        Action::DeleteTableColumn { table_oid, column_oid } => match o {
            Outcome::Done => Some(Action::RestoreDeletedTableColumn { table_oid, column_oid }),
            _ => None,
        },
        Action::RestoreDeletedTableColumn { table_oid, column_oid } => match o {
            Outcome::Done => Some(Action::DeleteTableColumn { table_oid, column_oid }),
            _ => None,
        },
        Action::PushTableRow { table_oid } => match o {
            Outcome::Created(oid) => Some(Action::DeleteTableRow { table_oid, row_oid: oid }),
            _ => None,
        },
        Action::InsertTableRow { table_oid, .. } => match o {
            Outcome::Created(oid) => Some(Action::DeleteTableRow { table_oid, row_oid: oid }),
            _ => None,
        },
        Action::DeleteTableRow { table_oid, row_oid } => match o {
            Outcome::Done => Some(Action::RestoreDeletedTableRow { table_oid, row_oid }),
            _ => None,
        },
        Action::RestoreDeletedTableRow { table_oid, row_oid } => match o {
            Outcome::Done => Some(Action::DeleteTableRow { table_oid, row_oid }),
            _ => None,
        },
        Action::UpdateTableCellStoredAsPrimitiveValue { table_oid, column_oid, row_oid, .. } => match o {
            Outcome::PriorValue(prior) => Some(
                Action::UpdateTableCellStoredAsPrimitiveValue {
                    table_oid,
                    column_oid,
                    row_oid,
                    value: prior,
                },
            ),
            _ => None,
        },
    }
}

/// The notifications sent once `a` was carried out with answer `o`: none
/// where nothing changed.
pub open spec fn notifications_of(a: Action, o: Outcome) -> Seq<Notification> {
    match a {
        Action::CreateTable { .. } => match o {
            Outcome::Created(oid) => seq![Notification::TableList, Notification::TableData(oid)],
            _ => Seq::empty(),
        },
        Action::DeleteTable { .. } => seq![Notification::TableList],
        Action::RestoreDeletedTable { .. } => seq![Notification::TableList],
        Action::EditTableColumnMetadata { table_oid, .. } => match o {
            Outcome::Edited(Some(_)) => seq![Notification::TableData(table_oid)],
            _ => Seq::empty(),
        },
        Action::RestoreEditedTableColumnMetadata { table_oid, .. } => match o {
            Outcome::Edited(Some(_)) => seq![Notification::TableData(table_oid)],
            _ => Seq::empty(),
        },
        _ => seq![Notification::TableData(table_of(a))],
    }
}

/// The notifications sent when `a` is refused: the table of a cell whose
/// update failed is shown anew, so that the rejected text leaves the screen.
pub open spec fn failure_notifications_of(a: Action) -> Seq<Notification> {
    match a {
        Action::UpdateTableCellStoredAsPrimitiveValue { table_oid, .. } => seq![
            Notification::TableData(table_oid),
        ],
        _ => Seq::empty(),
    }
}

/// `stack` once the inverse of `a` under `o` is on it.
pub open spec fn recorded(stack: Seq<Action>, a: Action, o: Outcome) -> Seq<Action> {
    match inverse_of(a, o) {
        Some(b) => stack.push(b),
        None => stack,
    }
}

/// The journal after the user's action `a`, to which the store answered
/// `outcome`: refused, it is as before; else the inverse is on the reverse
/// stack and the forward stack is empty.
pub open spec fn after_execute(
    j: JournalModel,
    a: Action,
    outcome: Result<Outcome, Error>,
) -> JournalModel {
    match outcome {
        Ok(o) => if refusal_of(a, outcome) is None {
            JournalModel { reverse: recorded(j.reverse, a, o), forward: Seq::empty() }
        } else {
            j
        },
        Err(_) => j,
    }
}

/// The journal after an undo to which the store answered `outcome`: with an
/// empty reverse stack, or refused, it is as before; else the top of the
/// reverse stack is gone and its inverse is on the forward stack.
pub open spec fn after_undo(j: JournalModel, outcome: Result<Outcome, Error>) -> JournalModel {
    if j.reverse.len() == 0 {
        j
    } else {
        match outcome {
            Ok(o) => if refusal_of(j.reverse.last(), outcome) is None {
                JournalModel {
                    reverse: j.reverse.drop_last(),
                    forward: recorded(j.forward, j.reverse.last(), o),
                }
            } else {
                j
            },
            Err(_) => j,
        }
    }
}

/// The journal after a redo to which the store answered `outcome`: the
/// mirror image of [`after_undo`].
pub open spec fn after_redo(j: JournalModel, outcome: Result<Outcome, Error>) -> JournalModel {
    if j.forward.len() == 0 {
        j
    } else {
        match outcome {
            Ok(o) => if refusal_of(j.forward.last(), outcome) is None {
                JournalModel {
                    reverse: recorded(j.reverse, j.forward.last(), o),
                    forward: j.forward.drop_last(),
                }
            } else {
                j
            },
            Err(_) => j,
        }
    }
}

/// What is sent and returned for `a` and the store's answer.
pub open spec fn report_of(a: Action, outcome: Result<Outcome, Error>) -> (
    Seq<Notification>,
    Result<(), Error>,
) {
    match refusal_of(a, outcome) {
        Some(e) => (failure_notifications_of(a), Err(e)),
        None => (notifications_of(a, outcome->Ok_0), Ok(())),
    }
}

impl Notification {
    /// The name of the event under which the notification is sent.
    pub fn event_name(&self) -> (r: &'static str)
        ensures
            r@ == match *self {
                Notification::TableList => "update-table-list"@,
                Notification::TableData(_) => "update-table-data"@,
                Notification::TableRow(_, _) => "update-table-row"@,
            },
    {
        match self {
            Notification::TableList => "update-table-list",
            Notification::TableData(_) => "update-table-data",
            Notification::TableRow(_, _) => "update-table-row",
        }
    }
}

impl Action {
    /// The table that the action is about; 0 for the creation of a table.
    pub fn table_oid(&self) -> (r: i64)
        ensures
            r == table_of(*self),
    {
        match self {
            Action::CreateTable { .. } => 0,
            Action::DeleteTable { table_oid } => *table_oid,
            Action::RestoreDeletedTable { table_oid } => *table_oid,
            Action::CreateTableColumn { table_oid, .. } => *table_oid,
            Action::EditTableColumnMetadata { table_oid, .. } => *table_oid,
            Action::RestoreEditedTableColumnMetadata { table_oid, .. } => *table_oid,
            Action::EditTableColumnDropdownValues { table_oid, .. } => *table_oid,
            Action::DeleteTableColumn { table_oid, .. } => *table_oid,
            Action::RestoreDeletedTableColumn { table_oid, .. } => *table_oid,
            Action::PushTableRow { table_oid } => *table_oid,
            Action::InsertTableRow { table_oid, .. } => *table_oid,
            Action::DeleteTableRow { table_oid, .. } => *table_oid,
            Action::RestoreDeletedTableRow { table_oid, .. } => *table_oid,
            Action::UpdateTableCellStoredAsPrimitiveValue { table_oid, .. } => *table_oid,
        }
    }

    /// Sorts the store's answer: handed back where the action is recorded
    /// with it, else the error with which the action is refused.
    pub fn refusal(&self, outcome: Result<Outcome, Error>) -> (r: Result<Outcome, Error>)
        ensures
            match refusal_of(*self, outcome) {
                Some(e) => r == Err::<Outcome, Error>(e),
                None => r == outcome && outcome is Ok,
            },
    {
        match outcome {
            Err(e) => Err(e),
            Ok(o) => {
                let accepted: bool = match self {
                    Action::RestoreEditedTableColumnMetadata { .. } => matches!(
                        o,
                        Outcome::Edited(_)
                    ),
                    Action::CreateTable { .. } => matches!(o, Outcome::Created(_)),
                    Action::CreateTableColumn { .. } => matches!(o, Outcome::Created(_)),
                    Action::PushTableRow { .. } => matches!(o, Outcome::Created(_)),
                    Action::InsertTableRow { .. } => matches!(o, Outcome::Created(_)),
                    Action::EditTableColumnMetadata { .. } => matches!(o, Outcome::Edited(_)),
                    Action::EditTableColumnDropdownValues { .. } => matches!(
                        o,
                        Outcome::PriorDropdownValues(_)
                    ),
                    Action::UpdateTableCellStoredAsPrimitiveValue { .. } => matches!(
                        o,
                        Outcome::PriorValue(_)
                    ),
                    _ => matches!(o, Outcome::Done),
                };
                if accepted {
                    Ok(o)
                } else {
                    Err(Error::AdHoc("The answer of the store does not fit the action."))
                }
            },
        }
    }

    /// The notifications to send once the action was carried out.
    pub fn notifications(&self, o: &Outcome) -> (r: Vec<Notification>)
        ensures
            r@ == notifications_of(*self, *o),
    {
        let mut notes: Vec<Notification> = Vec::new();
        match self {
            Action::CreateTable { .. } => {
                match o {
                    Outcome::Created(oid) => {
                        notes.push(Notification::TableList);
                        notes.push(Notification::TableData(*oid));
                    },
                    _ => {},
                }
            },
            Action::DeleteTable { .. } => {
                notes.push(Notification::TableList);
            },
            Action::RestoreDeletedTable { .. } => {
                notes.push(Notification::TableList);
            },
            Action::EditTableColumnMetadata { table_oid, .. } => {
                match o {
                    Outcome::Edited(Some(_)) => {
                        notes.push(Notification::TableData(*table_oid));
                    },
                    _ => {},
                }
            },
            Action::RestoreEditedTableColumnMetadata { table_oid, .. } => {
                match o {
                    Outcome::Edited(Some(_)) => {
                        notes.push(Notification::TableData(*table_oid));
                    },
                    _ => {},
                }
            },
            _ => {
                notes.push(Notification::TableData(self.table_oid()));
            },
        }
        assert(notes@ =~= notifications_of(*self, *o));
        notes
    }

    /// The notifications to send when the action was refused.
    pub fn failure_notifications(&self) -> (r: Vec<Notification>)
        ensures
            r@ == failure_notifications_of(*self),
    {
        let mut notes: Vec<Notification> = Vec::new();
        match self {
            Action::UpdateTableCellStoredAsPrimitiveValue { table_oid, .. } => {
                notes.push(Notification::TableData(*table_oid));
            },
            _ => {},
        }
        assert(notes@ =~= failure_notifications_of(*self));
        notes
    }

    /// The action that undoes this one, given the answer of the store.
    pub fn inverse(self, o: Outcome) -> (r: Option<Action>)
        ensures
            r == inverse_of(self, o),
    {
        match self {
            Action::CreateTable { .. } => match o {
                Outcome::Created(oid) => Some(Action::DeleteTable { table_oid: oid }),
                _ => None,
            },
            Action::DeleteTable { table_oid } => match o {
                Outcome::Done => Some(Action::RestoreDeletedTable { table_oid }),
                _ => None,
            },
            Action::RestoreDeletedTable { table_oid } => match o {
                Outcome::Done => Some(Action::DeleteTable { table_oid }),
                _ => None,
            },
            Action::CreateTableColumn { table_oid, .. } => match o {
                Outcome::Created(oid) => Some(
                    Action::DeleteTableColumn { table_oid, column_oid: oid },
                ),
                _ => None,
            },
            Action::EditTableColumnMetadata { table_oid, column_oid, .. } => match o {
                Outcome::Edited(Some(clone_oid)) => Some(
                    Action::RestoreEditedTableColumnMetadata {
                        table_oid,
                        column_oid,
                        prior_metadata_column_oid: clone_oid,
                    },
                ),
                _ => None,
            },
            Action::RestoreEditedTableColumnMetadata { table_oid, column_oid, .. } => match o {
                Outcome::Edited(Some(clone_oid)) => Some(
                    Action::RestoreEditedTableColumnMetadata {
                        table_oid,
                        column_oid,
                        prior_metadata_column_oid: clone_oid,
                    },
                ),
                _ => None,
            },
            Action::EditTableColumnDropdownValues { table_oid, column_oid, .. } => match o {
                Outcome::PriorDropdownValues(prior) => Some(
                    Action::EditTableColumnDropdownValues {
                        table_oid,
                        column_oid,
                        dropdown_values: prior,
                    },
                ),
                _ => None,
            },
            Action::DeleteTableColumn { table_oid, column_oid } => match o {
                Outcome::Done => Some(Action::RestoreDeletedTableColumn { table_oid, column_oid }),
                _ => None,
            },
            Action::RestoreDeletedTableColumn { table_oid, column_oid } => match o {
                Outcome::Done => Some(Action::DeleteTableColumn { table_oid, column_oid }),
                _ => None,
            },
            Action::PushTableRow { table_oid } => match o {
                Outcome::Created(oid) => Some(Action::DeleteTableRow { table_oid, row_oid: oid }),
                _ => None,
            },
            Action::InsertTableRow { table_oid, .. } => match o {
                Outcome::Created(oid) => Some(Action::DeleteTableRow { table_oid, row_oid: oid }),
                _ => None,
            },
            Action::DeleteTableRow { table_oid, row_oid } => match o {
                Outcome::Done => Some(Action::RestoreDeletedTableRow { table_oid, row_oid }),
                _ => None,
            },
            Action::RestoreDeletedTableRow { table_oid, row_oid } => match o {
                Outcome::Done => Some(Action::DeleteTableRow { table_oid, row_oid }),
                _ => None,
            },
            Action::UpdateTableCellStoredAsPrimitiveValue {
                table_oid,
                column_oid,
                row_oid,
                ..
            } => match o {
                Outcome::PriorValue(prior) => Some(
                    Action::UpdateTableCellStoredAsPrimitiveValue {
                        table_oid,
                        column_oid,
                        row_oid,
                        value: prior,
                    },
                ),
                _ => None,
            },
        }
    }

    /// Records the action, which the caller ran against the store with the
    /// answer `outcome`. Carried out, its inverse goes on the reverse stack
    /// when `is_forward`, else on the forward stack, and the notifications of
    /// the action are returned. Refused, both stacks stay as they are and the
    /// error is returned unchanged.
    pub fn execute(
        self,
        journal: &mut Journal,
        outcome: Result<Outcome, Error>,
        is_forward: bool,
    ) -> (r: (Vec<Notification>, Result<(), Error>))
        ensures
            (r.0@, r.1) == report_of(self, outcome),
            refusal_of(self, outcome) is Some ==> final(journal)@ == old(journal)@,
            refusal_of(self, outcome) is None && is_forward ==> final(journal)@ == (JournalModel {
                reverse: recorded(old(journal)@.reverse, self, outcome->Ok_0),
                forward: old(journal)@.forward,
            }),
            refusal_of(self, outcome) is None && !is_forward ==> final(journal)@ == (JournalModel {
                reverse: old(journal)@.reverse,
                forward: recorded(old(journal)@.forward, self, outcome->Ok_0),
            }),
    {
        match self.refusal(outcome) {
            Err(e) => (self.failure_notifications(), Err(e)),
            Ok(o) => {
                let notes: Vec<Notification> = self.notifications(&o);
                match self.inverse(o) {
                    Some(b) => {
                        if is_forward {
                            journal.reverse.push(b);
                        } else {
                            journal.forward.push(b);
                        }
                    },
                    None => {},
                }
                (notes, Ok(()))
            },
        }
    }
}

impl Journal {
    /// A journal with nothing to undo or redo.
    pub fn new() -> (r: Journal)
        ensures
            r@.reverse.len() == 0,
            r@.forward.len() == 0,
    {
        Journal { reverse: Vec::new(), forward: Vec::new() }
    }

    /// Records the user's action `action`, which the caller ran against the
    /// store with the answer `outcome`, and forgets what could be redone.
    pub fn execute(&mut self, action: Action, outcome: Result<Outcome, Error>) -> (r: (
        Vec<Notification>,
        Result<(), Error>,
    ))
        ensures
            (r.0@, r.1) == report_of(action, outcome),
            final(self)@ == after_execute(old(self)@, action, outcome),
    {
        let r = action.execute(self, outcome, true);
        if r.1.is_ok() {
            self.forward = Vec::new();
        }
        assert(self@.forward =~= after_execute(old(self)@, action, outcome).forward);
        r
    }

    /// The action that an undo would run, if there is one.
    pub fn next_undo(&self) -> (r: Option<&Action>)
        ensures
            r == if self@.reverse.len() == 0 {
                None
            } else {
                Some(&self@.reverse.last())
            },
    {
        let n: usize = self.reverse.len();
        if n == 0 {
            None
        } else {
            Some(&self.reverse[n - 1])
        }
    }

    /// The action that a redo would run, if there is one.
    pub fn next_redo(&self) -> (r: Option<&Action>)
        ensures
            r == if self@.forward.len() == 0 {
                None
            } else {
                Some(&self@.forward.last())
            },
    {
        let n: usize = self.forward.len();
        if n == 0 {
            None
        } else {
            Some(&self.forward[n - 1])
        }
    }

    /// Records that the caller ran the top of the reverse stack against the
    /// store with the answer `outcome`. With nothing to undo, nothing happens.
    pub fn undo(&mut self, outcome: Result<Outcome, Error>) -> (r: (
        Vec<Notification>,
        Result<(), Error>,
    ))
        ensures
            final(self)@ == after_undo(old(self)@, outcome),
            old(self)@.reverse.len() == 0 ==> r.0@ == Seq::<Notification>::empty() && r.1 == Ok::<
                (),
                Error,
            >(()),
            old(self)@.reverse.len() > 0 ==> (r.0@, r.1) == report_of(
                old(self)@.reverse.last(),
                outcome,
            ),
    {
        match self.reverse.pop() {
            None => (Vec::new(), Ok(())),
            Some(a) => {
                match a.refusal(outcome) {
                    Err(e) => {
                        let notes: Vec<Notification> = a.failure_notifications();
                        self.reverse.push(a);
                        assert(self@.reverse =~= old(self)@.reverse);
                        (notes, Err(e))
                    },
                    Ok(o) => {
                        assert(self@.reverse =~= old(self)@.reverse.drop_last());
                        a.execute(self, Ok(o), false)
                    },
                }
            },
        }
    }

    /// Records that the caller ran the top of the forward stack against the
    /// store with the answer `outcome`. With nothing to redo, nothing happens.
    pub fn redo(&mut self, outcome: Result<Outcome, Error>) -> (r: (
        Vec<Notification>,
        Result<(), Error>,
    ))
        ensures
            final(self)@ == after_redo(old(self)@, outcome),
            old(self)@.forward.len() == 0 ==> r.0@ == Seq::<Notification>::empty() && r.1 == Ok::<
                (),
                Error,
            >(()),
            old(self)@.forward.len() > 0 ==> (r.0@, r.1) == report_of(
                old(self)@.forward.last(),
                outcome,
            ),
    {
        match self.forward.pop() {
            None => (Vec::new(), Ok(())),
            Some(a) => {
                match a.refusal(outcome) {
                    Err(e) => {
                        let notes: Vec<Notification> = a.failure_notifications();
                        self.forward.push(a);
                        assert(self@.forward =~= old(self)@.forward);
                        (notes, Err(e))
                    },
                    Ok(o) => {
                        assert(self@.forward =~= old(self)@.forward.drop_last());
                        a.execute(self, Ok(o), true)
                    },
                }
            },
        }
    }
}

/// Whether `a` sets or clears a trash flag, so that its inverse needs nothing
/// from the store.
pub open spec fn is_flag_action(a: Action) -> bool {
    a is DeleteTable || a is RestoreDeletedTable || a is DeleteTableColumn
        || a is RestoreDeletedTableColumn || a is DeleteTableRow || a is RestoreDeletedTableRow
}

/// The inverse of an action that is carried out is recorded, unless the
/// column to edit does not exist.
pub proof fn lemma_carried_out_is_recorded(a: Action, o: Outcome)
    requires
        refusal_of(a, Ok(o)) is None,
        !(o == Outcome::Edited(None)),
    ensures
        inverse_of(a, o) is Some,
{
}

/// What undoes the creation, the trashing or the restoring of a table, a
/// column or a row is an action on a trash flag, and undoing that one gives
/// it back: the two undo each other for ever.
pub proof fn lemma_flag_actions_undo_each_other(a: Action, o: Outcome)
    requires
        refusal_of(a, Ok(o)) is None,
        a is CreateTable || a is CreateTableColumn || a is PushTableRow || a is InsertTableRow
            || is_flag_action(a),
    ensures
        inverse_of(a, o) is Some,
        is_flag_action(inverse_of(a, o)->Some_0),
        refusal_of(inverse_of(a, o)->Some_0, Ok(Outcome::Done)) is None,
        inverse_of(inverse_of(a, o)->Some_0, Outcome::Done) is Some,
        inverse_of(inverse_of(inverse_of(a, o)->Some_0, Outcome::Done)->Some_0, Outcome::Done)
            == inverse_of(a, o),
{
}

/// Undoing what was just executed takes the reverse stack back to where it
/// was, and leaves on the forward stack what redoes it.
pub proof fn lemma_execute_then_undo(j: JournalModel, a: Action, o: Outcome, undone: Outcome)
    requires
        refusal_of(a, Ok(o)) is None,
        inverse_of(a, o) is Some,
        refusal_of(inverse_of(a, o)->Some_0, Ok(undone)) is None,
    ensures
        after_undo(after_execute(j, a, Ok(o)), Ok(undone)).reverse == j.reverse,
        after_undo(after_execute(j, a, Ok(o)), Ok(undone)).forward == recorded(
            Seq::empty(),
            inverse_of(a, o)->Some_0,
            undone,
        ),
{
    let b = inverse_of(a, o)->Some_0;
    assert(j.reverse.push(b).drop_last() =~= j.reverse);
}

/// Execute, undo, redo leaves the journal as execute alone did, for every
/// action that is undone by an action on a trash flag.
pub proof fn lemma_execute_undo_redo(j: JournalModel, a: Action, o: Outcome)
    requires
        refusal_of(a, Ok(o)) is None,
        a is CreateTable || a is CreateTableColumn || a is PushTableRow || a is InsertTableRow
            || is_flag_action(a),
    ensures
        after_redo(
            after_undo(after_execute(j, a, Ok(o)), Ok(Outcome::Done)),
            Ok(Outcome::Done),
        ) == after_execute(j, a, Ok(o)),
{
    lemma_flag_actions_undo_each_other(a, o);
    let b = inverse_of(a, o)->Some_0;
    let c = inverse_of(b, Outcome::Done)->Some_0;
    let executed = after_execute(j, a, Ok(o));
    assert(executed.reverse == j.reverse.push(b));
    assert(executed.reverse.drop_last() =~= j.reverse);
    let undone = after_undo(executed, Ok(Outcome::Done));
    assert(undone.forward =~= seq![c]);
    assert(undone.forward.drop_last() =~= Seq::<Action>::empty());
    let redone = after_redo(undone, Ok(Outcome::Done));
    assert(redone.reverse =~= executed.reverse);
    assert(redone.forward =~= executed.forward);
}

/// The journal after each of `outcomes` was handed to an undo, in turn.
pub open spec fn after_undos(j: JournalModel, outcomes: Seq<Outcome>) -> JournalModel
    decreases outcomes.len(),
{
    if outcomes.len() == 0 {
        j
    } else {
        after_undo(after_undos(j, outcomes.drop_last()), Ok(outcomes.last()))
    }
}

/// Whether each of the `outcomes.len()` undos from `j` is carried out: there
/// is something to undo, and the store's answer fits it.
pub open spec fn undos_carried_out(j: JournalModel, outcomes: Seq<Outcome>) -> bool
    decreases outcomes.len(),
{
    outcomes.len() == 0 || {
        let before = after_undos(j, outcomes.drop_last());
        &&& undos_carried_out(j, outcomes.drop_last())
        &&& before.reverse.len() > 0
        &&& refusal_of(before.reverse.last(), Ok(outcomes.last())) is None
    }
}

/// As many undos as actions were recorded take the reverse stack back to
/// where it was before the first of them.
pub proof fn lemma_undos_unwind(j: JournalModel, outcomes: Seq<Outcome>)
    requires
        undos_carried_out(j, outcomes),
    ensures
        outcomes.len() <= j.reverse.len(),
        after_undos(j, outcomes).reverse == j.reverse.take(j.reverse.len() - outcomes.len()),
    decreases outcomes.len(),
{
    if outcomes.len() == 0 {
        assert(j.reverse.take(j.reverse.len() as int) =~= j.reverse);
    } else {
        lemma_undos_unwind(j, outcomes.drop_last());
        let before = after_undos(j, outcomes.drop_last());
        assert(before.reverse.drop_last() =~= j.reverse.take(j.reverse.len() - outcomes.len()));
    }
}

/// The journal after each of the user's actions of `steps` was carried out
/// with its answer, in turn.
pub open spec fn after_executes(j: JournalModel, steps: Seq<(Action, Outcome)>) -> JournalModel
    decreases steps.len(),
{
    if steps.len() == 0 {
        j
    } else {
        after_execute(after_executes(j, steps.drop_last()), steps.last().0, Ok(steps.last().1))
    }
}

/// Whether each action of `steps` is carried out and leaves an inverse.
pub open spec fn all_recorded(steps: Seq<(Action, Outcome)>) -> bool {
    forall|i: int|
        0 <= i < steps.len() ==> refusal_of(#[trigger] steps[i].0, Ok(steps[i].1)) is None
            && inverse_of(steps[i].0, steps[i].1) is Some
}

/// Actions that are recorded pile their inverses on the reverse stack and
/// leave what was below untouched.
pub proof fn lemma_executes_pile_up(j: JournalModel, steps: Seq<(Action, Outcome)>)
    requires
        all_recorded(steps),
    ensures
        after_executes(j, steps).reverse.len() == j.reverse.len() + steps.len(),
        after_executes(j, steps).reverse.take(j.reverse.len() as int) == j.reverse,
    decreases steps.len(),
{
    if steps.len() == 0 {
        assert(j.reverse.take(j.reverse.len() as int) =~= j.reverse);
    } else {
        assert(all_recorded(steps.drop_last())) by {
            assert forall|i: int| 0 <= i < steps.drop_last().len() implies refusal_of(
                #[trigger] steps.drop_last()[i].0,
                Ok(steps.drop_last()[i].1),
            ) is None && inverse_of(steps.drop_last()[i].0, steps.drop_last()[i].1) is Some by {
                assert(steps.drop_last()[i] == steps[i]);
            }
        }
        lemma_executes_pile_up(j, steps.drop_last());
        let before = after_executes(j, steps.drop_last());
        let last = steps[steps.len() - 1];
        assert(refusal_of(last.0, Ok(last.1)) is None && inverse_of(last.0, last.1) is Some);
        let b = inverse_of(last.0, last.1)->Some_0;
        assert(after_executes(j, steps).reverse == before.reverse.push(b));
        assert(before.reverse.push(b).take(j.reverse.len() as int) =~= before.reverse.take(
            j.reverse.len() as int,
        ));
    }
}

/// After any actions that were recorded, as many undos as there were actions
/// take the reverse stack back to where it was before the first of them.
pub proof fn lemma_executes_then_undos(
    j: JournalModel,
    steps: Seq<(Action, Outcome)>,
    outcomes: Seq<Outcome>,
)
    requires
        all_recorded(steps),
        outcomes.len() == steps.len(),
        undos_carried_out(after_executes(j, steps), outcomes),
    ensures
        after_undos(after_executes(j, steps), outcomes).reverse == j.reverse,
{
    lemma_executes_pile_up(j, steps);
    lemma_undos_unwind(after_executes(j, steps), outcomes);
}

/// Whether the inverse of `a` needs what the store answered: the prior text
/// of a cell, or the prior values of a dropdown.
pub open spec fn carries_answer(a: Action) -> bool {
    a is UpdateTableCellStoredAsPrimitiveValue || a is EditTableColumnDropdownValues
}

/// Execute, undo, redo, each carried out with an inverse, leaves the
/// reverse stack as long as execute alone did, with what was below
/// untouched, and the forward stack empty, whatever the action.
pub proof fn lemma_execute_undo_redo_shape(
    j: JournalModel,
    a: Action,
    o: Outcome,
    undone: Outcome,
    redone: Outcome,
)
    requires
        refusal_of(a, Ok(o)) is None,
        inverse_of(a, o) is Some,
        refusal_of(inverse_of(a, o)->Some_0, Ok(undone)) is None,
        inverse_of(inverse_of(a, o)->Some_0, undone) is Some,
        refusal_of(inverse_of(inverse_of(a, o)->Some_0, undone)->Some_0, Ok(redone)) is None,
        inverse_of(inverse_of(inverse_of(a, o)->Some_0, undone)->Some_0, redone) is Some,
    ensures
        ({
            let after = after_redo(after_undo(after_execute(j, a, Ok(o)), Ok(undone)), Ok(redone));
            &&& after.forward == Seq::<Action>::empty()
            &&& after.reverse == j.reverse.push(
                inverse_of(inverse_of(inverse_of(a, o)->Some_0, undone)->Some_0, redone)->Some_0,
            )
            &&& after.reverse.len() == after_execute(j, a, Ok(o)).reverse.len()
        }),
{
    let b = inverse_of(a, o)->Some_0;
    let c = inverse_of(b, undone)->Some_0;
    let executed = after_execute(j, a, Ok(o));
    assert(executed.reverse == j.reverse.push(b));
    assert(executed.reverse.drop_last() =~= j.reverse);
    let back = after_undo(executed, Ok(undone));
    assert(back.forward =~= seq![c]);
    assert(back.forward.drop_last() =~= Seq::<Action>::empty());
}

/// For the update of a cell and the edit of dropdown values: where the store
/// answers the redo as it answered the execute, execute, undo, redo leaves
/// the journal as execute alone did.
pub proof fn lemma_execute_undo_redo_with_answers(
    j: JournalModel,
    a: Action,
    o: Outcome,
    undone: Outcome,
)
    requires
        carries_answer(a),
        refusal_of(a, Ok(o)) is None,
        refusal_of(inverse_of(a, o)->Some_0, Ok(undone)) is None,
    ensures
        after_redo(after_undo(after_execute(j, a, Ok(o)), Ok(undone)), Ok(o)) == after_execute(
            j,
            a,
            Ok(o),
        ),
{
    let b = inverse_of(a, o)->Some_0;
    let c = inverse_of(b, undone)->Some_0;
    assert(inverse_of(c, o) == Some(b));
    lemma_execute_undo_redo_shape(j, a, o, undone, o);
    let executed = after_execute(j, a, Ok(o));
    let after = after_redo(after_undo(executed, Ok(undone)), Ok(o));
    assert(after.reverse =~= executed.reverse);
    assert(after.forward =~= executed.forward);
}

/// Whether each of the undos from `j` leaves an inverse.
pub open spec fn undos_recorded(j: JournalModel, outcomes: Seq<Outcome>) -> bool
    decreases outcomes.len(),
{
    outcomes.len() == 0 || {
        let before = after_undos(j, outcomes.drop_last());
        &&& undos_recorded(j, outcomes.drop_last())
        &&& before.reverse.len() > 0
        &&& inverse_of(before.reverse.last(), outcomes.last()) is Some
    }
}

/// Undos that are carried out and leave an inverse pile one action each on
/// the forward stack.
pub proof fn lemma_undos_fill_forward(j: JournalModel, outcomes: Seq<Outcome>)
    requires
        undos_carried_out(j, outcomes),
        undos_recorded(j, outcomes),
    ensures
        after_undos(j, outcomes).forward.len() == j.forward.len() + outcomes.len(),
    decreases outcomes.len(),
{
    if outcomes.len() > 0 {
        lemma_undos_fill_forward(j, outcomes.drop_last());
    }
}

/// After `n` actions that were recorded, from a journal with nothing to
/// redo, `n` undos that are carried out and leave an inverse take the
/// reverse stack back to where it was and leave `n` actions to redo.
pub proof fn lemma_executes_then_undos_fill_forward(
    j: JournalModel,
    steps: Seq<(Action, Outcome)>,
    outcomes: Seq<Outcome>,
)
    requires
        j.forward.len() == 0,
        all_recorded(steps),
        outcomes.len() == steps.len(),
        undos_carried_out(after_executes(j, steps), outcomes),
        undos_recorded(after_executes(j, steps), outcomes),
    ensures
        after_undos(after_executes(j, steps), outcomes).reverse == j.reverse,
        after_undos(after_executes(j, steps), outcomes).forward.len() == steps.len(),
{
    lemma_executes_then_undos(j, steps, outcomes);
    lemma_undos_fill_forward(after_executes(j, steps), outcomes);
    if steps.len() > 0 {
        let last = steps[steps.len() - 1];
        assert(refusal_of(last.0, Ok(last.1)) is None);
        assert(after_executes(j, steps).forward.len() == 0);
    }
}

} // verus!
