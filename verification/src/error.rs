//! Error kinds and the validation flag of a cell.

use vstd::prelude::*;

verus! {

/// Why an operation was refused or failed.
#[derive(Clone, Debug, PartialEq, Eq)]
pub enum Error {
    /// An invariant of the engine was found broken.
    AdHoc(&'static str),
    /// The storage engine failed; the message is its own.
    Storage(String),
    /// The hosting shell failed; the message is its own.
    Shell(String),
    /// The value given for a JSON column is not well-formed JSON.
    InvalidJson,
    /// The value given for a date column is not an ISO date.
    InvalidDate,
    /// The value given for a timestamp column is not an ISO date and time.
    InvalidTimestamp,
    /// The value given for an integer column is not a number.
    InvalidInteger,
    /// Primary keys reference each other in a circle.
    SchemaCycle,
    /// The cell cannot be written like a primitive value.
    DomainRejected,
    /// The storage engine failed while the state to undo to was recorded.
    SaveInitialization(String),
}

/// The text shown to the user for `e`.
pub open spec fn message_text(e: Error) -> Seq<char> {
    match e {
        Error::AdHoc(m) => m@,
        Error::Storage(m) => "SQLite error occurred: "@ + m@,
        Error::Shell(m) => "Tauri error occurred: "@ + m@,
        Error::InvalidJson => "The provided value is invalid JSON."@,
        Error::InvalidDate => "The provided value cannot be converted into a date."@,
        Error::InvalidTimestamp => "The provided value cannot be converted into a timestamp."@,
        Error::InvalidInteger => "The provided value cannot be converted into an integer."@,
        Error::SchemaCycle => "There is an infinite loop of primary keys that reference each other!"@,
        Error::DomainRejected => "Value of column cannot be updated like a primitive value."@,
        Error::SaveInitialization(m) => "Unable to record the state to undo to: "@ + m@,
    }
}

/// The error `e` when it arises while the state to undo to is recorded: a
/// failure of the store is told apart, any other error stays as it is.
pub open spec fn while_saving_of(e: Error) -> Error {
    match e {
        Error::Storage(m) => Error::SaveInitialization(m),
        other => other,
    }
}

impl Error {
    /// Marks a failure of the store as one that arose while the state to
    /// undo to was recorded.
    pub fn while_saving(self) -> (r: Error)
        ensures
            r == while_saving_of(self),
    {
        match self {
            Error::Storage(m) => Error::SaveInitialization(m),
            other => other,
        }
    }

    /// The text shown to the user.
    pub fn message(&self) -> (r: String)
        ensures
            r@ == message_text(*self),
    {
        match self {
            Error::AdHoc(m) => String::from_str(m),
            Error::Storage(m) => String::from_str("SQLite error occurred: ").concat(m.as_str()),
            Error::Shell(m) => String::from_str("Tauri error occurred: ").concat(m.as_str()),
            Error::InvalidJson => String::from_str("The provided value is invalid JSON."),
            Error::InvalidDate => String::from_str(
                "The provided value cannot be converted into a date.",
            ),
            Error::InvalidTimestamp => String::from_str(
                "The provided value cannot be converted into a timestamp.",
            ),
            Error::InvalidInteger => String::from_str(
                "The provided value cannot be converted into an integer.",
            ),
            Error::SchemaCycle => String::from_str(
                "There is an infinite loop of primary keys that reference each other!",
            ),
            Error::DomainRejected => String::from_str(
                "Value of column cannot be updated like a primitive value.",
            ),
            Error::SaveInitialization(m) => String::from_str(
                "Unable to record the state to undo to: ",
            ).concat(m.as_str()),
        }
    }
}

/// A validation that a cell did not pass.
#[derive(Clone, Debug, PartialEq, Eq)]
pub struct FailedValidation {
    pub description: String,
}

} // verus!
