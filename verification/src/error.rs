//! Why a rewrite did not go through.

use vstd::prelude::*;

verus! {

/// The kinds of failure that a rewrite distinguishes.
#[derive(Debug, PartialEq, Eq)]
pub enum Cause {
    /// A table that a column spec names is not in the schema (`column` is
    /// `None`), or the table is there and lacks the named column.
    SchemaMismatch { table: String, column: Option<String> },
    /// The storage engine refused to open, read, write or commit.
    StorageFailure { message: String },
    /// A value that is no text stood where text was expected.
    InvalidInput,
}

/// A `Cause` with its names and messages as plain text.
pub enum CauseModel {
    SchemaMismatch { table: Seq<char>, column: Option<Seq<char>> },
    StorageFailure { message: Seq<char> },
    InvalidInput,
}

impl View for Cause {
    type V = CauseModel;

    open spec fn view(&self) -> CauseModel {
        match self {
            Cause::SchemaMismatch { table, column } => CauseModel::SchemaMismatch {
                table: table@,
                column: match column {
                    Some(name) => Some(name@),
                    None => None,
                },
            },
            Cause::StorageFailure { message } => CauseModel::StorageFailure { message: message@ },
            Cause::InvalidInput => CauseModel::InvalidInput,
        }
    }
}

/// The one error that a rewrite reports. It carries the underlying cause.
#[derive(Debug, PartialEq, Eq)]
pub struct RewriteFailed {
    pub cause: Cause,
}

impl View for RewriteFailed {
    type V = CauseModel;

    open spec fn view(&self) -> CauseModel {
        self.cause@
    }
}

/// The text that `RewriteFailed::describe` gives for a cause.
pub open spec fn description(cause: CauseModel) -> Seq<char> {
    match cause {
        CauseModel::SchemaMismatch { table, column: None } => "no such table: "@ + table,
        CauseModel::SchemaMismatch { table, column: Some(name) } => "no such column: "@ + table
            + "."@ + name,
        CauseModel::StorageFailure { message } => "storage failure: "@ + message,
        CauseModel::InvalidInput => "invalid input: text expected"@,
    }
}

impl RewriteFailed {
    /// A failure with the given cause.
    pub fn new(cause: Cause) -> (failure: Self)
        ensures
            failure.cause == cause,
    {
        RewriteFailed { cause }
    }

    /// One line that says what went wrong.
    pub fn describe(&self) -> (line: String)
        ensures
            line@ == description(self@),
    {
        match &self.cause {
            Cause::SchemaMismatch { table, column: None } => {
                String::from_str("no such table: ").concat(table.as_str())
            },
            Cause::SchemaMismatch { table, column: Some(name) } => {
                String::from_str("no such column: ").concat(table.as_str()).concat(".").concat(
                    name.as_str(),
                )
            },
            Cause::StorageFailure { message } => {
                String::from_str("storage failure: ").concat(message.as_str())
            },
            Cause::InvalidInput => String::from_str("invalid input: text expected"),
        }
    }
}

} // verus!
