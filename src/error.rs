use vstd::prelude::*;

verus! {

/// `core::num::ParseIntError`, carried through unchanged.
#[verifier::external_type_specification]
#[verifier::external_body]
pub struct ExParseIntError(core::num::ParseIntError);

/// Failures of the task operations.
#[derive(Clone, Debug, PartialEq, Eq)]
pub enum CrudError {
    /// The title is empty once surrounding white space is ignored.
    EmptyTitle,
    /// No task has the given identifier.
    TaskNotFound,
    /// Another task already has this title.
    DuplicateTitle,
    /// Another task already has this external key.
    DuplicateKey,
    /// A stored status is none of the state names.
    UnknownStatus(String),
    /// The storage underneath failed; the text says how.
    StorageFailure(String),
}

/// Failures of a command.
#[derive(Debug, PartialEq, Eq)]
pub enum CliError {
    /// An identifier argument is not a decimal integer.
    InvalidArgumentFormat(core::num::ParseIntError),
    /// The task operation behind the command failed.
    CrudError(CrudError),
}

} // verus!
