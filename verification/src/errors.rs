//! The layered error taxonomy.
//!
//! `SchemaError` is reported when a declaration is built into a schema and is
//! accumulated: one build reports every violation at once.  `OptionError` is
//! the field-level leaf, `CommandError` attributes it to a named field, and
//! `Error` adds the top-level command context.  Parse failures are fail-fast:
//! the first failing field aborts the whole parse.

use vstd::prelude::*;

use crate::wire::OptionType;

verus! {

/// A field-level parse failure: the option was absent though required, or its
/// wire tag does not match the field's declared kind.
#[derive(Clone, Copy, Debug, PartialEq, Eq, Structural)]
pub enum OptionError {
    Missing,
    InvalidType { expected: OptionType, actual: OptionType },
}

/// A field-level failure attributed to the failing field, tagged by whether
/// the field is implicit (context-derived) or explicit (wire-supplied).
#[derive(Debug, PartialEq, Eq)]
pub enum CommandError {
    ImplicitOption { option: String, error: OptionError },
    ExplicitOption { option: String, error: OptionError },
}

/// The mathematical model of a [`CommandError`].
pub enum CommandErrorView {
    ImplicitOption { option: Seq<char>, error: OptionError },
    ExplicitOption { option: Seq<char>, error: OptionError },
}

impl View for CommandError {
    type V = CommandErrorView;

    open spec fn view(&self) -> CommandErrorView {
        match self {
            CommandError::ImplicitOption { option, error } => CommandErrorView::ImplicitOption {
                option: option@,
                error: *error,
            },
            CommandError::ExplicitOption { option, error } => CommandErrorView::ExplicitOption {
                option: option@,
                error: *error,
            },
        }
    }
}

/// A dispatch failure: the invocation named no known command, or the named
/// command's parse failed.
#[derive(Debug, PartialEq, Eq)]
pub enum Error {
    InvalidCommand(String),
    CommandError { command: String, error: CommandError },
}

/// The mathematical model of an [`Error`].
pub enum ErrorView {
    InvalidCommand(Seq<char>),
    CommandError { command: Seq<char>, error: CommandErrorView },
}

impl View for Error {
    type V = ErrorView;

    open spec fn view(&self) -> ErrorView {
        match self {
            Error::InvalidCommand(name) => ErrorView::InvalidCommand(name@),
            Error::CommandError { command, error } => ErrorView::CommandError {
                command: command@,
                error: error@,
            },
        }
    }
}

/// A violation found while building a schema from a declaration.  Field-level
/// violations are attributed to the field's resolved name; a field whose name
/// cannot be resolved at all is attributed by position.
#[derive(Debug, PartialEq, Eq)]
pub enum SchemaError {
    CommandNameLength,
    MissingCommandDescription,
    CommandDescriptionLength,
    MissingFieldName { index: usize },
    FieldNameLength { field: String },
    DuplicateFieldName { field: String },
    MissingFieldDescription { field: String },
    FieldDescriptionLength { field: String },
}

/// The mathematical model of a [`SchemaError`].
pub enum SchemaErrorView {
    CommandNameLength,
    MissingCommandDescription,
    CommandDescriptionLength,
    MissingFieldName { index: usize },
    FieldNameLength { field: Seq<char> },
    DuplicateFieldName { field: Seq<char> },
    MissingFieldDescription { field: Seq<char> },
    FieldDescriptionLength { field: Seq<char> },
}

impl View for SchemaError {
    type V = SchemaErrorView;

    open spec fn view(&self) -> SchemaErrorView {
        match self {
            SchemaError::CommandNameLength => SchemaErrorView::CommandNameLength,
            SchemaError::MissingCommandDescription => SchemaErrorView::MissingCommandDescription,
            SchemaError::CommandDescriptionLength => SchemaErrorView::CommandDescriptionLength,
            SchemaError::MissingFieldName { index } => SchemaErrorView::MissingFieldName {
                index: *index,
            },
            SchemaError::FieldNameLength { field } => SchemaErrorView::FieldNameLength {
                field: field@,
            },
            SchemaError::DuplicateFieldName { field } => SchemaErrorView::DuplicateFieldName {
                field: field@,
            },
            SchemaError::MissingFieldDescription { field } => {
                SchemaErrorView::MissingFieldDescription { field: field@ }
            },
            SchemaError::FieldDescriptionLength { field } => {
                SchemaErrorView::FieldDescriptionLength { field: field@ }
            },
        }
    }
}

} // verus!
