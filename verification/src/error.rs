//! The failures that the binding reports to its caller.
use vstd::prelude::*;
use vstd::string::StringExecFns;

verus! {

/// A failure of an operation of the binding.
#[derive(Debug, PartialEq, Eq)]
pub enum Error {
    /// The named column family is not open in the database.
    ColumnFamilyDoesNotExist(String),
    /// A column family of that name is open in the database already.
    ColumnFamilyAlreadyExists(String),
    /// The database could not be opened; the engine's account of it.
    OpenError(String),
    /// No replay cursor could be made; the engine's account of it.
    WalIteratorCreationError(String),
    /// A write was not committed; the engine's account of it.
    WriteError(String),
    /// A checkpoint was asked for at the path of the database itself.
    CheckpointInvalidArgument,
    /// The stored value or an operand of an integer merge is not eight bytes
    /// long.
    DecodeError,
}

/// An error as plain values.
pub enum ErrorView {
    ColumnFamilyDoesNotExist(Seq<char>),
    ColumnFamilyAlreadyExists(Seq<char>),
    OpenError(Seq<char>),
    WalIteratorCreationError(Seq<char>),
    WriteError(Seq<char>),
    CheckpointInvalidArgument,
    DecodeError,
}

impl View for Error {
    type V = ErrorView;

    open spec fn view(&self) -> ErrorView {
        match self {
            Error::ColumnFamilyDoesNotExist(name) => ErrorView::ColumnFamilyDoesNotExist(name@),
            Error::ColumnFamilyAlreadyExists(name) => ErrorView::ColumnFamilyAlreadyExists(name@),
            Error::OpenError(detail) => ErrorView::OpenError(detail@),
            Error::WalIteratorCreationError(detail) => ErrorView::WalIteratorCreationError(
                detail@,
            ),
            Error::WriteError(detail) => ErrorView::WriteError(detail@),
            Error::CheckpointInvalidArgument => ErrorView::CheckpointInvalidArgument,
            Error::DecodeError => ErrorView::DecodeError,
        }
    }
}

impl ErrorView {
    /// The message of an error: what went wrong, then a colon and the name or
    /// the engine's account where there is one.
    pub open spec fn message(self) -> Seq<char> {
        match self {
            ErrorView::ColumnFamilyDoesNotExist(name) => "column family does not exist: "@ + name,
            ErrorView::ColumnFamilyAlreadyExists(name) => "column family already exists: "@
                + name,
            ErrorView::OpenError(detail) => "failed to open database: "@ + detail,
            ErrorView::WalIteratorCreationError(detail) => "failed to create wal iterator: "@
                + detail,
            ErrorView::WriteError(detail) => "write failed: "@ + detail,
            ErrorView::CheckpointInvalidArgument =>
                "checkpoint path cannot be the same as the db path"@,
            ErrorView::DecodeError => "invalid integer operand"@,
        }
    }
}

impl Error {
    /// The message of this error, for the caller to read.
    pub fn message(&self) -> (text: String)
        ensures
            text@ == self@.message(),
    {
        match self {
            Error::ColumnFamilyDoesNotExist(name) => {
                String::from_str("column family does not exist: ").concat(name.as_str())
            },
            Error::ColumnFamilyAlreadyExists(name) => {
                String::from_str("column family already exists: ").concat(name.as_str())
            },
            Error::OpenError(detail) => {
                String::from_str("failed to open database: ").concat(detail.as_str())
            },
            Error::WalIteratorCreationError(detail) => {
                String::from_str("failed to create wal iterator: ").concat(detail.as_str())
            },
            Error::WriteError(detail) => {
                String::from_str("write failed: ").concat(detail.as_str())
            },
            Error::CheckpointInvalidArgument => {
                String::from_str("checkpoint path cannot be the same as the db path")
            },
            Error::DecodeError => String::from_str("invalid integer operand"),
        }
    }
}

} // verus!
