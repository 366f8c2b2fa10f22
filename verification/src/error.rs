//! The errors of the runtime, each with a view that replaces its strings by
//! sequences of characters.

use vstd::prelude::*;
use vstd::string::StringExecFns;
use crate::decoded::DecodeError;

verus! {

/// A failure to convert what the decoder handed over.
#[derive(Clone, Debug, PartialEq, Eq)]
pub enum ParseError {
    /// An operator, block type or export kind that the runtime does not
    /// execute, with a description of it.
    UnsupportedOperator(String),
    /// A failure of the decoder itself, passed on unchanged.
    ParseError { message: String, offset: usize },
    /// A structural inconsistency in the decoded data.
    Other(String),
}

/// A conversion failure, with its texts as sequences of characters.
pub enum ParseErrorView {
    UnsupportedOperator(Seq<char>),
    ParseError { message: Seq<char>, offset: usize },
    Other(Seq<char>),
}

impl View for ParseError {
    type V = ParseErrorView;

    open spec fn view(&self) -> ParseErrorView {
        match self {
            ParseError::UnsupportedOperator(s) => ParseErrorView::UnsupportedOperator(s@),
            ParseError::ParseError { message, offset } => ParseErrorView::ParseError {
                message: message@,
                offset: *offset,
            },
            ParseError::Other(s) => ParseErrorView::Other(s@),
        }
    }
}

impl ParseError {
    /// The error that passes a failure of the decoder on.
    pub open spec fn decode(error: DecodeError) -> ParseErrorView {
        ParseErrorView::ParseError { message: error.message@, offset: error.offset }
    }

    /// Passes a failure of the decoder on.
    pub fn from_decode(error: &DecodeError) -> (converted: ParseError)
        ensures
            converted@ == ParseError::decode(*error),
    {
        ParseError::ParseError { message: error.message.clone(), offset: error.offset }
    }

    /// The description or message of the error.
    pub fn message(&self) -> (text: String)
        ensures
            text@ == match self@ {
                ParseErrorView::UnsupportedOperator(s) => s,
                ParseErrorView::ParseError { message, offset } => message,
                ParseErrorView::Other(s) => s,
            },
    {
        match self {
            ParseError::UnsupportedOperator(s) => s.clone(),
            ParseError::ParseError { message, offset: _ } => message.clone(),
            ParseError::Other(s) => s.clone(),
        }
    }
}

/// An abrupt failure of execution. Initialising a module can cause the two
/// out-of-bounds traps; any attempt to run code of a module that failed to
/// initialise causes the third.
#[derive(Clone, Copy, Debug, PartialEq, Eq, Structural)]
pub enum Trap {
    /// A write of `len` bytes at `offset` into a memory of `max` bytes.
    MemoryOutOfBounds { offset: u64, len: u64, max: u64 },
    /// A write of `len` entries at `offset` into a table of `max` entries.
    TableOutOfBounds { offset: u64, len: u64, max: u64 },
    /// The module of the function trapped while it was instantiated.
    FailedInstance,
}

/// A failure to link a module into a store.
#[derive(Clone, Debug, PartialEq, Eq)]
pub enum LinkError {
    /// No value was supplied for the import of this name.
    UnknownImport { module: String, name: String },
    /// The value supplied for the import is of another kind.
    IncompatibleImportKind { module: String, name: String },
    /// The value supplied for the import does not have the declared type.
    IncompatibleImportType { module: String, name: String },
    /// A constant expression could not be evaluated.
    InvalidConstExpr,
}

/// A link failure, with its names as sequences of characters.
pub enum LinkErrorView {
    UnknownImport { module: Seq<char>, name: Seq<char> },
    IncompatibleImportKind { module: Seq<char>, name: Seq<char> },
    IncompatibleImportType { module: Seq<char>, name: Seq<char> },
    InvalidConstExpr,
}

impl View for LinkError {
    type V = LinkErrorView;

    open spec fn view(&self) -> LinkErrorView {
        match self {
            LinkError::UnknownImport { module, name } => LinkErrorView::UnknownImport {
                module: module@,
                name: name@,
            },
            LinkError::IncompatibleImportKind {
                module,
                name,
            } => LinkErrorView::IncompatibleImportKind { module: module@, name: name@ },
            LinkError::IncompatibleImportType {
                module,
                name,
            } => LinkErrorView::IncompatibleImportType { module: module@, name: name@ },
            LinkError::InvalidConstExpr => LinkErrorView::InvalidConstExpr,
        }
    }
}

/// An error of the runtime.
#[derive(Clone, Debug, PartialEq, Eq)]
pub enum Error {
    Trap(Trap),
    Linker(LinkError),
    /// A handle was used with a store other than the one it belongs to.
    InvalidStore,
    Other(String),
}

/// An error of the runtime, with its texts as sequences of characters.
pub enum ErrorView {
    Trap(Trap),
    Linker(LinkErrorView),
    InvalidStore,
    Other(Seq<char>),
}

impl View for Error {
    type V = ErrorView;

    open spec fn view(&self) -> ErrorView {
        match self {
            Error::Trap(trap) => ErrorView::Trap(*trap),
            Error::Linker(error) => ErrorView::Linker(error@),
            Error::InvalidStore => ErrorView::InvalidStore,
            Error::Other(message) => ErrorView::Other(message@),
        }
    }
}

impl Error {
    /// The error with the given message.
    pub fn other(message: &str) -> (error: Error)
        ensures
            error@ == ErrorView::Other(message@),
    {
        Error::Other(String::from_str(message))
    }

    /// The error for a constant expression that cannot be evaluated.
    pub fn invalid_const_expr() -> (error: Error)
        ensures
            error@ == ErrorView::Linker(LinkErrorView::InvalidConstExpr),
    {
        Error::Linker(LinkError::InvalidConstExpr)
    }
}

} // verus!
