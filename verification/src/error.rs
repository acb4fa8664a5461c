//! What can go wrong while schema files are resolved.

use vstd::prelude::*;

verus! {

/// A fault in the text of a schema file, with the place where the parser met it.
#[derive(Debug, PartialEq, Eq)]
pub struct ParserErrorWithLocation {
    /// What the parser says of the fault.
    pub message: String,
    /// The line of the fault, counted from 1.
    pub line: u32,
    /// The column of the fault, counted from 1.
    pub col: u32,
}

/// The mathematical value of a [`ParserErrorWithLocation`].
pub struct ParserErrorView {
    pub message: Seq<char>,
    pub line: u32,
    pub col: u32,
}

impl View for ParserErrorWithLocation {
    type V = ParserErrorView;

    open spec fn view(&self) -> ParserErrorView {
        ParserErrorView { message: self.message@, line: self.line, col: self.col }
    }
}

/// A fault that the converter found in a parsed file: a type that cannot be
/// resolved, an option that does not exist, a name out of scope.
#[derive(Debug, PartialEq, Eq)]
pub struct ConvertError {
    /// What the converter says of the fault.
    pub message: String,
}

impl View for ConvertError {
    type V = Seq<char>;

    open spec fn view(&self) -> Seq<char> {
        self.message@
    }
}

/// Why a session could not resolve its files.
#[derive(Debug, PartialEq, Eq)]
pub enum Error {
    /// The schema at the canonical path is in none of the directories, which
    /// are listed, and is not built in.
    FileNotFoundInImportPath(String, Vec<String>),
    /// The input file at the filesystem path lies in none of the directories,
    /// which are listed.
    FileMustResideInImportPath(String, Vec<String>),
    /// The file at the filesystem path could not be read, for the reason given.
    CouldNotReadFile(String, String),
    /// The text of a file is not a schema.
    Syntax(ParserErrorWithLocation),
    /// A parsed file could not be made into a descriptor.
    Semantic(ConvertError),
    /// The schema at the canonical path is imported by a file that it imports
    /// itself, directly or through others.
    CyclicImport(String),
    /// An answer came that was not asked for, or a call while an answer was due.
    OutOfTurn,
    /// An error that came up while the file `file` was handled.
    WithFile {
        file: String,
        error: Box<Error>,
    },
}

/// The mathematical value of an [`Error`].
pub enum ErrorView {
    FileNotFoundInImportPath(Seq<char>, Seq<Seq<char>>),
    FileMustResideInImportPath(Seq<char>, Seq<Seq<char>>),
    CouldNotReadFile(Seq<char>, Seq<char>),
    Syntax(ParserErrorView),
    Semantic(Seq<char>),
    CyclicImport(Seq<char>),
    OutOfTurn,
    WithFile { file: Seq<char>, error: Box<ErrorView> },
}

impl View for Error {
    type V = ErrorView;

    open spec fn view(&self) -> ErrorView
        decreases self,
    {
        match self {
            Error::FileNotFoundInImportPath(path, dirs) => ErrorView::FileNotFoundInImportPath(
                path@,
                dirs.deep_view(),
            ),
            Error::FileMustResideInImportPath(path, dirs) => ErrorView::FileMustResideInImportPath(
                path@,
                dirs.deep_view(),
            ),
            Error::CouldNotReadFile(path, reason) => ErrorView::CouldNotReadFile(path@, reason@),
            Error::Syntax(e) => ErrorView::Syntax(e@),
            Error::Semantic(e) => ErrorView::Semantic(e@),
            Error::CyclicImport(path) => ErrorView::CyclicImport(path@),
            Error::OutOfTurn => ErrorView::OutOfTurn,
            Error::WithFile { file, error } => ErrorView::WithFile {
                file: file@,
                error: Box::new((**error).view()),
            },
        }
    }
}

impl ErrorView {
    /// The error that lies under all the files that it is wrapped in.
    pub open spec fn root_cause(self) -> ErrorView
        decreases self,
    {
        match self {
            ErrorView::WithFile { file, error } => (*error).root_cause(),
            _ => self,
        }
    }
}

impl Error {
    /// This error, as one that came up while the file `file` was handled.
    pub fn in_file(self, file: String) -> (wrapped: Error)
        ensures
            wrapped@ == (ErrorView::WithFile { file: file@, error: Box::new(self@) }),
    {
        Error::WithFile { file, error: Box::new(self) }
    }

    /// The error that lies under all the files that this one is wrapped in.
    pub fn root_cause(&self) -> (cause: &Error)
        ensures
            cause@ == self@.root_cause(),
        decreases self,
    {
        match self {
            Error::WithFile { file, error } => error.root_cause(),
            _ => self,
        }
    }
}

} // verus!
