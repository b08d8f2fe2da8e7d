//! Why an operation of the driver fails.

use crate::volumes::{VolumesError, VolumesErrorView};
use std::io::ErrorKind;
use vstd::prelude::*;
use vstd::string::StringExecFns;

verus! {

/// `std::io::ErrorKind`, which is carried along. Nothing is claimed of it here,
/// and nothing is asked of it but its text.
#[verifier::external_type_specification]
#[verifier::external_body]
pub struct ExErrorKind(std::io::ErrorKind);

/// The text that `{:?}` gives for a kind of I/O error.
pub uninterp spec fn kind_debug(kind: std::io::ErrorKind) -> Seq<char>;

/// Calls the `Debug` impl of `std::io::ErrorKind`, by way of `format!`. All
/// that is claimed is that the text it gives depends on the kind alone; which
/// text that is for which kind is left unsaid.
#[verifier::external_body]
fn debug_of_kind(kind: &ErrorKind) -> (res: String)
    ensures
        res@ == kind_debug(*kind),
{
    format!("{:?}", kind)
}

/// What git had to say when it failed.
#[derive(Debug)]
pub struct GitError {
    /// Its own words.
    pub message: String,
}

impl View for GitError {
    type V = Seq<char>;

    open spec fn view(&self) -> Seq<char> {
        self.message@
    }
}

/// Why an operation fails.
#[derive(Debug)]
pub enum Error {
    /// The store of volumes refused it.
    Volumes(VolumesError),
    /// Git failed.
    Git(GitError),
    /// A directory could not be deleted.
    RemoveDir {
        /// The directory.
        path: String,
        /// What it was to be deleted for.
        operation: String,
        /// What stood in the way.
        kind: ErrorKind,
    },
}

/// An `Error` with its text.
pub enum ErrorView {
    Volumes(VolumesErrorView),
    Git(Seq<char>),
    RemoveDir { path: Seq<char>, operation: Seq<char>, kind: ErrorKind },
}

impl View for Error {
    type V = ErrorView;

    open spec fn view(&self) -> ErrorView {
        match self {
            Error::Volumes(error) => ErrorView::Volumes(error@),
            Error::Git(error) => ErrorView::Git(error@),
            Error::RemoveDir { path, operation, kind } => ErrorView::RemoveDir {
                path: path@,
                operation: operation@,
                kind: *kind,
            },
        }
    }
}

/// The answer about a volume that is not there.
pub open spec fn non_exists(name: Seq<char>) -> ErrorView {
    ErrorView::Volumes(VolumesErrorView::NonExists(name))
}

/// What is said of a directory that could not be deleted for `operation`,
/// where `kind` is what is said of the obstacle.
pub open spec fn removal_text(
    path: Seq<char>,
    operation: Seq<char>,
    kind: Seq<char>,
) -> Seq<char> {
    "Failed deletion of directory "@ + path + " for "@ + operation + ". "@ + kind
}

impl ErrorView {
    /// The error in words.
    pub open spec fn text(self) -> Seq<char> {
        match self {
            ErrorView::Volumes(error) => error.text(),
            ErrorView::Git(message) => message,
            ErrorView::RemoveDir { path, operation, kind } => removal_text(
                path,
                operation,
                kind_debug(kind),
            ),
        }
    }
}

/// What is said of a directory that could not be deleted.
pub fn removal_message(path: &str, operation: &str, kind: &str) -> (res: String)
    ensures
        res@ == removal_text(path@, operation@, kind@),
{
    "Failed deletion of directory ".to_owned().concat(path).concat(" for ").concat(
        operation,
    ).concat(". ").concat(kind)
}

impl Error {
    /// The error in words.
    pub fn message(&self) -> (res: String)
        ensures
            res@ == self@.text(),
    {
        match self {
            Error::Volumes(error) => error.message(),
            Error::Git(error) => error.message.clone(),
            Error::RemoveDir { path, operation, kind } => removal_message(
                path.as_str(),
                operation.as_str(),
                debug_of_kind(kind).as_str(),
            ),
        }
    }
}

impl From<VolumesError> for Error {
    fn from(error: VolumesError) -> (res: Self) {
        Error::Volumes(error)
    }
}

impl vstd::std_specs::convert::FromSpecImpl<VolumesError> for Error {
    open spec fn obeys_from_spec() -> bool {
        true
    }

    open spec fn from_spec(error: VolumesError) -> Self {
        Error::Volumes(error)
    }
}

impl From<GitError> for Error {
    fn from(error: GitError) -> (res: Self) {
        Error::Git(error)
    }
}

impl vstd::std_specs::convert::FromSpecImpl<GitError> for Error {
    open spec fn obeys_from_spec() -> bool {
        true
    }

    open spec fn from_spec(error: GitError) -> Self {
        Error::Git(error)
    }
}

/// The outcome of an operation that gives nothing back.
pub open spec fn done_of(outcome: Result<(), Error>) -> Result<(), ErrorView> {
    match outcome {
        Ok(()) => Ok(()),
        Err(error) => Err(error@),
    }
}

/// The outcome of an operation that gives a path back.
pub open spec fn path_of(outcome: Result<String, Error>) -> Result<Seq<char>, ErrorView> {
    match outcome {
        Ok(path) => Ok(path@),
        Err(error) => Err(error@),
    }
}

} // verus!
