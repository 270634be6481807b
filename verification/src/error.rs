//! The one failure value of a load.
use vstd::prelude::*;
use vstd::string::StringExecFns;

verus! {

/// What went wrong, by origin.
#[derive(Clone, Copy, Debug, PartialEq, Eq, Structural)]
pub enum ErrorKind {
    /// A kind identifier matched no registered loader.
    Dispatch,
    /// A shared handle could not be acquired.
    Lock,
    /// The content of a descriptor was invalid.
    Content,
    /// A caller-supplied step or combine function failed.
    Step,
}

/// A terminal failure: its origin and a cause for a human to read.
#[derive(Clone, Debug)]
pub struct LoadError {
    pub kind: ErrorKind,
    pub cause: String,
}

/// The mathematical value of a [`LoadError`].
pub struct LoadErrorView {
    pub kind: ErrorKind,
    pub cause: Seq<char>,
}

impl View for LoadError {
    type V = LoadErrorView;

    open spec fn view(&self) -> LoadErrorView {
        LoadErrorView { kind: self.kind, cause: self.cause@ }
    }
}

/// `result` with its error, if it has one, replaced by the error's value.
pub open spec fn with_error_view<T>(result: Result<T, LoadError>) -> Result<T, LoadErrorView> {
    match result {
        Ok(value) => Ok(value),
        Err(e) => Err(e@),
    }
}

impl LoadError {
    /// An error of the given kind with the given cause.
    pub fn new(kind: ErrorKind, cause: &str) -> (e: LoadError)
        ensures
            e@ == (LoadErrorView { kind, cause: cause@ }),
    {
        LoadError { kind, cause: String::from_str(cause) }
    }

    /// A kind identifier matched no registered loader.
    pub fn dispatch(cause: &str) -> (e: LoadError)
        ensures
            e@ == (LoadErrorView { kind: ErrorKind::Dispatch, cause: cause@ }),
    {
        LoadError::new(ErrorKind::Dispatch, cause)
    }

    /// A shared handle could not be acquired.
    pub fn lock(cause: &str) -> (e: LoadError)
        ensures
            e@ == (LoadErrorView { kind: ErrorKind::Lock, cause: cause@ }),
    {
        LoadError::new(ErrorKind::Lock, cause)
    }

    /// The content of a descriptor was invalid.
    pub fn content(cause: &str) -> (e: LoadError)
        ensures
            e@ == (LoadErrorView { kind: ErrorKind::Content, cause: cause@ }),
    {
        LoadError::new(ErrorKind::Content, cause)
    }

    /// A caller-supplied step or combine function failed.
    pub fn step(cause: &str) -> (e: LoadError)
        ensures
            e@ == (LoadErrorView { kind: ErrorKind::Step, cause: cause@ }),
    {
        LoadError::new(ErrorKind::Step, cause)
    }

    /// The origin of the failure.
    pub fn kind(&self) -> (kind: ErrorKind)
        ensures
            kind == self.kind,
    {
        self.kind
    }

    /// The cause, as text.
    pub fn message(&self) -> (text: String)
        ensures
            text@ == self.cause@,
    {
        self.cause.clone()
    }
}

} // verus!
