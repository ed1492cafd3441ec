//! Errors, their kinds and the chain of causes behind them.

use crate::capture::{capture_enabled, make_backtrace, setting_view};
use std::sync::Arc;
use vstd::prelude::*;

verus! {

/// An error defined outside every taxonomy, as far as the library reads it:
/// the path of its type, how it describes and displays itself, and the error
/// that it names as its own cause.
#[derive(Debug)]
pub struct ForeignError {
    pub type_path: String,
    pub description: String,
    pub display: String,
    pub cause: Option<Box<ForeignError>>,
}

/// The kind of an error: one case of a taxonomy's table of cases.
#[derive(Debug)]
pub enum ErrorKind {
    /// A plain message. Every taxonomy has this case.
    Msg(String),
    /// The kind of an error of a linked taxonomy.
    Link { variant: String, kind: Box<ErrorKind> },
    /// An error from outside, wrapped as a leaf.
    Foreign { variant: String, error: ForeignError },
    /// A case that the taxonomy declares itself, with the values of its
    /// fields and the two texts that its rules gave for them.
    Custom { variant: String, payload: Vec<String>, description: String, display: String },
}

/// What an error shares with the errors it was made from: the error that
/// caused it and the backtrace of the chain.
#[derive(Debug)]
pub struct State {
    /// Next error in the error chain.
    pub next_error: Option<Box<Cause>>,
    /// Backtrace of the chain, captured at most once.
    pub backtrace: Option<Arc<backtrace::Backtrace>>,
}

/// An error of a taxonomy.
#[derive(Debug)]
pub struct Error {
    /// The path of the taxonomy that made the error.
    pub taxonomy: String,
    /// The kind of the error.
    pub kind: ErrorKind,
    /// The error chain and the backtrace.
    pub state: State,
}

/// The outcome of an operation that fails with an error of a taxonomy.
pub type ChainResult<T> = Result<T, Error>;

/// An error stored as the cause of another: either an error of some taxonomy
/// or one from outside.
#[derive(Debug)]
pub enum Cause {
    Chained(Error),
    Foreign(ForeignError),
}

/// A borrowed error of either sort: what walking a chain hands out.
#[derive(Debug, Clone, Copy)]
pub enum ErrorRef<'a> {
    Chained(&'a Error),
    Foreign(&'a ForeignError),
}

impl ErrorKind {
    /// The short description of the kind: the message itself, the linked
    /// kind's or the foreign error's own description, or the text that the
    /// declared rule gave.
    pub open spec fn description_spec(self) -> Seq<char>
        decreases self,
    {
        match self {
            ErrorKind::Msg(s) => s@,
            ErrorKind::Link { variant, kind } => kind.description_spec(),
            ErrorKind::Foreign { variant, error } => error.description@,
            ErrorKind::Custom { variant, payload, description, display } => description@,
        }
    }

    /// What the kind displays as.
    pub open spec fn display_spec(self) -> Seq<char>
        decreases self,
    {
        match self {
            ErrorKind::Msg(s) => s@,
            ErrorKind::Link { variant, kind } => kind.display_spec(),
            ErrorKind::Foreign { variant, error } => error.display@,
            ErrorKind::Custom { variant, payload, description, display } => display@,
        }
    }
}

impl Cause {
    /// The stored error, borrowed.
    pub open spec fn as_ref_spec(self) -> ErrorRef<'static> {
        match self {
            Cause::Chained(e) => ErrorRef::Chained(&e),
            Cause::Foreign(f) => ErrorRef::Foreign(&f),
        }
    }
}

impl Error {
    /// The cause of the error: the stored next error if there is one; else,
    /// for a foreign kind, the cause that the wrapped error names; else none.
    pub open spec fn cause_spec(self) -> Option<ErrorRef<'static>> {
        match self.state.next_error {
            Some(next) => Some(next.as_ref_spec()),
            None => match self.kind {
                ErrorKind::Foreign { variant, error } => match error.cause {
                    Some(inner) => Some(ErrorRef::Foreign(&*inner)),
                    None => None,
                },
                _ => None,
            },
        }
    }
}

impl<'a> ErrorRef<'a> {
    /// A short description of the error.
    pub open spec fn description_spec(self) -> Seq<char> {
        match self {
            ErrorRef::Chained(e) => e.kind.description_spec(),
            ErrorRef::Foreign(f) => f.description@,
        }
    }

    /// What the error displays as.
    pub open spec fn display_spec(self) -> Seq<char> {
        match self {
            ErrorRef::Chained(e) => e.kind.display_spec(),
            ErrorRef::Foreign(f) => f.display@,
        }
    }

    /// The cause of the error.
    pub open spec fn cause_spec(self) -> Option<ErrorRef<'a>> {
        match self {
            ErrorRef::Chained(e) => e.cause_spec(),
            ErrorRef::Foreign(f) => match f.cause {
                Some(inner) => Some(ErrorRef::Foreign(&*inner)),
                None => None,
            },
        }
    }

    /// The error and everything behind it, nearest cause first.
    pub open spec fn chain(self) -> Seq<ErrorRef<'a>> {
        match self {
            ErrorRef::Chained(e) => e.chain(),
            ErrorRef::Foreign(f) => f.chain(),
        }
    }
}

impl ForeignError {
    /// The foreign error and the causes that it names, nearest first.
    pub open spec fn chain(self) -> Seq<ErrorRef<'static>>
        decreases self,
    {
        match self.cause {
            Some(inner) => seq![ErrorRef::Foreign(&self)] + inner.chain(),
            None => seq![ErrorRef::Foreign(&self)],
        }
    }
}

impl Error {
    /// The error and everything behind it, nearest cause first.
    pub open spec fn chain(self) -> Seq<ErrorRef<'static>>
        decreases self,
    {
        match self.state.next_error {
            Some(next) => match *next {
                Cause::Chained(inner) => seq![ErrorRef::Chained(&self)] + inner.chain(),
                Cause::Foreign(f) => seq![ErrorRef::Chained(&self)] + f.chain(),
            },
            None => match self.kind {
                ErrorKind::Foreign { variant, error } => match error.cause {
                    Some(inner) => seq![ErrorRef::Chained(&self)] + inner.chain(),
                    None => seq![ErrorRef::Chained(&self)],
                },
                _ => seq![ErrorRef::Chained(&self)],
            },
        }
    }
}

impl ForeignError {
    /// How the error describes itself.
    pub fn description(&self) -> (text: &str)
        ensures
            text@ == self.description@,
    {
        self.description.as_str()
    }

    /// What the error displays as.
    pub fn display(&self) -> (text: &str)
        ensures
            text@ == self.display@,
    {
        self.display.as_str()
    }

    /// The error that this one names as its cause.
    pub fn cause(&self) -> (cause: Option<ErrorRef<'_>>)
        ensures
            cause == ErrorRef::Foreign(self).cause_spec(),
    {
        match &self.cause {
            Some(inner) => Some(ErrorRef::Foreign(&**inner)),
            None => None,
        }
    }
}

impl ErrorKind {
    /// A short description of the error.
    pub fn description(&self) -> (text: &str)
        ensures
            text@ == self.description_spec(),
        decreases self,
    {
        match self {
            ErrorKind::Msg(s) => s.as_str(),
            ErrorKind::Link { variant: _, kind } => kind.description(),
            ErrorKind::Foreign { variant: _, error } => error.description(),
            ErrorKind::Custom { variant: _, payload: _, description, display: _ } => description.as_str(),
        }
    }

    /// What the error displays as.
    pub fn display(&self) -> (text: &str)
        ensures
            text@ == self.display_spec(),
        decreases self,
    {
        match self {
            ErrorKind::Msg(s) => s.as_str(),
            ErrorKind::Link { variant: _, kind } => kind.display(),
            ErrorKind::Foreign { variant: _, error } => error.display(),
            ErrorKind::Custom { variant: _, payload: _, description: _, display } => display.as_str(),
        }
    }
}

impl State {
    /// The state of an error that starts a chain: no cause, and a backtrace
    /// exactly if the capture setting switches capture on.
    pub fn fresh(setting: Option<&str>) -> (state: State)
        ensures
            state.next_error is None,
            state.backtrace is Some <==> capture_enabled(setting_view(setting)),
    {
        State { next_error: None, backtrace: make_backtrace(setting) }
    }

    /// Returns the inner backtrace if present.
    pub fn backtrace(&self) -> (backtrace: Option<&backtrace::Backtrace>)
        ensures
            backtrace == match self.backtrace {
                Some(shared) => Some(&*shared),
                None => None,
            },
    {
        match &self.backtrace {
            Some(shared) => Some(&**shared),
            None => None,
        }
    }
}

impl Cause {
    /// The stored error, borrowed.
    pub fn borrow(&self) -> (r: ErrorRef<'_>)
        ensures
            r == self.as_ref_spec(),
    {
        match self {
            Cause::Chained(e) => ErrorRef::Chained(e),
            Cause::Foreign(f) => ErrorRef::Foreign(f),
        }
    }
}

impl Error {
    /// Returns the kind of the error.
    pub fn kind(&self) -> (kind: &ErrorKind)
        ensures
            *kind == self.kind,
    {
        &self.kind
    }

    /// Returns the backtrace associated with this error.
    pub fn backtrace(&self) -> (backtrace: Option<&backtrace::Backtrace>)
        ensures
            backtrace == match self.state.backtrace {
                Some(shared) => Some(&*shared),
                None => None,
            },
    {
        self.state.backtrace()
    }

    /// A short description of the error: that of its kind.
    pub fn description(&self) -> (text: &str)
        ensures
            text@ == self.kind.description_spec(),
    {
        self.kind.description()
    }

    /// What the error displays as: what its kind displays as.
    pub fn display(&self) -> (text: &str)
        ensures
            text@ == self.kind.display_spec(),
    {
        self.kind.display()
    }

    /// The cause of the error.
    pub fn cause(&self) -> (cause: Option<ErrorRef<'_>>)
        ensures
            cause == self.cause_spec(),
    {
        match &self.state.next_error {
            Some(next) => Some(next.borrow()),
            None => match &self.kind {
                ErrorKind::Foreign { variant: _, error } => error.cause(),
                _ => None,
            },
        }
    }

    /// Gives up the error for its kind.
    pub fn into_kind(self) -> (kind: ErrorKind)
        ensures
            kind == self.kind,
    {
        self.kind
    }
}

impl<'a> ErrorRef<'a> {
    /// A short description of the error.
    pub fn description(&self) -> (text: &'a str)
        ensures
            text@ == self.description_spec(),
    {
        match self {
            ErrorRef::Chained(e) => e.description(),
            ErrorRef::Foreign(f) => f.description(),
        }
    }

    /// What the error displays as.
    pub fn display(&self) -> (text: &'a str)
        ensures
            text@ == self.display_spec(),
    {
        match self {
            ErrorRef::Chained(e) => e.display(),
            ErrorRef::Foreign(f) => f.display(),
        }
    }

    /// The cause of the error.
    pub fn cause(&self) -> (cause: Option<ErrorRef<'a>>)
        ensures
            cause == self.cause_spec(),
    {
        match self {
            ErrorRef::Chained(e) => e.cause(),
            ErrorRef::Foreign(f) => f.cause(),
        }
    }
}

/// The chain of an error starts with the error itself.
pub proof fn lemma_chain_starts_with_error(error: Error)
    ensures
        error.chain().len() >= 1,
        error.chain()[0] == ErrorRef::Chained(&error),
{
}

/// A chain is its first error followed by the chain of that error's cause.
pub proof fn lemma_chain_unfolds(r: ErrorRef)
    ensures
        r.chain() == match r.cause_spec() {
            Some(next) => seq![r] + next.chain(),
            None => seq![r],
        },
{
}

} // verus!
