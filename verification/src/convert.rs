//! The conversions of a taxonomy: from a message or a kind to an error, from
//! an error of a linked taxonomy, and from an error from outside.
//!
//! A link takes the linked error over as it is: the new error has the old
//! one's cause and backtrace, and nothing is put in between. A foreign link
//! starts a new chain: the new error has no stored cause, and the wrapped
//! error's own cause is reached through the wrapped error.

use crate::capture::{capture_enabled, setting_view};
use crate::definition::Entry;
use crate::error::{Error, ErrorKind, ForeignError, State};
use crate::taxonomy::{find, lemma_position, position, Taxonomy};
use crate::template::{render, rendered, value_texts};
use vstd::prelude::*;

verus! {

impl ErrorKind {
    /// The kind of a plain message.
    pub fn from_str(message: &str) -> (kind: ErrorKind)
        ensures
            kind matches ErrorKind::Msg(text) && text@ == message@,
    {
        ErrorKind::Msg(message.to_owned())
    }
}

/// A message becomes the kind of a plain message.
impl From<String> for ErrorKind {
    fn from(s: String) -> (kind: ErrorKind) {
        ErrorKind::Msg(s)
    }
}

impl vstd::std_specs::convert::FromSpecImpl<String> for ErrorKind {
    open spec fn obeys_from_spec() -> bool {
        true
    }

    open spec fn from_spec(s: String) -> ErrorKind {
        ErrorKind::Msg(s)
    }
}

/// An error is given up for its kind.
impl From<Error> for ErrorKind {
    fn from(e: Error) -> (kind: ErrorKind) {
        e.kind
    }
}

impl vstd::std_specs::convert::FromSpecImpl<Error> for ErrorKind {
    open spec fn obeys_from_spec() -> bool {
        true
    }

    open spec fn from_spec(e: Error) -> ErrorKind {
        e.kind
    }
}

impl Taxonomy {
    /// Whether `kind` is the declared case at `at` with the given values:
    /// it has the case's name and the values, and as its two texts what the
    /// case's templates give for the values.
    pub open spec fn is_case(self, at: int, payload: Vec<String>, kind: ErrorKind) -> bool {
        &&& kind matches ErrorKind::Custom { variant, payload: held, description, display }
        &&& variant == self.errors@[at].name
        &&& held == payload
        &&& description@ == rendered(self.errors@[at].description@, value_texts(payload@))
        &&& display@ == rendered(self.errors@[at].display@, value_texts(payload@))
    }

    /// Makes the kind of a declared case from the values of its fields.
    /// There is such a kind if the taxonomy declares a case of that name and
    /// the case has as many fields as there are values.
    pub fn kind(&self, name: &str, payload: Vec<String>) -> (kind: Option<ErrorKind>)
        ensures
            match position(self.errors@, name@) {
                Some(at) => if self.errors@[at].fields@.len() == payload@.len() {
                    kind matches Some(made) && self.is_case(at, payload, made)
                } else {
                    kind is None
                },
                None => kind is None,
            },
    {
        let key = name.to_owned();
        proof {
            lemma_position(self.errors@, name@);
        }
        match find(&self.errors, &key) {
            Some(at) => {
                let case = &self.errors[at];
                if case.fields.len() == payload.len() {
                    let description = render(case.description.as_str(), &payload);
                    let display = render(case.display.as_str(), &payload);
                    Some(
                        ErrorKind::Custom {
                            variant: case.name.clone(),
                            payload,
                            description,
                            display,
                        },
                    )
                } else {
                    None
                }
            },
            None => None,
        }
    }

    /// The error that a kind gives where a chain starts, but for its
    /// backtrace: an error of this taxonomy with that kind and no cause.
    pub open spec fn starts_chain(self, kind: ErrorKind, error: Error) -> bool {
        &&& error.taxonomy == self.path
        &&& error.kind == kind
        &&& error.state.next_error is None
    }

    /// Constructs an error from a kind. The error starts a chain: it has no
    /// cause, and a backtrace exactly if the capture setting switches capture
    /// on.
    pub fn from_kind(&self, kind: ErrorKind, setting: Option<&str>) -> (error: Error)
        ensures
            self.starts_chain(kind, error),
            error.state.backtrace is Some <==> capture_enabled(setting_view(setting)),
    {
        Error { taxonomy: self.path.clone(), kind, state: State::fresh(setting) }
    }

    /// Constructs an error from a message.
    pub fn from_str(&self, message: &str, setting: Option<&str>) -> (error: Error)
        ensures
            error.taxonomy == self.path,
            error.kind matches ErrorKind::Msg(text) && text@ == message@,
            error.state.next_error is None,
            error.state.backtrace is Some <==> capture_enabled(setting_view(setting)),
    {
        self.from_kind(ErrorKind::from_str(message), setting)
    }

    /// What a kind of the linked taxonomy at `target` becomes: the case of
    /// the first link to that taxonomy, holding the kind. Where no link leads
    /// there, the kind comes back.
    pub open spec fn linked_kind(self, target: Seq<char>, kind: ErrorKind) -> Result<ErrorKind, ErrorKind> {
        match position(self.links@, target) {
            Some(at) => Ok(ErrorKind::Link { variant: self.links@[at].variant, kind: Box::new(kind) }),
            None => Err(kind),
        }
    }

    /// Converts a kind of the linked taxonomy at `target` into a kind of
    /// this taxonomy.
    pub fn link_kind(&self, target: &String, kind: ErrorKind) -> (result: Result<ErrorKind, ErrorKind>)
        ensures
            result == self.linked_kind(target@, kind),
    {
        proof {
            lemma_position(self.links@, target@);
        }
        match find(&self.links, target) {
            Some(at) => Ok(
                ErrorKind::Link { variant: self.links[at].variant.clone(), kind: Box::new(kind) },
            ),
            None => Err(kind),
        }
    }

    /// What an error of a linked taxonomy becomes: an error of this taxonomy
    /// whose kind holds the old kind, with the old error's state as it was.
    /// Where no link leads to the error's taxonomy, the error comes back.
    pub open spec fn linked(self, error: Error) -> Result<Error, Error> {
        match position(self.links@, error.taxonomy@) {
            Some(at) => Ok(
                Error {
                    taxonomy: self.path,
                    kind: ErrorKind::Link {
                        variant: self.links@[at].variant,
                        kind: Box::new(error.kind),
                    },
                    state: error.state,
                },
            ),
            None => Err(error),
        }
    }

    /// Converts an error of a linked taxonomy into an error of this one. No
    /// error is put into the chain, and the backtrace stays.
    pub fn from_link(&self, error: Error) -> (result: Result<Error, Error>)
        ensures
            result == self.linked(error),
    {
        proof {
            lemma_position(self.links@, error.taxonomy@);
        }
        match find(&self.links, &error.taxonomy) {
            Some(at) => Ok(
                Error {
                    taxonomy: self.path.clone(),
                    kind: ErrorKind::Link {
                        variant: self.links[at].variant.clone(),
                        kind: Box::new(error.kind),
                    },
                    state: error.state,
                },
            ),
            None => Err(error),
        }
    }

    /// The kind that wraps an error from outside: the case of the first
    /// foreign link for the error's type, holding the error. Where there is
    /// no foreign link for the type, the error comes back.
    pub open spec fn foreign_kind(self, error: ForeignError) -> Result<ErrorKind, ForeignError> {
        match position(self.foreign_links@, error.type_path@) {
            Some(at) => Ok(ErrorKind::Foreign { variant: self.foreign_links@[at].variant, error }),
            None => Err(error),
        }
    }

    /// Converts an error from outside into an error of this taxonomy. The
    /// new error starts a chain: it has no stored cause, and a backtrace
    /// exactly if the capture setting switches capture on.
    pub fn from_foreign(&self, error: ForeignError, setting: Option<&str>) -> (result: Result<
        Error,
        ForeignError,
    >)
        ensures
            match self.foreign_kind(error) {
                Ok(kind) => {
                    &&& result matches Ok(made)
                    &&& self.starts_chain(kind, made)
                    &&& made.state.backtrace is Some <==> capture_enabled(setting_view(setting))
                },
                Err(back) => result == Err::<Error, ForeignError>(back),
            },
    {
        proof {
            lemma_position(self.foreign_links@, error.type_path@);
        }
        match find(&self.foreign_links, &error.type_path) {
            Some(at) => {
                let kind = ErrorKind::Foreign {
                    variant: self.foreign_links[at].variant.clone(),
                    error,
                };
                Ok(self.from_kind(kind, setting))
            },
            None => Err(error),
        }
    }
}

} // verus!
