//! Extending an error chain: a failed outcome becomes a new error of a
//! taxonomy, with the old error as its cause.
//!
//! The chain keeps one backtrace. Where the old error is an error of the
//! taxonomy itself or of a taxonomy that it links to, the new error takes the
//! old one's backtrace, present or not; only for any other error is the
//! capture setting asked and a backtrace captured.

use crate::capture::{capture_enabled, make_backtrace, setting_view, share};
use crate::error::{Cause, Error, ErrorKind, ForeignError, State};
use crate::taxonomy::{find, position, Taxonomy};
use std::sync::Arc;
use vstd::prelude::*;

verus! {

impl Taxonomy {
    /// Whether errors of the taxonomy at `path` hand their backtrace on to
    /// errors of this taxonomy: they do if it is this taxonomy itself or one
    /// that it links to.
    pub open spec fn recognizes(self, path: Seq<char>) -> bool {
        path == self.path@ || position(self.links@, path) is Some
    }

    /// The backtrace that an error offers to an error of this taxonomy made
    /// from it: that of a recognized error, present or not, and nothing
    /// otherwise.
    pub open spec fn extracted(self, cause: Cause) -> Option<Option<Arc<backtrace::Backtrace>>> {
        match cause {
            Cause::Chained(error) => if self.recognizes(error.taxonomy@) {
                Some(error.state.backtrace)
            } else {
                None
            },
            Cause::Foreign(_) => None,
        }
    }

    /// The error that extends a chain: an error of this taxonomy with the
    /// given kind and `cause` as its cause. Its backtrace is the one that the
    /// cause offers, and `fresh` where it offers none.
    pub open spec fn extended(
        self,
        cause: Cause,
        kind: ErrorKind,
        fresh: Option<Arc<backtrace::Backtrace>>,
    ) -> Error {
        Error {
            taxonomy: self.path,
            kind,
            state: State {
                next_error: Some(Box::new(cause)),
                backtrace: match self.extracted(cause) {
                    Some(backtrace) => backtrace,
                    None => fresh,
                },
            },
        }
    }

    /// Whether `error` extends the chain of `cause` with `kind` under the
    /// given capture setting.
    pub open spec fn extends(
        self,
        cause: Cause,
        kind: ErrorKind,
        setting: Option<Seq<char>>,
        error: Error,
    ) -> bool {
        exists|fresh: Option<Arc<backtrace::Backtrace>>|
            (fresh is Some <==> capture_enabled(setting)) && error == #[trigger] self.extended(
                cause,
                kind,
                fresh,
            )
    }
}

/// What the errors of a taxonomy can be made of and asked for.
pub trait ChainedError: Sized {
    /// Associated kind type.
    type ErrorKind;

    /// Creates an error from its parts.
    fn new(taxonomy: &Taxonomy, kind: Self::ErrorKind, state: State) -> Self;

    /// Returns the backtrace that `e` offers to an error of `taxonomy`.
    fn extract_backtrace(taxonomy: &Taxonomy, e: &Cause) -> Option<Option<Arc<backtrace::Backtrace>>>;
}

impl ChainedError for Error {
    type ErrorKind = ErrorKind;

    fn new(taxonomy: &Taxonomy, kind: ErrorKind, state: State) -> (error: Error)
        ensures
            error == (Error { taxonomy: taxonomy.path, kind, state }),
    {
        Error { taxonomy: taxonomy.path.clone(), kind, state }
    }

    fn extract_backtrace(taxonomy: &Taxonomy, e: &Cause) -> (offered: Option<
        Option<Arc<backtrace::Backtrace>>,
    >)
        ensures
            offered == taxonomy.extracted(*e),
    {
        match e {
            Cause::Chained(error) => {
                let own = error.taxonomy == taxonomy.path;
                if own || find(&taxonomy.links, &error.taxonomy).is_some() {
                    match &error.state.backtrace {
                        Some(backtrace) => Some(Some(share(backtrace))),
                        None => Some(None),
                    }
                } else {
                    None
                }
            },
            Cause::Foreign(_) => None,
        }
    }
}

/// Extends the chain of `cause`: makes the error of `taxonomy` that has the
/// given kind and `cause` as its cause, and the backtrace of the chain.
pub fn extend(taxonomy: &Taxonomy, cause: Cause, kind: ErrorKind, setting: Option<&str>) -> (error:
    Error)
    ensures
        taxonomy.extends(cause, kind, setting_view(setting), error),
        taxonomy.extracted(cause) is None ==> (error.state.backtrace is Some <==> capture_enabled(
            setting_view(setting),
        )),
{
    let backtrace = match Error::extract_backtrace(taxonomy, &cause) {
        Some(offered) => {
            proof {
                let fresh: Option<Arc<backtrace::Backtrace>> = if capture_enabled(
                    setting_view(setting),
                ) {
                    Some(arbitrary())
                } else {
                    None
                };
                assert(fresh is Some <==> capture_enabled(setting_view(setting)));
                assert((Error {
                    taxonomy: taxonomy.path,
                    kind,
                    state: State { next_error: Some(Box::new(cause)), backtrace: offered },
                }) == taxonomy.extended(cause, kind, fresh));
            }
            offered
        },
        None => {
            let fresh = make_backtrace(setting);
            proof {
                assert((Error {
                    taxonomy: taxonomy.path,
                    kind,
                    state: State { next_error: Some(Box::new(cause)), backtrace: fresh },
                }) == taxonomy.extended(cause, kind, fresh));
            }
            fresh
        },
    };
    Error::new(taxonomy, kind, State { next_error: Some(Box::new(cause)), backtrace })
}

/// Additional methods for `Result`, for easy interaction with this crate.
pub trait ResultExt<T, E> {
    /// If the `Result` is an `Err` then `chain_err` evaluates the closure,
    /// which returns the kind of the new error, stores the error of the
    /// `Result` as the cause, then returns the new error of `taxonomy`. For an
    /// `Ok` the closure is not evaluated.
    fn chain_err<F>(self, taxonomy: &Taxonomy, setting: Option<&str>, callback: F) -> Result<
        T,
        Error,
    > where F: FnOnce() -> ErrorKind
        requires
            callback.requires(()),
    ;
}

/// What `chain_err` returns for an outcome whose error, stored as a cause,
/// is `cause`: a success as it is, and for a failure an error that extends
/// the chain with a kind that the callback gave.
pub open spec fn chained<T, F: FnOnce() -> ErrorKind>(
    taxonomy: Taxonomy,
    outcome: Result<T, Cause>,
    setting: Option<Seq<char>>,
    callback: F,
    result: Result<T, Error>,
) -> bool {
    match outcome {
        Ok(value) => result == Ok::<T, Error>(value),
        Err(cause) => {
            &&& result matches Err(error)
            &&& callback.ensures((), error.kind)
            &&& taxonomy.extends(cause, error.kind, setting, error)
            &&& taxonomy.extracted(cause) is None ==> (error.state.backtrace is Some
                <==> capture_enabled(setting))
        },
    }
}

impl<T> ResultExt<T, Cause> for Result<T, Cause> {
    fn chain_err<F>(self, taxonomy: &Taxonomy, setting: Option<&str>, callback: F) -> (result:
        Result<T, Error>) where F: FnOnce() -> ErrorKind
        ensures
            chained(*taxonomy, self, setting_view(setting), callback, result),
    {
        match self {
            Ok(value) => Ok(value),
            Err(cause) => {
                let kind = callback();
                Err(extend(taxonomy, cause, kind, setting))
            },
        }
    }
}

impl<T> ResultExt<T, Error> for Result<T, Error> {
    fn chain_err<F>(self, taxonomy: &Taxonomy, setting: Option<&str>, callback: F) -> (result:
        Result<T, Error>) where F: FnOnce() -> ErrorKind
        ensures
            chained(
                *taxonomy,
                match self {
                    Ok(value) => Ok(value),
                    Err(error) => Err(Cause::Chained(error)),
                },
                setting_view(setting),
                callback,
                result,
            ),
    {
        match self {
            Ok(value) => Ok(value),
            Err(error) => {
                let kind = callback();
                Err(extend(taxonomy, Cause::Chained(error), kind, setting))
            },
        }
    }
}

impl<T> ResultExt<T, ForeignError> for Result<T, ForeignError> {
    fn chain_err<F>(self, taxonomy: &Taxonomy, setting: Option<&str>, callback: F) -> (result:
        Result<T, Error>) where F: FnOnce() -> ErrorKind
        ensures
            chained(
                *taxonomy,
                match self {
                    Ok(value) => Ok(value),
                    Err(error) => Err(Cause::Foreign(error)),
                },
                setting_view(setting),
                callback,
                result,
            ),
    {
        match self {
            Ok(value) => Ok(value),
            Err(error) => {
                let kind = callback();
                Err(extend(taxonomy, Cause::Foreign(error), kind, setting))
            },
        }
    }
}

} // verus!
