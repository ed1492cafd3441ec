//! Marks of what the library's errors can do.

use crate::error::{Cause, Error, ErrorKind, ForeignError};
use vstd::prelude::*;

verus! {

/// An error that can be stored as the cause of another and handed to
/// another thread.
pub trait StdError: Send {

}

impl StdError for Error {

}

impl StdError for ForeignError {

}

impl StdError for Cause {

}

/// A value that can be handed to another thread.
pub trait TraitCheck: Send {

}

impl TraitCheck for ErrorKind {

}

impl TraitCheck for Error {

}

} // verus!
