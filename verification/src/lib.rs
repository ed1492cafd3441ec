//! Families of chainable errors, described at run time.
//!
//! A family (a *taxonomy*) is declared as a list of sections. The sections are
//! merged into one canonical definition, from which the taxonomy with its
//! table of cases is built. Errors of a taxonomy carry a kind, the error they
//! were caused by, and at most one captured backtrace, which later links of
//! the chain share instead of capturing their own.

pub mod capture;
pub mod chain;
pub mod convert;
pub mod definition;
pub mod error;
pub mod iter;
pub mod laws;
pub mod log_ext;
pub mod quick_main;
pub mod taxonomy;
pub mod template;
pub mod trait_alias;

pub use ::backtrace::Backtrace;
pub use capture::make_backtrace;
pub use chain::{extend, ChainedError, ResultExt};
pub use definition::{
    normalize, Field, ForeignLinkSpec, LinkSpec, Section, SpecError, TaxonomySpec, TypeNames,
    VariantSpec,
};
pub use error::{Cause, ChainResult, Error, ErrorKind, ErrorRef, ForeignError, State};
pub use iter::ErrorChainIter;
pub use quick_main::{display_chain, exit_status, print_quickmain_error, ExitCode};
pub use taxonomy::{define, synthesize, Taxonomy};
pub use trait_alias::{StdError, TraitCheck};
