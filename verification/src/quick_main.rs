//! What a program reports when it ends: its exit status, and for a failure
//! the text of the whole error chain.

use crate::capture::backtrace_text;
use crate::error::{Error, ErrorRef};
use vstd::prelude::*;
use vstd::string::StringExecFns;

verus! {

/// Represents a value that can be used as the exit status of the process.
pub trait ExitCode {
    /// The exit status that the value stands for.
    spec fn code_spec(self) -> i32;

    /// Returns the value to use as the exit status.
    fn code(self) -> (code: i32)
        ensures
            code == self.code_spec(),
    ;
}

impl ExitCode for i32 {
    open spec fn code_spec(self) -> i32 {
        self
    }

    fn code(self) -> (code: i32) {
        self
    }
}

impl ExitCode for () {
    open spec fn code_spec(self) -> i32 {
        0
    }

    fn code(self) -> (code: i32) {
        0
    }
}

/// The exit status of a program that ended with `outcome`: what a success
/// stands for, and 1 for a failure.
pub fn exit_status<T: ExitCode>(outcome: Result<T, Error>) -> (status: i32)
    ensures
        status == match outcome {
            Ok(value) => value.code_spec(),
            Err(_) => 1i32,
        },
{
    match outcome {
        Ok(value) => value.code(),
        Err(_) => 1,
    }
}

/// One line for each error of `causes`: the lead, what the error displays
/// as, and a line feed.
pub open spec fn cause_lines(causes: Seq<ErrorRef>) -> Seq<char>
    decreases causes.len(),
{
    if causes.len() == 0 {
        Seq::empty()
    } else {
        cause_lines(causes.drop_last()) + "Caused by: "@ + causes.last().display_spec() + "\n"@
    }
}

/// The text of an error chain: a line for the error, a line for each of its
/// causes, nearest first, and the text of the backtrace with a line feed
/// where there is one.
pub open spec fn chain_text(error: Error, backtrace: Option<Seq<char>>) -> Seq<char> {
    "Error: "@ + error.kind.display_spec() + "\n"@ + cause_lines(error.chain().skip(1)) + match backtrace {
        Some(text) => text + "\n"@,
        None => Seq::empty(),
    }
}

/// Writes out an error chain, with the text of its backtrace where it has
/// one.
pub fn display_chain(error: &Error, backtrace: Option<&str>) -> (text: String)
    ensures
        text@ == chain_text(
            *error,
            match backtrace {
                Some(given) => Some(given@),
                None => None,
            },
        ),
{
    let items = error.iter().collect();
    let mut text = String::new();
    text.append("Error: ");
    text.append(error.display());
    text.append("\n");
    proof {
        crate::error::lemma_chain_starts_with_error(*error);
        assert(error.chain().skip(1).take(0) =~= Seq::<ErrorRef>::empty());
        assert(text@ =~= "Error: "@ + error.kind.display_spec() + "\n"@);
    }
    let mut at: usize = 1;
    while at < items.len()
        invariant
            items@ == error.chain(),
            1 <= at <= items@.len(),
            text@ == "Error: "@ + error.kind.display_spec() + "\n"@ + cause_lines(
                error.chain().skip(1).take(at - 1),
            ),
        decreases items.len() - at,
    {
        proof {
            let causes = error.chain().skip(1);
            assert(causes.take(at as int).drop_last() == causes.take(at - 1));
            assert(causes.take(at as int).last() == items@[at as int]);
        }
        text.append("Caused by: ");
        text.append(items[at].display());
        text.append("\n");
        at += 1;
    }
    proof {
        let causes = error.chain().skip(1);
        assert(causes.take(causes.len() as int) == causes);
    }
    match backtrace {
        Some(given) => {
            text.append(given);
            text.append("\n");
        },
        None => {},
    }
    text
}

/// The text that is printed for the error with which a program ends: the
/// text of its chain, with its backtrace where it has one.
pub fn print_error_helper(e: &Error) -> (text: String)
    ensures
        e.state.backtrace is None ==> text@ == chain_text(*e, None),
        e.state.backtrace is Some ==> exists|backtrace: Seq<char>|
            text@ == #[trigger] chain_text(*e, Some(backtrace)),
{
    match e.backtrace() {
        Some(backtrace) => {
            let rendered = backtrace_text(backtrace);
            display_chain(e, Some(rendered.as_str()))
        },
        None => display_chain(e, None),
    }
}

/// When a program doesn't terminate successfully, gives the text of the
/// error that is to be printed.
pub fn print_quickmain_error(e: &Error) -> (text: String)
    ensures
        e.state.backtrace is None ==> text@ == chain_text(*e, None),
        e.state.backtrace is Some ==> exists|backtrace: Seq<char>|
            text@ == #[trigger] chain_text(*e, Some(backtrace)),
{
    print_error_helper(e)
}

} // verus!
