//! The messages by which an error chain is logged: one for the error, one
//! for each of its causes, and one for its backtrace.

use crate::capture::backtrace_text;
use crate::error::{lemma_chain_starts_with_error, Error, ErrorRef};
use vstd::prelude::*;
use vstd::string::StringExecFns;

verus! {

/// One message for each error of `causes`: the lead and what the error
/// displays as.
pub open spec fn cause_messages(causes: Seq<ErrorRef>) -> Seq<Seq<char>> {
    Seq::new(causes.len(), |i: int| "     caused by: "@ + causes[i].display_spec())
}

/// The messages of an error chain: what the error displays as, a message for
/// each of its causes, nearest first, and one for the backtrace where there
/// is one.
pub open spec fn chain_messages(error: Error, backtrace: Option<Seq<char>>) -> Seq<Seq<char>> {
    seq![error.kind.display_spec()] + cause_messages(error.chain().skip(1)) + match backtrace {
        Some(text) => seq!["backtrace: "@ + text],
        None => Seq::empty(),
    }
}

/// A list of messages as plain text.
pub open spec fn message_texts(messages: Seq<String>) -> Seq<Seq<char>> {
    Seq::new(messages.len(), |i: int| messages[i]@)
}

/// Writes the messages of an error chain, with the text of its backtrace
/// where it has one.
pub fn messages(error: &Error, backtrace: Option<&str>) -> (out: Vec<String>)
    ensures
        message_texts(out@) == chain_messages(
            *error,
            match backtrace {
                Some(given) => Some(given@),
                None => None,
            },
        ),
{
    let items = error.iter().collect();
    let mut out: Vec<String> = Vec::new();
    out.push(error.display().to_owned());
    proof {
        lemma_chain_starts_with_error(*error);
    }
    let mut at: usize = 1;
    while at < items.len()
        invariant
            items@ == error.chain(),
            1 <= at <= items@.len(),
            out@.len() == at,
            out@[0]@ == error.kind.display_spec(),
            forall|k: int|
                1 <= k < at ==> out@[k]@ == "     caused by: "@ + items@[k].display_spec(),
        decreases items.len() - at,
    {
        let mut message = String::new();
        message.append("     caused by: ");
        message.append(items[at].display());
        assert(message@ =~= "     caused by: "@ + items@[at as int].display_spec());
        out.push(message);
        at += 1;
    }
    match backtrace {
        Some(given) => {
            let mut message = String::new();
            message.append("backtrace: ");
            message.append(given);
            assert(message@ =~= "backtrace: "@ + given@);
            out.push(message);
        },
        None => {},
    }
    proof {
        let wanted = chain_messages(
            *error,
            match backtrace {
                Some(given) => Some(given@),
                None => None,
            },
        );
        let written = message_texts(out@);
        assert(written.len() == wanted.len());
        assert forall|k: int| 0 <= k < written.len() implies written[k] == wanted[k] by {
            if 1 <= k < items@.len() {
                assert(error.chain().skip(1)[k - 1] == items@[k]);
            }
        }
        assert(written =~= wanted);
    }
    out
}

/// The messages that go to a sink for an error: none where the sink does not
/// take the level at which the error is logged, else those of the chain,
/// with its backtrace where it has one.
pub fn log_messages(enabled: bool, e: &Error) -> (out: Vec<String>)
    ensures
        !enabled ==> out@.len() == 0,
        enabled && e.state.backtrace is None ==> message_texts(out@) == chain_messages(*e, None),
        enabled && e.state.backtrace is Some ==> exists|backtrace: Seq<char>|
            message_texts(out@) == #[trigger] chain_messages(*e, Some(backtrace)),
{
    if !enabled {
        return Vec::new();
    }
    match e.backtrace() {
        Some(backtrace) => {
            let rendered = backtrace_text(backtrace);
            messages(e, Some(rendered.as_str()))
        },
        None => messages(e, None),
    }
}

} // verus!
