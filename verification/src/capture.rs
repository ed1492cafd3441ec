//! The capture-once backtrace protocol: a backtrace is captured where a chain
//! starts, if the capture setting allows it, and shared from then on.

use std::sync::Arc;
use vstd::prelude::*;
use vstd::string::StrSliceExecFns;

verus! {

/// A captured call stack. The library carries it; it never looks inside.
#[verifier::external_type_specification]
#[verifier::external_body]
pub struct ExBacktrace(backtrace::Backtrace);

/// The raw value of the capture setting as a sequence of characters.
pub open spec fn setting_view(setting: Option<&str>) -> Option<Seq<char>> {
    match setting {
        Some(value) => Some(value@),
        None => None,
    }
}

/// Whether a raw value of the capture setting switches capture on: it does
/// unless the setting is absent or is exactly `0`.
pub open spec fn capture_enabled(setting: Option<Seq<char>>) -> bool {
    match setting {
        Some(value) => value != seq!['0'],
        None => false,
    }
}

/// Walks the current call stack with `backtrace::Backtrace::new` and puts the
/// result behind a shared pointer. Nothing is claimed of what was captured.
#[verifier::external_body]
fn capture() -> Arc<backtrace::Backtrace> {
    Arc::new(backtrace::Backtrace::new())
}

/// A second handle on a captured backtrace, made by `Arc::clone`: it points to
/// the same capture, so the two handles have one value.
#[verifier::external_body]
pub(crate) fn share(backtrace: &Arc<backtrace::Backtrace>) -> (shared: Arc<backtrace::Backtrace>)
    ensures
        shared == *backtrace,
{
    Arc::clone(backtrace)
}

/// Writes a captured backtrace out with its `Debug` form. What the text holds
/// depends on the machine and on the directory the process runs in, so
/// nothing is claimed of it.
#[verifier::external_body]
pub(crate) fn backtrace_text(backtrace: &backtrace::Backtrace) -> String {
    format!("{:?}", backtrace)
}

/// Decides from the raw capture setting whether backtraces are captured.
pub fn is_capture_enabled(setting: Option<&str>) -> (enabled: bool)
    ensures
        enabled == capture_enabled(setting_view(setting)),
{
    match setting {
        Some(value) => {
            if value.unicode_len() == 1 {
                let c = value.get_char(0);
                assert(value@ =~= seq![c]);
                c != '0'
            } else {
                assert(value@.len() != seq!['0'].len());
                true
            }
        },
        None => false,
    }
}

/// A backtrace of the current call stack if the capture setting switches
/// capture on, and `None` otherwise.
pub fn make_backtrace(setting: Option<&str>) -> (backtrace: Option<Arc<backtrace::Backtrace>>)
    ensures
        backtrace is Some <==> capture_enabled(setting_view(setting)),
{
    if is_capture_enabled(setting) {
        Some(capture())
    } else {
        None
    }
}

} // verus!
