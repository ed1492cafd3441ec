//! Laws that hold of declarations, conversions and chains.

use crate::capture::capture_enabled;
use crate::definition::{
    declared_names, default_names, merged_errors, merged_foreign_links, merged_links,
    merged_names, ForeignLinkSpec, LinkSpec, Section, TypeNames, VariantSpec,
};
use crate::error::{Cause, Error, ErrorKind, ErrorRef, ForeignError};
use crate::taxonomy::Taxonomy;
use std::sync::Arc;
use vstd::prelude::*;

verus! {

/// Merging goes section by section: the links of two lists of sections, one
/// written after the other, are the links of the first followed by those of
/// the second. The same holds of foreign links and of declared cases.
pub proof fn law_merge_joins(first: Seq<Section>, second: Seq<Section>)
    ensures
        merged_links(first + second) == merged_links(first) + merged_links(second),
        merged_foreign_links(first + second) == merged_foreign_links(first) + merged_foreign_links(
            second,
        ),
        merged_errors(first + second) == merged_errors(first) + merged_errors(second),
    decreases second.len(),
{
    if second.len() == 0 {
        assert(first + second == first);
    } else {
        law_merge_joins(first, second.drop_last());
        assert((first + second).drop_last() == first + second.drop_last());
        assert((first + second).last() == second.last());
    }
}

/// A declaration with one section has the entries of that section, in their
/// order, as its entries of that sort.
pub proof fn law_merge_of_one_block(
    links: Vec<LinkSpec>,
    foreign_links: Vec<ForeignLinkSpec>,
    errors: Vec<VariantSpec>,
)
    ensures
        merged_links(seq![Section::Links(links)]) == links@,
        merged_foreign_links(seq![Section::ForeignLinks(foreign_links)]) == foreign_links@,
        merged_errors(seq![Section::Errors(errors)]) == errors@,
{
    let of_links = seq![Section::Links(links)];
    assert(of_links.drop_last() == Seq::<Section>::empty());
    assert(merged_links(of_links.drop_last()) == Seq::<LinkSpec>::empty());
    let of_foreign_links = seq![Section::ForeignLinks(foreign_links)];
    assert(of_foreign_links.drop_last() == Seq::<Section>::empty());
    assert(merged_foreign_links(of_foreign_links.drop_last()) == Seq::<ForeignLinkSpec>::empty());
    let of_errors = seq![Section::Errors(errors)];
    assert(of_errors.drop_last() == Seq::<Section>::empty());
    assert(merged_errors(of_errors.drop_last()) == Seq::<VariantSpec>::empty());
}

/// Entries that are spread over repeated sections are merged into the list
/// that one section with all of them, in the same order, would give: the
/// sections may be split at any place and each part merged by itself.
pub proof fn law_repeated_blocks_merge_as_one(
    first: Seq<Section>,
    second: Seq<Section>,
    links: Vec<LinkSpec>,
    foreign_links: Vec<ForeignLinkSpec>,
    errors: Vec<VariantSpec>,
)
    requires
        links@ == merged_links(first) + merged_links(second),
        foreign_links@ == merged_foreign_links(first) + merged_foreign_links(second),
        errors@ == merged_errors(first) + merged_errors(second),
    ensures
        merged_links(first + second) == merged_links(seq![Section::Links(links)]),
        merged_foreign_links(first + second) == merged_foreign_links(
            seq![Section::ForeignLinks(foreign_links)],
        ),
        merged_errors(first + second) == merged_errors(seq![Section::Errors(errors)]),
{
    law_merge_joins(first, second);
    law_merge_of_one_block(links, foreign_links, errors);
}

/// A declaration without a section of type names has the default names, as
/// has one whose section of type names is empty, and as has one that
/// declares the default names.
pub proof fn law_default_names(sections: Seq<Section>, explicit: TypeNames)
    requires
        forall|i: int| 0 <= i < sections.len() ==> !(sections[i] is Types),
        explicit@ == default_names(),
    ensures
        merged_names(sections) == default_names(),
        merged_names(seq![Section::Types(None)] + sections) == default_names(),
        merged_names(seq![Section::Types(Some(explicit))] + sections) == default_names(),
        merged_names(sections + seq![Section::Types(Some(explicit))]) == default_names(),
    decreases sections.len(),
{
    let empty = seq![Section::Types(None)];
    let named = seq![Section::Types(Some(explicit))];
    if sections.len() == 0 {
        assert(empty + sections == empty);
        assert(named + sections == named);
        assert(empty.drop_last() == Seq::<Section>::empty());
        assert(named.drop_last() == Seq::<Section>::empty());
    } else {
        law_default_names(sections.drop_last(), explicit);
        assert((empty + sections).drop_last() == empty + sections.drop_last());
        assert((named + sections).drop_last() == named + sections.drop_last());
        assert((empty + sections).last() == sections.last());
        assert((named + sections).last() == sections.last());
    }
    assert((sections + named).last() == named[0]);
}

/// A message made into a kind and the kind into an error gives an error
/// that displays as the message, and describes itself by it.
pub proof fn law_message_round_trip(
    taxonomy: Taxonomy,
    message: Seq<char>,
    kind: ErrorKind,
    error: Error,
)
    requires
        kind matches ErrorKind::Msg(text) && text@ == message,
        taxonomy.starts_chain(kind, error),
    ensures
        error.kind.display_spec() == message,
        error.kind.description_spec() == message,
        error.chain() == seq![ErrorRef::Chained(&error)],
{
}

/// Whether the cause of `error` is one that its kind alone gives: the error
/// stores no cause, and its kind wraps an error from outside that names one.
pub open spec fn cause_is_from_kind(error: Error) -> bool {
    &&& error.state.next_error is None
    &&& error.kind matches ErrorKind::Foreign { variant, error: wrapped }
    &&& wrapped.cause is Some
}

/// Converting an error through a link puts no error into the chain: the new
/// error stands where the old one stood, and the causes behind it are the
/// same. This holds of every linked error whose cause is stored in it.
pub proof fn law_link_keeps_chain(taxonomy: Taxonomy, error: Error)
    requires
        taxonomy.linked(error) is Ok,
        !cause_is_from_kind(error),
    ensures
        taxonomy.linked(error) matches Ok(outer) && {
            &&& outer.state == error.state
            &&& outer.chain().len() == error.chain().len()
            &&& outer.chain() == seq![ErrorRef::Chained(&outer)] + error.chain().skip(1)
            &&& outer.kind.display_spec() == error.kind.display_spec()
            &&& outer.kind.description_spec() == error.kind.description_spec()
        },
{
    let outer = taxonomy.linked(error)->Ok_0;
    assert(outer.chain() =~= seq![ErrorRef::Chained(&outer)] + error.chain().skip(1));
}

/// Converting an error from outside through a foreign link gives an error
/// that stands for the wrapped one: it displays and describes itself as
/// the wrapped error does, its cause is the wrapped error's own cause, and
/// its chain is itself followed by the causes of the wrapped error.
pub proof fn law_foreign_link_chain(taxonomy: Taxonomy, wrapped: ForeignError, made: Error)
    requires
        taxonomy.foreign_kind(wrapped) matches Ok(kind) && taxonomy.starts_chain(kind, made),
    ensures
        made.kind.display_spec() == wrapped.display@,
        made.kind.description_spec() == wrapped.description@,
        made.cause_spec() == ErrorRef::Foreign(&wrapped).cause_spec(),
        made.chain() == seq![ErrorRef::Chained(&made)] + wrapped.chain().skip(1),
        made.chain().len() == wrapped.chain().len(),
{
    assert(made.chain() =~= seq![ErrorRef::Chained(&made)] + wrapped.chain().skip(1));
}

/// A chain keeps the backtrace with which it started. Extend a chain three
/// times, each time in a taxonomy that recognizes the one before: whatever
/// a later extension could have captured, all three errors have the
/// backtrace of the first.
pub proof fn law_capture_once(
    first: Taxonomy,
    second: Taxonomy,
    third: Taxonomy,
    cause: Cause,
    kinds: (ErrorKind, ErrorKind, ErrorKind),
    fresh: (
        Option<Arc<backtrace::Backtrace>>,
        Option<Arc<backtrace::Backtrace>>,
        Option<Arc<backtrace::Backtrace>>,
    ),
)
    requires
        second.recognizes(first.path@),
        third.recognizes(second.path@),
    ensures
        ({
            let one = first.extended(cause, kinds.0, fresh.0);
            let two = second.extended(Cause::Chained(one), kinds.1, fresh.1);
            let three = third.extended(Cause::Chained(two), kinds.2, fresh.2);
            &&& two.state.backtrace == one.state.backtrace
            &&& three.state.backtrace == one.state.backtrace
            &&& first.extracted(cause) is None ==> one.state.backtrace == fresh.0
        }),
{
}

/// With capture switched off nothing is captured: an error that extends a
/// chain has a backtrace only if the error before it offers one.
pub proof fn law_no_capture_when_disabled(
    taxonomy: Taxonomy,
    cause: Cause,
    kind: ErrorKind,
    setting: Option<Seq<char>>,
    error: Error,
)
    requires
        !capture_enabled(setting),
        taxonomy.extends(cause, kind, setting, error),
    ensures
        error.state.backtrace is Some ==> taxonomy.extracted(cause) == Some(error.state.backtrace),
        setting is None || setting == Some(seq!['0']),
{
}

} // verus!
