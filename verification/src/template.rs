//! Templates of descriptions and displays.
//!
//! A template is plain text in which each `{}` stands for the next value of
//! the case's fields. Where the values run out, the text is kept as it is.

use vstd::prelude::*;
use vstd::string::{StrSliceExecFns, StringExecFns};

verus! {

/// Whether a slot for a value opens at the start of `text`.
pub open spec fn slot_ahead(text: Seq<char>) -> bool {
    text.len() >= 2 && text[0] == '{' && text[1] == '}'
}

/// The text that a template gives for a list of values.
pub open spec fn rendered(template: Seq<char>, values: Seq<Seq<char>>) -> Seq<char>
    decreases template.len(),
{
    if template.len() == 0 {
        Seq::empty()
    } else if values.len() > 0 && slot_ahead(template) {
        values[0] + rendered(template.skip(2), values.skip(1))
    } else {
        seq![template[0]] + rendered(template.skip(1), values)
    }
}

/// A list of values as plain text.
pub open spec fn value_texts(values: Seq<String>) -> Seq<Seq<char>> {
    Seq::new(values.len(), |i: int| values[i]@)
}

/// Fills the slots of a template with the values, in order.
pub fn render(template: &str, values: &Vec<String>) -> (text: String)
    ensures
        text@ == rendered(template@, value_texts(values@)),
{
    let len = template.unicode_len();
    let mut text = String::new();
    let mut at: usize = 0;
    let mut used: usize = 0;
    assert(template@.skip(0) == template@);
    assert(value_texts(values@).skip(0) == value_texts(values@));
    assert(text@ + rendered(template@, value_texts(values@)) == rendered(
        template@,
        value_texts(values@),
    ));
    while at < len
        invariant
            len == template@.len(),
            at <= len,
            used <= values@.len(),
            rendered(template@, value_texts(values@)) == text@ + rendered(
                template@.skip(at as int),
                value_texts(values@).skip(used as int),
            ),
        decreases len - at,
    {
        let ghost rest = template@.skip(at as int);
        let ghost left = value_texts(values@).skip(used as int);
        let slot = used < values.len() && at + 1 < len && template.get_char(at) == '{'
            && template.get_char(at + 1) == '}';
        if slot {
            assert(slot_ahead(rest));
            assert(rest.skip(2) == template@.skip(at + 2));
            assert(left.skip(1) == value_texts(values@).skip(used + 1));
            assert(left[0] == values@[used as int]@);
            text.append(values[used].as_str());
            used += 1;
            at += 2;
        } else {
            assert(!(left.len() > 0 && slot_ahead(rest)));
            assert(rest.skip(1) == template@.skip(at + 1));
            assert(template@.subrange(at as int, at + 1) == seq![rest[0]]);
            text.append(template.substring_char(at, at + 1));
            at += 1;
        }
    }
    text
}

} // verus!
