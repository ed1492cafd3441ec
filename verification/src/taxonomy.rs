//! A taxonomy as it is built from a canonical declaration: the entries whose
//! guards let them in, and the conversions that the entries give rise to.

use crate::definition::{
    case_names, merged_case_names, merged_errors, merged_foreign_links, merged_links,
    merged_names, names_differ, normalize, normalized, Entry, ForeignLinkSpec, LinkSpec, Section,
    SpecError, TaxonomySpec, TypeNames, VariantSpec,
};
use vstd::prelude::*;

verus! {

/// Whether an entry with this guard is part of the taxonomy: it is unless its
/// guard came out false.
pub open spec fn included(guard: Option<bool>) -> bool {
    guard != Some(false)
}

/// The entries that are part of the taxonomy, in their order.
pub open spec fn kept<T: Entry>(entries: Seq<T>) -> Seq<T>
    decreases entries.len(),
{
    if entries.len() == 0 {
        Seq::empty()
    } else if included(entries.last().guard_spec()) {
        kept(entries.drop_last()).push(entries.last())
    } else {
        kept(entries.drop_last())
    }
}

/// The place of the first entry with the given key, if there is one.
pub open spec fn position<T: Entry>(entries: Seq<T>, key: Seq<char>) -> Option<int>
    decreases entries.len(),
{
    if entries.len() == 0 {
        None
    } else {
        match position(entries.drop_last(), key) {
            Some(at) => Some(at),
            None => if entries.last().key_spec() == key {
                Some(entries.len() - 1)
            } else {
                None
            },
        }
    }
}

/// What `position` finds is the first entry with the key, and it finds one
/// wherever there is one.
pub proof fn lemma_position<T: Entry>(entries: Seq<T>, key: Seq<char>)
    ensures
        match position(entries, key) {
            Some(at) => {
                &&& 0 <= at < entries.len()
                &&& entries[at].key_spec() == key
                &&& forall|k: int| 0 <= k < at ==> entries[k].key_spec() != key
            },
            None => forall|k: int| 0 <= k < entries.len() ==> entries[k].key_spec() != key,
        },
    decreases entries.len(),
{
    if entries.len() > 0 {
        let front = entries.drop_last();
        lemma_position(front, key);
        assert forall|k: int| 0 <= k < front.len() implies front[k] == entries[k] by {}
        match position(front, key) {
            Some(at) => {
                assert(entries[at] == front[at]);
                assert forall|k: int| 0 <= k < at implies entries[k].key_spec() != key by {
                    assert(front[k] == entries[k]);
                }
            },
            None => {
                assert forall|k: int| 0 <= k < front.len() implies entries[k].key_spec()
                    != key by {
                    assert(front[k] == entries[k]);
                }
            },
        }
    }
}

/// The place in `entries` of the entry that `kept` puts at `at`.
pub open spec fn origin<T: Entry>(entries: Seq<T>, at: int) -> int
    decreases entries.len(),
{
    if entries.len() == 0 {
        0
    } else if included(entries.last().guard_spec()) && at == kept(entries.drop_last()).len() {
        entries.len() - 1
    } else {
        origin(entries.drop_last(), at)
    }
}

/// Every kept entry is an entry whose guard lets it in, and kept entries
/// stand in the order in which they were declared.
pub proof fn lemma_kept<T: Entry>(entries: Seq<T>)
    ensures
        kept(entries).len() <= entries.len(),
        forall|k: int|
            0 <= k < kept(entries).len() ==> {
                &&& 0 <= #[trigger] origin(entries, k) < entries.len()
                &&& entries[origin(entries, k)] == kept(entries)[k]
                &&& included(kept(entries)[k].guard_spec())
            },
        forall|j: int, k: int|
            0 <= j < k < kept(entries).len() ==> origin(entries, j) < origin(entries, k),
    decreases entries.len(),
{
    if entries.len() > 0 {
        let front = entries.drop_last();
        lemma_kept(front);
        assert forall|k: int| 0 <= k < kept(entries).len() implies {
            &&& 0 <= #[trigger] origin(entries, k) < entries.len()
            &&& entries[origin(entries, k)] == kept(entries)[k]
            &&& included(kept(entries)[k].guard_spec())
        } by {
            if included(entries.last().guard_spec()) && k == kept(front).len() {
            } else {
                assert(0 <= origin(front, k) < front.len());
                assert(front[origin(front, k)] == entries[origin(front, k)]);
            }
        }
        assert forall|j: int, k: int| 0 <= j < k < kept(entries).len() implies origin(entries, j)
            < origin(entries, k) by {
            assert(0 <= origin(front, j) < front.len());
            if included(entries.last().guard_spec()) && k == kept(front).len() {
            } else {
                assert(0 <= origin(front, k) < front.len());
            }
        }
    }
}

/// Drops the entries whose guards came out false.
pub fn keep<T: Entry>(entries: Vec<T>) -> (out: Vec<T>)
    ensures
        out@ == kept(entries@),
{
    let mut out: Vec<T> = Vec::new();
    let ghost all = entries@;
    for entry in iter: entries
        invariant
            iter.seq() == all,
            out@ == kept(all.take(iter.index() as int)),
    {
        assert(all.take(iter.index() + 1).drop_last() == all.take(iter.index() as int));
        match entry.guard() {
            Some(false) => {},
            _ => {
                out.push(entry);
            },
        }
    }
    assert(all.take(all.len() as int) == all);
    out
}

/// Finds the first entry with the given key.
pub fn find<T: Entry>(entries: &Vec<T>, key: &String) -> (found: Option<usize>)
    ensures
        match found {
            Some(at) => position(entries@, key@) == Some(at as int) && at < entries@.len(),
            None => position(entries@, key@) is None,
        },
{
    for i in 0..entries.len()
        invariant
            position(entries@.take(i as int), key@) is None,
    {
        assert(entries@.take(i + 1).drop_last() == entries@.take(i as int));
        if *entries[i].key() == *key {
            proof {
                lemma_position_of_prefix(entries@, key@, i + 1);
            }
            return Some(i);
        }
    }
    assert(entries@.take(entries@.len() as int) == entries@);
    None
}

/// An entry that is found among the first entries is found among all.
pub proof fn lemma_position_of_prefix<T: Entry>(entries: Seq<T>, key: Seq<char>, n: int)
    requires
        0 <= n <= entries.len(),
        position(entries.take(n), key) is Some,
    ensures
        position(entries, key) == position(entries.take(n), key),
    decreases entries.len() - n,
{
    if n < entries.len() {
        assert(entries.take(n + 1).drop_last() == entries.take(n));
        lemma_position_of_prefix(entries, key, n + 1);
    } else {
        assert(entries.take(n) == entries);
    }
}

/// A taxonomy: the path under which it is declared, the names of its types,
/// and the entries that make up the cases of its kind.
#[derive(Debug, Clone, PartialEq, Eq)]
pub struct Taxonomy {
    pub path: String,
    pub types: TypeNames,
    pub links: Vec<LinkSpec>,
    pub foreign_links: Vec<ForeignLinkSpec>,
    pub errors: Vec<VariantSpec>,
}

impl Taxonomy {
    /// The names of the cases of the taxonomy's kind.
    pub open spec fn case_names(self) -> Seq<Seq<char>> {
        case_names(self.links@, self.foreign_links@, self.errors@)
    }

    /// What holds of every taxonomy that is built from a declaration: its
    /// three type names differ, no two cases of its kind have one name, and
    /// no entry is there against its guard.
    pub open spec fn well_formed(self) -> bool {
        &&& names_differ(self.types@)
        &&& self.case_names().no_duplicates()
        &&& forall|i: int| 0 <= i < self.links@.len() ==> included(self.links@[i].guard)
        &&& forall|i: int|
            0 <= i < self.foreign_links@.len() ==> included(self.foreign_links@[i].guard)
        &&& forall|i: int| 0 <= i < self.errors@.len() ==> included(self.errors@[i].guard)
    }
}

impl Taxonomy {
    /// Lists the names of the cases of the taxonomy's kind: the case for
    /// plain messages, then the cases of the links, of the foreign links and
    /// the declared cases.
    pub fn cases(&self) -> (names: Vec<String>)
        ensures
            names@.len() == self.case_names().len(),
            forall|k: int| 0 <= k < names@.len() ==> names@[k]@ == self.case_names()[k],
    {
        let mut names: Vec<String> = Vec::new();
        names.push("Msg".to_owned());
        let links = self.links.len();
        let foreign_links = self.foreign_links.len();
        for i in 0..links
            invariant
                links == self.links@.len(),
                names@.len() == 1 + i,
                forall|k: int| 0 <= k < names@.len() ==> names@[k]@ == self.case_names()[k],
        {
            names.push(self.links[i].variant.clone());
        }
        for i in 0..foreign_links
            invariant
                links == self.links@.len(),
                foreign_links == self.foreign_links@.len(),
                names@.len() == 1 + links + i,
                forall|k: int| 0 <= k < names@.len() ==> names@[k]@ == self.case_names()[k],
        {
            names.push(self.foreign_links[i].variant.clone());
        }
        for i in 0..self.errors.len()
            invariant
                links == self.links@.len(),
                foreign_links == self.foreign_links@.len(),
                names@.len() == 1 + links + foreign_links + i,
                forall|k: int| 0 <= k < names@.len() ==> names@[k]@ == self.case_names()[k],
        {
            names.push(self.errors[i].name.clone());
        }
        names
    }
}

/// Whether `taxonomy` is what a canonical declaration, made under `path`,
/// gives: the names of the declaration, and of each sort of entry those that
/// the guards let in.
pub open spec fn synthesized(path: String, spec: TaxonomySpec, taxonomy: Taxonomy) -> bool {
    &&& taxonomy.path == path
    &&& taxonomy.types == spec.types
    &&& taxonomy.links@ == kept(spec.links@)
    &&& taxonomy.foreign_links@ == kept(spec.foreign_links@)
    &&& taxonomy.errors@ == kept(spec.errors@)
}

/// Builds the taxonomy that a canonical declaration stands for.
pub fn synthesize(path: String, spec: TaxonomySpec) -> (taxonomy: Taxonomy)
    ensures
        synthesized(path, spec, taxonomy),
{
    Taxonomy {
        path,
        types: spec.types,
        links: keep(spec.links),
        foreign_links: keep(spec.foreign_links),
        errors: keep(spec.errors),
    }
}

/// The place, among the case names of the declaration, of the case that the
/// taxonomy has at `at`.
pub open spec fn case_origin(spec: TaxonomySpec, at: int) -> int {
    let links = kept(spec.links@).len();
    let foreign_links = kept(spec.foreign_links@).len();
    if at < 1 {
        0
    } else if at < 1 + links {
        1 + origin(spec.links@, at - 1)
    } else if at < 1 + links + foreign_links {
        1 + spec.links@.len() + origin(spec.foreign_links@, at - 1 - links)
    } else {
        1 + spec.links@.len() + spec.foreign_links@.len() + origin(
            spec.errors@,
            at - 1 - links - foreign_links,
        )
    }
}

/// Leaving entries out keeps the type names apart and the case names
/// different from each other.
pub proof fn lemma_synthesized_is_well_formed(path: String, spec: TaxonomySpec, taxonomy: Taxonomy)
    requires
        synthesized(path, spec, taxonomy),
        names_differ(spec.types@),
        case_names(spec.links@, spec.foreign_links@, spec.errors@).no_duplicates(),
    ensures
        taxonomy.well_formed(),
{
    lemma_kept(spec.links@);
    lemma_kept(spec.foreign_links@);
    lemma_kept(spec.errors@);
    let old_names = case_names(spec.links@, spec.foreign_links@, spec.errors@);
    let new_names = taxonomy.case_names();
    assert forall|i: int| 0 <= i < taxonomy.links@.len() implies included(
        taxonomy.links@[i].guard,
    ) by {
        assert(0 <= origin(spec.links@, i) < spec.links@.len());
    }
    assert forall|i: int| 0 <= i < taxonomy.foreign_links@.len() implies included(
        taxonomy.foreign_links@[i].guard,
    ) by {
        assert(0 <= origin(spec.foreign_links@, i) < spec.foreign_links@.len());
    }
    assert forall|i: int| 0 <= i < taxonomy.errors@.len() implies included(
        taxonomy.errors@[i].guard,
    ) by {
        assert(0 <= origin(spec.errors@, i) < spec.errors@.len());
    }
    assert forall|i: int| 0 <= i < new_names.len() implies {
        &&& 0 <= #[trigger] case_origin(spec, i) < old_names.len()
        &&& old_names[case_origin(spec, i)] == new_names[i]
    } by {
        let links = kept(spec.links@).len();
        let foreign_links = kept(spec.foreign_links@).len();
        if i < 1 {
        } else if i < 1 + links {
            assert(0 <= origin(spec.links@, i - 1) < spec.links@.len());
        } else if i < 1 + links + foreign_links {
            assert(0 <= origin(spec.foreign_links@, i - 1 - links) < spec.foreign_links@.len());
        } else {
            assert(0 <= origin(spec.errors@, i - 1 - links - foreign_links) < spec.errors@.len());
        }
    }
    assert forall|i: int, j: int| 0 <= i < j < new_names.len() implies case_origin(spec, i)
        < case_origin(spec, j) by {
        let links = kept(spec.links@).len();
        let foreign_links = kept(spec.foreign_links@).len();
        assert(0 <= case_origin(spec, i) < old_names.len());
        assert(0 <= case_origin(spec, j) < old_names.len());
        if j < 1 + links {
            if i >= 1 {
                assert(origin(spec.links@, i - 1) < origin(spec.links@, j - 1));
            }
        } else if j < 1 + links + foreign_links {
            assert(0 <= origin(spec.foreign_links@, j - 1 - links) < spec.foreign_links@.len());
            if i < 1 {
            } else if i < 1 + links {
                assert(0 <= origin(spec.links@, i - 1) < spec.links@.len());
            } else {
                assert(origin(spec.foreign_links@, i - 1 - links) < origin(
                    spec.foreign_links@,
                    j - 1 - links,
                ));
            }
        } else {
            assert(0 <= origin(spec.errors@, j - 1 - links - foreign_links) < spec.errors@.len());
            if i < 1 {
            } else if i < 1 + links {
                assert(0 <= origin(spec.links@, i - 1) < spec.links@.len());
            } else if i < 1 + links + foreign_links {
                assert(0 <= origin(spec.foreign_links@, i - 1 - links)
                    < spec.foreign_links@.len());
            } else {
                assert(origin(spec.errors@, i - 1 - links - foreign_links) < origin(
                    spec.errors@,
                    j - 1 - links - foreign_links,
                ));
            }
        }
    }
    assert forall|i: int, j: int|
        0 <= i < new_names.len() && 0 <= j < new_names.len() && i != j implies new_names[i]
        != new_names[j] by {
        assert(0 <= case_origin(spec, i) < old_names.len());
        assert(0 <= case_origin(spec, j) < old_names.len());
        if i < j {
            assert(case_origin(spec, i) < case_origin(spec, j));
        } else {
            assert(case_origin(spec, j) < case_origin(spec, i));
        }
    }
}

/// What declaring a taxonomy gives. A declaration that normalizing accepts
/// gives the taxonomy with the merged names and, of the merged entries, those
/// that their guards let in; one that it refuses is refused for that reason.
pub open spec fn defined(path: String, sections: Seq<Section>, result: Result<Taxonomy, SpecError>) -> bool {
    match result {
        Ok(taxonomy) => {
            &&& names_differ(merged_names(sections))
            &&& merged_case_names(sections).no_duplicates()
            &&& taxonomy.path == path
            &&& taxonomy.types@ == merged_names(sections)
            &&& taxonomy.links@ == kept(merged_links(sections))
            &&& taxonomy.foreign_links@ == kept(merged_foreign_links(sections))
            &&& taxonomy.errors@ == kept(merged_errors(sections))
        },
        Err(error) => normalized(sections, Err(error)),
    }
}

/// Declares a taxonomy under `path`: normalizes the sections and builds the
/// taxonomy from them.
pub fn define(path: String, sections: Vec<Section>) -> (result: Result<Taxonomy, SpecError>)
    ensures
        defined(path, sections@, result),
        result matches Ok(taxonomy) ==> taxonomy.well_formed(),
{
    match normalize(sections) {
        Ok(spec) => {
            let taxonomy = synthesize(path, spec);
            proof {
                lemma_synthesized_is_well_formed(path, spec, taxonomy);
            }
            Ok(taxonomy)
        },
        Err(error) => Err(error),
    }
}

} // verus!
