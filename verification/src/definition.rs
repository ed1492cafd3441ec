//! How a taxonomy is declared, and how its declaration is brought into one
//! canonical form.
//!
//! A declaration is a list of sections of four sorts: the names of the types,
//! links to other taxonomies, links to errors from outside, and the cases that
//! the taxonomy declares itself. Each sort may be left out and may come more
//! than once. Entries of repeated sections are joined in the order in which
//! they were written; of several sections of type names the last one counts.

use vstd::prelude::*;

verus! {

/// One field of a declared case: its name and the name of its type.
#[derive(Debug, Clone, PartialEq, Eq)]
pub struct Field {
    pub name: String,
    pub ty: String,
}

/// A case that a taxonomy declares itself.
#[derive(Debug, Clone, PartialEq, Eq)]
pub struct VariantSpec {
    pub name: String,
    pub fields: Vec<Field>,
    /// The template of the short description.
    pub description: String,
    /// The template of what the case displays as.
    pub display: String,
    /// The outcome of the condition under which the case is there at all,
    /// where it has one.
    pub guard: Option<bool>,
}

/// Another taxonomy taken in as one case of this one.
#[derive(Debug, Clone, PartialEq, Eq)]
pub struct LinkSpec {
    /// The path of the linked taxonomy.
    pub target: String,
    /// The name of the linked taxonomy's kind type.
    pub target_kind: String,
    /// The name of the case that holds the linked kinds.
    pub variant: String,
    pub guard: Option<bool>,
}

/// An error type from outside, wrapped as one case.
#[derive(Debug, Clone, PartialEq, Eq)]
pub struct ForeignLinkSpec {
    /// The path of the outside error type.
    pub external: String,
    /// The name of the case that holds its errors.
    pub variant: String,
    pub guard: Option<bool>,
}

/// The names of the three types of a taxonomy.
#[derive(Debug, Clone, PartialEq, Eq)]
pub struct TypeNames {
    pub error: String,
    pub kind: String,
    pub result: String,
}

/// The three type names as plain text.
pub struct Names {
    pub error: Seq<char>,
    pub kind: Seq<char>,
    pub result: Seq<char>,
}

impl View for TypeNames {
    type V = Names;

    open spec fn view(&self) -> Names {
        Names { error: self.error@, kind: self.kind@, result: self.result@ }
    }
}

/// What the three sorts of entry have in common: the text by which an entry
/// is found, and the outcome of its guard.
pub trait Entry {
    /// The text by which the entry is found: for a link the path of the
    /// linked taxonomy, for a foreign link the path of the outside type, for
    /// a declared case its name.
    spec fn key_spec(&self) -> Seq<char>;

    /// The outcome of the entry's guard, where it has one.
    spec fn guard_spec(&self) -> Option<bool>;

    fn key(&self) -> (key: &String)
        ensures
            key@ == self.key_spec(),
    ;

    fn guard(&self) -> (guard: Option<bool>)
        ensures
            guard == self.guard_spec(),
    ;
}

impl Entry for LinkSpec {
    open spec fn key_spec(&self) -> Seq<char> {
        self.target@
    }

    open spec fn guard_spec(&self) -> Option<bool> {
        self.guard
    }

    fn key(&self) -> (key: &String) {
        &self.target
    }

    fn guard(&self) -> (guard: Option<bool>) {
        self.guard
    }
}

impl Entry for ForeignLinkSpec {
    open spec fn key_spec(&self) -> Seq<char> {
        self.external@
    }

    open spec fn guard_spec(&self) -> Option<bool> {
        self.guard
    }

    fn key(&self) -> (key: &String) {
        &self.external
    }

    fn guard(&self) -> (guard: Option<bool>) {
        self.guard
    }
}

impl Entry for VariantSpec {
    open spec fn key_spec(&self) -> Seq<char> {
        self.name@
    }

    open spec fn guard_spec(&self) -> Option<bool> {
        self.guard
    }

    fn key(&self) -> (key: &String) {
        &self.name
    }

    fn guard(&self) -> (guard: Option<bool>) {
        self.guard
    }
}

/// One section of a declaration.
#[derive(Debug, Clone, PartialEq, Eq)]
pub enum Section {
    /// The type names; `None` is a section that is there but empty.
    Types(Option<TypeNames>),
    Links(Vec<LinkSpec>),
    ForeignLinks(Vec<ForeignLinkSpec>),
    Errors(Vec<VariantSpec>),
}

/// A declaration in canonical form: one triple of type names and one list of
/// each sort of entry.
#[derive(Debug, Clone, PartialEq, Eq)]
pub struct TaxonomySpec {
    pub types: TypeNames,
    pub links: Vec<LinkSpec>,
    pub foreign_links: Vec<ForeignLinkSpec>,
    pub errors: Vec<VariantSpec>,
}

/// Why a declaration is refused.
#[derive(Debug, Clone, PartialEq, Eq)]
pub enum SpecError {
    /// Two of the three type names are the same.
    ConflictingTypeNames,
    /// Two cases of the kind would have one name; `name` is that of the first
    /// entry that repeats the name of an earlier case.
    DuplicateName { name: String },
}

/// The names that are used where a declaration gives none.
pub open spec fn default_names() -> Names {
    Names { error: "Error"@, kind: "ErrorKind"@, result: "Result"@ }
}

/// What a section adds to the links.
pub open spec fn links_of(section: Section) -> Seq<LinkSpec> {
    match section {
        Section::Links(entries) => entries@,
        _ => Seq::empty(),
    }
}

/// What a section adds to the foreign links.
pub open spec fn foreign_links_of(section: Section) -> Seq<ForeignLinkSpec> {
    match section {
        Section::ForeignLinks(entries) => entries@,
        _ => Seq::empty(),
    }
}

/// What a section adds to the declared cases.
pub open spec fn errors_of(section: Section) -> Seq<VariantSpec> {
    match section {
        Section::Errors(entries) => entries@,
        _ => Seq::empty(),
    }
}

/// The links of all sections, joined in the order of the sections.
pub open spec fn merged_links(sections: Seq<Section>) -> Seq<LinkSpec>
    decreases sections.len(),
{
    if sections.len() == 0 {
        Seq::empty()
    } else {
        merged_links(sections.drop_last()) + links_of(sections.last())
    }
}

/// The foreign links of all sections, joined in the order of the sections.
pub open spec fn merged_foreign_links(sections: Seq<Section>) -> Seq<ForeignLinkSpec>
    decreases sections.len(),
{
    if sections.len() == 0 {
        Seq::empty()
    } else {
        merged_foreign_links(sections.drop_last()) + foreign_links_of(sections.last())
    }
}

/// The declared cases of all sections, joined in the order of the sections.
pub open spec fn merged_errors(sections: Seq<Section>) -> Seq<VariantSpec>
    decreases sections.len(),
{
    if sections.len() == 0 {
        Seq::empty()
    } else {
        merged_errors(sections.drop_last()) + errors_of(sections.last())
    }
}

/// The content of the last section of type names, if there is such a section
/// and it is not empty.
pub open spec fn declared_names(sections: Seq<Section>) -> Option<TypeNames>
    decreases sections.len(),
{
    if sections.len() == 0 {
        None
    } else {
        match sections.last() {
            Section::Types(names) => names,
            _ => declared_names(sections.drop_last()),
        }
    }
}

/// The type names that a declaration ends up with.
pub open spec fn merged_names(sections: Seq<Section>) -> Names {
    match declared_names(sections) {
        Some(names) => names@,
        None => default_names(),
    }
}

/// Whether the three type names differ from each other.
pub open spec fn names_differ(names: Names) -> bool {
    names.error != names.kind && names.error != names.result && names.kind != names.result
}

/// The case names of a list of links.
pub open spec fn link_names(links: Seq<LinkSpec>) -> Seq<Seq<char>> {
    Seq::new(links.len(), |i: int| links[i].variant@)
}

/// The case names of a list of foreign links.
pub open spec fn foreign_link_names(foreign_links: Seq<ForeignLinkSpec>) -> Seq<Seq<char>> {
    Seq::new(foreign_links.len(), |i: int| foreign_links[i].variant@)
}

/// The names of a list of declared cases.
pub open spec fn variant_names(errors: Seq<VariantSpec>) -> Seq<Seq<char>> {
    Seq::new(errors.len(), |i: int| errors[i].name@)
}

/// A list of names as plain text.
pub open spec fn texts(names: Seq<&String>) -> Seq<Seq<char>> {
    Seq::new(names.len(), |i: int| names[i]@)
}

/// The name of the case for plain messages, which every taxonomy has.
pub open spec fn message_case() -> Seq<char> {
    "Msg"@
}

/// The names of the cases of a kind: the case for plain messages first, then
/// those of the links, of the foreign links and of the declared cases.
pub open spec fn case_names(
    links: Seq<LinkSpec>,
    foreign_links: Seq<ForeignLinkSpec>,
    errors: Seq<VariantSpec>,
) -> Seq<Seq<char>> {
    seq![message_case()] + link_names(links) + foreign_link_names(foreign_links) + variant_names(
        errors,
    )
}

/// The case names of a whole declaration.
pub open spec fn merged_case_names(sections: Seq<Section>) -> Seq<Seq<char>> {
    case_names(merged_links(sections), merged_foreign_links(sections), merged_errors(sections))
}

/// Whether the name at `at` has already occurred before `at`.
pub open spec fn repeats_at(names: Seq<Seq<char>>, at: int) -> bool {
    exists|before: int| 0 <= before < at && names[before] == names[at]
}

/// Whether `at` is the first place where a name repeats an earlier one.
pub open spec fn first_repeat(names: Seq<Seq<char>>, at: int) -> bool {
    &&& 0 <= at < names.len()
    &&& repeats_at(names, at)
    &&& forall|earlier: int| 0 <= earlier < at ==> !repeats_at(names, earlier)
}

/// What normalizing a declaration gives, in terms of its merged parts.
pub open spec fn normalized(sections: Seq<Section>, result: Result<TaxonomySpec, SpecError>) -> bool {
    let names = merged_case_names(sections);
    match result {
        Ok(spec) => {
            &&& names_differ(merged_names(sections))
            &&& names.no_duplicates()
            &&& spec.types@ == merged_names(sections)
            &&& spec.links@ == merged_links(sections)
            &&& spec.foreign_links@ == merged_foreign_links(sections)
            &&& spec.errors@ == merged_errors(sections)
        },
        Err(SpecError::ConflictingTypeNames) => !names_differ(merged_names(sections)),
        Err(SpecError::DuplicateName { name }) => {
            &&& names_differ(merged_names(sections))
            &&& exists|at: int| first_repeat(names, at) && names[at] == name@
        },
    }
}

impl TypeNames {
    /// The names that are used where a declaration gives none.
    pub fn defaults() -> (names: TypeNames)
        ensures
            names@ == default_names(),
    {
        TypeNames {
            error: "Error".to_owned(),
            kind: "ErrorKind".to_owned(),
            result: "Result".to_owned(),
        }
    }

    /// Whether the three names differ from each other.
    pub fn differ(&self) -> (differ: bool)
        ensures
            differ == names_differ(self@),
    {
        !(self.error == self.kind) && !(self.error == self.result) && !(self.kind == self.result)
    }
}

/// Looks for the first name that repeats an earlier one.
fn find_repeat(names: &Vec<&String>) -> (found: Option<usize>)
    ensures
        match found {
            Some(at) => first_repeat(texts(names@), at as int),
            None => texts(names@).no_duplicates(),
        },
{
    let mut at: usize = 0;
    while at < names.len()
        invariant
            at <= names.len(),
            forall|earlier: int| 0 <= earlier < at ==> !repeats_at(texts(names@), earlier),
        decreases names.len() - at,
    {
        let mut before: usize = 0;
        while before < at
            invariant
                before <= at < names.len(),
                forall|earlier: int| 0 <= earlier < at ==> !repeats_at(texts(names@), earlier),
                forall|i: int| 0 <= i < before ==> texts(names@)[i] != texts(names@)[at as int],
            decreases at - before,
        {
            if *names[before] == *names[at] {
                assert(texts(names@)[before as int] == texts(names@)[at as int]);
                return Some(at);
            }
            before += 1;
        }
        at += 1;
    }
    assert forall|i: int, j: int|
        0 <= i < texts(names@).len() && 0 <= j < texts(names@).len() && i != j implies texts(
        names@,
    )[i] != texts(names@)[j] by {
        if i < j {
            assert(!repeats_at(texts(names@), j));
        } else {
            assert(!repeats_at(texts(names@), i));
        }
    }
    None
}

/// Lists the case names of a kind with the given entries.
fn collect_names<'a>(
    message: &'a String,
    links: &'a Vec<LinkSpec>,
    foreign_links: &'a Vec<ForeignLinkSpec>,
    errors: &'a Vec<VariantSpec>,
) -> (names: Vec<&'a String>)
    requires
        message@ == message_case(),
    ensures
        texts(names@) == case_names(links@, foreign_links@, errors@),
{
    let mut names: Vec<&'a String> = Vec::new();
    names.push(message);
    for i in 0..links.len()
        invariant
            names@.len() == 1 + i,
            names@[0]@ == message_case(),
            forall|k: int| 0 <= k < i ==> names@[1 + k]@ == links@[k].variant@,
    {
        names.push(&links[i].variant);
    }
    for i in 0..foreign_links.len()
        invariant
            names@.len() == 1 + links@.len() + i,
            names@[0]@ == message_case(),
            forall|k: int| 0 <= k < links@.len() ==> names@[1 + k]@ == links@[k].variant@,
            forall|k: int|
                0 <= k < i ==> names@[1 + links@.len() + k]@ == foreign_links@[k].variant@,
    {
        names.push(&foreign_links[i].variant);
    }
    for i in 0..errors.len()
        invariant
            names@.len() == 1 + links@.len() + foreign_links@.len() + i,
            names@[0]@ == message_case(),
            forall|k: int| 0 <= k < links@.len() ==> names@[1 + k]@ == links@[k].variant@,
            forall|k: int|
                0 <= k < foreign_links@.len() ==> names@[1 + links@.len() + k]@
                    == foreign_links@[k].variant@,
            forall|k: int|
                0 <= k < i ==> names@[1 + links@.len() + foreign_links@.len() + k]@
                    == errors@[k].name@,
    {
        names.push(&errors[i].name);
    }
    proof {
        let listed = texts(names@);
        let wanted = case_names(links@, foreign_links@, errors@);
        assert(listed.len() == wanted.len());
        assert forall|k: int| 0 <= k < listed.len() implies listed[k] == wanted[k] by {
            if k < 1 {
            } else if k < 1 + links@.len() {
                assert(names@[1 + (k - 1)]@ == links@[k - 1].variant@);
            } else if k < 1 + links@.len() + foreign_links@.len() {
                let at = k - 1 - links@.len();
                assert(names@[1 + links@.len() + at]@ == foreign_links@[at].variant@);
            } else {
                let at = k - 1 - links@.len() - foreign_links@.len();
                assert(names@[1 + links@.len() + foreign_links@.len() + at]@ == errors@[at].name@);
            }
        }
        assert(listed =~= wanted);
    }
    names
}

/// Brings a declaration into canonical form. Entries of repeated sections are
/// joined in the order in which they were written; the last section of type
/// names counts, and where it is empty or there is none, the default names
/// are used. The declaration is refused if two of its type names are the
/// same, or else if two cases of the kind would have one name.
pub fn normalize(sections: Vec<Section>) -> (result: Result<TaxonomySpec, SpecError>)
    ensures
        normalized(sections@, result),
{
    let mut declared: Option<TypeNames> = None;
    let mut links: Vec<LinkSpec> = Vec::new();
    let mut foreign_links: Vec<ForeignLinkSpec> = Vec::new();
    let mut errors: Vec<VariantSpec> = Vec::new();
    let ghost all = sections@;
    for section in iter: sections
        invariant
            iter.seq() == all,
            declared == declared_names(all.take(iter.index() as int)),
            links@ == merged_links(all.take(iter.index() as int)),
            foreign_links@ == merged_foreign_links(all.take(iter.index() as int)),
            errors@ == merged_errors(all.take(iter.index() as int)),
    {
        assert(all.take(iter.index() + 1).drop_last() == all.take(iter.index() as int));
        match section {
            Section::Types(names) => {
                declared = names;
            },
            Section::Links(mut entries) => {
                links.append(&mut entries);
            },
            Section::ForeignLinks(mut entries) => {
                foreign_links.append(&mut entries);
            },
            Section::Errors(mut entries) => {
                errors.append(&mut entries);
            },
        }
    }
    assert(all.take(all.len() as int) == all);
    let types = match declared {
        Some(names) => names,
        None => TypeNames::defaults(),
    };
    if !types.differ() {
        return Err(SpecError::ConflictingTypeNames);
    }
    let message = "Msg".to_owned();
    let names = collect_names(&message, &links, &foreign_links, &errors);
    match find_repeat(&names) {
        Some(at) => {
            let name = names[at].clone();
            assert(first_repeat(merged_case_names(all), at as int));
            Err(SpecError::DuplicateName { name })
        },
        None => Ok(TaxonomySpec { types, links, foreign_links, errors }),
    }
}

} // verus!
