use error_chain::{
    define, normalize, Backtrace, Cause, Error, ErrorKind, ErrorRef, Field, ForeignError, ForeignLinkSpec,
    LinkSpec, ResultExt, Section, SpecError, Taxonomy, TypeNames, VariantSpec,
};
use std::cell::Cell;
use std::sync::Arc;

fn names(error: &str, kind: &str, result: &str) -> TypeNames {
    TypeNames { error: error.to_string(), kind: kind.to_string(), result: result.to_string() }
}

fn unit(name: &str) -> VariantSpec {
    VariantSpec {
        name: name.to_string(),
        fields: Vec::new(),
        description: name.to_string(),
        display: name.to_string(),
        guard: None,
    }
}

fn http_status() -> VariantSpec {
    VariantSpec {
        name: "HttpStatus".to_string(),
        fields: vec![Field { name: "e".to_string(), ty: "u32".to_string() }],
        description: "http request returned an unsuccessful status code".to_string(),
        display: "http request returned an unsuccessful status code: {}".to_string(),
        guard: None,
    }
}

fn link(target: &str, variant: &str, guard: Option<bool>) -> LinkSpec {
    LinkSpec {
        target: target.to_string(),
        target_kind: format!("{}::ErrorKind", target),
        variant: variant.to_string(),
        guard,
    }
}

fn foreign_link(external: &str, variant: &str, guard: Option<bool>) -> ForeignLinkSpec {
    ForeignLinkSpec { external: external.to_string(), variant: variant.to_string(), guard }
}

fn declared(path: &str, sections: Vec<Section>) -> Taxonomy {
    match define(path.to_string(), sections) {
        Ok(taxonomy) => taxonomy,
        Err(_) => panic!("the declaration was refused"),
    }
}

fn has_default_names(taxonomy: &Taxonomy) -> bool {
    taxonomy.types.error == "Error"
        && taxonomy.types.kind == "ErrorKind"
        && taxonomy.types.result == "Result"
}

fn check_http_status(taxonomy: &Taxonomy) {
    let kind = taxonomy.kind("HttpStatus", vec!["404".to_string()]).unwrap();
    assert_eq!(kind.description(), "http request returned an unsuccessful status code");
    assert_eq!(kind.display(), "http request returned an unsuccessful status code: 404");
}

#[test]
fn smoke_test_1() {
    let taxonomy = declared(
        "smoke",
        vec![
            Section::Types(Some(names("Error", "ErrorKind", "Result"))),
            Section::Links(vec![]),
            Section::ForeignLinks(vec![]),
            Section::Errors(vec![]),
        ],
    );
    assert!(has_default_names(&taxonomy));
    assert!(taxonomy.links.is_empty());
    assert!(taxonomy.foreign_links.is_empty());
    assert!(taxonomy.errors.is_empty());
}

#[test]
fn smoke_test_2() {
    let taxonomy = declared(
        "smoke",
        vec![
            Section::Types(None),
            Section::Links(vec![]),
            Section::ForeignLinks(vec![]),
            Section::Errors(vec![]),
        ],
    );
    assert!(has_default_names(&taxonomy));
}

#[test]
fn smoke_test_3() {
    let taxonomy = declared(
        "smoke",
        vec![Section::Links(vec![]), Section::ForeignLinks(vec![]), Section::Errors(vec![])],
    );
    assert!(has_default_names(&taxonomy));
}

#[test]
fn smoke_test_4() {
    let taxonomy = declared(
        "smoke",
        vec![
            Section::Links(vec![]),
            Section::ForeignLinks(vec![]),
            Section::Errors(vec![http_status()]),
        ],
    );
    check_http_status(&taxonomy);
}

#[test]
fn smoke_test_5() {
    let taxonomy = declared(
        "smoke",
        vec![
            Section::Types(None),
            Section::Links(vec![]),
            Section::ForeignLinks(vec![]),
            Section::Errors(vec![http_status()]),
        ],
    );
    assert!(has_default_names(&taxonomy));
    check_http_status(&taxonomy);
}

#[test]
fn smoke_test_6() {
    let taxonomy = declared("smoke", vec![Section::Errors(vec![http_status()])]);
    assert!(has_default_names(&taxonomy));
    check_http_status(&taxonomy);
}

#[test]
fn smoke_test_7() {
    let taxonomy = declared(
        "smoke",
        vec![
            Section::Types(None),
            Section::ForeignLinks(vec![]),
            Section::Errors(vec![http_status()]),
        ],
    );
    assert!(has_default_names(&taxonomy));
    check_http_status(&taxonomy);
}

#[test]
fn smoke_test_8() {
    let taxonomy = declared(
        "smoke",
        vec![
            Section::Types(None),
            Section::Links(vec![]),
            Section::Links(vec![]),
            Section::ForeignLinks(vec![]),
            Section::ForeignLinks(vec![]),
            Section::Errors(vec![unit("FileNotFound")]),
            Section::Errors(vec![unit("AccessDenied")]),
        ],
    );
    assert_eq!(taxonomy.errors.len(), 2);
    assert_eq!(taxonomy.errors[0].name, "FileNotFound");
    assert_eq!(taxonomy.errors[1].name, "AccessDenied");
    assert!(taxonomy.kind("FileNotFound", vec![]).is_some());
    assert!(taxonomy.kind("AccessDenied", vec![]).is_some());
}

#[test]
fn empty() {
    let taxonomy = declared("smoke", vec![]);
    assert!(has_default_names(&taxonomy));
    assert!(taxonomy.links.is_empty());
    assert!(taxonomy.foreign_links.is_empty());
    assert!(taxonomy.errors.is_empty());
}

#[test]
fn has_backtrace_depending_on_env() {
    let taxonomy = declared(
        "env",
        vec![
            Section::Types(None),
            Section::Links(vec![]),
            Section::ForeignLinks(vec![]),
            Section::Errors(vec![unit("MyError")]),
        ],
    );

    // missing setting and setting 0
    let err = taxonomy.from_kind(taxonomy.kind("MyError", vec![]).unwrap(), None);
    assert!(err.backtrace().is_none());
    let err = taxonomy.from_kind(taxonomy.kind("MyError", vec![]).unwrap(), Some("0"));
    assert!(err.backtrace().is_none());

    // setting set to anything but 0
    let err = taxonomy.from_kind(taxonomy.kind("MyError", vec![]).unwrap(), Some("yes"));
    assert!(err.backtrace().is_some());
}

#[test]
fn chain_err() {
    let taxonomy = declared("chain", vec![]);
    let failed: Result<(), Error> = Err(taxonomy.from_str("", None));
    let chained: Result<(), Error> =
        failed.chain_err(&taxonomy, None, || ErrorKind::from_str(""));
    let error = chained.err().unwrap();
    assert!(matches!(error.kind, ErrorKind::Msg(ref s) if s.is_empty()));
    assert_eq!(error.iter().collect().len(), 2);
}

#[test]
fn links() {
    let test = declared("test", vec![]);
    let outer = declared("outer", vec![Section::Links(vec![link("test", "Test", None)])]);
    assert_eq!(outer.links.len(), 1);
    let inner = test.from_str("inner failure", None);
    let converted = outer.from_link(inner).ok().unwrap();
    assert_eq!(converted.taxonomy, "outer");
    match converted.kind {
        ErrorKind::Link { ref variant, ref kind } => {
            assert_eq!(variant, "Test");
            assert!(matches!(**kind, ErrorKind::Msg(ref s) if s == "inner failure"));
        },
        _ => panic!("not the case of the link"),
    }
}

fn foreign_cause() -> ForeignError {
    ForeignError {
        type_path: "ForeignErrorCause".to_string(),
        description: "Foreign error cause description".to_string(),
        display: "Foreign error cause display".to_string(),
        cause: None,
    }
}

fn foreign_error() -> ForeignError {
    ForeignError {
        type_path: "ForeignError".to_string(),
        description: "Foreign error description".to_string(),
        display: "Foreign error display".to_string(),
        cause: Some(Box::new(foreign_cause())),
    }
}

fn foreign_taxonomy() -> Taxonomy {
    declared(
        "foreign_link_test",
        vec![
            Section::Types(Some(names("Error", "ErrorKind", "Result"))),
            Section::Links(vec![]),
            Section::ForeignLinks(vec![foreign_link("ForeignError", "Foreign", None)]),
            Section::Errors(vec![]),
        ],
    )
}

fn try_foreign_error() -> Result<(), Error> {
    let failed: Result<(), ForeignError> = Err(foreign_error());
    match failed {
        Ok(()) => Ok(()),
        Err(e) => match foreign_taxonomy().from_foreign(e, None) {
            Ok(converted) => Err(converted),
            Err(_) => panic!("no foreign link for the error"),
        },
    }
}

#[test]
fn display_underlying_error() {
    let chained_error = try_foreign_error().err().unwrap();
    assert_eq!(
        format!("{}", foreign_error().display()),
        format!("{}", chained_error.display())
    );
}

#[test]
fn finds_cause() {
    let chained_error = try_foreign_error().err().unwrap();
    assert_eq!(
        format!("{}", foreign_cause().display()),
        format!("{}", chained_error.cause().unwrap().display())
    );
}

#[test]
fn iterates() {
    let chained_error = try_foreign_error().err().unwrap();
    let mut error_iter = chained_error.iter();
    assert_eq!(
        format!("{}", foreign_error().display()),
        format!("{}", error_iter.next().unwrap().display())
    );
    assert_eq!(
        format!("{}", foreign_cause().display()),
        format!("{}", error_iter.next().unwrap().display())
    );
    assert!(error_iter.next().is_none());
    assert!(error_iter.next().is_none());
}

#[test]
fn attributes_leave_entries_out() {
    let inner = declared("inner", vec![]);
    let taxonomy = declared(
        "attributes_test",
        vec![
            Section::Types(Some(names("Error", "ErrorKind", "Result"))),
            Section::Links(vec![link("inner", "Inner", Some(false))]),
            Section::ForeignLinks(vec![foreign_link("io::Error", "Io", Some(false))]),
            Section::Errors(vec![VariantSpec { guard: Some(false), ..unit("AnError") }]),
        ],
    );
    assert!(taxonomy.links.is_empty());
    assert!(taxonomy.foreign_links.is_empty());
    assert!(taxonomy.errors.is_empty());
    assert!(taxonomy.kind("AnError", vec![]).is_none());
    let back = taxonomy.from_link(inner.from_str("x", None)).err().unwrap();
    assert_eq!(back.taxonomy, "inner");
    let io = ForeignError {
        type_path: "io::Error".to_string(),
        description: "d".to_string(),
        display: "s".to_string(),
        cause: None,
    };
    assert!(taxonomy.from_foreign(io, None).is_err());
}

#[test]
fn guards_that_hold_keep_entries() {
    let taxonomy = declared(
        "kept",
        vec![
            Section::Links(vec![link("a", "A", Some(true)), link("b", "B", Some(false))]),
            Section::Links(vec![link("c", "C", None)]),
        ],
    );
    assert_eq!(taxonomy.links.len(), 2);
    assert_eq!(taxonomy.links[0].variant, "A");
    assert_eq!(taxonomy.links[1].variant, "C");
}

#[test]
fn repeated_blocks_merge_in_order() {
    let spread = normalize(vec![
        Section::Links(vec![link("a", "A", None)]),
        Section::ForeignLinks(vec![foreign_link("x", "X", None)]),
        Section::Links(vec![link("b", "B", None), link("c", "C", None)]),
        Section::Errors(vec![unit("One")]),
        Section::ForeignLinks(vec![foreign_link("y", "Y", None)]),
        Section::Errors(vec![unit("Two")]),
        Section::Links(vec![]),
    ])
    .ok()
    .unwrap();
    let joined = normalize(vec![
        Section::Links(vec![link("a", "A", None), link("b", "B", None), link("c", "C", None)]),
        Section::ForeignLinks(vec![foreign_link("x", "X", None), foreign_link("y", "Y", None)]),
        Section::Errors(vec![unit("One"), unit("Two")]),
    ])
    .ok()
    .unwrap();
    let variants = |links: &Vec<LinkSpec>| -> Vec<String> {
        links.iter().map(|l| l.variant.clone()).collect()
    };
    assert_eq!(variants(&spread.links), vec!["A", "B", "C"]);
    assert_eq!(variants(&spread.links), variants(&joined.links));
    assert_eq!(spread.foreign_links.len(), 2);
    assert_eq!(spread.foreign_links[0].variant, "X");
    assert_eq!(spread.foreign_links[1].variant, "Y");
    assert_eq!(spread.errors[0].name, "One");
    assert_eq!(spread.errors[1].name, "Two");
}

#[test]
fn last_type_names_count() {
    let spec = normalize(vec![
        Section::Types(Some(names("A", "B", "C"))),
        Section::Types(Some(names("MyError", "MyKind", "MyResult"))),
    ])
    .ok()
    .unwrap();
    assert_eq!(spec.types.error, "MyError");
    assert_eq!(spec.types.kind, "MyKind");
    assert_eq!(spec.types.result, "MyResult");

    let spec =
        normalize(vec![Section::Types(Some(names("A", "B", "C"))), Section::Types(None)])
            .ok()
            .unwrap();
    assert_eq!(spec.types.error, "Error");
    assert_eq!(spec.types.kind, "ErrorKind");
    assert_eq!(spec.types.result, "Result");
}

#[test]
fn default_names_with_and_without_section() {
    let omitted = normalize(vec![Section::Errors(vec![unit("X")])]).ok().unwrap();
    let explicit = normalize(vec![
        Section::Types(Some(names("Error", "ErrorKind", "Result"))),
        Section::Errors(vec![unit("X")]),
    ])
    .ok()
    .unwrap();
    assert_eq!(omitted.types.error, explicit.types.error);
    assert_eq!(omitted.types.kind, explicit.types.kind);
    assert_eq!(omitted.types.result, explicit.types.result);
    assert_eq!(omitted.types.error, "Error");
}

#[test]
fn conflicting_type_names_are_refused() {
    let result = normalize(vec![Section::Types(Some(names("Error", "Error", "Result")))]);
    assert!(matches!(result, Err(SpecError::ConflictingTypeNames)));
    let result = normalize(vec![Section::Types(Some(names("A", "B", "A")))]);
    assert!(matches!(result, Err(SpecError::ConflictingTypeNames)));
    let result = normalize(vec![Section::Types(Some(names("A", "B", "B")))]);
    assert!(matches!(result, Err(SpecError::ConflictingTypeNames)));
    // the conflict comes before a repeated name
    let result = normalize(vec![
        Section::Types(Some(names("A", "A", "R"))),
        Section::Errors(vec![unit("X"), unit("X")]),
    ]);
    assert!(matches!(result, Err(SpecError::ConflictingTypeNames)));
}

#[test]
fn duplicate_names_are_refused() {
    let result = normalize(vec![
        Section::Errors(vec![unit("One"), unit("Two")]),
        Section::Errors(vec![unit("Three"), unit("Two"), unit("One")]),
    ]);
    match result {
        Err(SpecError::DuplicateName { name }) => assert_eq!(name, "Two"),
        _ => panic!("the repeated name went through"),
    }
    let result = normalize(vec![
        Section::Errors(vec![unit("Io")]),
        Section::ForeignLinks(vec![foreign_link("std::io::Error", "Io", None)]),
    ]);
    match result {
        Err(SpecError::DuplicateName { name }) => assert_eq!(name, "Io"),
        _ => panic!("the repeated name went through"),
    }
    let result = normalize(vec![
        Section::Links(vec![link("a", "Same", None)]),
        Section::Links(vec![link("b", "Same", Some(false))]),
    ]);
    assert!(matches!(result, Err(SpecError::DuplicateName { .. })));
    let result = normalize(vec![Section::Errors(vec![unit("Msg")])]);
    match result {
        Err(SpecError::DuplicateName { name }) => assert_eq!(name, "Msg"),
        _ => panic!("a second message case went through"),
    }
    assert!(define("d".to_string(), vec![Section::Errors(vec![unit("A"), unit("A")])]).is_err());
}

#[test]
fn message_round_trip() {
    let taxonomy = declared("t", vec![]);
    for s in ["", "plain", "with {} in it", "ünïcödé ✓"] {
        let error = taxonomy.from_kind(ErrorKind::from_str(s), None);
        assert_eq!(error.display(), s);
        assert_eq!(error.description(), s);
        let error = taxonomy.from_str(s, None);
        assert_eq!(error.display(), s);
        let error = taxonomy.from_kind(ErrorKind::from(s.to_string()), None);
        assert_eq!(error.display(), s);
        assert_eq!(error.taxonomy, "t");
        assert!(error.state.next_error.is_none());
    }
}

#[test]
fn not_found_scenario() {
    let a = declared(
        "a",
        vec![Section::Errors(vec![VariantSpec {
            description: "not found".to_string(),
            ..unit("NotFound")
        }])],
    );
    let error = a.from_kind(a.kind("NotFound", vec![]).unwrap(), None);
    assert_eq!(error.description(), "not found");
    assert_eq!(error.display(), "NotFound");
    assert_eq!(error.iter().collect().len(), 1);
    let mut iter = error.iter();
    assert!(matches!(iter.next(), Some(ErrorRef::Chained(e)) if std::ptr::eq(e, &error)));
    assert!(iter.next().is_none());
}

#[test]
fn io_scenario() {
    let b = declared(
        "b",
        vec![Section::ForeignLinks(vec![foreign_link("IoError", "Io", None)])],
    );
    let platform = ForeignError {
        type_path: "IoError".to_string(),
        description: "file missing".to_string(),
        display: "file missing (os error 2)".to_string(),
        cause: None,
    };
    let error = b.from_foreign(platform, None).ok().unwrap();
    assert_eq!(error.display(), "file missing (os error 2)");
    assert_eq!(error.description(), "file missing");
    assert!(error.cause().is_none());
    assert!(matches!(error.kind, ErrorKind::Foreign { ref variant, .. } if variant == "Io"));
    assert_eq!(error.iter().collect().len(), 1);
}

#[test]
fn link_keeps_the_chain() {
    let inner = declared("inner", vec![]);
    let outer = declared("outer", vec![Section::Links(vec![link("inner", "Inner", None)])]);
    let c2: Result<(), Error> = Err(inner.from_str("c2", None));
    let c1 = c2.chain_err(&inner, None, || ErrorKind::from_str("c1"));
    let e = c1.chain_err(&inner, None, || ErrorKind::from_str("e")).err().unwrap();
    let before: Vec<String> =
        e.iter().collect().iter().map(|r| r.display().to_string()).collect();
    assert_eq!(before, vec!["e", "c1", "c2"]);
    let converted = outer.from_link(e).ok().unwrap();
    let after: Vec<String> =
        converted.iter().collect().iter().map(|r| r.display().to_string()).collect();
    assert_eq!(after, vec!["e", "c1", "c2"]);
    assert_eq!(converted.taxonomy, "outer");
}

#[test]
fn link_of_a_foreign_kind_loses_the_foreign_cause() {
    let inner = declared(
        "inner",
        vec![Section::ForeignLinks(vec![foreign_link("ForeignError", "Foreign", None)])],
    );
    let outer = declared("outer", vec![Section::Links(vec![link("inner", "Inner", None)])]);
    let e = inner.from_foreign(foreign_error(), None).ok().unwrap();
    assert_eq!(e.iter().collect().len(), 2);
    let converted = outer.from_link(e).ok().unwrap();
    assert_eq!(converted.iter().collect().len(), 1);
    assert_eq!(converted.display(), "Foreign error display");
}

#[test]
fn foreign_link_chain() {
    let error = try_foreign_error().err().unwrap();
    let shown: Vec<String> =
        error.iter().collect().iter().map(|r| r.display().to_string()).collect();
    assert_eq!(shown, vec!["Foreign error display", "Foreign error cause display"]);
    let described: Vec<String> =
        error.iter().collect().iter().map(|r| r.description().to_string()).collect();
    assert_eq!(described, vec!["Foreign error description", "Foreign error cause description"]);
    assert!(error.state.next_error.is_none());
}

#[test]
fn foreign_link_without_entry_gives_the_error_back() {
    let taxonomy = declared("t", vec![]);
    let back = taxonomy.from_foreign(foreign_error(), Some("1")).err().unwrap();
    assert_eq!(back.type_path, "ForeignError");
    assert_eq!(back.display, "Foreign error display");
}

fn held_backtraces(error: &Error) -> Vec<Arc<Backtrace>> {
    let mut held = Vec::new();
    for item in error.iter().collect() {
        if let ErrorRef::Chained(e) = item {
            if let Some(shared) = &e.state.backtrace {
                held.push(Arc::clone(shared));
            }
        }
    }
    held
}

#[test]
fn capture_once() {
    let taxonomy = declared("t", vec![]);
    let failed: Result<(), ForeignError> = Err(foreign_cause());
    let one =
        failed.chain_err(&taxonomy, Some("1"), || ErrorKind::from_str("one")).err().unwrap();
    let first = Arc::clone(one.state.backtrace.as_ref().unwrap());
    let two = Err::<(), Error>(one)
        .chain_err(&taxonomy, Some("1"), || ErrorKind::from_str("two"))
        .err()
        .unwrap();
    assert!(Arc::ptr_eq(&first, two.state.backtrace.as_ref().unwrap()));
    let three = Err::<(), Error>(two)
        .chain_err(&taxonomy, Some("1"), || ErrorKind::from_str("three"))
        .err()
        .unwrap();
    assert!(Arc::ptr_eq(&first, three.state.backtrace.as_ref().unwrap()));
    assert!(std::ptr::eq(&*first, three.backtrace().unwrap()));
    // every error of the chain holds the same capture
    let held = held_backtraces(&three);
    assert_eq!(held.len(), 3);
    assert!(held.iter().all(|b| Arc::ptr_eq(b, &first)));
    assert_eq!(three.iter().collect().len(), 4);
}

#[test]
fn capture_once_across_links() {
    let inner = declared("inner", vec![]);
    let outer = declared("outer", vec![Section::Links(vec![link("inner", "Inner", None)])]);
    let e = inner.from_str("start", Some("full"));
    let first = Arc::clone(e.state.backtrace.as_ref().unwrap());
    let chained = Err::<(), Error>(e)
        .chain_err(&outer, Some("full"), || ErrorKind::from_str("outer"))
        .err()
        .unwrap();
    assert!(Arc::ptr_eq(&first, chained.state.backtrace.as_ref().unwrap()));
    let e = inner.from_str("start", Some("full"));
    let first = Arc::clone(e.state.backtrace.as_ref().unwrap());
    let converted = outer.from_link(e).ok().unwrap();
    assert!(Arc::ptr_eq(&first, converted.state.backtrace.as_ref().unwrap()));
}

#[test]
fn unrelated_taxonomy_captures_its_own() {
    let a = declared("a", vec![]);
    let b = declared("b", vec![]);
    let e = a.from_str("start", Some("1"));
    let first = Arc::clone(e.state.backtrace.as_ref().unwrap());
    let chained = Err::<(), Error>(e)
        .chain_err(&b, Some("1"), || ErrorKind::from_str("b"))
        .err()
        .unwrap();
    assert!(!Arc::ptr_eq(&first, chained.state.backtrace.as_ref().unwrap()));
    // a recognized error without a backtrace hands on that it has none
    let e = a.from_str("start", None);
    let chained = Err::<(), Error>(e)
        .chain_err(&a, Some("1"), || ErrorKind::from_str("again"))
        .err()
        .unwrap();
    assert!(chained.backtrace().is_none());
}

#[test]
fn disabled_gate_never_captures() {
    let inner = declared(
        "inner",
        vec![Section::ForeignLinks(vec![foreign_link("ForeignError", "Foreign", None)])],
    );
    let outer = declared("outer", vec![Section::Links(vec![link("inner", "Inner", None)])]);
    for setting in [None, Some("0")] {
        let e = inner.from_foreign(foreign_error(), setting).ok().unwrap();
        assert!(e.backtrace().is_none());
        let e = Err::<(), Error>(e)
            .chain_err(&inner, setting, || ErrorKind::from_str("a"))
            .err()
            .unwrap();
        assert!(e.backtrace().is_none());
        let e = outer.from_link(e).ok().unwrap();
        assert!(e.backtrace().is_none());
        let e = Err::<(), Cause>(Cause::Chained(e))
            .chain_err(&outer, setting, || ErrorKind::from_str("b"))
            .err()
            .unwrap();
        assert!(e.backtrace().is_none());
        let e = Err::<(), ForeignError>(foreign_error())
            .chain_err(&outer, setting, || ErrorKind::from_str("c"))
            .err()
            .unwrap();
        assert!(e.backtrace().is_none());
        assert!(error_chain::make_backtrace(setting).is_none());
        assert!(error_chain::State::fresh(setting).backtrace().is_none());
    }
}

#[test]
fn gate_values() {
    assert!(error_chain::make_backtrace(Some("1")).is_some());
    assert!(error_chain::make_backtrace(Some("")).is_some());
    assert!(error_chain::make_backtrace(Some("00")).is_some());
    assert!(error_chain::make_backtrace(Some("full")).is_some());
    assert!(error_chain::make_backtrace(Some("0")).is_none());
    assert!(error_chain::make_backtrace(None).is_none());
    assert!(error_chain::capture::is_capture_enabled(Some("é")));
    assert!(!error_chain::capture::is_capture_enabled(Some("0")));
}

#[test]
fn callback_runs_only_on_failure() {
    let taxonomy = declared("t", vec![]);
    let calls = Cell::new(0);
    let fine: Result<u32, Error> = Ok(7);
    let result = fine.chain_err(&taxonomy, Some("1"), || {
        calls.set(calls.get() + 1);
        ErrorKind::from_str("never")
    });
    assert_eq!(result.ok(), Some(7));
    assert_eq!(calls.get(), 0);
    let failed: Result<u32, Error> = Err(taxonomy.from_str("x", None));
    let result = failed.chain_err(&taxonomy, None, || {
        calls.set(calls.get() + 1);
        ErrorKind::from_str("once")
    });
    assert!(result.is_err());
    assert_eq!(calls.get(), 1);
}

#[test]
fn kinds_of_declared_cases() {
    let taxonomy = declared(
        "t",
        vec![Section::Errors(vec![
            http_status(),
            VariantSpec {
                name: "Pair".to_string(),
                fields: vec![
                    Field { name: "a".to_string(), ty: "String".to_string() },
                    Field { name: "b".to_string(), ty: "String".to_string() },
                ],
                description: "pair of {} and {}".to_string(),
                display: "{}{}{} {".to_string(),
                guard: Some(true),
            },
        ])],
    );
    assert!(taxonomy.kind("Unknown", vec![]).is_none());
    assert!(taxonomy.kind("HttpStatus", vec![]).is_none());
    assert!(taxonomy.kind("HttpStatus", vec!["1".to_string(), "2".to_string()]).is_none());
    let kind = taxonomy.kind("Pair", vec!["x".to_string(), "{}".to_string()]).unwrap();
    assert_eq!(kind.description(), "pair of x and {}");
    assert_eq!(kind.display(), "x{}{} {");
    match kind {
        ErrorKind::Custom { variant, payload, .. } => {
            assert_eq!(variant, "Pair");
            assert_eq!(payload, vec!["x", "{}"]);
        },
        _ => panic!("not a declared case"),
    }
}

#[test]
fn link_kind_wraps_the_kind() {
    let outer = declared("outer", vec![Section::Links(vec![link("inner", "Inner", None)])]);
    let wrapped = outer.link_kind(&"inner".to_string(), ErrorKind::from_str("m")).ok().unwrap();
    assert_eq!(wrapped.display(), "m");
    assert_eq!(wrapped.description(), "m");
    assert!(matches!(wrapped, ErrorKind::Link { ref variant, .. } if variant == "Inner"));
    let back = outer.link_kind(&"other".to_string(), ErrorKind::from_str("m")).err().unwrap();
    assert!(matches!(back, ErrorKind::Msg(ref s) if s == "m"));
}

#[test]
fn into_kind_gives_the_kind() {
    let taxonomy = declared("t", vec![]);
    let error = taxonomy.from_str("k", None);
    assert!(matches!(error.kind(), ErrorKind::Msg(s) if s == "k"));
    assert!(matches!(error.into_kind(), ErrorKind::Msg(ref s) if s == "k"));
    let error = taxonomy.from_str("k", None);
    assert!(matches!(ErrorKind::from(error), ErrorKind::Msg(ref s) if s == "k"));
}
