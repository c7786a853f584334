use opaque_typedef::{Lit, Meta, MetaExt, MetaPath, NestedMeta, PathSegment, eq_path_components};

fn path(segments: &[&str]) -> MetaPath {
    MetaPath {
        leading_colon: false,
        segments: segments
            .iter()
            .map(|s| PathSegment { ident: s.to_string(), has_arguments: false })
            .collect(),
    }
}

fn word(name: &str) -> NestedMeta {
    NestedMeta::Meta(Meta::Path(path(&[name])))
}

fn list(name: &str, nested: Vec<NestedMeta>) -> Meta {
    Meta::List { path: path(&[name]), nested }
}

fn str_entry(key: &str, value: &str, span: usize) -> NestedMeta {
    NestedMeta::Meta(Meta::NameValue {
        path: path(&[key]),
        lit: Lit::Str { value: value.to_string(), span },
    })
}

#[test]
fn test_eq_path_components() {
    let foo = path(&["foo"]);
    assert!(eq_path_components(&foo, &["foo"]));
    assert!(!eq_path_components(&foo, &["bar"]));

    let foo_bar = path(&["foo", "bar"]);
    assert!(eq_path_components(&foo_bar, &["foo", "bar"]));
    assert!(!eq_path_components(&foo_bar, &["foo"]));
    assert!(!eq_path_components(&foo_bar, &["bar"]));
    assert!(!eq_path_components(&foo_bar, &["foo::bar"]));
}

#[test]
fn test_has_unsized_repr() {
    let repr_c = list("repr", vec![word("C")]);
    assert!(repr_c.has_unsized_repr());

    let repr_transparent = list("repr", vec![word("transparent")]);
    assert!(repr_transparent.has_unsized_repr());

    let repr_c_with_dummy = list(
        "repr",
        vec![
            NestedMeta::Meta(Meta::NameValue { path: path(&["dummy"]), lit: Lit::Other { span: 0 } }),
            word("C"),
            word("dummy"),
        ],
    );
    assert!(repr_c_with_dummy.has_unsized_repr());

    let repr_dummy = list("repr", vec![word("dummy")]);
    assert!(!repr_dummy.has_unsized_repr());

    let no_repr = list("foo", vec![word("C")]);
    assert!(!no_repr.has_unsized_repr());
}

#[test]
fn test_has_level2_word() {
    let foo_bar_path = Meta::Path(path(&["foo", "bar"]));
    assert!(foo_bar_path.has_level2_word("foo", "bar"));

    let foo_bar = list(
        "foo",
        vec![word("dummy"), word("bar"), NestedMeta::Meta(list("dummy", vec![word("dummy")]))],
    );
    assert!(foo_bar.has_level2_word("foo", "bar"));
    assert!(!foo_bar.has_level2_word("dummy", "dummy"));

    let foo_bar_baz = list(
        "foo",
        vec![
            word("dummy"),
            NestedMeta::Meta(list("bar", vec![word("baz")])),
            NestedMeta::Meta(list("dummy", vec![word("dummy")])),
        ],
    );
    assert!(!foo_bar_baz.has_level2_word("foo", "bar"));
}

#[test]
fn path_with_leading_colon_is_not_an_ident() {
    let mut p = path(&["repr"]);
    p.leading_colon = true;
    let m = Meta::List { path: p, nested: vec![word("C")] };
    assert!(!m.has_unsized_repr());
}

#[test]
fn segment_with_arguments_does_not_match() {
    let mut p = path(&["opaque_typedef", "inner"]);
    p.segments[1].has_arguments = true;
    assert!(!Meta::Path(p).has_level2_word("opaque_typedef", "inner"));
}

#[test]
fn validator_is_parsed_and_printed() {
    let m = list(
        "opaque_typedef",
        vec![NestedMeta::Meta(list("validate", vec![str_entry("validator", "a+b", 3)]))],
    );
    assert_eq!(m.validator().unwrap(), Some("a+b".to_string()));
    assert_eq!(m.ty_validation_error().unwrap(), None);
}

#[test]
fn first_validator_entry_wins() {
    let m = list(
        "opaque_typedef",
        vec![
            word("hide_base_impl_docs"),
            NestedMeta::Meta(list(
                "validate",
                vec![str_entry("error", "E", 1), str_entry("validator", "f", 2)],
            )),
            NestedMeta::Meta(list("validate", vec![str_entry("validator", "g", 3)])),
        ],
    );
    assert_eq!(m.validator().unwrap(), Some("f".to_string()));
    assert_eq!(m.ty_validation_error().unwrap(), Some("E".to_string()));
}

#[test]
fn validator_outside_the_namespace_is_ignored() {
    let m = list("validate", vec![str_entry("validator", "f", 1)]);
    assert_eq!(m.validator().unwrap(), None);
}

#[test]
fn unparsable_validator_is_reported_at_its_literal() {
    let m = list(
        "opaque_typedef",
        vec![NestedMeta::Meta(list("validate", vec![str_entry("validator", "(", 7)]))],
    );
    let d = m.validator().unwrap_err();
    assert_eq!(d.span, 7);
    assert!(d.message.starts_with("Failed to parse validator function: "));
}

#[test]
fn unparsable_error_type_is_reported_at_its_literal() {
    let m = list(
        "opaque_typedef",
        vec![NestedMeta::Meta(list("validate", vec![str_entry("error", "1 +", 9)]))],
    );
    let d = m.ty_validation_error().unwrap_err();
    assert_eq!(d.span, 9);
    assert!(d.message.starts_with("Failed to parse validation error type: "));
}

#[test]
fn non_string_validator_is_reported() {
    let m = list(
        "opaque_typedef",
        vec![NestedMeta::Meta(list(
            "validate",
            vec![NestedMeta::Meta(Meta::NameValue {
                path: path(&["validator"]),
                lit: Lit::Other { span: 4 },
            })],
        ))],
    );
    let d = m.validator().unwrap_err();
    assert_eq!(d.span, 4);
    assert_eq!(d.message, "Expected string literal as validator function, but got other literal");
}

#[test]
fn parsed_literal_prefixes_the_parser_message() {
    let ok = opaque_typedef::parsed_literal(Ok("x".to_string()), 1, "validator function");
    assert_eq!(ok.unwrap(), "x");
    let err = opaque_typedef::parsed_literal(Err("oops".to_string()), 2, "validator function")
        .unwrap_err();
    assert_eq!(err.span, 2);
    assert_eq!(err.message, "Failed to parse validator function: oops");
}

#[test]
fn error_type_is_parsed_and_printed() {
    let m = list(
        "opaque_typedef",
        vec![NestedMeta::Meta(list("validate", vec![str_entry("error", "Vec<u8>", 5)]))],
    );
    assert_eq!(m.ty_validation_error().unwrap(), Some("Vec<u8>".to_string()));
    assert_eq!(m.validator().unwrap(), None);
}
