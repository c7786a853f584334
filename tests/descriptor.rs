use opaque_typedef::{
    ConfigError, Data, DeriveInput, Field, Generics, Input, Lit, Meta, MetaPath, NestedMeta,
    PathSegment, TraitKind, expand, gen_base_sized, gen_base_sized_infallible,
    gen_base_unsized, gen_base_unsized_infallible, gen_base_unsized_infallible_mut,
    gen_base_unsized_mut, get_primary_field, opaque_typedef_sized, opaque_typedef_unsized,
};

fn path(segments: &[&str]) -> MetaPath {
    MetaPath {
        leading_colon: false,
        segments: segments
            .iter()
            .map(|s| PathSegment { ident: s.to_string(), has_arguments: false })
            .collect(),
    }
}

fn word(name: &str) -> NestedMeta {
    NestedMeta::Meta(Meta::Path(path(&[name])))
}

fn list(name: &str, nested: Vec<NestedMeta>) -> Meta {
    Meta::List { path: path(&[name]), nested }
}

fn derive_attr(traits: &[&str]) -> Meta {
    list("derive", traits.iter().map(|t| word(t)).collect())
}

fn repr_attr(repr: &str) -> Meta {
    list("repr", vec![word(repr)])
}

fn hide_docs_attr() -> Meta {
    list("opaque_typedef", vec![word("hide_base_impl_docs")])
}

fn doc_attr(text: &str) -> Meta {
    Meta::NameValue { path: path(&["doc"]), lit: Lit::Str { value: text.to_string(), span: 0 } }
}

fn validate_attr(entries: &[(&str, &str)]) -> Meta {
    let nested = entries
        .iter()
        .enumerate()
        .map(|(i, (key, value))| {
            NestedMeta::Meta(Meta::NameValue {
                path: path(&[key]),
                lit: Lit::Str { value: value.to_string(), span: i + 1 },
            })
        })
        .collect();
    list("opaque_typedef", vec![NestedMeta::Meta(list("validate", nested))])
}

fn field(ident: Option<&str>, ty: &str, attrs: Vec<Meta>) -> Field {
    Field { ident: ident.map(|s| s.to_string()), ty: ty.to_string(), attrs }
}

fn decl(name: &str, impl_generics: &str, ty_generics: &str, fields: Vec<Field>, attrs: Vec<Meta>) -> DeriveInput {
    DeriveInput {
        ident: name.to_string(),
        generics: Generics {
            impl_generics: impl_generics.to_string(),
            ty_generics: ty_generics.to_string(),
            where_clause: String::new(),
        },
        data: Data::Struct(fields),
        attrs,
    }
}

fn token_texts(stream: proc_macro2::TokenStream, out: &mut Vec<String>) {
    for tree in stream {
        match tree {
            proc_macro2::TokenTree::Group(g) => {
                let (open, close) = match g.delimiter() {
                    proc_macro2::Delimiter::Parenthesis => ("(", ")"),
                    proc_macro2::Delimiter::Brace => ("{", "}"),
                    proc_macro2::Delimiter::Bracket => ("[", "]"),
                    proc_macro2::Delimiter::None => ("", ""),
                };
                out.push(open.to_string());
                token_texts(g.stream(), out);
                out.push(close.to_string());
            }
            proc_macro2::TokenTree::Punct(p) => out.push(p.as_char().to_string()),
            other => out.push(other.to_string()),
        }
    }
}

/// The tokens of `src`, one space apart, whatever the spacing it was written with.
fn norm(src: &str) -> String {
    let mut out = Vec::new();
    token_texts(src.parse::<proc_macro2::TokenStream>().unwrap(), &mut out);
    out.join(" ")
}


fn inner_marker() -> Meta {
    list("opaque_typedef", vec![word("inner")])
}

fn tuple(n: usize, marked: &[usize]) -> Vec<Field> {
    (0..n)
        .map(|i| {
            let attrs = if marked.contains(&i) { vec![inner_marker()] } else { vec![] };
            field(None, "u8", attrs)
        })
        .collect()
}

#[test]
fn single_tuple_field_is_primary_whatever_its_markers() {
    assert_eq!(get_primary_field(&tuple(1, &[])).unwrap(), 0);
    assert_eq!(get_primary_field(&tuple(1, &[0])).unwrap(), 0);
    let input = Input::new(decl("S", "", "", tuple(1, &[0]), vec![])).unwrap();
    assert_eq!(input.primary_field().index(), 0);
    assert!(matches!(input.primary_field().accessor(), opaque_typedef::FieldAccessor::Unnamed(0)));
    assert_eq!(input.primary_field().ty(), "u8");
}

#[test]
fn several_fields_need_exactly_one_marker() {
    assert_eq!(get_primary_field(&tuple(3, &[])).unwrap_err(), ConfigError::NoPrimaryField);
    assert_eq!(get_primary_field(&tuple(3, &[1])).unwrap(), 1);
    assert_eq!(
        get_primary_field(&tuple(3, &[0, 2])).unwrap_err(),
        ConfigError::MultiplePrimaryFields(0, 2)
    );
    assert_eq!(
        get_primary_field(&tuple(4, &[1, 2, 3])).unwrap_err(),
        ConfigError::MultiplePrimaryFields(1, 2)
    );
}

#[test]
fn no_fields_and_non_structs_are_rejected() {
    assert_eq!(get_primary_field(&vec![]).unwrap_err(), ConfigError::NoFields);
    let mut d = decl("S", "", "", vec![], vec![]);
    assert_eq!(Input::new(d).unwrap_err(), ConfigError::NoFields);
    d = decl("S", "", "", vec![], vec![]);
    d.data = Data::Enum;
    assert_eq!(Input::new(d).unwrap_err(), ConfigError::NotAStruct);
}

#[test]
fn bad_validator_literal_fails_the_descriptor() {
    let attrs = vec![validate_attr(&[("validator", "fn (")])];
    match Input::new(decl("S", "", "", tuple(1, &[]), attrs)).unwrap_err() {
        ConfigError::Attribute(d) => {
            assert_eq!(d.span, 1);
            assert!(d.message.starts_with("Failed to parse validator function: "));
        }
        other => panic!("unexpected {:?}", other),
    }
}

#[test]
fn descriptor_reads_flags_and_validation() {
    let attrs = vec![hide_docs_attr(), validate_attr(&[("validator", "check"), ("error", "E")])];
    let input = Input::new(decl("S", "", "", tuple(1, &[]), attrs)).unwrap();
    assert!(input.should_hide_base_impl_docs());
    assert_eq!(input.validator().unwrap(), "check");
    assert_eq!(input.ty_error().unwrap(), "E");
    assert_eq!(input.ty_error_force(), "E");
    assert_eq!(input.base_impl_attrs(), "#[doc(hidden)]");
    let plain = Input::new(decl("S", "", "", tuple(1, &[]), vec![])).unwrap();
    assert_eq!(plain.ty_error_force(), "std::convert::Infallible");
    assert_eq!(plain.base_impl_attrs(), "");
    assert!(plain.validator().is_none());
}

#[test]
fn fields_report_primary_flag_and_accessor() {
    let fields = vec![field(Some("a"), "u8", vec![]), field(Some("b"), "u16", vec![inner_marker()])];
    let input = Input::new(decl("S", "", "", fields, vec![])).unwrap();
    let flags: Vec<(bool, usize)> =
        input.fields_with_primary_flag().iter().map(|(p, f)| (*p, f.index())).collect();
    assert_eq!(flags, vec![(false, 0), (true, 1)]);
    assert_eq!(input.primary_field().ty(), "u16");
    assert_eq!(input.fields().len(), 2);
}

#[test]
fn sized_base_without_annotations_never_fails() {
    let input = Input::new(decl("S", "", "", vec![field(None, "u32", vec![])], vec![])).unwrap();
    let toks = gen_base_sized(&input);
    let expected = "impl opaque_typedef::OpaqueTypedefSized for S {
        type Inner = u32;
        type Error = std::convert::Infallible;
        fn try_from_inner(__inner: Self::Inner) -> Result<Self, Self::Error> { Ok(Self { 0: __inner, }) }
        unsafe fn from_inner_unchecked(__inner: Self::Inner) -> Self { Self { 0: __inner, } }
        fn into_inner(self) -> Self::Inner { self.0 }
        fn as_inner(&self) -> &Self::Inner { &self.0 }
    }";
    assert_eq!(norm(&toks.to_source()), norm(expected));
}

#[test]
fn validated_tagged_struct_defaults_the_tag() {
    let fields = vec![
        field(Some("inner"), "Vec<u8>", vec![inner_marker()]),
        field(Some("tag"), "Tag", vec![]),
    ];
    let attrs = vec![validate_attr(&[("validator", "f"), ("error", "E")])];
    let input = Input::new(decl("Tagged", "", "", fields, attrs)).unwrap();
    let toks = gen_base_sized(&input);
    let expected = "impl opaque_typedef::OpaqueTypedefSized for Tagged {
        type Inner = Vec<u8>;
        type Error = E;
        fn try_from_inner(__inner: Self::Inner) -> Result<Self, Self::Error> {
            Ok(Self { inner: (f)(__inner)?, tag: std::default::Default::default(), })
        }
        unsafe fn from_inner_unchecked(__inner: Self::Inner) -> Self {
            Self { inner: __inner, tag: std::default::Default::default(), }
        }
        fn into_inner(self) -> Self::Inner { self.inner }
        fn as_inner(&self) -> &Self::Inner { &self.inner }
    }";
    assert_eq!(norm(&toks.to_source()), norm(expected));
}

#[test]
fn validated_unsized_str_checks_before_the_cast() {
    let attrs = vec![
        repr_attr("transparent"),
        validate_attr(&[("error", "AsciiError"), ("validator", "validate_str")]),
    ];
    let input = Input::new(decl("S", "", "", vec![field(None, "str", vec![])], attrs)).unwrap();
    let toks = gen_base_unsized(&input).unwrap();
    let expected = "impl opaque_typedef::OpaqueTypedefUnsized for S {
        type Inner = str;
        type Error = AsciiError;
        fn try_from_inner(__inner: &Self::Inner) -> Result<&Self, Self::Error> {
            Ok(unsafe { &*((validate_str)(__inner)? as *const Self::Inner as *const Self) })
        }
        unsafe fn from_inner_unchecked(__inner: &Self::Inner) -> &Self {
            &*(__inner as *const Self::Inner as *const Self)
        }
        fn as_inner(&self) -> &Self::Inner { &self.0 }
    }";
    assert_eq!(norm(&toks.to_source()), norm(expected));
    let toks = gen_base_unsized_mut(&input).unwrap();
    let expected = "impl opaque_typedef::OpaqueTypedefUnsizedMut for S {
        fn try_from_inner_mut(__inner: &mut Self::Inner) -> Result<&mut Self, Self::Error> {
            (validate_str)(&*__inner)?;
            Ok(unsafe { &mut *(__inner as *mut Self::Inner as *mut Self) })
        }
        unsafe fn from_inner_unchecked_mut(__inner: &mut Self::Inner) -> &mut Self {
            &mut *(__inner as *mut Self::Inner as *mut Self)
        }
        fn as_inner_mut(&mut self) -> &mut Self::Inner { &mut self.0 }
    }";
    assert_eq!(norm(&toks.to_source()), norm(expected));
}

#[test]
fn infallible_traits_reject_a_validator_without_error_type() {
    let attrs = vec![repr_attr("C"), validate_attr(&[("validator", "v")])];
    let input = Input::new(decl("S", "", "", tuple(1, &[]), attrs)).unwrap();
    assert_eq!(gen_base_sized_infallible(&input).unwrap_err(), ConfigError::ValidatorWithInfallible(1));
    assert_eq!(gen_base_unsized_infallible(&input).unwrap_err(), ConfigError::ValidatorWithInfallible(1));
    assert_eq!(gen_base_unsized_infallible_mut(&input).unwrap_err(), ConfigError::ValidatorWithInfallible(1));
}

#[test]
fn unsized_traits_need_a_repr() {
    let input = Input::new(decl("S", "", "", tuple(1, &[]), vec![list("repr", vec![word("packed")])]))
        .unwrap();
    assert_eq!(gen_base_unsized(&input).unwrap_err(), ConfigError::UnsizedReprRequired);
    assert_eq!(gen_base_unsized_mut(&input).unwrap_err(), ConfigError::UnsizedReprRequired);
    assert_eq!(gen_base_unsized_infallible(&input).unwrap_err(), ConfigError::UnsizedReprRequired);
    assert_eq!(
        gen_base_unsized_infallible_mut(&input).unwrap_err(),
        ConfigError::UnsizedReprRequired
    );
    assert!(input.ensure_acceptable_unsized_repr_or_panic().is_err());
}

#[test]
fn either_repr_gives_the_same_unsized_impl() {
    let with_c = Input::new(decl("S", "", "", tuple(1, &[]), vec![repr_attr("C")])).unwrap();
    let with_t = Input::new(decl("S", "", "", tuple(1, &[]), vec![repr_attr("transparent")])).unwrap();
    assert_eq!(
        gen_base_unsized(&with_c).unwrap().to_source(),
        gen_base_unsized(&with_t).unwrap().to_source()
    );
    assert_eq!(
        gen_base_unsized_infallible_mut(&with_c).unwrap().to_source(),
        gen_base_unsized_infallible_mut(&with_t).unwrap().to_source()
    );
}

#[test]
fn positional_accessor_beyond_nine() {
    let input = Input::new(decl("S", "", "", tuple(12, &[11]), vec![])).unwrap();
    let src = gen_base_sized(&input).to_source();
    assert!(norm(&src).contains(&norm("self.11")));
    assert!(norm(&src).contains(&norm("10: std::default::Default::default()")));
}

#[test]
fn expand_renders_or_reports() {
    let text = opaque_typedef_sized(decl("S", "<T>", "<T>", tuple(1, &[]), vec![])).unwrap();
    assert!(norm(&text).starts_with(&norm("impl<T> opaque_typedef::OpaqueTypedefSized for S<T>")));
    assert_eq!(
        opaque_typedef_unsized(decl("S", "", "", tuple(1, &[]), vec![])).unwrap_err(),
        ConfigError::UnsizedReprRequired
    );
    assert_eq!(
        expand(TraitKind::SizedMut, decl("S", "", "", tuple(2, &[]), vec![])).unwrap_err(),
        ConfigError::NoPrimaryField
    );
}
