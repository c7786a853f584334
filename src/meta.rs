//! The attribute model: a parsed attribute tree and the facts read from it.
use vstd::prelude::*;

use crate::syntax::{parse_expr, parse_type};

verus! {

/// One segment of a path: an identifier, and whether it carries generic or
/// parenthesized arguments.
#[derive(Debug)]
pub struct PathSegment {
    pub ident: String,
    pub has_arguments: bool,
}

/// A path such as `a`, `a::b` or `::a`.
#[derive(Debug)]
pub struct MetaPath {
    pub leading_colon: bool,
    pub segments: Vec<PathSegment>,
}

/// A literal inside an attribute, with the position it was written at.
#[derive(Debug)]
pub enum Lit {
    /// A string literal and its value.
    Str { value: String, span: usize },
    /// Any other literal.
    Other { span: usize },
}

/// An attribute body: `path`, `path(nested, ...)` or `path = literal`.
#[derive(Debug)]
pub enum Meta {
    Path(MetaPath),
    List { path: MetaPath, nested: Vec<NestedMeta> },
    NameValue { path: MetaPath, lit: Lit },
}

/// An item inside a list attribute.
#[derive(Debug)]
pub enum NestedMeta {
    Meta(Meta),
    Lit(Lit),
}

/// A message tied to a position of the input.
#[derive(Debug, PartialEq, Eq)]
pub struct Diagnostic {
    pub span: usize,
    pub message: String,
}

/// Compares two strings.
pub(crate) fn same_text(a: &str, b: &str) -> (r: bool)
    ensures
        r == (a@ == b@),
{
    let x = a.to_owned();
    let y = b.to_owned();
    x.eq(&y)
}

impl MetaPath {
    /// The path is the single identifier `name`.
    pub open spec fn is_ident_spec(&self, name: Seq<char>) -> bool {
        &&& !self.leading_colon
        &&& self.segments@.len() == 1
        &&& !self.segments@[0].has_arguments
        &&& self.segments@[0].ident@ == name
    }

    /// Returns `true` if the path is the single identifier `name`.
    pub fn is_ident(&self, name: &str) -> (r: bool)
        ensures
            r == self.is_ident_spec(name@),
    {
        !self.leading_colon && self.segments.len() == 1 && !self.segments[0].has_arguments
            && same_text(self.segments[0].ident.as_str(), name)
    }
}

/// The segments of `path` are, in order, the identifiers `components`, none
/// with arguments.
pub open spec fn path_matches(path: &MetaPath, components: Seq<&str>) -> bool {
    &&& path.segments@.len() == components.len()
    &&& forall|i: int|
        0 <= i < components.len() ==> {
            &&& !(#[trigger] path.segments@[i]).has_arguments
            &&& path.segments@[i].ident@ == components[i]@
        }
}

/// Checks if the given path consists of the given identifiers.
pub fn eq_path_components(path: &MetaPath, components: &[&str]) -> (r: bool)
    ensures
        r == path_matches(path, components@),
{
    if path.segments.len() != components.len() {
        return false;
    }
    let mut i: usize = 0;
    while i < components.len()
        invariant
            path.segments@.len() == components@.len(),
            i <= components@.len(),
            forall|j: int|
                0 <= j < i ==> {
                    &&& !(#[trigger] path.segments@[j]).has_arguments
                    &&& path.segments@[j].ident@ == components@[j]@
                },
        decreases components@.len() - i,
    {
        let seg = &path.segments[i];
        if seg.has_arguments || !same_text(seg.ident.as_str(), components[i]) {
            return false;
        }
        i += 1;
    }
    true
}

/// `n` is the bare word `C` or `transparent`.
pub open spec fn is_unsized_repr_word(n: NestedMeta) -> bool {
    match n {
        NestedMeta::Meta(Meta::Path(p)) => p.is_ident_spec("C"@) || p.is_ident_spec(
            "transparent"@,
        ),
        _ => false,
    }
}

/// Some item of `items` is the bare word `C` or `transparent`.
pub open spec fn has_unsized_repr_word(items: Seq<NestedMeta>) -> bool {
    exists|i: int| 0 <= i < items.len() && is_unsized_repr_word(#[trigger] items[i])
}

/// Some item of `items` is the bare word `word`.
pub open spec fn has_word(items: Seq<NestedMeta>, word: Seq<char>) -> bool {
    exists|i: int| 0 <= i < items.len() && is_word(#[trigger] items[i], word)
}

/// `n` is the bare word `word`.
pub open spec fn is_word(n: NestedMeta, word: Seq<char>) -> bool {
    match n {
        NestedMeta::Meta(Meta::Path(p)) => p.is_ident_spec(word),
        _ => false,
    }
}

/// The first literal of an entry `key = literal` among `entries`.
pub open spec fn lit_in_entries(entries: Seq<NestedMeta>, key: Seq<char>) -> Option<Lit>
    decreases entries.len(),
{
    if entries.len() == 0 {
        None
    } else {
        match entries[0] {
            NestedMeta::Meta(Meta::NameValue { path, lit }) => if path.is_ident_spec(key) {
                Some(lit)
            } else {
                lit_in_entries(entries.drop_first(), key)
            },
            _ => lit_in_entries(entries.drop_first(), key),
        }
    }
}

/// The literal of `key = literal` inside `n` when `n` is `validate(...)`.
pub open spec fn lit_in_validate(n: NestedMeta, key: Seq<char>) -> Option<Lit> {
    match n {
        NestedMeta::Meta(Meta::List { path, nested }) => if path.is_ident_spec("validate"@) {
            lit_in_entries(nested@, key)
        } else {
            None
        },
        _ => None,
    }
}

/// The first literal of `key = literal` over all the `validate(...)` lists
/// among `items`.
pub open spec fn lit_in_validate_lists(items: Seq<NestedMeta>, key: Seq<char>) -> Option<Lit>
    decreases items.len(),
{
    if items.len() == 0 {
        None
    } else if lit_in_validate(items[0], key) is Some {
        lit_in_validate(items[0], key)
    } else {
        lit_in_validate_lists(items.drop_first(), key)
    }
}

/// The view of an optional text.
pub open spec fn opt_text(o: Option<String>) -> Option<Seq<char>> {
    match o {
        Some(s) => Some(s@),
        None => None,
    }
}

/// The message of a diagnostic for a string literal that did not parse as
/// `what`: it starts with this text, followed by the parser's own words.
pub open spec fn parse_failure_prefix(what: Seq<char>) -> Seq<char> {
    "Failed to parse "@ + what + ": "@
}

/// `r` is a possible outcome of reading the literal `lit` as `what`: nothing
/// when there is no literal; for a string literal, its text as written, or a
/// parse failure at its position; for any other literal, a fixed diagnostic
/// at its position.
pub open spec fn literal_read(
    lit: Option<Lit>,
    what: Seq<char>,
    r: Result<Option<String>, Diagnostic>,
) -> bool {
    match lit {
        None => r matches Ok(None),
        Some(Lit::Str { value, span }) => match r {
            Ok(Some(t)) => t@ == value@,
            Ok(None) => false,
            Err(d) => d.span == span && parse_failure_prefix(what).is_prefix_of(d.message@),
        },
        Some(Lit::Other { span }) => r matches Err(d) && d.span == span && d.message@
            == "Expected string literal as "@ + what + ", but got other literal"@,
    }
}

/// Turns the result of parsing a string literal written at `span` into the
/// parsed text, or into a diagnostic that names `what` was being parsed.
pub fn parsed_literal(parsed: Result<String, String>, span: usize, what: &str) -> (r: Result<
    String,
    Diagnostic,
>)
    ensures
        match parsed {
            Ok(t) => r matches Ok(s) && s@ == t@,
            Err(e) => r matches Err(d) && d.span == span && d.message@ == parse_failure_prefix(
                what@,
            ) + e@,
        },
{
    match parsed {
        Ok(t) => Ok(t),
        Err(e) => {
            let mut message = String::from_str("Failed to parse ");
            message.append(what);
            message.append(": ");
            message.append(e.as_str());
            Err(Diagnostic { span, message })
        },
    }
}

/// Diagnostic for a validation entry whose literal is not a string.
fn non_string_literal(span: usize, what: &str) -> (d: Diagnostic)
    ensures
        d.span == span,
        d.message@ == "Expected string literal as "@ + what@ + ", but got other literal"@,
{
    let mut message = String::from_str("Expected string literal as ");
    message.append(what);
    message.append(", but got other literal");
    Diagnostic { span, message }
}

/// Finds the first `key = literal` entry among `entries`.
fn find_in_entries<'a>(entries: &'a Vec<NestedMeta>, key: &str) -> (r: Option<&'a Lit>)
    ensures
        match r {
            Some(l) => lit_in_entries(entries@, key@) == Some(*l),
            None => lit_in_entries(entries@, key@) is None,
        },
{
    let mut i: usize = 0;
    assert(entries@.subrange(0, entries@.len() as int) =~= entries@);
    while i < entries.len()
        invariant
            i <= entries@.len(),
            lit_in_entries(entries@.subrange(i as int, entries@.len() as int), key@)
                == lit_in_entries(entries@, key@),
        decreases entries@.len() - i,
    {
        let rest = Ghost(entries@.subrange(i as int, entries@.len() as int));
        assert(rest@.drop_first() =~= entries@.subrange(i + 1, entries@.len() as int));
        assert(rest@[0] == entries@[i as int]);
        match &entries[i] {
            NestedMeta::Meta(Meta::NameValue { path, lit }) => {
                if path.is_ident(key) {
                    return Some(lit);
                }
            },
            _ => {},
        }
        i += 1;
    }
    assert(entries@.subrange(i as int, entries@.len() as int).len() == 0);
    None
}

/// Finds the first `key = literal` entry over the `validate(...)` lists among `items`.
fn find_in_validate_lists<'a>(items: &'a Vec<NestedMeta>, key: &str) -> (r: Option<&'a Lit>)
    ensures
        match r {
            Some(l) => lit_in_validate_lists(items@, key@) == Some(*l),
            None => lit_in_validate_lists(items@, key@) is None,
        },
{
    let mut i: usize = 0;
    assert(items@.subrange(0, items@.len() as int) =~= items@);
    while i < items.len()
        invariant
            i <= items@.len(),
            lit_in_validate_lists(items@.subrange(i as int, items@.len() as int), key@)
                == lit_in_validate_lists(items@, key@),
        decreases items@.len() - i,
    {
        let rest = Ghost(items@.subrange(i as int, items@.len() as int));
        assert(rest@.drop_first() =~= items@.subrange(i + 1, items@.len() as int));
        assert(rest@[0] == items@[i as int]);
        match &items[i] {
            NestedMeta::Meta(Meta::List { path, nested }) => {
                if path.is_ident("validate") {
                    let found = find_in_entries(nested, key);
                    if found.is_some() {
                        return found;
                    }
                }
            },
            _ => {},
        }
        i += 1;
    }
    assert(items@.subrange(i as int, items@.len() as int).len() == 0);
    None
}

/// Attribute queries.
pub trait MetaExt {
    /// The attribute is `repr(...)` with `C` or `transparent` among its words.
    spec fn has_unsized_repr_spec(&self) -> bool;

    /// The attribute is the path `level1::level2`, or `level1(...)` with the
    /// word `level2` among its items.
    spec fn has_level2_word_spec(&self, level1: &str, level2: &str) -> bool;

    /// The literal of the first `key = literal` inside
    /// `opaque_typedef(validate(...))`.
    spec fn validation_lit(&self, key: Seq<char>) -> Option<Lit>;

    /// Returns `true` if the meta has the repr `C` or `transparent`.
    fn has_unsized_repr(&self) -> (r: bool)
        ensures
            r == self.has_unsized_repr_spec(),
    ;

    /// Returns `true` if the meta has the word at depth 2, such as `foo(bar)` or path `foo::bar`.
    fn has_level2_word(&self, level1: &str, level2: &str) -> (r: bool)
        ensures
            r == self.has_level2_word_spec(level1, level2),
    ;

    /// Returns the validator, as written, once it parses as an expression.
    fn validator(&self) -> (r: Result<Option<String>, Diagnostic>)
        ensures
            literal_read(self.validation_lit("validator"@), "validator function"@, r),
    ;

    /// Returns the validation error type, as written, once it parses as a type.
    fn ty_validation_error(&self) -> (r: Result<Option<String>, Diagnostic>)
        ensures
            literal_read(self.validation_lit("error"@), "validation error type"@, r),
    ;
}

impl Meta {
    /// Finds the literal of the first `key = literal` inside `opaque_typedef(validate(...))`.
    pub(crate) fn find_validation_lit(&self, key: &str) -> (r: Option<&Lit>)
        ensures
            match r {
                Some(l) => self.validation_lit(key@) == Some(*l),
                None => self.validation_lit(key@) is None,
            },
    {
        match self {
            Meta::List { path, nested } => {
                if path.is_ident("opaque_typedef") {
                    find_in_validate_lists(nested, key)
                } else {
                    None
                }
            },
            _ => None,
        }
    }
}

impl MetaExt for Meta {
    open spec fn has_unsized_repr_spec(&self) -> bool {
        match self {
            Meta::List { path, nested } => path.is_ident_spec("repr"@) && has_unsized_repr_word(
                nested@,
            ),
            _ => false,
        }
    }

    open spec fn has_level2_word_spec(&self, level1: &str, level2: &str) -> bool {
        match self {
            Meta::Path(p) => path_matches(p, seq![level1, level2]),
            Meta::List { path, nested } => path.is_ident_spec(level1@) && has_word(
                nested@,
                level2@,
            ),
            _ => false,
        }
    }

    open spec fn validation_lit(&self, key: Seq<char>) -> Option<Lit> {
        match self {
            Meta::List { path, nested } => if path.is_ident_spec("opaque_typedef"@) {
                lit_in_validate_lists(nested@, key)
            } else {
                None
            },
            _ => None,
        }
    }

    fn has_unsized_repr(&self) -> (r: bool) {
        match self {
            Meta::List { path, nested } => {
                if !path.is_ident("repr") {
                    return false;
                }
                let mut i: usize = 0;
                while i < nested.len()
                    invariant
                        i <= nested@.len(),
                        path.is_ident_spec("repr"@),
                        *self == (Meta::List { path: *path, nested: *nested }),
                        forall|j: int| 0 <= j < i ==> !is_unsized_repr_word(#[trigger] nested@[j]),
                    decreases nested@.len() - i,
                {
                    match &nested[i] {
                        NestedMeta::Meta(Meta::Path(p)) => {
                            if p.is_ident("C") || p.is_ident("transparent") {
                                assert(is_unsized_repr_word(nested@[i as int]));
                                assert(has_unsized_repr_word(nested@));
                                return true;
                            }
                        },
                        _ => {},
                    }
                    i += 1;
                }
                false
            },
            _ => false,
        }
    }

    fn has_level2_word(&self, level1: &str, level2: &str) -> (r: bool) {
        match self {
            Meta::Path(path) => {
                let components: Vec<&str> = vec![level1, level2];
                assert(components@ =~= seq![level1, level2]);
                eq_path_components(path, components.as_slice())
            },
            Meta::List { path, nested } => {
                if !path.is_ident(level1) {
                    return false;
                }
                let mut i: usize = 0;
                while i < nested.len()
                    invariant
                        i <= nested@.len(),
                        path.is_ident_spec(level1@),
                        *self == (Meta::List { path: *path, nested: *nested }),
                        forall|j: int| 0 <= j < i ==> !is_word(#[trigger] nested@[j], level2@),
                    decreases nested@.len() - i,
                {
                    match &nested[i] {
                        NestedMeta::Meta(Meta::Path(p)) => {
                            if p.is_ident(level2) {
                                assert(is_word(nested@[i as int], level2@));
                                assert(has_word(nested@, level2@));
                                return true;
                            }
                        },
                        _ => {},
                    }
                    i += 1;
                }
                false
            },
            _ => false,
        }
    }

    fn validator(&self) -> (r: Result<Option<String>, Diagnostic>) {
        read_validator(self.find_validation_lit("validator"))
    }

    fn ty_validation_error(&self) -> (r: Result<Option<String>, Diagnostic>) {
        read_error_type(self.find_validation_lit("error"))
    }
}

/// The literal behind an optional reference.
pub open spec fn lit_of(lit: Option<&Lit>) -> Option<Lit> {
    match lit {
        Some(l) => Some(*l),
        None => None,
    }
}

proof fn lemma_failure_message(what: Seq<char>, e: Seq<char>)
    ensures
        parse_failure_prefix(what).is_prefix_of(parse_failure_prefix(what) + e),
{
    let p = parse_failure_prefix(what);
    assert((p + e).subrange(0, p.len() as int) =~= p);
}

/// Reads a validator literal: the expression's text, or a diagnostic.
pub(crate) fn read_validator(lit: Option<&Lit>) -> (r: Result<Option<String>, Diagnostic>)
    ensures
        literal_read(lit_of(lit), "validator function"@, r),
{
    match lit {
        None => Ok(None),
        Some(Lit::Str { value, span }) => {
            let parsed = parse_expr(value.as_str());
            proof {
                if parsed is Err {
                    lemma_failure_message("validator function"@, parsed->Err_0@);
                }
            }
            match parsed_literal(parsed, *span, "validator function") {
                Ok(t) => Ok(Some(t)),
                Err(d) => Err(d),
            }
        },
        Some(Lit::Other { span }) => Err(non_string_literal(*span, "validator function")),
    }
}

/// Reads a validation error type literal: the type's text, or a diagnostic.
pub(crate) fn read_error_type(lit: Option<&Lit>) -> (r: Result<Option<String>, Diagnostic>)
    ensures
        literal_read(lit_of(lit), "validation error type"@, r),
{
    match lit {
        None => Ok(None),
        Some(Lit::Str { value, span }) => {
            let parsed = parse_type(value.as_str());
            proof {
                if parsed is Err {
                    lemma_failure_message("validation error type"@, parsed->Err_0@);
                }
            }
            match parsed_literal(parsed, *span, "validation error type") {
                Ok(t) => Ok(Some(t)),
                Err(d) => Err(d),
            }
        },
        Some(Lit::Other { span }) => Err(non_string_literal(*span, "validation error type")),
    }
}

} // verus!
