//! The declaration of a wrapper type, and the descriptor that the generators read.
use vstd::prelude::*;

use crate::meta::{
    Diagnostic, Lit, Meta, MetaExt, lit_of, literal_read, read_error_type, read_validator,
};

verus! {

/// A field of the declared struct.
#[derive(Debug)]
pub struct Field {
    /// The field's name; `None` in a tuple struct.
    pub ident: Option<String>,
    /// The field's type, as source text.
    pub ty: String,
    /// The field's attributes that parse as a meta.
    pub attrs: Vec<Meta>,
}

/// The body of the declared type.
#[derive(Debug)]
pub enum Data {
    Struct(Vec<Field>),
    Enum,
    Union,
}

/// The generics of the declared type, split for an impl block.
#[derive(Debug)]
pub struct Generics {
    /// The parameters after `impl`, with their bounds (`<T: Clone>`).
    pub impl_generics: String,
    /// The arguments after the type's name (`<T>`).
    pub ty_generics: String,
    /// The where clause, if any.
    pub where_clause: String,
}

/// A type declaration as handed over by the compiler.
#[derive(Debug)]
pub struct DeriveInput {
    pub ident: String,
    pub generics: Generics,
    pub data: Data,
    /// The type's attributes that parse as a meta.
    pub attrs: Vec<Meta>,
}

/// Why no descriptor or no impl could be made for a declaration.
#[derive(Debug, PartialEq, Eq)]
pub enum ConfigError {
    /// The declaration is an enum or a union.
    NotAStruct,
    /// The struct has no fields.
    NoFields,
    /// The struct has several fields and none is marked as primary.
    NoPrimaryField,
    /// The first two fields marked as primary, by index.
    MultiplePrimaryFields(usize, usize),
    /// An unsized wrapper needs `#[repr(C)]` or `#[repr(transparent)]`.
    UnsizedReprRequired,
    /// A validator, written at the given position, was given for a trait
    /// whose conversion cannot fail.
    ValidatorWithInfallible(usize),
    /// An attribute literal could not be read.
    Attribute(Diagnostic),
}

/// How the generated code names a field.
#[derive(Debug)]
pub enum FieldAccessor {
    Named(String),
    Unnamed(usize),
}

/// A field together with its index.
#[derive(Debug)]
pub struct FieldWrapper {
    pub index: usize,
    pub ident: Option<String>,
    pub ty: String,
}

/// The descriptor of a wrapper type.
///
/// The *primary field* is the field which holds the data convertible from and
/// into the inner type.
#[derive(Debug)]
pub struct Input {
    pub ident: String,
    pub generics: Generics,
    pub fields: Vec<Field>,
    pub primary_field: FieldWrapper,
    pub should_hide_base_impl_docs: bool,
    pub meta_attrs: Vec<Meta>,
    /// The validator expression, as source text.
    pub validator: Option<String>,
    /// The position of the validator's literal, when there is a validator.
    pub validator_span: usize,
    /// The validation error type, as source text.
    pub ty_validation_error: Option<String>,
}

/// The field carries the marker `opaque_typedef(inner)` (or `opaque_typedef::inner`).
pub open spec fn is_marked_primary(f: Field) -> bool {
    exists|i: int|
        0 <= i < f.attrs@.len() && (#[trigger] f.attrs@[i]).has_level2_word_spec(
            "opaque_typedef",
            "inner",
        )
}

/// The first index at or after `start` whose field is marked as primary.
pub open spec fn first_marked_from(fields: Seq<Field>, start: int) -> Option<int>
    decreases fields.len() - start,
{
    if start < 0 || start >= fields.len() {
        None
    } else if is_marked_primary(fields[start]) {
        Some(start)
    } else {
        first_marked_from(fields, start + 1)
    }
}

/// Which field is primary, or why none can be.
pub open spec fn primary_choice(fields: Seq<Field>) -> Result<int, ConfigError> {
    if fields.len() == 0 {
        Err(ConfigError::NoFields)
    } else if fields.len() == 1 {
        Ok(0)
    } else {
        match first_marked_from(fields, 0) {
            None => Err(ConfigError::NoPrimaryField),
            Some(a) => match first_marked_from(fields, a + 1) {
                None => Ok(a),
                Some(b) => Err(ConfigError::MultiplePrimaryFields(a as usize, b as usize)),
            },
        }
    }
}

/// The first attribute among `attrs` that holds `key = literal` inside
/// `opaque_typedef(validate(...))`, and that literal.
pub open spec fn first_validation_lit(attrs: Seq<Meta>, key: Seq<char>) -> Option<Lit>
    decreases attrs.len(),
{
    if attrs.len() == 0 {
        None
    } else if attrs[0].validation_lit(key) is Some {
        attrs[0].validation_lit(key)
    } else {
        first_validation_lit(attrs.drop_first(), key)
    }
}

/// Some attribute is `repr(C)` or `repr(transparent)`.
pub open spec fn has_unsized_repr_attr(attrs: Seq<Meta>) -> bool {
    exists|i: int| 0 <= i < attrs.len() && (#[trigger] attrs[i]).has_unsized_repr_spec()
}

/// Some attribute is `opaque_typedef(hide_base_impl_docs)`.
pub open spec fn has_hide_docs_attr(attrs: Seq<Meta>) -> bool {
    exists|i: int|
        0 <= i < attrs.len() && (#[trigger] attrs[i]).has_level2_word_spec(
            "opaque_typedef",
            "hide_base_impl_docs",
        )
}

/// The accessor of field `index` of `fields`.
pub open spec fn accessor_of(fields: Seq<Field>, index: int) -> FieldAccessor {
    match fields[index].ident {
        Some(name) => FieldAccessor::Named(name),
        None => FieldAccessor::Unnamed(index as usize),
    }
}

fn clone_name(s: &Option<String>) -> (r: Option<String>)
    ensures
        r == *s,
{
    match s {
        Some(t) => Some(t.clone()),
        None => None,
    }
}

/// Copies the generics.
pub fn clone_generics(g: &Generics) -> (r: Generics)
    ensures
        r == *g,
{
    Generics {
        impl_generics: g.impl_generics.clone(),
        ty_generics: g.ty_generics.clone(),
        where_clause: g.where_clause.clone(),
    }
}

/// Checks if the given field is marked as primary.
fn is_primary_field(field: &Field) -> (r: bool)
    ensures
        r == is_marked_primary(*field),
{
    let mut i: usize = 0;
    while i < field.attrs.len()
        invariant
            i <= field.attrs@.len(),
            forall|j: int|
                0 <= j < i ==> !(#[trigger] field.attrs@[j]).has_level2_word_spec(
                    "opaque_typedef",
                    "inner",
                ),
        decreases field.attrs@.len() - i,
    {
        if field.attrs[i].has_level2_word("opaque_typedef", "inner") {
            return true;
        }
        i += 1;
    }
    false
}

/// Returns the first index at or after `start` whose field is marked as primary.
fn first_marked(fields: &Vec<Field>, start: usize) -> (r: Option<usize>)
    ensures
        match r {
            Some(i) => first_marked_from(fields@, start as int) == Some(i as int) && start <= i
                < fields@.len(),
            None => first_marked_from(fields@, start as int) is None,
        },
{
    let mut i = start;
    while i < fields.len()
        invariant
            start <= i,
            first_marked_from(fields@, i as int) == first_marked_from(fields@, start as int),
        decreases fields@.len() - i,
    {
        if is_primary_field(&fields[i]) {
            return Some(i);
        }
        i += 1;
    }
    None
}

/// Returns the index of the primary field.
///
/// A lone field is primary whatever its markers; among several fields exactly
/// one must be marked.
pub fn get_primary_field(fields: &Vec<Field>) -> (r: Result<usize, ConfigError>)
    ensures
        match primary_choice(fields@) {
            Ok(i) => r matches Ok(j) && j as int == i && i < fields@.len(),
            Err(e) => r == Err::<usize, ConfigError>(e),
        },
{
    let n = fields.len();
    if n == 0 {
        return Err(ConfigError::NoFields);
    } else if n == 1 {
        return Ok(0);
    }
    match first_marked(fields, 0) {
        None => Err(ConfigError::NoPrimaryField),
        Some(first) => match first_marked(fields, first + 1) {
            None => Ok(first),
            Some(second) => Err(ConfigError::MultiplePrimaryFields(first, second)),
        },
    }
}

/// Returns the first `key = literal` inside `opaque_typedef(validate(...))`
/// over all the attributes.
fn first_lit<'a>(attrs: &'a Vec<Meta>, key: &str) -> (r: Option<&'a Lit>)
    ensures
        lit_of(r) == first_validation_lit(attrs@, key@),
{
    let mut i: usize = 0;
    assert(attrs@.subrange(0, attrs@.len() as int) =~= attrs@);
    while i < attrs.len()
        invariant
            i <= attrs@.len(),
            first_validation_lit(attrs@.subrange(i as int, attrs@.len() as int), key@)
                == first_validation_lit(attrs@, key@),
        decreases attrs@.len() - i,
    {
        let rest = Ghost(attrs@.subrange(i as int, attrs@.len() as int));
        assert(rest@.drop_first() =~= attrs@.subrange(i + 1, attrs@.len() as int));
        assert(rest@[0] == attrs@[i as int]);
        let found = attrs[i].find_validation_lit(key);
        if found.is_some() {
            return found;
        }
        i += 1;
    }
    assert(attrs@.subrange(i as int, attrs@.len() as int).len() == 0);
    None
}

/// Returns `true` if some attribute is `opaque_typedef(hide_base_impl_docs)`.
fn find_hide_docs(attrs: &Vec<Meta>) -> (r: bool)
    ensures
        r == has_hide_docs_attr(attrs@),
{
    let mut i: usize = 0;
    while i < attrs.len()
        invariant
            i <= attrs@.len(),
            forall|j: int|
                0 <= j < i ==> !(#[trigger] attrs@[j]).has_level2_word_spec(
                    "opaque_typedef",
                    "hide_base_impl_docs",
                ),
        decreases attrs@.len() - i,
    {
        if attrs[i].has_level2_word("opaque_typedef", "hide_base_impl_docs") {
            return true;
        }
        i += 1;
    }
    false
}

/// `r` is the descriptor of the struct `d`, with fields `fields` of which
/// the one at `p` is primary, or the diagnostic of its first unreadable
/// validation literal.
pub open spec fn descriptor_outcome(
    d: DeriveInput,
    fields: Vec<Field>,
    p: int,
    r: Result<Input, ConfigError>,
) -> bool {
    let v = first_validation_lit(d.attrs@, "validator"@);
    let e = first_validation_lit(d.attrs@, "error"@);
    match r {
        Ok(input) => {
            &&& input.wf()
            &&& input.ident == d.ident
            &&& input.generics == d.generics
            &&& input.fields == fields
            &&& input.primary_field.index == p
            &&& input.should_hide_base_impl_docs == has_hide_docs_attr(d.attrs@)
            &&& input.meta_attrs == d.attrs
            &&& literal_read(v, "validator function"@, Ok(input.validator))
            &&& literal_read(e, "validation error type"@, Ok(input.ty_validation_error))
            &&& (v is Some && v->0 is Str) ==> input.validator_span == v->0->Str_span
        },
        Err(ConfigError::Attribute(diag)) => literal_read(v, "validator function"@, Err(diag)) || (
        !(v is Some && v->0 is Other) && literal_read(e, "validation error type"@, Err(diag))),
        Err(_) => false,
    }
}

/// `r` is what building the descriptor of `d` gives.
pub open spec fn new_outcome(d: DeriveInput, r: Result<Input, ConfigError>) -> bool {
    match d.data {
        Data::Struct(fields) => match primary_choice(fields@) {
            Err(e) => r == Err::<Input, ConfigError>(e),
            Ok(p) => descriptor_outcome(d, fields, p, r),
        },
        _ => r == Err::<Input, ConfigError>(ConfigError::NotAStruct),
    }
}

impl FieldWrapper {
    /// Creates a wrapper for `field`, found at `index`.
    fn new(index: usize, field: &Field) -> (r: Self)
        ensures
            r.index == index,
            r.ident == field.ident,
            r.ty == field.ty,
    {
        FieldWrapper { index, ident: clone_name(&field.ident), ty: field.ty.clone() }
    }

    /// How the field is named in generated code.
    pub open spec fn accessor_spec(&self) -> FieldAccessor {
        match self.ident {
            Some(name) => FieldAccessor::Named(name),
            None => FieldAccessor::Unnamed(self.index),
        }
    }

    /// Creates the field's accessor: its name, or its index in a tuple struct.
    pub fn accessor(&self) -> (r: FieldAccessor)
        ensures
            r == self.accessor_spec(),
    {
        match &self.ident {
            Some(ident) => FieldAccessor::Named(ident.clone()),
            None => FieldAccessor::Unnamed(self.index),
        }
    }

    /// Returns the field index.
    pub fn index(&self) -> (r: usize)
        ensures
            r == self.index,
    {
        self.index
    }

    /// Returns the field type.
    pub fn ty(&self) -> (r: &String)
        ensures
            *r == self.ty,
    {
        &self.ty
    }
}

impl Input {
    /// The descriptor is consistent: its primary field is one of its fields.
    pub open spec fn wf(&self) -> bool {
        &&& self.primary_field.index < self.fields@.len()
        &&& self.primary_field.ident == self.fields@[self.primary_field.index as int].ident
        &&& self.primary_field.ty == self.fields@[self.primary_field.index as int].ty
    }

    /// Creates an `Input` from the given declaration.
    pub fn new(derive_input: DeriveInput) -> (r: Result<Self, ConfigError>)
        ensures
            new_outcome(derive_input, r),
    {
        let DeriveInput { ident, generics, data, attrs } = derive_input;
        let fields = match data {
            Data::Struct(fields) => fields,
            _ => {
                return Err(ConfigError::NotAStruct);
            },
        };
        let index = match get_primary_field(&fields) {
            Ok(i) => i,
            Err(e) => {
                return Err(e);
            },
        };
        let primary_field = FieldWrapper::new(index, &fields[index]);
        let should_hide_base_impl_docs = find_hide_docs(&attrs);
        let validator_lit = first_lit(&attrs, "validator");
        let validator_span = match validator_lit {
            Some(Lit::Str { span, .. }) => *span,
            _ => 0,
        };
        let validator = match read_validator(validator_lit) {
            Ok(v) => v,
            Err(d) => {
                return Err(ConfigError::Attribute(d));
            },
        };
        let ty_validation_error = match read_error_type(first_lit(&attrs, "error")) {
            Ok(v) => v,
            Err(d) => {
                return Err(ConfigError::Attribute(d));
            },
        };
        Ok(Input {
            ident,
            generics,
            fields,
            primary_field,
            should_hide_base_impl_docs,
            meta_attrs: attrs,
            validator,
            validator_span,
            ty_validation_error,
        })
    }

    /// Returns the identifier of the type.
    pub fn ident(&self) -> (r: &String)
        ensures
            *r == self.ident,
    {
        &self.ident
    }

    /// Returns the fields, each with its index.
    pub fn fields(&self) -> (r: Vec<FieldWrapper>)
        ensures
            r@.len() == self.fields@.len(),
            forall|i: int|
                0 <= i < r@.len() ==> {
                    &&& (#[trigger] r@[i]).index == i
                    &&& r@[i].ident == self.fields@[i].ident
                    &&& r@[i].ty == self.fields@[i].ty
                },
    {
        let mut r: Vec<FieldWrapper> = Vec::new();
        let mut i: usize = 0;
        while i < self.fields.len()
            invariant
                i <= self.fields@.len(),
                r@.len() == i,
                forall|j: int|
                    0 <= j < i ==> {
                        &&& (#[trigger] r@[j]).index == j
                        &&& r@[j].ident == self.fields@[j].ident
                        &&& r@[j].ty == self.fields@[j].ty
                    },
            decreases self.fields@.len() - i,
        {
            r.push(FieldWrapper::new(i, &self.fields[i]));
            i += 1;
        }
        r
    }

    /// Returns the fields, each with its index and whether it is the primary field.
    pub fn fields_with_primary_flag(&self) -> (r: Vec<(bool, FieldWrapper)>)
        ensures
            r@.len() == self.fields@.len(),
            forall|i: int|
                0 <= i < r@.len() ==> {
                    &&& (#[trigger] r@[i]).0 == (i == self.primary_field.index)
                    &&& r@[i].1.index == i
                    &&& r@[i].1.ident == self.fields@[i].ident
                    &&& r@[i].1.ty == self.fields@[i].ty
                },
    {
        let fields = self.fields();
        let mut r: Vec<(bool, FieldWrapper)> = Vec::new();
        let mut i: usize = 0;
        while i < fields.len()
            invariant
                i <= fields@.len(),
                fields@.len() == self.fields@.len(),
                forall|j: int|
                    0 <= j < fields@.len() ==> {
                        &&& (#[trigger] fields@[j]).index == j
                        &&& fields@[j].ident == self.fields@[j].ident
                        &&& fields@[j].ty == self.fields@[j].ty
                    },
                r@.len() == i,
                forall|j: int|
                    0 <= j < i ==> {
                        &&& (#[trigger] r@[j]).0 == (j == self.primary_field.index)
                        &&& r@[j].1.index == j
                        &&& r@[j].1.ident == self.fields@[j].ident
                        &&& r@[j].1.ty == self.fields@[j].ty
                    },
            decreases fields@.len() - i,
        {
            let f = &fields[i];
            r.push((f.index == self.primary_field.index, FieldWrapper::new(f.index, &self.fields[i])));
            i += 1;
        }
        r
    }

    /// Returns the primary field.
    pub fn primary_field(&self) -> (r: &FieldWrapper)
        ensures
            *r == self.primary_field,
    {
        &self.primary_field
    }

    /// Returns the generics.
    pub fn generics(&self) -> (r: &Generics)
        ensures
            *r == self.generics,
    {
        &self.generics
    }

    /// Returns the validator if available.
    pub fn validator(&self) -> (r: Option<&String>)
        ensures
            match self.validator {
                Some(v) => r == Some(&v),
                None => r is None,
            },
    {
        self.validator.as_ref()
    }

    /// Returns the error type if available.
    pub fn ty_error(&self) -> (r: Option<&String>)
        ensures
            match self.ty_validation_error {
                Some(t) => r == Some(&t),
                None => r is None,
            },
    {
        self.ty_validation_error.as_ref()
    }

    /// The error type of the generated conversions.
    pub open spec fn error_type_text(&self) -> Seq<char> {
        match self.ty_validation_error {
            Some(t) => t@,
            None => "std::convert::Infallible"@,
        }
    }

    /// Returns the error type: the declared one, or `std::convert::Infallible`.
    pub fn ty_error_force(&self) -> (r: String)
        ensures
            r@ == self.error_type_text(),
    {
        match &self.ty_validation_error {
            Some(t) => t.clone(),
            None => String::from_str("std::convert::Infallible"),
        }
    }

    /// Returns whether the base traits impls docs should be hidden.
    pub fn should_hide_base_impl_docs(&self) -> (r: bool)
        ensures
            r == self.should_hide_base_impl_docs,
    {
        self.should_hide_base_impl_docs
    }

    /// Returns the attributes for base trait impls.
    pub fn base_impl_attrs(&self) -> (r: String)
        ensures
            r@ == if self.should_hide_base_impl_docs {
                "#[doc(hidden)]"@
            } else {
                Seq::<char>::empty()
            },
    {
        if self.should_hide_base_impl_docs {
            String::from_str("#[doc(hidden)]")
        } else {
            String::new()
        }
    }

    /// Returns the attributes parsed as meta.
    pub fn meta_attrs(&self) -> (r: &Vec<Meta>)
        ensures
            *r == self.meta_attrs,
    {
        &self.meta_attrs
    }

    /// Ensures the type has an acceptable `repr` for an unsized wrapper:
    /// `#[repr(C)]` or `#[repr(transparent)]`.
    pub fn ensure_acceptable_unsized_repr_or_panic(&self) -> (r: Result<(), ConfigError>)
        ensures
            r is Ok <==> has_unsized_repr_attr(self.meta_attrs@),
            r matches Err(e) ==> e == ConfigError::UnsizedReprRequired,
    {
        let mut i: usize = 0;
        while i < self.meta_attrs.len()
            invariant
                i <= self.meta_attrs@.len(),
                forall|j: int| 0 <= j < i ==> !(#[trigger] self.meta_attrs@[j]).has_unsized_repr_spec(),
            decreases self.meta_attrs@.len() - i,
        {
            if self.meta_attrs[i].has_unsized_repr() {
                return Ok(());
            }
            i += 1;
        }
        Err(ConfigError::UnsizedReprRequired)
    }
}

} // verus!
