//! Properties of the descriptor and of the generated impls.
use vstd::prelude::*;

use crate::generate::{base_sized_impl, generated, primary_accessor};
use crate::input::{
    ConfigError, DeriveInput, Field, FieldAccessor, Input, accessor_of, first_marked_from,
    first_validation_lit, has_unsized_repr_attr, is_marked_primary, new_outcome, primary_choice,
};
use crate::ir::{Body, FieldInit, TraitImpl, TraitKind, Value};

verus! {

/// Where `first_marked_from` stops: the first marked field at or after
/// `start`, or nowhere when no field there is marked.
proof fn lemma_first_marked(fields: Seq<Field>, start: int)
    requires
        0 <= start,
    ensures
        match first_marked_from(fields, start) {
            Some(k) => start <= k < fields.len() && is_marked_primary(fields[k]) && forall|j: int|
                start <= j < k ==> !is_marked_primary(#[trigger] fields[j]),
            None => forall|j: int| start <= j < fields.len() ==> !is_marked_primary(#[trigger] fields[j]),
        },
    decreases fields.len() - start,
{
    if start < fields.len() && !is_marked_primary(fields[start]) {
        lemma_first_marked(fields, start + 1);
    }
}

/// A struct with a single field has that field as its primary field,
/// whatever markers it carries.
pub proof fn lemma_single_field_is_primary(fields: Seq<Field>)
    requires
        fields.len() == 1,
    ensures
        primary_choice(fields) == Ok::<int, ConfigError>(0),
{
}

/// Building the descriptor of a struct with a single unnamed field makes that
/// field primary, as `Unnamed(0)` with its own type, whatever its markers. The
/// only failure left is an unreadable validation literal, and with no such
/// literal the descriptor is built.
pub proof fn lemma_lone_unnamed_field_descriptor(d: DeriveInput, r: Result<Input, ConfigError>)
    requires
        d.data is Struct,
        d.data->Struct_0@.len() == 1,
        d.data->Struct_0@[0].ident is None,
        new_outcome(d, r),
    ensures
        r matches Ok(input) ==> {
            &&& input.primary_field.index == 0
            &&& input.primary_field.accessor_spec() == FieldAccessor::Unnamed(0)
            &&& input.primary_field.ty == d.data->Struct_0@[0].ty
        },
        r is Err ==> r matches Err(ConfigError::Attribute(_)),
        first_validation_lit(d.attrs@, "validator"@) is None && first_validation_lit(
            d.attrs@,
            "error"@,
        ) is None ==> r is Ok,
{
}

/// `r` is the error that names the first two marked fields.
pub open spec fn names_first_two_marked(fields: Seq<Field>, r: Result<int, ConfigError>) -> bool {
    r matches Err(ConfigError::MultiplePrimaryFields(x, y)) && x < y && is_marked_primary(
        fields[x as int],
    ) && is_marked_primary(fields[y as int]) && forall|j: int|
        0 <= j < y && j != x ==> !is_marked_primary(#[trigger] fields[j])
}

/// Among several fields, no marked field is an error, exactly one marked
/// field is the primary field, and two or more marked fields are an error
/// that names the first two of them.
pub proof fn lemma_primary_field_markers(fields: Seq<Field>)
    requires
        1 < fields.len() <= usize::MAX,
    ensures
        (forall|i: int| 0 <= i < fields.len() ==> !is_marked_primary(#[trigger] fields[i]))
            ==> primary_choice(fields) == Err::<int, ConfigError>(ConfigError::NoPrimaryField),
        forall|p: int|
            0 <= p < fields.len() && #[trigger] is_marked_primary(fields[p]) && (forall|j: int|
                0 <= j < fields.len() && j != p ==> !is_marked_primary(#[trigger] fields[j]))
                ==> primary_choice(fields) == Ok::<int, ConfigError>(p),
        forall|a: int, b: int|
            0 <= a < b < fields.len() && #[trigger] is_marked_primary(fields[a])
                && #[trigger] is_marked_primary(fields[b]) ==> names_first_two_marked(
                fields,
                primary_choice(fields),
            ),
{
    lemma_first_marked(fields, 0);
    match first_marked_from(fields, 0) {
        Some(a0) => {
            lemma_first_marked(fields, a0 + 1);
            assert forall|a: int, b: int|
                0 <= a < b < fields.len() && #[trigger] is_marked_primary(fields[a])
                    && #[trigger] is_marked_primary(fields[b]) implies names_first_two_marked(
                fields,
                primary_choice(fields),
            ) by {
                assert(a0 <= a);
                assert(first_marked_from(fields, a0 + 1) is Some);
            }
        },
        None => {},
    }
}

/// The traits whose conversions cannot fail.
pub open spec fn is_infallible(kind: TraitKind) -> bool {
    kind is SizedInfallible || kind is UnsizedInfallible || kind is UnsizedInfallibleMut
}

/// The traits of unsized wrappers.
pub open spec fn is_unsized(kind: TraitKind) -> bool {
    kind is Unsized || kind is UnsizedInfallible || kind is UnsizedMut || kind is UnsizedInfallibleMut
}

/// An infallible trait cannot be generated together with a validator,
/// whether or not an error type is given.
pub proof fn lemma_infallible_rejects_validator(
    kind: TraitKind,
    input: Input,
    r: Result<TraitImpl, ConfigError>,
)
    requires
        is_infallible(kind),
        input.validator is Some,
        generated(kind, input, r),
    ensures
        r == Err::<TraitImpl, ConfigError>(ConfigError::ValidatorWithInfallible(input.validator_span)),
{
}

/// An unsized trait cannot be generated without `#[repr(C)]` or
/// `#[repr(transparent)]`.
pub proof fn lemma_unsized_requires_repr(
    kind: TraitKind,
    input: Input,
    r: Result<TraitImpl, ConfigError>,
)
    requires
        is_unsized(kind),
        !has_unsized_repr_attr(input.meta_attrs@),
        generated(kind, input, r),
    ensures
        r is Err,
{
}

/// Two descriptors that differ only in their attributes, both of which hold
/// an acceptable `repr` (`C` in one, `transparent` in the other, say), get the
/// same unsized impls.
pub proof fn lemma_unsized_repr_interchangeable(
    kind: TraitKind,
    a: Input,
    b: Input,
    r: Result<TraitImpl, ConfigError>,
)
    requires
        is_unsized(kind),
        has_unsized_repr_attr(a.meta_attrs@),
        has_unsized_repr_attr(b.meta_attrs@),
        a.ident == b.ident,
        a.generics == b.generics,
        a.fields == b.fields,
        a.primary_field == b.primary_field,
        a.should_hide_base_impl_docs == b.should_hide_base_impl_docs,
        a.validator == b.validator,
        a.validator_span == b.validator_span,
        a.ty_validation_error == b.ty_validation_error,
    ensures
        generated(kind, a, r) <==> generated(kind, b, r),
{
}

/// No two named fields share a name, as in any struct declaration.
pub open spec fn distinct_field_names(fields: Seq<Field>) -> bool {
    forall|i: int, j: int|
        0 <= i < fields.len() && 0 <= j < fields.len() && i != j && (#[trigger] fields[i]).ident
            is Some ==> fields[i].ident != (#[trigger] fields[j]).ident
}

/// Among `inits` some initializer sets the field `accessor`, and every one
/// that does sets it to `__inner`.
pub open spec fn stores_inner(inits: Seq<FieldInit>, accessor: FieldAccessor) -> bool {
    &&& exists|i: int| 0 <= i < inits.len() && (#[trigger] inits[i]).accessor == accessor
    &&& forall|i: int|
        0 <= i < inits.len() && (#[trigger] inits[i]).accessor == accessor ==> inits[i].value
            == Value::Inner
}

/// In the `OpaqueTypedefSized` impl of a wrapper without validator,
/// `into_inner` and `as_inner` read the very field in which
/// `from_inner_unchecked` and `try_from_inner` store their argument, so that
/// `into_inner(from_inner_unchecked(x)) == x`.
pub proof fn lemma_sized_round_trip(input: Input, t: TraitImpl)
    requires
        input.wf(),
        distinct_field_names(input.fields@),
        input.validator is None,
        base_sized_impl(input, t),
    ensures
        t.methods@[2].body->Project_accessor == primary_accessor(input),
        t.methods@[3].body->Project_accessor == primary_accessor(input),
        stores_inner(t.methods@[0].body->Construct_inits@, primary_accessor(input)),
        stores_inner(t.methods@[1].body->Construct_inits@, primary_accessor(input)),
{
    let p = input.primary_field.index as int;
    let fields = input.fields@;
    assert(fields.len() == input.fields.len());
    assert(accessor_of(fields, p) == primary_accessor(input));
    assert forall|i: int| 0 <= i < fields.len() && i != p implies accessor_of(fields, i)
        != accessor_of(fields, p) by {
        if fields[i].ident is Some {
            assert(fields[i].ident != fields[p].ident);
        }
    }
    let a = primary_accessor(input);
    let i0 = t.methods@[0].body->Construct_inits@;
    let i1 = t.methods@[1].body->Construct_inits@;
    assert(i0[p].accessor == a);
    assert(i1[p].accessor == a);
}

} // verus!
