//! The generators: one impl block for each trait, built from a descriptor.
use vstd::prelude::*;

use crate::input::{
    ConfigError, Data, DeriveInput, FieldAccessor, Input, accessor_of, clone_generics, descriptor_outcome,
    has_unsized_repr_attr, primary_choice,
};
use crate::ir::{Body, Borrow, FieldInit, ImplFn, MethodKind, TraitImpl, TraitKind, Value, impl_text};
use crate::meta::opt_text;

verus! {

/// What the primary field is set to when a value is built: the validator's
/// result when there is a validator, `__inner` itself otherwise.
pub open spec fn validated_inner(input: Input) -> Value {
    match input.validator {
        Some(v) => Value::Validated(v),
        None => Value::Inner,
    }
}

/// The accessor of the primary field.
pub open spec fn primary_accessor(input: Input) -> FieldAccessor {
    input.primary_field.accessor_spec()
}

/// `inits` sets every field in declaration order: the primary field to
/// `primary`, every other field to its type's default.
pub open spec fn inits_for(input: Input, primary: Value, inits: Seq<FieldInit>) -> bool {
    &&& inits.len() == input.fields@.len()
    &&& forall|i: int|
        0 <= i < inits.len() ==> #[trigger] inits[i] == (FieldInit {
            accessor: accessor_of(input.fields@, i),
            value: if i == input.primary_field.index {
                primary
            } else {
                Value::Default
            },
        })
}

/// `body` builds `Self` from `inits_for(input, primary, ..)`, inside `Ok(..)` when `ok`.
pub open spec fn constructs(input: Input, body: Body, ok: bool, primary: Value) -> bool {
    body matches Body::Construct { ok: o, inits } && o == ok && inits_for(input, primary, inits@)
}

/// The parts of `r` outside its methods: the doc marker, the trait, the type
/// and its generics, and the associated types when `assoc` holds.
pub open spec fn impl_header(input: Input, r: TraitImpl, kind: TraitKind, assoc: bool) -> bool {
    &&& r.hidden == input.should_hide_base_impl_docs
    &&& r.kind == kind
    &&& r.ty == input.ident
    &&& r.generics == input.generics
    &&& if assoc {
        &&& r.inner_ty == Some(input.primary_field.ty)
        &&& opt_text(r.error_ty) == Some(input.error_type_text())
    } else {
        &&& r.inner_ty is None
        &&& r.error_ty is None
    }
}

/// `r` is the `OpaqueTypedefSized` impl of `input`.
pub open spec fn base_sized_impl(input: Input, r: TraitImpl) -> bool {
    &&& impl_header(input, r, TraitKind::Sized, true)
    &&& r.methods@.len() == 4
    &&& r.methods@[0].kind == MethodKind::SizedTryFromInner
    &&& constructs(input, r.methods@[0].body, true, validated_inner(input))
    &&& r.methods@[1].kind == MethodKind::SizedFromInnerUnchecked
    &&& constructs(input, r.methods@[1].body, false, Value::Inner)
    &&& r.methods@[2] == (ImplFn {
        kind: MethodKind::IntoInner,
        body: Body::Project { borrow: Borrow::Move, accessor: primary_accessor(input) },
    })
    &&& r.methods@[3] == (ImplFn {
        kind: MethodKind::AsInner,
        body: Body::Project { borrow: Borrow::Shared, accessor: primary_accessor(input) },
    })
}

/// `r` is the `OpaqueTypedefSizedInfallible` impl of `input`.
pub open spec fn base_sized_infallible_impl(input: Input, r: TraitImpl) -> bool {
    &&& impl_header(input, r, TraitKind::SizedInfallible, false)
    &&& r.methods@.len() == 1
    &&& r.methods@[0].kind == MethodKind::SizedFromInner
    &&& constructs(input, r.methods@[0].body, false, Value::Inner)
}

/// `r` is the `OpaqueTypedefSizedMut` impl of `input`.
pub open spec fn base_sized_mut_impl(input: Input, r: TraitImpl) -> bool {
    &&& impl_header(input, r, TraitKind::SizedMut, false)
    &&& r.methods@.len() == 1
    &&& r.methods@[0] == (ImplFn {
        kind: MethodKind::AsInnerMut,
        body: Body::Project { borrow: Borrow::Unique, accessor: primary_accessor(input) },
    })
}

/// `r` is the `OpaqueTypedefUnsized` impl of `input`.
pub open spec fn base_unsized_impl(input: Input, r: TraitImpl) -> bool {
    &&& impl_header(input, r, TraitKind::Unsized, true)
    &&& r.methods@.len() == 3
    &&& r.methods@[0].kind == MethodKind::UnsizedTryFromInner
    &&& r.methods@[0].body matches Body::Cast { ok, in_unsafe, mutable, value } && ok && in_unsafe
        && !mutable && value == validated_inner(input)
    &&& r.methods@[1].kind == MethodKind::UnsizedFromInnerUnchecked
    &&& r.methods@[1].body == (Body::Cast {
        ok: false,
        in_unsafe: false,
        mutable: false,
        value: Value::Inner,
    })
    &&& r.methods@[2] == (ImplFn {
        kind: MethodKind::AsInner,
        body: Body::Project { borrow: Borrow::Shared, accessor: primary_accessor(input) },
    })
}

/// `r` is the `OpaqueTypedefUnsizedInfallible` impl of `input`.
pub open spec fn base_unsized_infallible_impl(input: Input, r: TraitImpl) -> bool {
    &&& impl_header(input, r, TraitKind::UnsizedInfallible, false)
    &&& r.methods@.len() == 1
    &&& r.methods@[0] == (ImplFn {
        kind: MethodKind::UnsizedFromInner,
        body: Body::Cast { ok: false, in_unsafe: true, mutable: false, value: Value::Inner },
    })
}

/// `r` is the `OpaqueTypedefUnsizedMut` impl of `input`.
pub open spec fn base_unsized_mut_impl(input: Input, r: TraitImpl) -> bool {
    &&& impl_header(input, r, TraitKind::UnsizedMut, false)
    &&& r.methods@.len() == 3
    &&& r.methods@[0].kind == MethodKind::TryFromInnerMut
    &&& match input.validator {
        Some(v) => r.methods@[0].body matches Body::CheckedCastMut { validator } && validator == v,
        None => r.methods@[0].body == (Body::Cast {
            ok: true,
            in_unsafe: true,
            mutable: true,
            value: Value::Inner,
        }),
    }
    &&& r.methods@[1] == (ImplFn {
        kind: MethodKind::FromInnerUncheckedMut,
        body: Body::Cast { ok: false, in_unsafe: false, mutable: true, value: Value::Inner },
    })
    &&& r.methods@[2] == (ImplFn {
        kind: MethodKind::AsInnerMut,
        body: Body::Project { borrow: Borrow::Unique, accessor: primary_accessor(input) },
    })
}

/// `r` is the `OpaqueTypedefUnsizedInfallibleMut` impl of `input`.
pub open spec fn base_unsized_infallible_mut_impl(input: Input, r: TraitImpl) -> bool {
    &&& impl_header(input, r, TraitKind::UnsizedInfallibleMut, false)
    &&& r.methods@.len() == 1
    &&& r.methods@[0] == (ImplFn {
        kind: MethodKind::FromInnerMut,
        body: Body::Cast { ok: false, in_unsafe: true, mutable: true, value: Value::Inner },
    })
}

/// What generating the `kind` impl of `input` gives: the impl, or the reason
/// it cannot be made. A validator rules out the infallible traits; the
/// unsized traits need `#[repr(C)]` or `#[repr(transparent)]`; the validator
/// is looked at first.
pub open spec fn generated(kind: TraitKind, input: Input, r: Result<TraitImpl, ConfigError>) -> bool {
    let infallible = kind is SizedInfallible || kind is UnsizedInfallible
        || kind is UnsizedInfallibleMut;
    let unsized_kind = kind is Unsized || kind is UnsizedInfallible || kind is UnsizedMut
        || kind is UnsizedInfallibleMut;
    if infallible && input.validator is Some {
        r == Err::<TraitImpl, ConfigError>(ConfigError::ValidatorWithInfallible(input.validator_span))
    } else if unsized_kind && !has_unsized_repr_attr(input.meta_attrs@) {
        r == Err::<TraitImpl, ConfigError>(ConfigError::UnsizedReprRequired)
    } else {
        r matches Ok(t) && match kind {
            TraitKind::Sized => base_sized_impl(input, t),
            TraitKind::SizedInfallible => base_sized_infallible_impl(input, t),
            TraitKind::SizedMut => base_sized_mut_impl(input, t),
            TraitKind::Unsized => base_unsized_impl(input, t),
            TraitKind::UnsizedInfallible => base_unsized_infallible_impl(input, t),
            TraitKind::UnsizedMut => base_unsized_mut_impl(input, t),
            TraitKind::UnsizedInfallibleMut => base_unsized_infallible_mut_impl(input, t),
        }
    }
}

fn copy_value(v: &Value) -> (r: Value)
    ensures
        r == *v,
{
    match v {
        Value::Inner => Value::Inner,
        Value::Validated(f) => Value::Validated(f.clone()),
        Value::Default => Value::Default,
    }
}

/// Builds the field initializers of `Self { .. }`: `primary` for the primary
/// field, the default value for every other field.
fn construct_inits(input: &Input, primary: &Value) -> (r: Vec<FieldInit>)
    requires
        input.wf(),
    ensures
        inits_for(*input, *primary, r@),
{
    let fields = input.fields_with_primary_flag();
    let mut r: Vec<FieldInit> = Vec::new();
    let mut i: usize = 0;
    while i < fields.len()
        invariant
            i <= fields@.len(),
            fields@.len() == input.fields@.len(),
            forall|j: int|
                0 <= j < fields@.len() ==> {
                    &&& (#[trigger] fields@[j]).0 == (j == input.primary_field.index)
                    &&& fields@[j].1.index == j
                    &&& fields@[j].1.ident == input.fields@[j].ident
                    &&& fields@[j].1.ty == input.fields@[j].ty
                },
            r@.len() == i,
            forall|j: int|
                0 <= j < i ==> #[trigger] r@[j] == (FieldInit {
                    accessor: accessor_of(input.fields@, j),
                    value: if j == input.primary_field.index {
                        *primary
                    } else {
                        Value::Default
                    },
                }),
        decreases fields@.len() - i,
    {
        let (is_primary, field) = (fields[i].0, &fields[i].1);
        let accessor = field.accessor();
        let value = if is_primary {
            copy_value(primary)
        } else {
            Value::Default
        };
        r.push(FieldInit { accessor, value });
        i += 1;
    }
    r
}

/// Returns the validator's result, or `__inner` itself when there is no validator.
fn inner_validated(input: &Input) -> (r: Value)
    ensures
        r == validated_inner(*input),
{
    match input.validator() {
        Some(v) => Value::Validated(v.clone()),
        None => Value::Inner,
    }
}

/// Builds an impl block of `input` for `kind` with the given parts.
fn make_impl(
    input: &Input,
    kind: TraitKind,
    assoc: bool,
    methods: Vec<ImplFn>,
) -> (r: TraitImpl)
    requires
        input.wf(),
    ensures
        impl_header(*input, r, kind, assoc),
        r.methods == methods,
{
    let (inner_ty, error_ty) = if assoc {
        (Some(input.primary_field().ty().clone()), Some(input.ty_error_force()))
    } else {
        (None, None)
    };
    TraitImpl {
        hidden: input.should_hide_base_impl_docs(),
        kind,
        ty: input.ident().clone(),
        generics: clone_generics(input.generics()),
        inner_ty,
        error_ty,
        methods,
    }
}

/// Generate impl for `OpaqueTypedefSized`.
pub fn gen_base_sized(input: &Input) -> (r: TraitImpl)
    requires
        input.wf(),
    ensures
        base_sized_impl(*input, r),
{
    let accessor = input.primary_field().accessor();
    let accessor2 = input.primary_field().accessor();
    let validated = inner_validated(input);
    let mut methods: Vec<ImplFn> = Vec::new();
    methods.push(
        ImplFn {
            kind: MethodKind::SizedTryFromInner,
            body: Body::Construct { ok: true, inits: construct_inits(input, &validated) },
        },
    );
    methods.push(
        ImplFn {
            kind: MethodKind::SizedFromInnerUnchecked,
            body: Body::Construct { ok: false, inits: construct_inits(input, &Value::Inner) },
        },
    );
    methods.push(
        ImplFn {
            kind: MethodKind::IntoInner,
            body: Body::Project { borrow: Borrow::Move, accessor },
        },
    );
    methods.push(
        ImplFn {
            kind: MethodKind::AsInner,
            body: Body::Project { borrow: Borrow::Shared, accessor: accessor2 },
        },
    );
    make_impl(input, TraitKind::Sized, true, methods)
}

/// Generate impl for `OpaqueTypedefSizedInfallible`.
pub fn gen_base_sized_infallible(input: &Input) -> (r: Result<TraitImpl, ConfigError>)
    requires
        input.wf(),
    ensures
        generated(TraitKind::SizedInfallible, *input, r),
{
    if input.validator().is_some() {
        // A validator is specified and it may fail.
        return Err(ConfigError::ValidatorWithInfallible(input.validator_span));
    }
    let mut methods: Vec<ImplFn> = Vec::new();
    methods.push(
        ImplFn {
            kind: MethodKind::SizedFromInner,
            body: Body::Construct { ok: false, inits: construct_inits(input, &Value::Inner) },
        },
    );
    Ok(make_impl(input, TraitKind::SizedInfallible, false, methods))
}

/// Generate impl for `OpaqueTypedefSizedMut`.
pub fn gen_base_sized_mut(input: &Input) -> (r: TraitImpl)
    requires
        input.wf(),
    ensures
        base_sized_mut_impl(*input, r),
{
    let mut methods: Vec<ImplFn> = Vec::new();
    methods.push(
        ImplFn {
            kind: MethodKind::AsInnerMut,
            body: Body::Project { borrow: Borrow::Unique, accessor: input.primary_field().accessor() },
        },
    );
    make_impl(input, TraitKind::SizedMut, false, methods)
}

/// Generate impl for `OpaqueTypedefUnsized`.
pub fn gen_base_unsized(input: &Input) -> (r: Result<TraitImpl, ConfigError>)
    requires
        input.wf(),
    ensures
        generated(TraitKind::Unsized, *input, r),
{
    if let Err(e) = input.ensure_acceptable_unsized_repr_or_panic() {
        return Err(e);
    }
    let mut methods: Vec<ImplFn> = Vec::new();
    methods.push(
        ImplFn {
            kind: MethodKind::UnsizedTryFromInner,
            body: Body::Cast {
                ok: true,
                in_unsafe: true,
                mutable: false,
                value: inner_validated(input),
            },
        },
    );
    methods.push(
        ImplFn {
            kind: MethodKind::UnsizedFromInnerUnchecked,
            body: Body::Cast { ok: false, in_unsafe: false, mutable: false, value: Value::Inner },
        },
    );
    methods.push(
        ImplFn {
            kind: MethodKind::AsInner,
            body: Body::Project { borrow: Borrow::Shared, accessor: input.primary_field().accessor() },
        },
    );
    Ok(make_impl(input, TraitKind::Unsized, true, methods))
}

/// Generate impl for `OpaqueTypedefUnsizedInfallible`.
///
/// The reinterpretation is sound when the type has `#[repr(transparent)]` or
/// `#[repr(C)]` (checked here) and exactly one field that is not zero-sized
/// (left to the type's author: it cannot be seen from the declaration).
pub fn gen_base_unsized_infallible(input: &Input) -> (r: Result<TraitImpl, ConfigError>)
    requires
        input.wf(),
    ensures
        generated(TraitKind::UnsizedInfallible, *input, r),
{
    if input.validator().is_some() {
        // A validator is specified and it may fail.
        return Err(ConfigError::ValidatorWithInfallible(input.validator_span));
    }
    if let Err(e) = input.ensure_acceptable_unsized_repr_or_panic() {
        return Err(e);
    }
    let mut methods: Vec<ImplFn> = Vec::new();
    methods.push(
        ImplFn {
            kind: MethodKind::UnsizedFromInner,
            body: Body::Cast { ok: false, in_unsafe: true, mutable: false, value: Value::Inner },
        },
    );
    Ok(make_impl(input, TraitKind::UnsizedInfallible, false, methods))
}

/// Generate impl for `OpaqueTypedefUnsizedMut`.
pub fn gen_base_unsized_mut(input: &Input) -> (r: Result<TraitImpl, ConfigError>)
    requires
        input.wf(),
    ensures
        generated(TraitKind::UnsizedMut, *input, r),
{
    if let Err(e) = input.ensure_acceptable_unsized_repr_or_panic() {
        return Err(e);
    }
    let checked = match input.validator() {
        Some(v) => Body::CheckedCastMut { validator: v.clone() },
        None => Body::Cast { ok: true, in_unsafe: true, mutable: true, value: Value::Inner },
    };
    let mut methods: Vec<ImplFn> = Vec::new();
    methods.push(ImplFn { kind: MethodKind::TryFromInnerMut, body: checked });
    methods.push(
        ImplFn {
            kind: MethodKind::FromInnerUncheckedMut,
            body: Body::Cast { ok: false, in_unsafe: false, mutable: true, value: Value::Inner },
        },
    );
    methods.push(
        ImplFn {
            kind: MethodKind::AsInnerMut,
            body: Body::Project { borrow: Borrow::Unique, accessor: input.primary_field().accessor() },
        },
    );
    Ok(make_impl(input, TraitKind::UnsizedMut, false, methods))
}

/// Generate impl for `OpaqueTypedefUnsizedInfallibleMut`.
pub fn gen_base_unsized_infallible_mut(input: &Input) -> (r: Result<TraitImpl, ConfigError>)
    requires
        input.wf(),
    ensures
        generated(TraitKind::UnsizedInfallibleMut, *input, r),
{
    if input.validator().is_some() {
        // A validator is specified and it may fail.
        return Err(ConfigError::ValidatorWithInfallible(input.validator_span));
    }
    if let Err(e) = input.ensure_acceptable_unsized_repr_or_panic() {
        return Err(e);
    }
    let mut methods: Vec<ImplFn> = Vec::new();
    methods.push(
        ImplFn {
            kind: MethodKind::FromInnerMut,
            body: Body::Cast { ok: false, in_unsafe: true, mutable: true, value: Value::Inner },
        },
    );
    Ok(make_impl(input, TraitKind::UnsizedInfallibleMut, false, methods))
}

/// What expanding the `kind` impl of the declaration `d` gives: the source
/// text of the impl, or the first reason it cannot be made.
pub open spec fn expansion(kind: TraitKind, d: DeriveInput, r: Result<String, ConfigError>) -> bool {
    match d.data {
        Data::Struct(fields) => match primary_choice(fields@) {
            Err(e) => r == Err::<String, ConfigError>(e),
            Ok(p) => exists|desc: Result<Input, ConfigError>|
                #[trigger] descriptor_outcome(d, fields, p, desc) && match desc {
                    Err(e) => r == Err::<String, ConfigError>(e),
                    Ok(input) => exists|g: Result<TraitImpl, ConfigError>|
                        #[trigger] generated(kind, input, g) && match g {
                            Err(e) => r == Err::<String, ConfigError>(e),
                            Ok(t) => r matches Ok(text) && text@ == impl_text(t),
                        },
                },
        },
        _ => r == Err::<String, ConfigError>(ConfigError::NotAStruct),
    }
}

/// Builds the descriptor of `derive_input`, generates the `kind` impl and
/// returns its source text.
pub fn expand(kind: TraitKind, derive_input: DeriveInput) -> (r: Result<String, ConfigError>)
    ensures
        expansion(kind, derive_input, r),
{
    let ghost d = derive_input;
    let input = match Input::new(derive_input) {
        Ok(input) => input,
        Err(e) => {
            return Err(e);
        },
    };
    proof {
        let fields = d.data->Struct_0;
        let p = primary_choice(fields@)->Ok_0;
        assert(descriptor_outcome(d, fields, p, Ok::<Input, ConfigError>(input)));
    }
    let g = match kind {
        TraitKind::Sized => Ok(gen_base_sized(&input)),
        TraitKind::SizedInfallible => gen_base_sized_infallible(&input),
        TraitKind::SizedMut => Ok(gen_base_sized_mut(&input)),
        TraitKind::Unsized => gen_base_unsized(&input),
        TraitKind::UnsizedInfallible => gen_base_unsized_infallible(&input),
        TraitKind::UnsizedMut => gen_base_unsized_mut(&input),
        TraitKind::UnsizedInfallibleMut => gen_base_unsized_infallible_mut(&input),
    };
    assert(generated(kind, input, g));
    match g {
        Ok(t) => Ok(t.to_source()),
        Err(e) => Err(e),
    }
}

/// The entry point for `#[derive(OpaqueTypedefSized)]`-ed types.
pub fn opaque_typedef_sized(input: DeriveInput) -> (r: Result<String, ConfigError>)
    ensures
        expansion(TraitKind::Sized, input, r),
{
    expand(TraitKind::Sized, input)
}

/// The entry point for `#[derive(OpaqueTypedefSizedInfallible)]`-ed types.
pub fn opaque_typedef_sized_infallible(input: DeriveInput) -> (r: Result<String, ConfigError>)
    ensures
        expansion(TraitKind::SizedInfallible, input, r),
{
    expand(TraitKind::SizedInfallible, input)
}

/// The entry point for `#[derive(OpaqueTypedefSizedMut)]`-ed types.
pub fn opaque_typedef_sized_mut(input: DeriveInput) -> (r: Result<String, ConfigError>)
    ensures
        expansion(TraitKind::SizedMut, input, r),
{
    expand(TraitKind::SizedMut, input)
}

/// The entry point for `#[derive(OpaqueTypedefUnsized)]`-ed types.
pub fn opaque_typedef_unsized(input: DeriveInput) -> (r: Result<String, ConfigError>)
    ensures
        expansion(TraitKind::Unsized, input, r),
{
    expand(TraitKind::Unsized, input)
}

/// The entry point for `#[derive(OpaqueTypedefUnsizedInfallible)]`-ed types.
pub fn opaque_typedef_unsized_infallible(input: DeriveInput) -> (r: Result<String, ConfigError>)
    ensures
        expansion(TraitKind::UnsizedInfallible, input, r),
{
    expand(TraitKind::UnsizedInfallible, input)
}

/// The entry point for `#[derive(OpaqueTypedefUnsizedMut)]`-ed types.
pub fn opaque_typedef_unsized_mut(input: DeriveInput) -> (r: Result<String, ConfigError>)
    ensures
        expansion(TraitKind::UnsizedMut, input, r),
{
    expand(TraitKind::UnsizedMut, input)
}

/// The entry point for `#[derive(OpaqueTypedefUnsizedInfallibleMut)]`-ed types.
pub fn opaque_typedef_unsized_infallible_mut(input: DeriveInput) -> (r: Result<String, ConfigError>)
    ensures
        expansion(TraitKind::UnsizedInfallibleMut, input, r),
{
    expand(TraitKind::UnsizedInfallibleMut, input)
}

} // verus!
