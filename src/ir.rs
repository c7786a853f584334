//! The generated impl blocks, as a syntax description, and their source text.
use vstd::prelude::*;

use crate::input::{FieldAccessor, Generics};

verus! {

/// The trait an impl block implements.
#[derive(Debug, Clone, Copy, PartialEq, Eq)]
pub enum TraitKind {
    Sized,
    SizedInfallible,
    SizedMut,
    Unsized,
    UnsizedInfallible,
    UnsizedMut,
    UnsizedInfallibleMut,
}

/// The method an impl block defines; the signature follows from it.
#[derive(Debug)]
pub enum MethodKind {
    SizedTryFromInner,
    SizedFromInnerUnchecked,
    IntoInner,
    AsInner,
    SizedFromInner,
    AsInnerMut,
    UnsizedTryFromInner,
    UnsizedFromInnerUnchecked,
    UnsizedFromInner,
    TryFromInnerMut,
    FromInnerUncheckedMut,
    FromInnerMut,
}

/// A value computed from the argument `__inner`.
#[derive(Debug)]
pub enum Value {
    /// `__inner` itself.
    Inner,
    /// `(validator)(__inner)?`: the validator's result, or an early return of its error.
    Validated(String),
    /// `std::default::Default::default()`.
    Default,
}

/// `accessor: value` inside a struct expression.
#[derive(Debug)]
pub struct FieldInit {
    pub accessor: FieldAccessor,
    pub value: Value,
}

/// How a field of `self` is reached.
#[derive(Debug)]
pub enum Borrow {
    /// `self.field`
    Move,
    /// `&self.field`
    Shared,
    /// `&mut self.field`
    Unique,
}

/// The body of a generated method.
#[derive(Debug)]
pub enum Body {
    /// `Self { inits }`, inside `Ok(...)` when `ok`.
    Construct { ok: bool, inits: Vec<FieldInit> },
    /// A field of `self`.
    Project { borrow: Borrow, accessor: FieldAccessor },
    /// The reference `value` reinterpreted as a reference to `Self` (`&mut`
    /// when `mutable`), inside `unsafe { }` when `in_unsafe`, inside `Ok(...)`
    /// when `ok`.
    Cast { ok: bool, in_unsafe: bool, mutable: bool, value: Value },
    /// `(validator)(&*__inner)?;` followed by `Ok(...)` of the mutable
    /// reinterpretation of `__inner`.
    CheckedCastMut { validator: String },
}

/// A generated method.
#[derive(Debug)]
pub struct ImplFn {
    pub kind: MethodKind,
    pub body: Body,
}

/// A generated impl block.
#[derive(Debug)]
pub struct TraitImpl {
    /// Marked `#[doc(hidden)]`.
    pub hidden: bool,
    pub kind: TraitKind,
    /// The name of the implementing type.
    pub ty: String,
    pub generics: Generics,
    /// `type Inner = ..;`, for the traits that declare it.
    pub inner_ty: Option<String>,
    /// `type Error = ..;`, for the traits that declare it.
    pub error_ty: Option<String>,
    pub methods: Vec<ImplFn>,
}

/// The text of a decimal digit.
pub open spec fn digit_text(d: nat) -> Seq<char> {
    if d == 0 {
        "0"@
    } else if d == 1 {
        "1"@
    } else if d == 2 {
        "2"@
    } else if d == 3 {
        "3"@
    } else if d == 4 {
        "4"@
    } else if d == 5 {
        "5"@
    } else if d == 6 {
        "6"@
    } else if d == 7 {
        "7"@
    } else if d == 8 {
        "8"@
    } else {
        "9"@
    }
}

/// The decimal numeral of `n`, without a suffix.
pub open spec fn decimal(n: nat) -> Seq<char>
    decreases n,
{
    if n < 10 {
        digit_text(n)
    } else {
        decimal(n / 10) + digit_text(n % 10)
    }
}

/// The name of the implemented trait.
pub open spec fn trait_name(k: TraitKind) -> Seq<char> {
    match k {
        TraitKind::Sized => "OpaqueTypedefSized"@,
        TraitKind::SizedInfallible => "OpaqueTypedefSizedInfallible"@,
        TraitKind::SizedMut => "OpaqueTypedefSizedMut"@,
        TraitKind::Unsized => "OpaqueTypedefUnsized"@,
        TraitKind::UnsizedInfallible => "OpaqueTypedefUnsizedInfallible"@,
        TraitKind::UnsizedMut => "OpaqueTypedefUnsizedMut"@,
        TraitKind::UnsizedInfallibleMut => "OpaqueTypedefUnsizedInfallibleMut"@,
    }
}

/// The signature of a generated method.
pub open spec fn signature_text(k: MethodKind) -> Seq<char> {
    match k {
        MethodKind::SizedTryFromInner => "fn try_from_inner(__inner: Self::Inner) -> Result<Self, Self::Error>"@,
        MethodKind::SizedFromInnerUnchecked => "unsafe fn from_inner_unchecked(__inner: Self::Inner) -> Self"@,
        MethodKind::IntoInner => "fn into_inner(self) -> Self::Inner"@,
        MethodKind::AsInner => "fn as_inner(&self) -> &Self::Inner"@,
        MethodKind::SizedFromInner => "fn from_inner(__inner: Self::Inner) -> Self"@,
        MethodKind::AsInnerMut => "fn as_inner_mut(&mut self) -> &mut Self::Inner"@,
        MethodKind::UnsizedTryFromInner => "fn try_from_inner(__inner: &Self::Inner) -> Result<&Self, Self::Error>"@,
        MethodKind::UnsizedFromInnerUnchecked => "unsafe fn from_inner_unchecked(__inner: &Self::Inner) -> &Self"@,
        MethodKind::UnsizedFromInner => "fn from_inner(__inner: &Self::Inner) -> &Self"@,
        MethodKind::TryFromInnerMut => "fn try_from_inner_mut(__inner: &mut Self::Inner) -> Result<&mut Self, Self::Error>"@,
        MethodKind::FromInnerUncheckedMut => "unsafe fn from_inner_unchecked_mut(__inner: &mut Self::Inner) -> &mut Self"@,
        MethodKind::FromInnerMut => "fn from_inner_mut(__inner: &mut Self::Inner) -> &mut Self"@,
    }
}

/// The text of a field accessor: its name, or its index.
pub open spec fn accessor_text(a: FieldAccessor) -> Seq<char> {
    match a {
        FieldAccessor::Named(name) => name@,
        FieldAccessor::Unnamed(i) => decimal(i as nat),
    }
}

/// The text of a value computed from `__inner`.
pub open spec fn value_text(v: Value) -> Seq<char> {
    match v {
        Value::Inner => "__inner"@,
        Value::Validated(f) => "("@ + f@ + ")(__inner)?"@,
        Value::Default => "std::default::Default::default()"@,
    }
}

/// The text of one field initializer, with its trailing comma.
pub open spec fn init_text(f: FieldInit) -> Seq<char> {
    accessor_text(f.accessor) + ": "@ + value_text(f.value) + ", "@
}

/// The text of field initializers, in order.
pub open spec fn inits_text(inits: Seq<FieldInit>) -> Seq<char>
    decreases inits.len(),
{
    if inits.len() == 0 {
        Seq::empty()
    } else {
        inits_text(inits.drop_last()) + init_text(inits.last())
    }
}

/// The reinterpretation of the reference `value` as a reference to `Self`.
pub open spec fn cast_text(mutable: bool, value: Value) -> Seq<char> {
    if mutable {
        "&mut *("@ + value_text(value) + " as *mut Self::Inner as *mut Self)"@
    } else {
        "&*("@ + value_text(value) + " as *const Self::Inner as *const Self)"@
    }
}

/// `t`, inside `unsafe { }` when `yes`.
pub open spec fn in_unsafe_text(yes: bool, t: Seq<char>) -> Seq<char> {
    if yes {
        "unsafe { "@ + t + " }"@
    } else {
        t
    }
}

/// `t`, inside `Ok(..)` when `yes`.
pub open spec fn in_ok_text(yes: bool, t: Seq<char>) -> Seq<char> {
    if yes {
        "Ok("@ + t + ")"@
    } else {
        t
    }
}

/// How a field of `self` is reached, up to the field's accessor.
pub open spec fn borrow_text(b: Borrow) -> Seq<char> {
    match b {
        Borrow::Move => "self."@,
        Borrow::Shared => "&self."@,
        Borrow::Unique => "&mut self."@,
    }
}

/// The text of a method body.
pub open spec fn body_text(b: Body) -> Seq<char> {
    match b {
        Body::Construct { ok, inits } => in_ok_text(ok, "Self { "@ + inits_text(inits@) + "}"@),
        Body::Project { borrow, accessor } => borrow_text(borrow) + accessor_text(accessor),
        Body::Cast { ok, in_unsafe, mutable, value } => in_ok_text(
            ok,
            in_unsafe_text(in_unsafe, cast_text(mutable, value)),
        ),
        Body::CheckedCastMut { validator } => "("@ + validator@ + ")(&*__inner)?; "@ + in_ok_text(
            true,
            in_unsafe_text(true, cast_text(true, Value::Inner)),
        ),
    }
}

/// The text of a generated method.
pub open spec fn method_text(m: ImplFn) -> Seq<char> {
    signature_text(m.kind) + " { "@ + body_text(m.body) + " } "@
}

/// The text of generated methods, in order.
pub open spec fn methods_text(ms: Seq<ImplFn>) -> Seq<char>
    decreases ms.len(),
{
    if ms.len() == 0 {
        Seq::empty()
    } else {
        methods_text(ms.drop_last()) + method_text(ms.last())
    }
}

/// `type name = ty;` when there is a type.
pub open spec fn assoc_text(name: Seq<char>, ty: Option<String>) -> Seq<char> {
    match ty {
        Some(t) => "type "@ + name + " = "@ + t@ + "; "@,
        None => Seq::empty(),
    }
}

/// The source text of an impl block.
pub open spec fn impl_text(t: TraitImpl) -> Seq<char> {
    (if t.hidden {
        "#[doc(hidden)] "@
    } else {
        Seq::empty()
    }) + "impl"@ + t.generics.impl_generics@ + " opaque_typedef::"@ + trait_name(t.kind)
        + " for "@ + t.ty@ + t.generics.ty_generics@ + " "@ + t.generics.where_clause@ + " { "@
        + assoc_text("Inner"@, t.inner_ty) + assoc_text("Error"@, t.error_ty) + methods_text(
        t.methods@,
    ) + "}"@
}

fn digit(d: usize) -> (r: &'static str)
    requires
        d < 10,
    ensures
        r@ == digit_text(d as nat),
{
    if d == 0 {
        "0"
    } else if d == 1 {
        "1"
    } else if d == 2 {
        "2"
    } else if d == 3 {
        "3"
    } else if d == 4 {
        "4"
    } else if d == 5 {
        "5"
    } else if d == 6 {
        "6"
    } else if d == 7 {
        "7"
    } else if d == 8 {
        "8"
    } else {
        "9"
    }
}

/// Appends the decimal numeral of `n`.
fn push_decimal(out: &mut String, n: usize)
    ensures
        final(out)@ == old(out)@ + decimal(n as nat),
    decreases n,
{
    if n < 10 {
        out.append(digit(n));
    } else {
        push_decimal(out, n / 10);
        out.append(digit(n % 10));
        assert(decimal(n as nat) == decimal((n / 10) as nat) + digit_text((n % 10) as nat));
    }
}

fn trait_name_str(k: &TraitKind) -> (r: &'static str)
    ensures
        r@ == trait_name(*k),
{
    match k {
        TraitKind::Sized => "OpaqueTypedefSized",
        TraitKind::SizedInfallible => "OpaqueTypedefSizedInfallible",
        TraitKind::SizedMut => "OpaqueTypedefSizedMut",
        TraitKind::Unsized => "OpaqueTypedefUnsized",
        TraitKind::UnsizedInfallible => "OpaqueTypedefUnsizedInfallible",
        TraitKind::UnsizedMut => "OpaqueTypedefUnsizedMut",
        TraitKind::UnsizedInfallibleMut => "OpaqueTypedefUnsizedInfallibleMut",
    }
}

fn signature_str(k: &MethodKind) -> (r: &'static str)
    ensures
        r@ == signature_text(*k),
{
    match k {
        MethodKind::SizedTryFromInner => "fn try_from_inner(__inner: Self::Inner) -> Result<Self, Self::Error>",
        MethodKind::SizedFromInnerUnchecked => "unsafe fn from_inner_unchecked(__inner: Self::Inner) -> Self",
        MethodKind::IntoInner => "fn into_inner(self) -> Self::Inner",
        MethodKind::AsInner => "fn as_inner(&self) -> &Self::Inner",
        MethodKind::SizedFromInner => "fn from_inner(__inner: Self::Inner) -> Self",
        MethodKind::AsInnerMut => "fn as_inner_mut(&mut self) -> &mut Self::Inner",
        MethodKind::UnsizedTryFromInner => "fn try_from_inner(__inner: &Self::Inner) -> Result<&Self, Self::Error>",
        MethodKind::UnsizedFromInnerUnchecked => "unsafe fn from_inner_unchecked(__inner: &Self::Inner) -> &Self",
        MethodKind::UnsizedFromInner => "fn from_inner(__inner: &Self::Inner) -> &Self",
        MethodKind::TryFromInnerMut => "fn try_from_inner_mut(__inner: &mut Self::Inner) -> Result<&mut Self, Self::Error>",
        MethodKind::FromInnerUncheckedMut => "unsafe fn from_inner_unchecked_mut(__inner: &mut Self::Inner) -> &mut Self",
        MethodKind::FromInnerMut => "fn from_inner_mut(__inner: &mut Self::Inner) -> &mut Self",
    }
}

fn push_accessor(out: &mut String, a: &FieldAccessor)
    ensures
        final(out)@ == old(out)@ + accessor_text(*a),
{
    match a {
        FieldAccessor::Named(name) => out.append(name.as_str()),
        FieldAccessor::Unnamed(i) => push_decimal(out, *i),
    }
}

fn push_value(out: &mut String, v: &Value)
    ensures
        final(out)@ == old(out)@ + value_text(*v),
{
    match v {
        Value::Inner => out.append("__inner"),
        Value::Validated(f) => {
            out.append("(");
            out.append(f.as_str());
            out.append(")(__inner)?");
        },
        Value::Default => out.append("std::default::Default::default()"),
    }
}

fn push_inits(out: &mut String, inits: &Vec<FieldInit>)
    ensures
        final(out)@ == old(out)@ + inits_text(inits@),
{
    let ghost start = out@;
    let mut i: usize = 0;
    assert(inits@.subrange(0, 0) =~= Seq::<FieldInit>::empty());
    while i < inits.len()
        invariant
            i <= inits@.len(),
            out@ == start + inits_text(inits@.subrange(0, i as int)),
        decreases inits@.len() - i,
    {
        push_accessor(out, &inits[i].accessor);
        out.append(": ");
        push_value(out, &inits[i].value);
        out.append(", ");
        assert(inits@.subrange(0, i + 1).drop_last() =~= inits@.subrange(0, i as int));
        i += 1;
    }
    assert(inits@.subrange(0, i as int) =~= inits@);
}

fn push_raw_cast(out: &mut String, mutable: bool, value: &Value)
    ensures
        final(out)@ == old(out)@ + cast_text(mutable, *value),
{
    if mutable {
        out.append("&mut *(");
        push_value(out, value);
        out.append(" as *mut Self::Inner as *mut Self)");
    } else {
        out.append("&*(");
        push_value(out, value);
        out.append(" as *const Self::Inner as *const Self)");
    }
}

/// Returns `before`, `t` and `after` joined.
fn enclose(before: &str, t: String, after: &str) -> (r: String)
    ensures
        r@ == before@ + t@ + after@,
{
    let mut r = String::from_str(before);
    r.append(t.as_str());
    r.append(after);
    r
}

fn push_cast(out: &mut String, ok: bool, in_unsafe: bool, mutable: bool, value: &Value)
    ensures
        final(out)@ == old(out)@ + in_ok_text(ok, in_unsafe_text(in_unsafe, cast_text(mutable, *value))),
{
    let mut t = String::new();
    push_raw_cast(&mut t, mutable, value);
    let t = if in_unsafe {
        enclose("unsafe { ", t, " }")
    } else {
        t
    };
    let t = if ok {
        enclose("Ok(", t, ")")
    } else {
        t
    };
    out.append(t.as_str());
}

fn push_body(out: &mut String, b: &Body)
    ensures
        final(out)@ == old(out)@ + body_text(*b),
{
    match b {
        Body::Construct { ok, inits } => {
            if *ok {
                out.append("Ok(");
            }
            out.append("Self { ");
            push_inits(out, inits);
            out.append("}");
            if *ok {
                out.append(")");
            }
        },
        Body::Project { borrow, accessor } => {
            match borrow {
                Borrow::Move => out.append("self."),
                Borrow::Shared => out.append("&self."),
                Borrow::Unique => out.append("&mut self."),
            }
            push_accessor(out, accessor);
        },
        Body::Cast { ok, in_unsafe, mutable, value } => {
            push_cast(out, *ok, *in_unsafe, *mutable, value);
        },
        Body::CheckedCastMut { validator } => {
            out.append("(");
            out.append(validator.as_str());
            out.append(")(&*__inner)?; ");
            push_cast(out, true, true, true, &Value::Inner);
        },
    }
}

fn push_assoc(out: &mut String, name: &str, ty: &Option<String>)
    ensures
        final(out)@ == old(out)@ + assoc_text(name@, *ty),
{
    match ty {
        Some(t) => {
            out.append("type ");
            out.append(name);
            out.append(" = ");
            out.append(t.as_str());
            out.append("; ");
        },
        None => {},
    }
}

impl TraitImpl {
    /// Returns the source text of the impl block.
    pub fn to_source(&self) -> (r: String)
        ensures
            r@ == impl_text(*self),
    {
        let mut out = String::new();
        if self.hidden {
            out.append("#[doc(hidden)] ");
        }
        out.append("impl");
        out.append(self.generics.impl_generics.as_str());
        out.append(" opaque_typedef::");
        out.append(trait_name_str(&self.kind));
        out.append(" for ");
        out.append(self.ty.as_str());
        out.append(self.generics.ty_generics.as_str());
        out.append(" ");
        out.append(self.generics.where_clause.as_str());
        out.append(" { ");
        push_assoc(&mut out, "Inner", &self.inner_ty);
        push_assoc(&mut out, "Error", &self.error_ty);
        let ghost before = out@;
        let mut i: usize = 0;
        assert(self.methods@.subrange(0, 0) =~= Seq::<ImplFn>::empty());
        while i < self.methods.len()
            invariant
                i <= self.methods@.len(),
                out@ == before + methods_text(self.methods@.subrange(0, i as int)),
            decreases self.methods@.len() - i,
        {
            let m = &self.methods[i];
            out.append(signature_str(&m.kind));
            out.append(" { ");
            push_body(&mut out, &m.body);
            out.append(" } ");
            assert(self.methods@.subrange(0, i + 1).drop_last() =~= self.methods@.subrange(
                0,
                i as int,
            ));
            i += 1;
        }
        assert(self.methods@.subrange(0, i as int) =~= self.methods@);
        out.append("}");
        out
    }
}

} // verus!
