//! Opaque typedefs: conversion traits between a wrapper type and the single
//! value it carries, and a verified generator that writes their impls for a
//! declared struct.
pub mod generate;
pub mod input;
pub mod ir;
pub mod laws;
pub mod meta;
pub mod strings;
pub mod syntax;
pub mod traits;

pub use generate::{
    expand, gen_base_sized, gen_base_sized_infallible, gen_base_sized_mut, gen_base_unsized,
    gen_base_unsized_infallible, gen_base_unsized_infallible_mut, gen_base_unsized_mut,
    opaque_typedef_sized, opaque_typedef_sized_infallible, opaque_typedef_sized_mut,
    opaque_typedef_unsized, opaque_typedef_unsized_infallible,
    opaque_typedef_unsized_infallible_mut, opaque_typedef_unsized_mut,
};
pub use input::{
    ConfigError, Data, DeriveInput, Field, FieldAccessor, FieldWrapper, Generics, Input,
    get_primary_field,
};
pub use ir::{Body, Borrow, FieldInit, ImplFn, MethodKind, TraitImpl, TraitKind, Value};
pub use meta::{
    Diagnostic, Lit, Meta, MetaExt, MetaPath, NestedMeta, PathSegment, eq_path_components,
    parsed_literal,
};
pub use strings::{
    AsciiError, AsciiString, FromAsciiError, MyStr, MyString, validate_str, validate_string,
};
pub use traits::{
    OpaqueTypedefSized, OpaqueTypedefSizedInfallible, OpaqueTypedefSizedMut,
    OpaqueTypedefUnsized, OpaqueTypedefUnsizedInfallible, OpaqueTypedefUnsizedInfallibleMut,
    OpaqueTypedefUnsizedMut,
};
