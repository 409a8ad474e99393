//! The metadata registry: static per-type facts — type names, field names,
//! variant names and per-variant flattening offsets — queried by engine
//! steps for naming and offset computation. The entries are generated once
//! per aggregate type and never change.

use core::marker::PhantomData;

use vstd::prelude::*;

use crate::ty::TruthValue;
use crate::Property;

verus! {

/// The kind marker of a sequence-internal type.
pub struct InternalTy;

/// The kind marker of an enum aggregate.
pub struct EnumTy;

/// The kind marker of a struct aggregate; `N` tells whether its fields
/// are named.
pub struct StructTy<N>(pub PhantomData<N>);

/// The abstract contents of a metadata registry entry.
pub ghost enum MetadataView {
    Enum { name: Seq<char>, variant_names: Seq<Seq<char>>, field_names: Seq<Seq<Seq<char>>> },
    Struct { name: Seq<char>, field_names: Seq<Seq<char>> },
    Internal,
}

/// One registry entry: the names an aggregate type contributes.
pub enum Metadata {
    Enum {
        name: &'static str,
        variant_names: Vec<&'static str>,
        field_names: Vec<Vec<&'static str>>,
    },
    Struct { name: &'static str, field_names: Vec<&'static str> },
    Internal,
}

impl DeepView for Metadata {
    type V = MetadataView;

    open spec fn deep_view(&self) -> MetadataView {
        match self {
            Metadata::Enum { name, variant_names, field_names } => MetadataView::Enum {
                name: name.deep_view(),
                variant_names: variant_names.deep_view(),
                field_names: field_names.deep_view(),
            },
            Metadata::Struct { name, field_names } => MetadataView::Struct {
                name: name.deep_view(),
                field_names: field_names.deep_view(),
            },
            Metadata::Internal => MetadataView::Internal,
        }
    }
}

/// The field names of one aggregate, or the bare count where the fields
/// are unnamed.
pub enum FieldsMetadata {
    Named { names: Vec<&'static str> },
    Unnamed { len: usize },
}

/// A type that takes part in the derivation, with its name and its kind.
pub trait DataType {
    type Ty;

    /// The type's name.
    spec fn spec_name() -> Seq<char>;

    fn name() -> (r: &'static str)
        ensures
            r@ == Self::spec_name(),
    ;
}

/// The registry entry of a type.
pub trait Meta: DataType {
    /// The entry's abstract contents.
    spec fn spec_metadata() -> MetadataView;

    fn metadata() -> (r: Metadata)
        ensures
            r.deep_view() == Self::spec_metadata(),
    ;
}

/// The per-enum registry facts: variant names in declaration order, and
/// each variant's field names.
pub trait EnumMeta: DataType {
    spec fn spec_variant_names() -> Seq<Seq<char>>;

    spec fn spec_field_names() -> Seq<Seq<Seq<char>>>;

    fn variant_names() -> (r: Vec<&'static str>)
        ensures
            r.deep_view() == Self::spec_variant_names(),
    ;

    fn field_names() -> (r: Vec<Vec<&'static str>>)
        ensures
            r.deep_view() == Self::spec_field_names(),
    ;
}

/// The per-struct registry facts: the field count, and whether the fields
/// are named.
pub trait StructMeta: DataType {
    type NamedFields: TruthValue;

    spec fn spec_num_fields() -> nat;

    fn num_fields() -> (r: usize)
        ensures
            r == Self::spec_num_fields(),
    ;
}

/// The field names of a struct whose fields are named.
pub trait NamedFieldsMeta: DataType {
    spec fn spec_field_names() -> Seq<Seq<char>>;

    fn field_names() -> (r: Vec<&'static str>)
        ensures
            r.deep_view() == Self::spec_field_names(),
    ;
}

/// The field count of a struct whose fields are unnamed.
pub trait UnnamedFieldsMeta: DataType {
    spec fn spec_num_fields() -> nat;

    fn num_fields() -> (r: usize)
        ensures
            r == Self::spec_num_fields(),
    ;
}

/// Whether an aggregate's field sequence carries field names.
pub trait FieldsMeta: DataType {
    type Named: TruthValue;
}

/// Whether a type opts in to a direct implementation of the operation `X`,
/// terminating structural recursion at that type.
pub trait IsPrimitive<X: Property> {
    type Is: TruthValue;
}

/// An enum's global offset table: each variant index is statically mapped
/// to the count of flattened slots contributed by all preceding variants.
pub trait VariantOffset {
    /// The flattening offset of the variant with the given index.
    spec fn spec_offset(v: int) -> int;

    fn offset(v: usize) -> (r: usize)
        ensures
            r == Self::spec_offset(v as int),
    ;
}

/// The name of one variant and the names of its fields, for diagnostics.
pub trait VariantMeta: DataType {
    spec fn spec_variant_name(v: int) -> Seq<char>;

    spec fn spec_variant_field_names(v: int) -> Seq<Seq<char>>;

    fn variant_name(v: usize) -> (r: &'static str)
        ensures
            r@ == Self::spec_variant_name(v as int),
    ;

    fn variant_field_names(v: usize) -> (r: Vec<&'static str>)
        ensures
            r.deep_view() == Self::spec_variant_field_names(v as int),
    ;
}

} // verus!
