//! A field-composition engine for compile-time-style derivation of
//! structural operations.
//!
//! An aggregate (a struct or an enum) is represented as a positional field
//! sequence; a rules set — a base case, a merge step for plain fields, a
//! merge step for enum-variant fields and a terminal join step — reduces
//! that sequence to the operation's result, and the owned direction
//! reconstructs an aggregate value from a sequence. Enum variants live in
//! one flattened sequence, aligned by the padding, masking and splitting
//! algebra of [`ty`].

use vstd::prelude::*;

pub mod data;
pub mod diag;
pub mod digest;
pub mod dupe;
pub mod field;
pub mod meta;
pub mod sameness;
pub mod standard;
pub mod ty;

pub use field::{
    Access, Empty, Field, Fields, Kind, MutEnumAccessError, MutField, OwnedEnumAccessError,
    OwnedField, Phantom, RefEnumAccessError, RefField, TryAccess, TyField, VarField, VarMutField,
    VarOwnedField, VarRefField, VarSlotView, VarTyField, VariantHeader,
};
pub use meta::{
    DataType, EnumMeta, EnumTy, FieldsMeta, FieldsMetadata, InternalTy, IsPrimitive, Meta,
    Metadata, MetadataView, NamedFieldsMeta, StructMeta, StructTy, UnnamedFieldsMeta, VariantMeta,
    VariantOffset,
};
pub use field::VARIANT_HEADER;
pub use ty::{
    Compat, False, Interleave, IntoTuples, List, Mask, Nothing, Pad, SplitOff, SplitOffInfix,
    True, TruthValue,
};

verus! {

/// A derivable operation: one marker type per rules set.
pub trait Property {
}

/// Declares that a concrete leaf type's own implementation of an
/// operation should be used as-is for the aggregate `T`, bypassing
/// decomposition.
pub trait OptIn<T: DataType> {
}

/// The per-type glue of the composition engine: how an aggregate turns
/// into a positional field sequence in each materialization, and how a
/// value is rebuilt from an owned sequence.
///
/// `spec_fields` is the mathematical decomposition of an aggregate's
/// abstract value, `spec_value` the reconstruction; `lemma_fields_inverse`
/// obliges every implementation to prove that reconstruction undoes
/// decomposition, so the round trip holds for every aggregate and every
/// value.
pub trait Inception: DeepView + Sized {
    type TyFields: Phantom;

    type RefFields<'a>: DeepView<V = <Self::OwnedFields as DeepView>::V> where Self: 'a;

    type MutFields: DeepView<V = <Self::OwnedFields as DeepView>::V>;

    type OwnedFields: DeepView;

    /// The field sequence that decomposing a value with this abstract
    /// content yields.
    spec fn spec_fields(v: <Self as DeepView>::V) -> <Self::OwnedFields as DeepView>::V;

    /// Whether a sequence is a well-formed decomposition of some value of
    /// this aggregate.
    spec fn wf_fields(f: <Self::OwnedFields as DeepView>::V) -> bool;

    /// The value that a well-formed sequence reconstructs to.
    spec fn spec_value(f: <Self::OwnedFields as DeepView>::V) -> <Self as DeepView>::V;

    /// The type-only field sequence.
    fn ty_fields() -> (r: Self::TyFields)
        ensures
            r == Self::TyFields::spec_phantom(),
    {
        Self::TyFields::phantom()
    }

    /// The borrowed field sequence of a live value.
    fn fields<'a>(&'a self) -> (r: Self::RefFields<'a>)
        ensures
            r.deep_view() == Self::spec_fields(self.deep_view()),
    ;

    /// The exclusively held field sequence of a live value; the value
    /// itself is left unchanged when the borrow ends.
    fn fields_mut(&mut self) -> (r: Self::MutFields)
        ensures
            *final(self) == *old(self),
            r.deep_view() == Self::spec_fields(old(self).deep_view()),
    ;

    /// Consumes a value into its owned field sequence.
    fn into_fields(self) -> (r: Self::OwnedFields)
        ensures
            r.deep_view() == Self::spec_fields(self.deep_view()),
            Self::wf_fields(r.deep_view()),
    ;

    /// Reconstructs a value from an owned field sequence. A sequence that
    /// is not a well-formed decomposition indicates a bug in sequence
    /// production, so well-formedness is a precondition.
    fn from_fields(fields: Self::OwnedFields) -> (r: Self)
        requires
            Self::wf_fields(fields.deep_view()),
        ensures
            r.deep_view() == Self::spec_value(fields.deep_view()),
    ;

    /// Reconstruction undoes decomposition: the round trip through the
    /// owned field sequence reproduces the original fields, in order and
    /// value, for every value of the aggregate.
    proof fn lemma_fields_inverse(v: <Self as DeepView>::V)
        ensures
            Self::spec_value(Self::spec_fields(v)) == v,
            Self::wf_fields(Self::spec_fields(v)),
    ;
}

/// Divides a field sequence into its head and the rest, for one reduction
/// step of the operation `X`.
pub trait Split<X: Property>: Sized {
    type Left;

    type Right;

    /// Whether there is a head to split off.
    spec fn can_split(self) -> bool;

    fn split(self) -> (Self::Left, Self::Right)
        requires
            self.can_split(),
    ;
}


/// As [`Split`], for type-only sequences.
pub trait SplitTy<X: Property>: Sized {
    type Left;

    type Right;

    /// Whether there is a head to split off.
    spec fn can_split_ty(self) -> bool;

    fn split_ty(self) -> (Self::Left, Self::Right)
        requires
            self.can_split_ty(),
    ;
}


/// As [`Split`], for borrowed sequences: the head is copied out and the
/// tail stays borrowed.
pub trait SplitRef<X: Property>: Sized {
    type Left;

    type Right;

    /// Whether there is a head to split off.
    spec fn can_split_ref(&self) -> bool;

    fn split_ref(&self) -> (r: (Self::Left, &Self::Right))
        requires
            self.can_split_ref(),
    ;
}


/// As [`Split`], for exclusively held sequences.
pub trait SplitMut<X: Property>: Sized {
    type Left;

    type Right;

    /// Whether there is a head to split off.
    spec fn can_split_mut(&self) -> bool;

    fn split_mut(&mut self) -> (r: (Self::Left, &mut Self::Right))
        requires
            old(self).can_split_mut(),
    ;
}

/// Wraps a bare content value into a slot.
pub trait Wrapper: Sized {
    type Content;

    fn wrap(t: Self::Content) -> Self;
}

impl<T, S> Wrapper for OwnedField<T, S> {
    type Content = T;

    fn wrap(t: T) -> (r: Self)
        ensures
            r.0 == Some(t),
    {
        OwnedField::new(t)
    }
}

impl<T, S> Wrapper for VarOwnedField<T, S> {
    type Content = T;

    fn wrap(t: T) -> (r: Self)
        ensures
            r is Owned && r->Owned_0.0 == Some(t),
    {
        VarOwnedField::new(t)
    }
}

} // verus!

verus! {

/// Reconstruction undoes decomposition: turning any aggregate value into
/// its field sequence and rebuilding from that sequence reproduces the
/// original fields, in order and value; enums come back as the same active
/// variant with the same payloads.
pub proof fn lemma_round_trip<T: Inception>(v: <T as DeepView>::V)
    ensures
        T::spec_value(T::spec_fields(v)) == v,
        T::wf_fields(T::spec_fields(v)),
{
    T::lemma_fields_inverse(v);
}

} // verus!
