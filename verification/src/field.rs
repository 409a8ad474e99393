//! Field wrappers: one positioned slot of a field sequence, in each of the
//! four materializations — type-only, borrowed, mutably held, owned — with
//! the enum-variant wrappers that additionally carry a discriminant header
//! or an empty state for positions of inactive variants.

use core::marker::PhantomData;

use vstd::prelude::*;

use crate::ty::{list_view, List};

verus! {

/// The content of a variant's discriminant header slot. It exists so that
/// every variant's flattened block has a uniform non-empty first element.
#[derive(Clone, Copy)]
pub struct VariantHeader;

/// The one value of the discriminant header content.
pub const VARIANT_HEADER: VariantHeader = VariantHeader;

impl DeepView for VariantHeader {
    type V = VariantHeader;

    open spec fn deep_view(&self) -> VariantHeader {
        VariantHeader
    }
}

/// The abstract state of an enum-variant slot: a real payload for the
/// active variant, the variant's discriminant header, or vacancy for a
/// position that belongs to an inactive variant.
pub ghost enum VarSlotView<V> {
    Payload(Option<V>),
    Header(Option<V>),
    Vacant,
}

/// A slot that is known to hold nothing: its position belongs to a
/// variant other than the active one.
pub struct Empty<T, S>(pub PhantomData<T>, pub PhantomData<S>);

impl<T, S> Empty<T, S> {
    pub fn new() -> (r: Self)
        ensures
            r == Empty::<T, S>(PhantomData, PhantomData),
    {
        Empty(PhantomData, PhantomData)
    }
}

/// A type-only slot: carries no runtime payload and serves static
/// dispatch and arity information alone.
pub struct TyField<T, S>(pub PhantomData<T>, pub PhantomData<S>);

impl<T, S> TyField<T, S> {
    pub fn new() -> (r: Self)
        ensures
            r == TyField::<T, S>(PhantomData, PhantomData),
    {
        TyField(PhantomData, PhantomData)
    }

    pub fn empty() -> (r: Self)
        ensures
            r == TyField::<T, S>(PhantomData, PhantomData),
    {
        TyField(PhantomData, PhantomData)
    }

    pub fn phantom(self) -> PhantomData<T> {
        self.0
    }
}

/// A borrowed slot: holds the slot's content, or nothing when the position
/// belongs to an inactive variant.
pub struct RefField<T, S>(pub Option<T>, pub PhantomData<S>);

impl<T, S> RefField<T, S> {
    pub fn new(t: T) -> (r: Self)
        ensures
            r.0 == Some(t),
    {
        RefField(Some(t), PhantomData)
    }

    pub fn empty() -> (r: Self)
        ensures
            r.0 is None,
    {
        RefField(None, PhantomData)
    }
}

impl<T: Clone, S> RefField<T, S> {
    /// Clones the borrowed content into an owned slot.
    pub fn to_owned(&self) -> (r: OwnedField<T, S>)
        ensures
            r.0 is Some <==> self.0 is Some,
    {
        match &self.0 {
            Some(t) => OwnedField(Some(t.clone()), PhantomData),
            None => OwnedField(None, PhantomData),
        }
    }
}

/// An exclusively held slot. Its content can be taken out exactly once,
/// leaving the slot demonstrably empty behind.
pub struct MutField<T, S>(pub Option<T>, pub PhantomData<S>);

impl<T, S> MutField<T, S> {
    pub fn new(t: T) -> (r: Self)
        ensures
            r.0 == Some(t),
    {
        MutField(Some(t), PhantomData)
    }

    pub fn empty() -> (r: Self)
        ensures
            r.0 is None,
    {
        MutField(None, PhantomData)
    }

    /// Moves the content out, leaving the slot empty.
    pub fn take(&mut self) -> (r: Self)
        ensures
            r.0 == old(self).0,
            final(self).0 is None,
    {
        let mut inner: Option<T> = None;
        core::mem::swap(&mut self.0, &mut inner);
        MutField(inner, PhantomData)
    }
}

/// An owned slot.
pub struct OwnedField<T, S>(pub Option<T>, pub PhantomData<S>);

impl<T, S> OwnedField<T, S> {
    pub fn new(t: T) -> (r: Self)
        ensures
            r.0 == Some(t),
    {
        OwnedField(Some(t), PhantomData)
    }

    pub fn empty() -> (r: Self)
        ensures
            r.0 is None,
    {
        OwnedField(None, PhantomData)
    }
}

impl<T: DeepView, S> DeepView for RefField<T, S> {
    type V = Option<T::V>;

    open spec fn deep_view(&self) -> Option<T::V> {
        match self.0 {
            Some(t) => Some(t.deep_view()),
            None => None,
        }
    }
}

impl<T: DeepView, S> DeepView for MutField<T, S> {
    type V = Option<T::V>;

    open spec fn deep_view(&self) -> Option<T::V> {
        match self.0 {
            Some(t) => Some(t.deep_view()),
            None => None,
        }
    }
}

impl<T: DeepView, S> DeepView for OwnedField<T, S> {
    type V = Option<T::V>;

    open spec fn deep_view(&self) -> Option<T::V> {
        match self.0 {
            Some(t) => Some(t.deep_view()),
            None => None,
        }
    }
}

impl<T: DeepView, S> DeepView for TyField<T, S> {
    type V = ();

    open spec fn deep_view(&self) -> () {
        ()
    }
}

/// A type-only slot of an enum's flattened sequence: either the variant's
/// discriminant header position or an ordinary field position.
pub enum VarTyField<T, S> {
    Header(TyField<T, S>),
    Ty(TyField<T, S>),
}

impl<T, S> VarTyField<T, S> {
    pub fn new() -> (r: Self)
        ensures
            r is Ty,
    {
        VarTyField::Ty(TyField::new())
    }

    pub fn header() -> (r: Self)
        ensures
            r is Header,
    {
        VarTyField::Header(TyField::new())
    }

    pub fn empty() -> (r: Self)
        ensures
            r is Ty,
    {
        VarTyField::Ty(TyField::new())
    }

    /// A type-only slot never carries a payload.
    pub fn has_value(&self) -> (r: bool)
        ensures
            r == false,
    {
        false
    }
}

impl<T: DeepView, S> DeepView for VarTyField<T, S> {
    type V = bool;

    open spec fn deep_view(&self) -> bool {
        self is Header
    }
}

/// A borrowed slot of an enum's flattened sequence.
pub enum VarRefField<T, S> {
    Ref(RefField<T, S>),
    Header(RefField<T, S>),
    Empty(Empty<T, S>),
}

impl<T, S> VarRefField<T, S> {
    pub fn header(header: T) -> (r: Self)
        ensures
            r == VarRefField::<T, S>::Header(RefField(Some(header), PhantomData)),
    {
        VarRefField::Header(RefField::new(header))
    }

    pub fn new(t: T) -> (r: Self)
        ensures
            r == VarRefField::<T, S>::Ref(RefField(Some(t), PhantomData)),
    {
        VarRefField::Ref(RefField::new(t))
    }

    pub fn empty() -> (r: Self)
        ensures
            r is Empty,
    {
        VarRefField::Empty(Empty::new())
    }

    pub fn has_value(&self) -> (r: bool)
        ensures
            r == (self is Ref || (self is Header && self->Header_0.0 is Some)),
    {
        match self {
            VarRefField::Ref(_) => true,
            VarRefField::Header(RefField(Some(_), _)) => true,
            _ => false,
        }
    }
}

impl<T: DeepView, S> DeepView for VarRefField<T, S> {
    type V = VarSlotView<T::V>;

    open spec fn deep_view(&self) -> VarSlotView<T::V> {
        match self {
            VarRefField::Ref(f) => VarSlotView::Payload(f.deep_view()),
            VarRefField::Header(f) => VarSlotView::Header(f.deep_view()),
            VarRefField::Empty(_) => VarSlotView::Vacant,
        }
    }
}

/// An exclusively held slot of an enum's flattened sequence.
pub enum VarMutField<T, S> {
    Mut(MutField<T, S>),
    Header(MutField<T, S>),
    Empty(Empty<T, S>),
}

impl<T, S> VarMutField<T, S> {
    pub fn header(header: T) -> (r: Self)
        ensures
            r == VarMutField::<T, S>::Header(MutField(Some(header), PhantomData)),
    {
        VarMutField::Header(MutField::new(header))
    }

    pub fn new(t: T) -> (r: Self)
        ensures
            r == VarMutField::<T, S>::Mut(MutField(Some(t), PhantomData)),
    {
        VarMutField::Mut(MutField::new(t))
    }

    pub fn empty() -> (r: Self)
        ensures
            r is Empty,
    {
        VarMutField::Empty(Empty::new())
    }

    pub fn has_value(&self) -> (r: bool)
        ensures
            r == (self is Mut || (self is Header && self->Header_0.0 is Some)),
    {
        match self {
            VarMutField::Mut(_) => true,
            VarMutField::Header(MutField(Some(_), _)) => true,
            _ => false,
        }
    }

    /// Moves the slot's content out, so that a merge step can consume it
    /// exactly once; the slot left behind holds nothing.
    pub fn take(&mut self) -> (r: Self)
        ensures
            (*old(self)) is Mut ==> r is Mut && (*final(self)) is Mut && r->Mut_0.0 == (*old(
                self,
            ))->Mut_0.0 && (*final(self))->Mut_0.0 is None,
            (*old(self)) is Header ==> r is Header && (*final(self)) is Header && r->Header_0.0
                == (*old(self))->Header_0.0 && (*final(self))->Header_0.0 is None,
            (*old(self)) is Empty ==> r is Empty && (*final(self)) is Empty,
    {
        match self {
            VarMutField::Mut(m) => VarMutField::Mut(m.take()),
            VarMutField::Header(m) => VarMutField::Header(m.take()),
            VarMutField::Empty(_) => VarMutField::Empty(Empty::new()),
        }
    }
}

impl<T: DeepView, S> DeepView for VarMutField<T, S> {
    type V = VarSlotView<T::V>;

    open spec fn deep_view(&self) -> VarSlotView<T::V> {
        match self {
            VarMutField::Mut(f) => VarSlotView::Payload(f.deep_view()),
            VarMutField::Header(f) => VarSlotView::Header(f.deep_view()),
            VarMutField::Empty(_) => VarSlotView::Vacant,
        }
    }
}

/// An owned slot of an enum's flattened sequence.
pub enum VarOwnedField<T, S> {
    Owned(OwnedField<T, S>),
    Header(OwnedField<T, S>),
    Empty(Empty<T, S>),
}

impl<T, S> VarOwnedField<T, S> {
    pub fn new(t: T) -> (r: Self)
        ensures
            r == VarOwnedField::<T, S>::Owned(OwnedField(Some(t), PhantomData)),
    {
        VarOwnedField::Owned(OwnedField::new(t))
    }

    pub fn empty() -> (r: Self)
        ensures
            r is Empty,
    {
        VarOwnedField::Empty(Empty::new())
    }

    pub fn header(d: T) -> (r: Self)
        ensures
            r == VarOwnedField::<T, S>::Header(OwnedField(Some(d), PhantomData)),
    {
        VarOwnedField::Header(OwnedField::new(d))
    }

    pub fn has_value(&self) -> (r: bool)
        ensures
            r == (self is Owned || (self is Header && self->Header_0.0 is Some)),
    {
        match self {
            VarOwnedField::Owned(_) => true,
            VarOwnedField::Header(OwnedField(Some(_), _)) => true,
            _ => false,
        }
    }
}

impl<T: DeepView, S> DeepView for VarOwnedField<T, S> {
    type V = VarSlotView<T::V>;

    open spec fn deep_view(&self) -> VarSlotView<T::V> {
        match self {
            VarOwnedField::Owned(f) => VarSlotView::Payload(f.deep_view()),
            VarOwnedField::Header(f) => VarSlotView::Header(f.deep_view()),
            VarOwnedField::Empty(_) => VarSlotView::Vacant,
        }
    }
}

/// Unwraps a slot's payload. Calling it on a slot that is statically known
/// to hold nothing is a bug in sequence construction, so the payload's
/// presence is a precondition.
pub trait Access: Sized {
    type Out;

    /// Whether the slot holds a payload that `access` may unwrap.
    spec fn accessible(self) -> bool;

    /// The payload that `access` unwraps.
    spec fn spec_access(self) -> Self::Out;

    fn access(self) -> (r: Self::Out)
        requires
            self.accessible(),
        ensures
            r == self.spec_access(),
    ;
}

impl<T, S> Access for RefField<T, S> {
    type Out = T;

    open spec fn accessible(self) -> bool {
        self.0 is Some
    }

    open spec fn spec_access(self) -> T {
        self.0->0
    }

    fn access(self) -> (r: T) {
        match self.0 {
            Some(t) => t,
            None => unreached(),
        }
    }
}

impl<T, S> Access for MutField<T, S> {
    type Out = T;

    open spec fn accessible(self) -> bool {
        self.0 is Some
    }

    open spec fn spec_access(self) -> T {
        self.0->0
    }

    fn access(self) -> (r: T) {
        match self.0 {
            Some(t) => t,
            None => unreached(),
        }
    }
}

impl<T, S> Access for OwnedField<T, S> {
    type Out = T;

    open spec fn accessible(self) -> bool {
        self.0 is Some
    }

    open spec fn spec_access(self) -> T {
        self.0->0
    }

    fn access(self) -> (r: T) {
        match self.0 {
            Some(t) => t,
            None => unreached(),
        }
    }
}

impl<T, S> Access for VarRefField<T, S> {
    type Out = T;

    open spec fn accessible(self) -> bool {
        match self {
            VarRefField::Ref(f) => f.0 is Some,
            VarRefField::Header(f) => f.0 is Some,
            VarRefField::Empty(_) => false,
        }
    }

    open spec fn spec_access(self) -> T {
        match self {
            VarRefField::Ref(f) => f.0->0,
            VarRefField::Header(f) => f.0->0,
            VarRefField::Empty(_) => arbitrary(),
        }
    }

    fn access(self) -> (r: T) {
        match self {
            VarRefField::Ref(f) => f.access(),
            VarRefField::Header(f) => f.access(),
            VarRefField::Empty(_) => unreached(),
        }
    }
}

impl<T, S> Access for VarMutField<T, S> {
    type Out = T;

    open spec fn accessible(self) -> bool {
        match self {
            VarMutField::Mut(f) => f.0 is Some,
            VarMutField::Header(f) => f.0 is Some,
            VarMutField::Empty(_) => false,
        }
    }

    open spec fn spec_access(self) -> T {
        match self {
            VarMutField::Mut(f) => f.0->0,
            VarMutField::Header(f) => f.0->0,
            VarMutField::Empty(_) => arbitrary(),
        }
    }

    fn access(self) -> (r: T) {
        match self {
            VarMutField::Mut(f) => f.access(),
            VarMutField::Header(f) => f.access(),
            VarMutField::Empty(_) => unreached(),
        }
    }
}

impl<T, S> Access for VarOwnedField<T, S> {
    type Out = T;

    open spec fn accessible(self) -> bool {
        match self {
            VarOwnedField::Owned(f) => f.0 is Some,
            VarOwnedField::Header(f) => f.0 is Some,
            VarOwnedField::Empty(_) => false,
        }
    }

    open spec fn spec_access(self) -> T {
        match self {
            VarOwnedField::Owned(f) => f.0->0,
            VarOwnedField::Header(f) => f.0->0,
            VarOwnedField::Empty(_) => arbitrary(),
        }
    }

    fn access(self) -> (r: T) {
        match self {
            VarOwnedField::Owned(f) => f.access(),
            VarOwnedField::Header(f) => f.access(),
            VarOwnedField::Empty(_) => unreached(),
        }
    }
}

/// Whether every slot of a sequence is accessible.
pub open spec fn list_accessible<T: Access>(l: List<T>) -> bool
    decreases l,
{
    match l {
        List::Nil => true,
        List::Cons(h, t) => h.accessible() && list_accessible(*t),
    }
}

/// The payloads of a sequence's slots, position by position.
pub open spec fn list_access<T: Access>(l: List<T>) -> List<T::Out>
    decreases l,
{
    match l {
        List::Nil => List::Nil,
        List::Cons(h, t) => List::Cons(h.spec_access(), Box::new(list_access(*t))),
    }
}

impl<T: Access> Access for List<T> {
    type Out = List<T::Out>;

    open spec fn accessible(self) -> bool {
        list_accessible(self)
    }

    open spec fn spec_access(self) -> List<T::Out> {
        list_access(self)
    }

    fn access(self) -> (r: List<T::Out>)
        decreases self,
    {
        match self {
            List::Nil => List::Nil,
            List::Cons(h, t) => List::Cons(h.access(), Box::new((*t).access())),
        }
    }
}

/// Classifies why a borrowed enum slot yielded no payload: the slot is the
/// variant's discriminant header, or it belongs to an inactive variant.
pub enum RefEnumAccessError<T, S> {
    EmptyField(VarTyField<T, S>),
    Header(RefField<T, S>),
}

/// As `RefEnumAccessError`, for exclusively held slots.
pub enum MutEnumAccessError<T, S> {
    EmptyField(VarTyField<T, S>),
    Header(MutField<T, S>),
}

/// As `RefEnumAccessError`, for owned slots.
pub enum OwnedEnumAccessError<T, S> {
    EmptyField(VarTyField<T, S>),
    Header(OwnedField<T, S>),
}

/// Unwraps a slot's payload, or classifies why there is none: the slot may
/// be a variant's discriminant header (whose wrapper is handed back), or it
/// may belong to an inactive variant (an empty marker is handed back). The
/// two-level lookup lets a consumer treat a header and a genuinely vacant
/// position differently.
pub trait TryAccess: Sized {
    type Err;

    type Out;

    /// Whether `try_access` may run: a payload slot must actually hold its
    /// payload, anything else is a bug in sequence construction.
    spec fn try_accessible(self) -> bool;

    /// The exact classification that `try_access` returns.
    spec fn spec_try_access(self) -> Result<Self::Out, Self::Err>;

    fn try_access(self) -> (r: Result<Self::Out, Self::Err>)
        requires
            self.try_accessible(),
        ensures
            r == self.spec_try_access(),
    ;
}

impl<T, S> TryAccess for VarRefField<T, S> {
    type Err = RefEnumAccessError<T, S>;

    type Out = T;

    open spec fn try_accessible(self) -> bool {
        self is Ref ==> self->Ref_0.0 is Some
    }

    open spec fn spec_try_access(self) -> Result<T, RefEnumAccessError<T, S>> {
        match self {
            VarRefField::Ref(f) => Ok(f.0->0),
            VarRefField::Header(RefField(p, _)) => {
                if p is Some {
                    Err(RefEnumAccessError::Header(RefField(Some(p->0), PhantomData)))
                } else {
                    Err(RefEnumAccessError::EmptyField(VarTyField::Ty(TyField(PhantomData, PhantomData))))
                }
            }
            VarRefField::Empty(_) => Err(
                RefEnumAccessError::EmptyField(VarTyField::Ty(TyField(PhantomData, PhantomData))),
            ),
        }
    }

    fn try_access(self) -> (r: Result<T, RefEnumAccessError<T, S>>) {
        match self {
            VarRefField::Ref(f) => Ok(f.access()),
            VarRefField::Header(RefField(Some(d), _)) => Err(
                RefEnumAccessError::Header(RefField::new(d)),
            ),
            VarRefField::Empty(_) | VarRefField::Header(RefField(None, _)) => Err(
                RefEnumAccessError::EmptyField(VarTyField::new()),
            ),
        }
    }
}

impl<T, S> TryAccess for VarMutField<T, S> {
    type Err = MutEnumAccessError<T, S>;

    type Out = T;

    open spec fn try_accessible(self) -> bool {
        self is Mut ==> self->Mut_0.0 is Some
    }

    open spec fn spec_try_access(self) -> Result<T, MutEnumAccessError<T, S>> {
        match self {
            VarMutField::Mut(f) => Ok(f.0->0),
            VarMutField::Header(MutField(p, _)) => {
                if p is Some {
                    Err(MutEnumAccessError::Header(MutField(Some(p->0), PhantomData)))
                } else {
                    Err(MutEnumAccessError::EmptyField(VarTyField::Ty(TyField(PhantomData, PhantomData))))
                }
            }
            VarMutField::Empty(_) => Err(
                MutEnumAccessError::EmptyField(VarTyField::Ty(TyField(PhantomData, PhantomData))),
            ),
        }
    }

    fn try_access(self) -> (r: Result<T, MutEnumAccessError<T, S>>) {
        match self {
            VarMutField::Mut(f) => Ok(f.access()),
            VarMutField::Header(MutField(Some(d), _)) => Err(
                MutEnumAccessError::Header(MutField::new(d)),
            ),
            VarMutField::Empty(_) | VarMutField::Header(MutField(None, _)) => Err(
                MutEnumAccessError::EmptyField(VarTyField::new()),
            ),
        }
    }
}

impl<T, S> TryAccess for VarOwnedField<T, S> {
    type Err = OwnedEnumAccessError<T, S>;

    type Out = T;

    open spec fn try_accessible(self) -> bool {
        self is Owned ==> self->Owned_0.0 is Some
    }

    open spec fn spec_try_access(self) -> Result<T, OwnedEnumAccessError<T, S>> {
        match self {
            VarOwnedField::Owned(f) => Ok(f.0->0),
            VarOwnedField::Header(OwnedField(p, _)) => {
                if p is Some {
                    Err(OwnedEnumAccessError::Header(OwnedField(Some(p->0), PhantomData)))
                } else {
                    Err(OwnedEnumAccessError::EmptyField(VarTyField::Ty(TyField(PhantomData, PhantomData))))
                }
            }
            VarOwnedField::Empty(_) => Err(
                OwnedEnumAccessError::EmptyField(VarTyField::Ty(TyField(PhantomData, PhantomData))),
            ),
        }
    }

    fn try_access(self) -> (r: Result<T, OwnedEnumAccessError<T, S>>) {
        match self {
            VarOwnedField::Owned(f) => Ok(f.access()),
            VarOwnedField::Header(OwnedField(Some(d), _)) => Err(
                OwnedEnumAccessError::Header(OwnedField::new(d)),
            ),
            VarOwnedField::Empty(_) | VarOwnedField::Header(OwnedField(None, _)) => Err(
                OwnedEnumAccessError::EmptyField(VarTyField::new()),
            ),
        }
    }
}

/// Phantom construction: an "all absent" instance that needs no real data,
/// used for type-only sequences and for the empty slots of padding.
pub trait Phantom: Sized {
    /// The one value that phantom construction yields.
    spec fn spec_phantom() -> Self;

    fn phantom() -> (r: Self)
        ensures
            r == Self::spec_phantom(),
    ;

    fn copy(&self) -> (r: Self)
        ensures
            r == Self::spec_phantom(),
    {
        Self::phantom()
    }
}

impl Phantom for () {
    open spec fn spec_phantom() -> () {
        ()
    }

    fn phantom() -> (r: ()) {
    }
}

impl Phantom for VariantHeader {
    open spec fn spec_phantom() -> VariantHeader {
        VariantHeader
    }

    fn phantom() -> (r: VariantHeader) {
        VariantHeader
    }
}

impl<T> Phantom for Option<T> {
    open spec fn spec_phantom() -> Option<T> {
        None
    }

    fn phantom() -> (r: Option<T>) {
        None
    }
}

impl<T, S> Phantom for TyField<T, S> {
    open spec fn spec_phantom() -> Self {
        TyField(PhantomData, PhantomData)
    }

    fn phantom() -> (r: Self) {
        TyField::new()
    }
}

impl<T, S> Phantom for VarTyField<T, S> {
    open spec fn spec_phantom() -> Self {
        VarTyField::Ty(TyField(PhantomData, PhantomData))
    }

    fn phantom() -> (r: Self) {
        VarTyField::new()
    }
}

impl<T, S> Phantom for Empty<T, S> {
    open spec fn spec_phantom() -> Self {
        Empty(PhantomData, PhantomData)
    }

    fn phantom() -> (r: Self) {
        Empty::new()
    }
}

impl<T, S> Phantom for RefField<T, S> {
    open spec fn spec_phantom() -> Self {
        RefField(None, PhantomData)
    }

    fn phantom() -> (r: Self) {
        RefField::empty()
    }
}

impl<T, S> Phantom for VarRefField<T, S> {
    open spec fn spec_phantom() -> Self {
        VarRefField::Empty(Empty(PhantomData, PhantomData))
    }

    fn phantom() -> (r: Self) {
        VarRefField::empty()
    }
}

impl<T, S> Phantom for MutField<T, S> {
    open spec fn spec_phantom() -> Self {
        MutField(None, PhantomData)
    }

    fn phantom() -> (r: Self) {
        MutField::empty()
    }
}

impl<T, S> Phantom for VarMutField<T, S> {
    open spec fn spec_phantom() -> Self {
        VarMutField::Empty(Empty(PhantomData, PhantomData))
    }

    fn phantom() -> (r: Self) {
        VarMutField::empty()
    }
}

impl<T, S> Phantom for OwnedField<T, S> {
    open spec fn spec_phantom() -> Self {
        OwnedField(None, PhantomData)
    }

    fn phantom() -> (r: Self) {
        OwnedField::empty()
    }
}

impl<T, S> Phantom for VarOwnedField<T, S> {
    open spec fn spec_phantom() -> Self {
        VarOwnedField::Empty(Empty(PhantomData, PhantomData))
    }

    fn phantom() -> (r: Self) {
        VarOwnedField::empty()
    }
}

impl<T> Phantom for List<T> {
    open spec fn spec_phantom() -> Self {
        List::Nil
    }

    fn phantom() -> (r: Self) {
        List::Nil
    }
}

/// Names the kind of a slot for diagnostics.
pub trait Kind {
    fn identifier() -> &'static str;
}

/// A slot of a field sequence: its content type, the aggregate it belongs
/// to (a metadata key, never stored), and its owned materialization.
pub trait Field {
    type Source;

    type Content;

    type Owned;
}

impl<T, S> Field for TyField<T, S> {
    type Source = S;

    type Content = T;

    type Owned = OwnedField<T, S>;
}

impl<T, S> Field for RefField<T, S> {
    type Source = S;

    type Content = T;

    type Owned = OwnedField<T, S>;
}

impl<T, S> Field for MutField<T, S> {
    type Source = S;

    type Content = T;

    type Owned = OwnedField<T, S>;
}

impl<T, S> Field for OwnedField<T, S> {
    type Source = S;

    type Content = T;

    type Owned = OwnedField<T, S>;
}

impl<T, S> Field for VarTyField<T, S> {
    type Source = S;

    type Content = T;

    type Owned = VarOwnedField<T, S>;
}

impl<T, S> Field for VarRefField<T, S> {
    type Source = S;

    type Content = T;

    type Owned = VarOwnedField<T, S>;
}

impl<T, S> Field for VarMutField<T, S> {
    type Source = S;

    type Content = T;

    type Owned = VarOwnedField<T, S>;
}

impl<T, S> Field for VarOwnedField<T, S> {
    type Source = S;

    type Content = T;

    type Owned = VarOwnedField<T, S>;
}

impl<T, S> Field for Empty<T, S> {
    type Source = S;

    type Content = T;

    type Owned = Empty<T, S>;
}

/// A slot that belongs to an enum variant's flattened block.
pub trait VarField: Field {
}

impl<T, S> VarField for VarTyField<T, S> {
}

impl<T, S> VarField for VarRefField<T, S> {
}

impl<T, S> VarField for VarMutField<T, S> {
}

impl<T, S> VarField for VarOwnedField<T, S> {
}

impl<T, S> VarField for Empty<T, S> {
}

/// A field sequence seen at the type level: its head slot, the remaining
/// tail, and the owned materialization of the whole sequence.
pub trait Fields {
    type Head;

    type Tail;

    type Owned;
}

impl<T: Field> Fields for List<T> {
    type Head = T;

    type Tail = List<T>;

    type Owned = List<<T as Field>::Owned>;
}

} // verus!

verus! {

impl<T, S> Default for Empty<T, S> {
    fn default() -> (r: Self)
        ensures
            r == Empty::<T, S>(PhantomData, PhantomData),
    {
        Empty::new()
    }
}

impl<T, S> Default for TyField<T, S> {
    fn default() -> (r: Self)
        ensures
            r == TyField::<T, S>(PhantomData, PhantomData),
    {
        TyField::new()
    }
}

impl<T, S> Default for VarTyField<T, S> {
    fn default() -> (r: Self)
        ensures
            r is Ty,
    {
        VarTyField::new()
    }
}

impl<T: Copy, S> Clone for RefField<T, S> {
    fn clone(&self) -> (r: Self)
        ensures
            r == *self,
    {
        RefField(self.0, PhantomData)
    }
}

impl<T: Copy, S> Clone for VarRefField<T, S> {
    fn clone(&self) -> (r: Self)
        ensures
            r == *self,
    {
        match self {
            VarRefField::Ref(f) => VarRefField::Ref(RefField(f.0, PhantomData)),
            VarRefField::Header(f) => VarRefField::Header(RefField(f.0, PhantomData)),
            VarRefField::Empty(_) => VarRefField::Empty(Empty(PhantomData, PhantomData)),
        }
    }
}

} // verus!
