//! Structural duplication: the engine's rules set for copying an
//! aggregate, in the three data-bearing materializations — from a borrowed
//! sequence, from an exclusively held sequence, and from an owned
//! sequence. Leaf types opt in with their own copy; aggregates decompose,
//! duplicate slot by slot, and reconstruct through `from_fields`.

use vstd::prelude::*;

use crate::data::{
    actor_fields, director_fields, kind_fields, lemma_actor_weight, lemma_director_weight,
    lemma_kind_weight, lemma_movie_weight, lemma_point_weight, lemma_shape_weight,
    lemma_version_weight, movie_fields, point_fields, shape_fields, slot_weight, slots_weight,
    var_slot_weight, var_slots_weight, version_fields, weight, Actor, Datum, DatumRef, DatumView,
    Director, Kind, Movie, Point, Shape, Version,
};
use crate::field::{
    MutField, OwnedField, RefField, VarMutField, VarOwnedField, VarRefField, VarSlotView,
    VariantHeader,
};
use crate::ty::{lemma_list_unfold, List};
use crate::{Inception, Property};

verus! {

/// The property marker of duplication from a borrowed sequence.
pub struct DupeRef;

impl Property for DupeRef {
}

/// The property marker of duplication from an exclusively held sequence.
pub struct DupeMut;

impl Property for DupeMut {
}

/// The property marker of duplication from an owned sequence.
pub struct DupeOwned;

impl Property for DupeOwned {
}

/// Structural duplication from a borrowed value: the duplicate carries
/// exactly the abstract content of the original.
pub trait Duplicate: DeepView where Self::Ret: DeepView<V = <Self as DeepView>::V> {
    type Ret;

    fn dupe(&self) -> (r: Self::Ret)
        ensures
            r.deep_view() == self.deep_view(),
    ;
}

impl Duplicate for u8 {
    type Ret = u8;

    fn dupe(&self) -> (r: u8) {
        *self
    }
}

impl Duplicate for u64 {
    type Ret = u64;

    fn dupe(&self) -> (r: u64) {
        *self
    }
}

impl Duplicate for u128 {
    type Ret = u128;

    fn dupe(&self) -> (r: u128) {
        *self
    }
}

impl Duplicate for String {
    type Ret = String;

    fn dupe(&self) -> (r: String) {
        self.clone()
    }
}

impl Duplicate for VariantHeader {
    type Ret = VariantHeader;

    fn dupe(&self) -> (r: VariantHeader) {
        VariantHeader
    }
}

/// Duplicates one slot content. The primitive-passthrough cases terminate
/// the recursion; an aggregate content recurses through that aggregate's
/// own duplication.
fn dupe_datum<'a>(d: &DatumRef<'a>, Ghost(dv): Ghost<DatumView>) -> (r: Datum)
    requires
        dv == d.deep_view(),
    ensures
        r.deep_view() == d.deep_view(),
    decreases weight(dv),
{
    match d {
        DatumRef::Byte(b) => Datum::Byte((*b).dupe()),
        DatumRef::Word(w) => Datum::Word((*w).dupe()),
        DatumRef::Wide(w) => Datum::Wide((*w).dupe()),
        DatumRef::Text(s) => Datum::Text((*s).dupe()),
        DatumRef::Head(h) => Datum::Head(h.dupe()),
        DatumRef::Kind(k) => {
            proof {
                lemma_kind_weight(k.deep_view());
            }
            Datum::Kind((*k).dupe())
        }
        DatumRef::Actor(a) => {
            proof {
                lemma_actor_weight(a.deep_view());
            }
            Datum::Actor((*a).dupe())
        }
        DatumRef::Director(d) => {
            proof {
                lemma_director_weight(d.deep_view());
            }
            Datum::Director((*d).dupe())
        }
        DatumRef::Movie(m) => {
            proof {
                lemma_movie_weight(m.deep_view());
            }
            Datum::Movie((*m).dupe())
        }
        DatumRef::Version(v) => {
            proof {
                lemma_version_weight(v.deep_view());
            }
            Datum::Version((*v).dupe())
        }
        DatumRef::Point(p) => {
            proof {
                lemma_point_weight(p.deep_view());
            }
            Datum::Point((*p).dupe())
        }
        DatumRef::Shape(s) => {
            proof {
                lemma_shape_weight(s.deep_view());
            }
            Datum::Shape((*s).dupe())
        }
    }
}

/// Duplicates one plain slot.
fn dupe_slot<'a, S>(f: &RefField<DatumRef<'a>, S>, Ghost(fv): Ghost<Option<DatumView>>) -> (r:
    OwnedField<Datum, S>)
    requires
        fv == f.deep_view(),
    ensures
        r.deep_view() == f.deep_view(),
    decreases slot_weight(fv),
{
    match &f.0 {
        Some(d) => OwnedField::new(dupe_datum(d, Ghost(d.deep_view()))),
        None => OwnedField::empty(),
    }
}

/// Duplicates one enum-variant slot: a real payload and a discriminant
/// header are duplicated, a vacant position stays vacant.
fn dupe_var_slot<'a, S>(
    f: &VarRefField<DatumRef<'a>, S>,
    Ghost(fv): Ghost<VarSlotView<DatumView>>,
) -> (r: VarOwnedField<Datum, S>)
    requires
        fv == f.deep_view(),
    ensures
        r.deep_view() == f.deep_view(),
    decreases var_slot_weight(fv),
{
    match f {
        VarRefField::Ref(f) => match &f.0 {
            Some(d) => VarOwnedField::new(dupe_datum(d, Ghost(d.deep_view()))),
            None => VarOwnedField::Owned(OwnedField::empty()),
        },
        VarRefField::Header(f) => match &f.0 {
            Some(d) => VarOwnedField::header(dupe_datum(d, Ghost(d.deep_view()))),
            None => VarOwnedField::Header(OwnedField::empty()),
        },
        VarRefField::Empty(_) => VarOwnedField::empty(),
    }
}

/// Reduces a borrowed plain field sequence to its owned duplicate: the
/// merge step duplicates the head and prepends it to the reduced tail, and
/// the empty sequence seeds the fold.
fn dupe_fields<'a, S>(
    l: &List<RefField<DatumRef<'a>, S>>,
    Ghost(lv): Ghost<Seq<Option<DatumView>>>,
) -> (r: List<OwnedField<Datum, S>>)
    requires
        lv == l.deep_view(),
    ensures
        r.deep_view() == l.deep_view(),
    decreases slots_weight(lv),
{
    proof {
        lemma_list_unfold(*l);
    }
    match l {
        List::Nil => {
            let r = List::<OwnedField<Datum, S>>::nil();
            proof {
                lemma_list_unfold(r);
            }
            r
        }
        List::Cons(h, t) => {
            proof {
                assert(l.deep_view().skip(1) =~= t.deep_view());
            }
            let hd = dupe_slot(h, Ghost(h.deep_view()));
            let tl = dupe_fields(&**t, Ghost(t.deep_view()));
            let r = List::cons(hd, tl);
            proof {
                lemma_list_unfold(r);
            }
            r
        }
    }
}

/// As `dupe_fields`, for an enum's flattened sequence.
fn dupe_var_fields<'a, S>(
    l: &List<VarRefField<DatumRef<'a>, S>>,
    Ghost(lv): Ghost<Seq<VarSlotView<DatumView>>>,
) -> (r: List<VarOwnedField<Datum, S>>)
    requires
        lv == l.deep_view(),
    ensures
        r.deep_view() == l.deep_view(),
    decreases var_slots_weight(lv),
{
    proof {
        lemma_list_unfold(*l);
    }
    match l {
        List::Nil => {
            let r = List::<VarOwnedField<Datum, S>>::nil();
            proof {
                lemma_list_unfold(r);
            }
            r
        }
        List::Cons(h, t) => {
            proof {
                assert(l.deep_view().skip(1) =~= t.deep_view());
            }
            let hd = dupe_var_slot(h, Ghost(h.deep_view()));
            let tl = dupe_var_fields(&**t, Ghost(t.deep_view()));
            let r = List::cons(hd, tl);
            proof {
                lemma_list_unfold(r);
            }
            r
        }
    }
}

impl<'a> Duplicate for DatumRef<'a> {
    type Ret = Datum;

    fn dupe(&self) -> (r: Datum) {
        dupe_datum(self, Ghost(self.deep_view()))
    }
}

impl<'a, S> Duplicate for RefField<DatumRef<'a>, S> {
    type Ret = OwnedField<Datum, S>;

    fn dupe(&self) -> (r: OwnedField<Datum, S>) {
        dupe_slot(self, Ghost(self.deep_view()))
    }
}

impl<'a, S> Duplicate for VarRefField<DatumRef<'a>, S> {
    type Ret = VarOwnedField<Datum, S>;

    fn dupe(&self) -> (r: VarOwnedField<Datum, S>) {
        dupe_var_slot(self, Ghost(self.deep_view()))
    }
}

impl<'a, S> Duplicate for List<RefField<DatumRef<'a>, S>> {
    type Ret = List<OwnedField<Datum, S>>;

    fn dupe(&self) -> (r: List<OwnedField<Datum, S>>) {
        dupe_fields(self, Ghost(self.deep_view()))
    }
}

impl<'a, S> Duplicate for List<VarRefField<DatumRef<'a>, S>> {
    type Ret = List<VarOwnedField<Datum, S>>;

    fn dupe(&self) -> (r: List<VarOwnedField<Datum, S>>) {
        dupe_var_fields(self, Ghost(self.deep_view()))
    }
}

impl Duplicate for Kind {
    type Ret = Kind;

    fn dupe(&self) -> (r: Kind)
        decreases var_slots_weight(kind_fields(self.deep_view())) + 1,
    {
        let fields = self.fields();
        let owned = dupe_var_fields(&fields, Ghost(fields.deep_view()));
        proof {
            Kind::lemma_fields_inverse(self.deep_view());
        }
        Kind::from_fields(owned)
    }
}

impl Duplicate for Actor {
    type Ret = Actor;

    fn dupe(&self) -> (r: Actor)
        decreases slots_weight(actor_fields(self.deep_view())) + 1,
    {
        let fields = self.fields();
        let owned = dupe_fields(&fields, Ghost(fields.deep_view()));
        proof {
            Actor::lemma_fields_inverse(self.deep_view());
        }
        Actor::from_fields(owned)
    }
}

impl Duplicate for Director {
    type Ret = Director;

    fn dupe(&self) -> (r: Director)
        decreases slots_weight(director_fields(self.deep_view())) + 1,
    {
        let fields = self.fields();
        let owned = dupe_fields(&fields, Ghost(fields.deep_view()));
        proof {
            Director::lemma_fields_inverse(self.deep_view());
        }
        Director::from_fields(owned)
    }
}

impl Duplicate for Movie {
    type Ret = Movie;

    fn dupe(&self) -> (r: Movie)
        decreases slots_weight(movie_fields(self.deep_view())) + 1,
    {
        let fields = self.fields();
        let owned = dupe_fields(&fields, Ghost(fields.deep_view()));
        proof {
            Movie::lemma_fields_inverse(self.deep_view());
        }
        Movie::from_fields(owned)
    }
}

impl Duplicate for Version {
    type Ret = Version;

    fn dupe(&self) -> (r: Version)
        decreases var_slots_weight(version_fields(self.deep_view())) + 1,
    {
        let fields = self.fields();
        let owned = dupe_var_fields(&fields, Ghost(fields.deep_view()));
        proof {
            Version::lemma_fields_inverse(self.deep_view());
        }
        Version::from_fields(owned)
    }
}

impl Duplicate for Point {
    type Ret = Point;

    fn dupe(&self) -> (r: Point)
        decreases slots_weight(point_fields(self.deep_view())) + 1,
    {
        let fields = self.fields();
        let owned = dupe_fields(&fields, Ghost(fields.deep_view()));
        proof {
            Point::lemma_fields_inverse(self.deep_view());
        }
        Point::from_fields(owned)
    }
}

impl Duplicate for Shape {
    type Ret = Shape;

    fn dupe(&self) -> (r: Shape)
        decreases var_slots_weight(shape_fields(self.deep_view())) + 1,
    {
        let fields = self.fields();
        let owned = dupe_var_fields(&fields, Ghost(fields.deep_view()));
        proof {
            Shape::lemma_fields_inverse(self.deep_view());
        }
        Shape::from_fields(owned)
    }
}

} // verus!

verus! {

/// Structural duplication from an exclusively held value: the duplicate
/// carries exactly the abstract content the original held when the call
/// began. Sequence slots are consumed exactly once, by taking their
/// content out.
pub trait MutDupe: DeepView where Self::Ret: DeepView<V = <Self as DeepView>::V> {
    type Ret;

    fn dupe_mut(&mut self) -> (r: Self::Ret)
        ensures
            r.deep_view() == old(self).deep_view(),
    ;
}

impl MutDupe for u8 {
    type Ret = u8;

    fn dupe_mut(&mut self) -> (r: u8)
        ensures
            *final(self) == *old(self),
    {
        *self
    }
}

impl MutDupe for u64 {
    type Ret = u64;

    fn dupe_mut(&mut self) -> (r: u64)
        ensures
            *final(self) == *old(self),
    {
        *self
    }
}

impl MutDupe for u128 {
    type Ret = u128;

    fn dupe_mut(&mut self) -> (r: u128)
        ensures
            *final(self) == *old(self),
    {
        *self
    }
}

impl MutDupe for String {
    type Ret = String;

    fn dupe_mut(&mut self) -> (r: String)
        ensures
            *final(self) == *old(self),
    {
        self.clone()
    }
}

impl MutDupe for VariantHeader {
    type Ret = VariantHeader;

    fn dupe_mut(&mut self) -> (r: VariantHeader) {
        VariantHeader
    }
}

/// Duplicates one exclusively held slot content, leaving the content's
/// abstract value unchanged behind.
fn dupe_mut_datum(d: &mut Datum, Ghost(dv): Ghost<DatumView>) -> (r: Datum)
    requires
        dv == old(d).deep_view(),
    ensures
        r.deep_view() == old(d).deep_view(),
        *final(d) == *old(d),
    decreases weight(dv),
{
    match d {
        Datum::Byte(b) => Datum::Byte(b.dupe_mut()),
        Datum::Word(w) => Datum::Word(w.dupe_mut()),
        Datum::Wide(w) => Datum::Wide(w.dupe_mut()),
        Datum::Text(s) => Datum::Text(s.dupe_mut()),
        Datum::Head(_) => Datum::Head(VariantHeader),
        Datum::Kind(k) => {
            proof {
                lemma_kind_weight(k.deep_view());
            }
            Datum::Kind(k.dupe_mut())
        }
        Datum::Actor(a) => {
            proof {
                lemma_actor_weight(a.deep_view());
            }
            Datum::Actor(a.dupe_mut())
        }
        Datum::Director(dr) => {
            proof {
                lemma_director_weight(dr.deep_view());
            }
            Datum::Director(dr.dupe_mut())
        }
        Datum::Movie(m) => {
            proof {
                lemma_movie_weight(m.deep_view());
            }
            Datum::Movie(m.dupe_mut())
        }
        Datum::Version(v) => {
            proof {
                lemma_version_weight(v.deep_view());
            }
            Datum::Version(v.dupe_mut())
        }
        Datum::Point(p) => {
            proof {
                lemma_point_weight(p.deep_view());
            }
            Datum::Point(p.dupe_mut())
        }
        Datum::Shape(s) => {
            proof {
                lemma_shape_weight(s.deep_view());
            }
            Datum::Shape(s.dupe_mut())
        }
    }
}

/// Reduces an exclusively held plain field sequence to its owned
/// duplicate; each slot's content is taken out exactly once, so the slots
/// left behind hold nothing.
fn dupe_mut_fields<S>(
    l: &mut List<MutField<Datum, S>>,
    Ghost(lv): Ghost<Seq<Option<DatumView>>>,
) -> (r: List<OwnedField<Datum, S>>)
    requires
        lv == old(l).deep_view(),
    ensures
        r.deep_view() == old(l).deep_view(),
    decreases slots_weight(lv),
{
    proof {
        lemma_list_unfold(*l);
    }
    match l {
        List::Nil => {
            let r = List::<OwnedField<Datum, S>>::nil();
            proof {
                lemma_list_unfold(r);
            }
            r
        }
        List::Cons(h, t) => {
            proof {
                assert(lv.skip(1) =~= t.deep_view());
            }
            let taken = h.take();
            let hd = match taken.0 {
                Some(mut d) => {
                    let ghost dv = d.deep_view();
                    OwnedField::new(dupe_mut_datum(&mut d, Ghost(dv)))
                }
                None => OwnedField::empty(),
            };
            let tl = dupe_mut_fields(&mut **t, Ghost(lv.skip(1)));
            let r = List::cons(hd, tl);
            proof {
                lemma_list_unfold(r);
            }
            r
        }
    }
}

/// As `dupe_mut_fields`, for an enum's flattened sequence.
fn dupe_mut_var_fields<S>(
    l: &mut List<VarMutField<Datum, S>>,
    Ghost(lv): Ghost<Seq<VarSlotView<DatumView>>>,
) -> (r: List<VarOwnedField<Datum, S>>)
    requires
        lv == old(l).deep_view(),
    ensures
        r.deep_view() == old(l).deep_view(),
    decreases var_slots_weight(lv),
{
    proof {
        lemma_list_unfold(*l);
    }
    match l {
        List::Nil => {
            let r = List::<VarOwnedField<Datum, S>>::nil();
            proof {
                lemma_list_unfold(r);
            }
            r
        }
        List::Cons(h, t) => {
            proof {
                assert(lv.skip(1) =~= t.deep_view());
            }
            let taken = h.take();
            let hd = match taken {
                VarMutField::Mut(f) => match f.0 {
                    Some(mut d) => {
                        let ghost dv = d.deep_view();
                        VarOwnedField::new(dupe_mut_datum(&mut d, Ghost(dv)))
                    }
                    None => VarOwnedField::Owned(OwnedField::empty()),
                },
                VarMutField::Header(f) => match f.0 {
                    Some(mut d) => {
                        let ghost dv = d.deep_view();
                        VarOwnedField::header(dupe_mut_datum(&mut d, Ghost(dv)))
                    }
                    None => VarOwnedField::Header(OwnedField::empty()),
                },
                VarMutField::Empty(_) => VarOwnedField::empty(),
            };
            let tl = dupe_mut_var_fields(&mut **t, Ghost(lv.skip(1)));
            let r = List::cons(hd, tl);
            proof {
                lemma_list_unfold(r);
            }
            r
        }
    }
}

impl MutDupe for Datum {
    type Ret = Datum;

    fn dupe_mut(&mut self) -> (r: Datum)
        ensures
            *final(self) == *old(self),
    {
        dupe_mut_datum(self, Ghost(self.deep_view()))
    }
}

impl<S> MutDupe for MutField<Datum, S> {
    type Ret = OwnedField<Datum, S>;

    fn dupe_mut(&mut self) -> (r: OwnedField<Datum, S>)
        ensures
            final(self).0 is None,
    {
        let taken = self.take();
        match taken.0 {
            Some(mut d) => {
                let ghost dv = d.deep_view();
                OwnedField::new(dupe_mut_datum(&mut d, Ghost(dv)))
            }
            None => OwnedField::empty(),
        }
    }
}

impl<S> MutDupe for List<MutField<Datum, S>> {
    type Ret = List<OwnedField<Datum, S>>;

    fn dupe_mut(&mut self) -> (r: List<OwnedField<Datum, S>>) {
        dupe_mut_fields(self, Ghost(self.deep_view()))
    }
}

impl<S> MutDupe for List<VarMutField<Datum, S>> {
    type Ret = List<VarOwnedField<Datum, S>>;

    fn dupe_mut(&mut self) -> (r: List<VarOwnedField<Datum, S>>) {
        dupe_mut_var_fields(self, Ghost(self.deep_view()))
    }
}

impl MutDupe for Kind {
    type Ret = Kind;

    fn dupe_mut(&mut self) -> (r: Kind)
        ensures
            *final(self) == *old(self),
        decreases var_slots_weight(kind_fields(self.deep_view())) + 1,
    {
        let mut fields = self.fields_mut();
        let ghost fv = fields.deep_view();
        let owned = dupe_mut_var_fields(&mut fields, Ghost(fv));
        proof {
            Kind::lemma_fields_inverse(old(self).deep_view());
        }
        Kind::from_fields(owned)
    }
}

impl MutDupe for Actor {
    type Ret = Actor;

    fn dupe_mut(&mut self) -> (r: Actor)
        ensures
            *final(self) == *old(self),
        decreases slots_weight(actor_fields(self.deep_view())) + 1,
    {
        let mut fields = self.fields_mut();
        let ghost fv = fields.deep_view();
        let owned = dupe_mut_fields(&mut fields, Ghost(fv));
        proof {
            Actor::lemma_fields_inverse(old(self).deep_view());
        }
        Actor::from_fields(owned)
    }
}

impl MutDupe for Director {
    type Ret = Director;

    fn dupe_mut(&mut self) -> (r: Director)
        ensures
            *final(self) == *old(self),
        decreases slots_weight(director_fields(self.deep_view())) + 1,
    {
        let mut fields = self.fields_mut();
        let ghost fv = fields.deep_view();
        let owned = dupe_mut_fields(&mut fields, Ghost(fv));
        proof {
            Director::lemma_fields_inverse(old(self).deep_view());
        }
        Director::from_fields(owned)
    }
}

impl MutDupe for Movie {
    type Ret = Movie;

    fn dupe_mut(&mut self) -> (r: Movie)
        ensures
            *final(self) == *old(self),
        decreases slots_weight(movie_fields(self.deep_view())) + 1,
    {
        let mut fields = self.fields_mut();
        let ghost fv = fields.deep_view();
        let owned = dupe_mut_fields(&mut fields, Ghost(fv));
        proof {
            Movie::lemma_fields_inverse(old(self).deep_view());
        }
        Movie::from_fields(owned)
    }
}

impl MutDupe for Version {
    type Ret = Version;

    fn dupe_mut(&mut self) -> (r: Version)
        ensures
            *final(self) == *old(self),
        decreases var_slots_weight(version_fields(self.deep_view())) + 1,
    {
        let mut fields = self.fields_mut();
        let ghost fv = fields.deep_view();
        let owned = dupe_mut_var_fields(&mut fields, Ghost(fv));
        proof {
            Version::lemma_fields_inverse(old(self).deep_view());
        }
        Version::from_fields(owned)
    }
}

impl MutDupe for Point {
    type Ret = Point;

    fn dupe_mut(&mut self) -> (r: Point)
        ensures
            *final(self) == *old(self),
        decreases slots_weight(point_fields(self.deep_view())) + 1,
    {
        let mut fields = self.fields_mut();
        let ghost fv = fields.deep_view();
        let owned = dupe_mut_fields(&mut fields, Ghost(fv));
        proof {
            Point::lemma_fields_inverse(old(self).deep_view());
        }
        Point::from_fields(owned)
    }
}

impl MutDupe for Shape {
    type Ret = Shape;

    fn dupe_mut(&mut self) -> (r: Shape)
        ensures
            *final(self) == *old(self),
        decreases var_slots_weight(shape_fields(self.deep_view())) + 1,
    {
        let mut fields = self.fields_mut();
        let ghost fv = fields.deep_view();
        let owned = dupe_mut_var_fields(&mut fields, Ghost(fv));
        proof {
            Shape::lemma_fields_inverse(old(self).deep_view());
        }
        Shape::from_fields(owned)
    }
}

} // verus!

verus! {

/// Structural duplication that consumes its input: the duplicate carries
/// exactly the abstract content of the consumed value.
pub trait OwnDupe: DeepView + Sized where Self::Ret: DeepView<V = <Self as DeepView>::V> {
    type Ret;

    fn dupe_owned(self) -> (r: Self::Ret)
        ensures
            r.deep_view() == self.deep_view(),
    ;
}

impl OwnDupe for u8 {
    type Ret = u8;

    fn dupe_owned(self) -> (r: u8) {
        self
    }
}

impl OwnDupe for u64 {
    type Ret = u64;

    fn dupe_owned(self) -> (r: u64) {
        self
    }
}

impl OwnDupe for u128 {
    type Ret = u128;

    fn dupe_owned(self) -> (r: u128) {
        self
    }
}

impl OwnDupe for String {
    type Ret = String;

    fn dupe_owned(self) -> (r: String) {
        self.clone()
    }
}

impl OwnDupe for VariantHeader {
    type Ret = VariantHeader;

    fn dupe_owned(self) -> (r: VariantHeader) {
        VariantHeader
    }
}

/// Duplicates one owned slot content.
fn dupe_owned_datum(d: Datum, Ghost(dv): Ghost<DatumView>) -> (r: Datum)
    requires
        dv == d.deep_view(),
    ensures
        r.deep_view() == d.deep_view(),
    decreases weight(dv),
{
    match d {
        Datum::Byte(b) => Datum::Byte(b.dupe_owned()),
        Datum::Word(w) => Datum::Word(w.dupe_owned()),
        Datum::Wide(w) => Datum::Wide(w.dupe_owned()),
        Datum::Text(s) => Datum::Text(s.dupe_owned()),
        Datum::Head(h) => Datum::Head(h.dupe_owned()),
        Datum::Kind(k) => {
            proof {
                lemma_kind_weight(k.deep_view());
            }
            Datum::Kind(k.dupe_owned())
        }
        Datum::Actor(a) => {
            proof {
                lemma_actor_weight(a.deep_view());
            }
            Datum::Actor(a.dupe_owned())
        }
        Datum::Director(dr) => {
            proof {
                lemma_director_weight(dr.deep_view());
            }
            Datum::Director(dr.dupe_owned())
        }
        Datum::Movie(m) => {
            proof {
                lemma_movie_weight(m.deep_view());
            }
            Datum::Movie(m.dupe_owned())
        }
        Datum::Version(v) => {
            proof {
                lemma_version_weight(v.deep_view());
            }
            Datum::Version(v.dupe_owned())
        }
        Datum::Point(p) => {
            proof {
                lemma_point_weight(p.deep_view());
            }
            Datum::Point(p.dupe_owned())
        }
        Datum::Shape(s) => {
            proof {
                lemma_shape_weight(s.deep_view());
            }
            Datum::Shape(s.dupe_owned())
        }
    }
}

/// Reduces an owned plain field sequence to its duplicate.
fn dupe_owned_fields<S>(
    l: List<OwnedField<Datum, S>>,
    Ghost(lv): Ghost<Seq<Option<DatumView>>>,
) -> (r: List<OwnedField<Datum, S>>)
    requires
        lv == l.deep_view(),
    ensures
        r.deep_view() == l.deep_view(),
    decreases slots_weight(lv),
{
    proof {
        lemma_list_unfold(l);
    }
    match l {
        List::Nil => {
            let r = List::<OwnedField<Datum, S>>::nil();
            proof {
                lemma_list_unfold(r);
            }
            r
        }
        List::Cons(h, t) => {
            proof {
                assert(lv.skip(1) =~= t.deep_view());
            }
            let hd = match h.0 {
                Some(d) => {
                    let ghost dv = d.deep_view();
                    OwnedField::new(dupe_owned_datum(d, Ghost(dv)))
                }
                None => OwnedField::empty(),
            };
            let tl = dupe_owned_fields(*t, Ghost(lv.skip(1)));
            let r = List::cons(hd, tl);
            proof {
                lemma_list_unfold(r);
            }
            r
        }
    }
}

/// As `dupe_owned_fields`, for an enum's flattened sequence.
fn dupe_owned_var_fields<S>(
    l: List<VarOwnedField<Datum, S>>,
    Ghost(lv): Ghost<Seq<VarSlotView<DatumView>>>,
) -> (r: List<VarOwnedField<Datum, S>>)
    requires
        lv == l.deep_view(),
    ensures
        r.deep_view() == l.deep_view(),
    decreases var_slots_weight(lv),
{
    proof {
        lemma_list_unfold(l);
    }
    match l {
        List::Nil => {
            let r = List::<VarOwnedField<Datum, S>>::nil();
            proof {
                lemma_list_unfold(r);
            }
            r
        }
        List::Cons(h, t) => {
            proof {
                assert(lv.skip(1) =~= t.deep_view());
            }
            let hd = match h {
                VarOwnedField::Owned(f) => match f.0 {
                    Some(d) => {
                        let ghost dv = d.deep_view();
                        VarOwnedField::new(dupe_owned_datum(d, Ghost(dv)))
                    }
                    None => VarOwnedField::Owned(OwnedField::empty()),
                },
                VarOwnedField::Header(f) => match f.0 {
                    Some(d) => {
                        let ghost dv = d.deep_view();
                        VarOwnedField::header(dupe_owned_datum(d, Ghost(dv)))
                    }
                    None => VarOwnedField::Header(OwnedField::empty()),
                },
                VarOwnedField::Empty(_) => VarOwnedField::empty(),
            };
            let tl = dupe_owned_var_fields(*t, Ghost(lv.skip(1)));
            let r = List::cons(hd, tl);
            proof {
                lemma_list_unfold(r);
            }
            r
        }
    }
}

impl OwnDupe for Datum {
    type Ret = Datum;

    fn dupe_owned(self) -> (r: Datum) {
        let ghost dv = self.deep_view();
        dupe_owned_datum(self, Ghost(dv))
    }
}

impl<S> OwnDupe for OwnedField<Datum, S> {
    type Ret = OwnedField<Datum, S>;

    fn dupe_owned(self) -> (r: OwnedField<Datum, S>) {
        match self.0 {
            Some(d) => {
                let ghost dv = d.deep_view();
                OwnedField::new(dupe_owned_datum(d, Ghost(dv)))
            }
            None => OwnedField::empty(),
        }
    }
}

impl<S> OwnDupe for VarOwnedField<Datum, S> {
    type Ret = VarOwnedField<Datum, S>;

    fn dupe_owned(self) -> (r: VarOwnedField<Datum, S>) {
        match self {
            VarOwnedField::Owned(f) => match f.0 {
                Some(d) => {
                    let ghost dv = d.deep_view();
                    VarOwnedField::new(dupe_owned_datum(d, Ghost(dv)))
                }
                None => VarOwnedField::Owned(OwnedField::empty()),
            },
            VarOwnedField::Header(f) => match f.0 {
                Some(d) => {
                    let ghost dv = d.deep_view();
                    VarOwnedField::header(dupe_owned_datum(d, Ghost(dv)))
                }
                None => VarOwnedField::Header(OwnedField::empty()),
            },
            VarOwnedField::Empty(_) => VarOwnedField::empty(),
        }
    }
}

impl<S> OwnDupe for List<OwnedField<Datum, S>> {
    type Ret = List<OwnedField<Datum, S>>;

    fn dupe_owned(self) -> (r: List<OwnedField<Datum, S>>) {
        let ghost lv = self.deep_view();
        dupe_owned_fields(self, Ghost(lv))
    }
}

impl<S> OwnDupe for List<VarOwnedField<Datum, S>> {
    type Ret = List<VarOwnedField<Datum, S>>;

    fn dupe_owned(self) -> (r: List<VarOwnedField<Datum, S>>) {
        let ghost lv = self.deep_view();
        dupe_owned_var_fields(self, Ghost(lv))
    }
}

impl OwnDupe for Kind {
    type Ret = Kind;

    fn dupe_owned(self) -> (r: Kind)
        decreases var_slots_weight(kind_fields(self.deep_view())) + 1,
    {
        let ghost v = self.deep_view();
        let owned = self.into_fields();
        let ghost ov = owned.deep_view();
        let dup = dupe_owned_var_fields(owned, Ghost(ov));
        proof {
            Kind::lemma_fields_inverse(v);
        }
        Kind::from_fields(dup)
    }
}

impl OwnDupe for Actor {
    type Ret = Actor;

    fn dupe_owned(self) -> (r: Actor)
        decreases slots_weight(actor_fields(self.deep_view())) + 1,
    {
        let ghost v = self.deep_view();
        let owned = self.into_fields();
        let ghost ov = owned.deep_view();
        let dup = dupe_owned_fields(owned, Ghost(ov));
        proof {
            Actor::lemma_fields_inverse(v);
        }
        Actor::from_fields(dup)
    }
}

impl OwnDupe for Director {
    type Ret = Director;

    fn dupe_owned(self) -> (r: Director)
        decreases slots_weight(director_fields(self.deep_view())) + 1,
    {
        let ghost v = self.deep_view();
        let owned = self.into_fields();
        let ghost ov = owned.deep_view();
        let dup = dupe_owned_fields(owned, Ghost(ov));
        proof {
            Director::lemma_fields_inverse(v);
        }
        Director::from_fields(dup)
    }
}

impl OwnDupe for Movie {
    type Ret = Movie;

    fn dupe_owned(self) -> (r: Movie)
        decreases slots_weight(movie_fields(self.deep_view())) + 1,
    {
        let ghost v = self.deep_view();
        let owned = self.into_fields();
        let ghost ov = owned.deep_view();
        let dup = dupe_owned_fields(owned, Ghost(ov));
        proof {
            Movie::lemma_fields_inverse(v);
        }
        Movie::from_fields(dup)
    }
}

impl OwnDupe for Version {
    type Ret = Version;

    fn dupe_owned(self) -> (r: Version)
        decreases var_slots_weight(version_fields(self.deep_view())) + 1,
    {
        let ghost v = self.deep_view();
        let owned = self.into_fields();
        let ghost ov = owned.deep_view();
        let dup = dupe_owned_var_fields(owned, Ghost(ov));
        proof {
            Version::lemma_fields_inverse(v);
        }
        Version::from_fields(dup)
    }
}

impl OwnDupe for Point {
    type Ret = Point;

    fn dupe_owned(self) -> (r: Point)
        decreases slots_weight(point_fields(self.deep_view())) + 1,
    {
        let ghost v = self.deep_view();
        let owned = self.into_fields();
        let ghost ov = owned.deep_view();
        let dup = dupe_owned_fields(owned, Ghost(ov));
        proof {
            Point::lemma_fields_inverse(v);
        }
        Point::from_fields(dup)
    }
}

impl OwnDupe for Shape {
    type Ret = Shape;

    fn dupe_owned(self) -> (r: Shape)
        decreases var_slots_weight(shape_fields(self.deep_view())) + 1,
    {
        let ghost v = self.deep_view();
        let owned = self.into_fields();
        let ghost ov = owned.deep_view();
        let dup = dupe_owned_var_fields(owned, Ghost(ov));
        proof {
            Shape::lemma_fields_inverse(v);
        }
        Shape::from_fields(dup)
    }
}

} // verus!

verus! {

impl<T> crate::Split<DupeOwned> for List<T> {
    type Left = T;

    type Right = List<T>;

    open spec fn can_split(self) -> bool {
        self@.len() > 0
    }

    fn split(self) -> (r: (T, List<T>))
        ensures
            r.0 == self@[0],
            r.1@ == self@.skip(1),
    {
        List::split(self)
    }
}

impl<T: Copy> crate::SplitRef<DupeRef> for List<T> {
    type Left = T;

    type Right = List<T>;

    open spec fn can_split_ref(&self) -> bool {
        self@.len() > 0
    }

    fn split_ref(&self) -> (r: (T, &List<T>))
        ensures
            r.0 == self@[0],
            r.1@ == self@.skip(1),
    {
        match self {
            List::Cons(h, t) => {
                proof {
                    assert(self@.skip(1) =~= t@);
                }
                (*h, &**t)
            }
            List::Nil => unreached(),
        }
    }
}

} // verus!

