//! Structural equality: a comparator-style rules set. Each step receives
//! the two values' slots at the same position in lockstep, and the fold's
//! result says whether the two aggregates carry the same abstract content.

use vstd::prelude::*;

use crate::data::{
    actor_fields, director_fields, kind_fields, lemma_actor_weight, lemma_director_weight,
    lemma_kind_weight, lemma_movie_weight, lemma_point_weight, lemma_shape_weight,
    lemma_version_weight, movie_fields, point_fields, shape_fields, slot_weight, slots_weight,
    var_slot_weight, var_slots_weight, version_fields, weight, Actor, DatumRef, DatumView,
    Director, Kind, Movie, MovieView, Point, Shape, Version,
};
use crate::field::{RefField, VarRefField, VarSlotView, VariantHeader};
use crate::ty::{lemma_list_unfold, List};
use crate::{Inception, Property};

verus! {

/// The property marker of structural equality.
pub struct SameSame;

impl Property for SameSame {
}

/// Structural equality: two values are the same exactly when they carry
/// the same abstract content — same shape, same active variant, and the
/// same value in every field, nested aggregates included.
pub trait Same: DeepView {
    fn same(&self, other: &Self) -> (r: bool)
        ensures
            r == (self.deep_view() == other.deep_view()),
    ;
}

impl Same for u8 {
    fn same(&self, other: &Self) -> (r: bool) {
        self == other
    }
}

impl Same for u64 {
    fn same(&self, other: &Self) -> (r: bool) {
        self == other
    }
}

impl Same for u128 {
    fn same(&self, other: &Self) -> (r: bool) {
        self == other
    }
}

impl Same for String {
    fn same(&self, other: &Self) -> (r: bool) {
        *self == *other
    }
}

impl Same for VariantHeader {
    fn same(&self, _other: &Self) -> (r: bool) {
        true
    }
}

/// Compares two slot contents at the same position.
fn same_datum<'a>(l: &DatumRef<'a>, r: &DatumRef<'a>, Ghost(dv): Ghost<DatumView>) -> (res: bool)
    requires
        dv == l.deep_view(),
    ensures
        res == (l.deep_view() == r.deep_view()),
    decreases weight(dv),
{
    match (l, r) {
        (DatumRef::Byte(a), DatumRef::Byte(b)) => (*a).same(b),
        (DatumRef::Word(a), DatumRef::Word(b)) => (*a).same(b),
        (DatumRef::Wide(a), DatumRef::Wide(b)) => (*a).same(b),
        (DatumRef::Text(a), DatumRef::Text(b)) => (*a).same(b),
        (DatumRef::Head(a), DatumRef::Head(b)) => a.same(b),
        (DatumRef::Kind(a), DatumRef::Kind(b)) => {
            proof {
                lemma_kind_weight(a.deep_view());
            }
            (*a).same(b)
        }
        (DatumRef::Actor(a), DatumRef::Actor(b)) => {
            proof {
                lemma_actor_weight(a.deep_view());
            }
            (*a).same(b)
        }
        (DatumRef::Director(a), DatumRef::Director(b)) => {
            proof {
                lemma_director_weight(a.deep_view());
            }
            (*a).same(b)
        }
        (DatumRef::Movie(a), DatumRef::Movie(b)) => {
            proof {
                lemma_movie_weight(a.deep_view());
            }
            (*a).same(b)
        }
        (DatumRef::Version(a), DatumRef::Version(b)) => {
            proof {
                lemma_version_weight(a.deep_view());
            }
            (*a).same(b)
        }
        (DatumRef::Point(a), DatumRef::Point(b)) => {
            proof {
                lemma_point_weight(a.deep_view());
            }
            (*a).same(b)
        }
        (DatumRef::Shape(a), DatumRef::Shape(b)) => {
            proof {
                lemma_shape_weight(a.deep_view());
            }
            (*a).same(b)
        }
        _ => false,
    }
}

/// Compares two plain slots at the same position.
fn same_slot<'a, S>(
    l: &RefField<DatumRef<'a>, S>,
    r: &RefField<DatumRef<'a>, S>,
    Ghost(fv): Ghost<Option<DatumView>>,
) -> (res: bool)
    requires
        fv == l.deep_view(),
    ensures
        res == (l.deep_view() == r.deep_view()),
    decreases slot_weight(fv),
{
    match (&l.0, &r.0) {
        (Some(a), Some(b)) => same_datum(a, b, Ghost(a.deep_view())),
        (None, None) => true,
        _ => false,
    }
}

/// Compares two enum-variant slots at the same position: matching headers
/// agree, matching vacancies agree, and payloads are compared in lockstep.
fn same_var_slot<'a, S>(
    l: &VarRefField<DatumRef<'a>, S>,
    r: &VarRefField<DatumRef<'a>, S>,
    Ghost(fv): Ghost<VarSlotView<DatumView>>,
) -> (res: bool)
    requires
        fv == l.deep_view(),
    ensures
        res == (l.deep_view() == r.deep_view()),
    decreases var_slot_weight(fv),
{
    match (l, r) {
        (VarRefField::Ref(a), VarRefField::Ref(b)) => match (&a.0, &b.0) {
            (Some(x), Some(y)) => same_datum(x, y, Ghost(x.deep_view())),
            (None, None) => true,
            _ => false,
        },
        (VarRefField::Header(a), VarRefField::Header(b)) => match (&a.0, &b.0) {
            (Some(x), Some(y)) => same_datum(x, y, Ghost(x.deep_view())),
            (None, None) => true,
            _ => false,
        },
        (VarRefField::Empty(_), VarRefField::Empty(_)) => true,
        _ => false,
    }
}

/// Reduces two borrowed plain field sequences in lockstep to whether they
/// agree at every position.
fn same_fields<'a, S>(
    l: &List<RefField<DatumRef<'a>, S>>,
    r: &List<RefField<DatumRef<'a>, S>>,
    Ghost(lv): Ghost<Seq<Option<DatumView>>>,
) -> (res: bool)
    requires
        lv == l.deep_view(),
    ensures
        res == (l.deep_view() == r.deep_view()),
    decreases slots_weight(lv),
{
    proof {
        lemma_list_unfold(*l);
        lemma_list_unfold(*r);
    }
    match (l, r) {
        (List::Nil, List::Nil) => true,
        (List::Cons(lh, lt), List::Cons(rh, rt)) => {
            proof {
                assert(lv.skip(1) =~= lt.deep_view());
                assert(l.deep_view().skip(1) =~= lt.deep_view());
                assert(r.deep_view().skip(1) =~= rt.deep_view());
            }
            let hd = same_slot(lh, rh, Ghost(lh.deep_view()));
            let tl = same_fields(&**lt, &**rt, Ghost(lt.deep_view()));
            proof {
                if lh.deep_view() == rh.deep_view() && lt.deep_view() == rt.deep_view() {
                    assert(l.deep_view() =~= r.deep_view());
                }
            }
            hd && tl
        }
        _ => false,
    }
}

/// As `same_fields`, for two enums' flattened sequences.
fn same_var_fields<'a, S>(
    l: &List<VarRefField<DatumRef<'a>, S>>,
    r: &List<VarRefField<DatumRef<'a>, S>>,
    Ghost(lv): Ghost<Seq<VarSlotView<DatumView>>>,
) -> (res: bool)
    requires
        lv == l.deep_view(),
    ensures
        res == (l.deep_view() == r.deep_view()),
    decreases var_slots_weight(lv),
{
    proof {
        lemma_list_unfold(*l);
        lemma_list_unfold(*r);
    }
    match (l, r) {
        (List::Nil, List::Nil) => true,
        (List::Cons(lh, lt), List::Cons(rh, rt)) => {
            proof {
                assert(lv.skip(1) =~= lt.deep_view());
                assert(l.deep_view().skip(1) =~= lt.deep_view());
                assert(r.deep_view().skip(1) =~= rt.deep_view());
            }
            let hd = same_var_slot(lh, rh, Ghost(lh.deep_view()));
            let tl = same_var_fields(&**lt, &**rt, Ghost(lt.deep_view()));
            proof {
                if lh.deep_view() == rh.deep_view() && lt.deep_view() == rt.deep_view() {
                    assert(l.deep_view() =~= r.deep_view());
                }
            }
            hd && tl
        }
        _ => false,
    }
}

impl Same for Kind {
    fn same(&self, other: &Self) -> (r: bool)
        decreases var_slots_weight(kind_fields(self.deep_view())) + 1,
    {
        let a = self.fields();
        let b = other.fields();
        let r = same_var_fields(&a, &b, Ghost(a.deep_view()));
        proof {
            Kind::lemma_fields_inverse(self.deep_view());
            Kind::lemma_fields_inverse(other.deep_view());
        }
        r
    }
}

impl Same for Actor {
    fn same(&self, other: &Self) -> (r: bool)
        decreases slots_weight(actor_fields(self.deep_view())) + 1,
    {
        let a = self.fields();
        let b = other.fields();
        let r = same_fields(&a, &b, Ghost(a.deep_view()));
        proof {
            Actor::lemma_fields_inverse(self.deep_view());
            Actor::lemma_fields_inverse(other.deep_view());
        }
        r
    }
}

impl Same for Director {
    fn same(&self, other: &Self) -> (r: bool)
        decreases slots_weight(director_fields(self.deep_view())) + 1,
    {
        let a = self.fields();
        let b = other.fields();
        let r = same_fields(&a, &b, Ghost(a.deep_view()));
        proof {
            Director::lemma_fields_inverse(self.deep_view());
            Director::lemma_fields_inverse(other.deep_view());
        }
        r
    }
}

impl Same for Movie {
    fn same(&self, other: &Self) -> (r: bool)
        decreases slots_weight(movie_fields(self.deep_view())) + 1,
    {
        let a = self.fields();
        let b = other.fields();
        let r = same_fields(&a, &b, Ghost(a.deep_view()));
        proof {
            Movie::lemma_fields_inverse(self.deep_view());
            Movie::lemma_fields_inverse(other.deep_view());
        }
        r
    }
}

impl Same for Version {
    fn same(&self, other: &Self) -> (r: bool)
        decreases var_slots_weight(version_fields(self.deep_view())) + 1,
    {
        let a = self.fields();
        let b = other.fields();
        let r = same_var_fields(&a, &b, Ghost(a.deep_view()));
        proof {
            Version::lemma_fields_inverse(self.deep_view());
            Version::lemma_fields_inverse(other.deep_view());
        }
        r
    }
}

impl Same for Point {
    fn same(&self, other: &Self) -> (r: bool)
        decreases slots_weight(point_fields(self.deep_view())) + 1,
    {
        let a = self.fields();
        let b = other.fields();
        let r = same_fields(&a, &b, Ghost(a.deep_view()));
        proof {
            Point::lemma_fields_inverse(self.deep_view());
            Point::lemma_fields_inverse(other.deep_view());
        }
        r
    }
}

impl Same for Shape {
    fn same(&self, other: &Self) -> (r: bool)
        decreases var_slots_weight(shape_fields(self.deep_view())) + 1,
    {
        let a = self.fields();
        let b = other.fields();
        let r = same_var_fields(&a, &b, Ghost(a.deep_view()));
        proof {
            Shape::lemma_fields_inverse(self.deep_view());
            Shape::lemma_fields_inverse(other.deep_view());
        }
        r
    }
}

/// Structural inequality, derived from the comparator.
pub trait Different: DeepView {
    fn different(&self, other: &Self) -> (r: bool)
        ensures
            r == (self.deep_view() != other.deep_view()),
    ;
}

impl<T: Same> Different for T {
    fn different(&self, other: &Self) -> (r: bool) {
        !self.same(other)
    }
}

/// Two instances agree under the comparator exactly when their fields
/// agree pairwise: identically built instances compare equal, and changing
/// any one field makes the pair compare unequal.
pub proof fn lemma_same_iff_fields_agree(a: MovieView, b: MovieView)
    ensures
        (a == b) <==> (a.title == b.title && a.year == b.year && a.lead == b.lead
            && a.also_important == b.also_important && a.director == b.director),
{
}

} // verus!
