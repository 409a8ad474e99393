//! Default construction: the engine's rules set for building an aggregate
//! out of nothing. Each leaf type opts in with a standard value; an
//! aggregate's standard value is assembled by reconstructing it from a
//! sequence of its fields' standard values.

use vstd::prelude::*;

use crate::data::{
    actor_fields, director_fields, kind_fields, movie_fields, point_fields, shape_fields,
    version_fields, Actor, ActorView, Datum, DatumView, Director, DirectorView, Kind, KindView,
    Movie, MovieView, Point, PointView, Shape, ShapeView, Version, VersionView,
};
use crate::field::{OwnedField, VarOwnedField, VariantHeader};
use crate::meta::VariantOffset;
use crate::ty::{List, Pad};
use crate::{Inception, Property};

verus! {

/// The property marker of default construction.
pub struct Def;

impl Property for Def {
}

/// Default construction: every implementor has one standard value, and
/// `standard` builds exactly it.
pub trait Standard: DeepView + Sized {
    /// The abstract content of the standard value.
    spec fn spec_standard() -> <Self as DeepView>::V;

    fn standard() -> (r: Self)
        ensures
            r.deep_view() == Self::spec_standard(),
    ;
}

impl Standard for u8 {
    open spec fn spec_standard() -> u8 {
        0
    }

    fn standard() -> (r: u8) {
        0
    }
}

impl Standard for u64 {
    open spec fn spec_standard() -> u64 {
        0
    }

    fn standard() -> (r: u64) {
        0
    }
}

impl Standard for u128 {
    open spec fn spec_standard() -> u128 {
        0
    }

    fn standard() -> (r: u128) {
        0
    }
}

impl Standard for String {
    open spec fn spec_standard() -> Seq<char> {
        Seq::empty()
    }

    fn standard() -> (r: String) {
        String::new()
    }
}

impl Standard for VariantHeader {
    open spec fn spec_standard() -> VariantHeader {
        VariantHeader
    }

    fn standard() -> (r: VariantHeader) {
        VariantHeader
    }
}

impl Standard for Kind {
    open spec fn spec_standard() -> KindView {
        KindView::BigName { salary: 0 }
    }

    fn standard() -> (r: Kind) {
        let block = List::cons(
            VarOwnedField::header(Datum::Head(VariantHeader)),
            List::cons(VarOwnedField::new(Datum::Word(u64::standard())), List::nil()),
        );
        let off = <Kind as VariantOffset>::offset(0);
        let fields = block.pad((off, 4));
        proof {
            assert(fields.deep_view() =~= kind_fields(Self::spec_standard()));
            Kind::lemma_fields_inverse(Self::spec_standard());
        }
        Kind::from_fields(fields)
    }
}

impl Standard for Actor {
    open spec fn spec_standard() -> ActorView {
        ActorView {
            name: Seq::empty(),
            kind: KindView::BigName { salary: 0 },
            net_worth: 0,
        }
    }

    fn standard() -> (r: Actor) {
        let fields = List::cons(
            OwnedField::new(Datum::Text(String::standard())),
            List::cons(
                OwnedField::new(Datum::Kind(Kind::standard())),
                List::cons(OwnedField::new(Datum::Wide(u128::standard())), List::nil()),
            ),
        );
        proof {
            assert(fields.deep_view() =~= actor_fields(Self::spec_standard()));
            Actor::lemma_fields_inverse(Self::spec_standard());
        }
        Actor::from_fields(fields)
    }
}

impl Standard for Director {
    open spec fn spec_standard() -> DirectorView {
        DirectorView { name: Seq::empty(), num_movies: 0, age: 0 }
    }

    fn standard() -> (r: Director) {
        let fields = List::cons(
            OwnedField::new(Datum::Text(String::standard())),
            List::cons(
                OwnedField::new(Datum::Byte(u8::standard())),
                List::cons(OwnedField::new(Datum::Byte(u8::standard())), List::nil()),
            ),
        );
        proof {
            assert(fields.deep_view() =~= director_fields(Self::spec_standard()));
            Director::lemma_fields_inverse(Self::spec_standard());
        }
        Director::from_fields(fields)
    }
}

impl Standard for Movie {
    open spec fn spec_standard() -> MovieView {
        MovieView {
            title: Seq::empty(),
            year: 0,
            lead: Actor::spec_standard(),
            also_important: Actor::spec_standard(),
            director: Director::spec_standard(),
        }
    }

    fn standard() -> (r: Movie) {
        let fields = List::cons(
            OwnedField::new(Datum::Text(String::standard())),
            List::cons(
                OwnedField::new(Datum::Word(u64::standard())),
                List::cons(
                    OwnedField::new(Datum::Actor(Actor::standard())),
                    List::cons(
                        OwnedField::new(Datum::Actor(Actor::standard())),
                        List::cons(
                            OwnedField::new(Datum::Director(Director::standard())),
                            List::nil(),
                        ),
                    ),
                ),
            ),
        );
        proof {
            assert(fields.deep_view() =~= movie_fields(Self::spec_standard()));
            Movie::lemma_fields_inverse(Self::spec_standard());
        }
        Movie::from_fields(fields)
    }
}

impl Standard for Version {
    open spec fn spec_standard() -> VersionView {
        VersionView::One(Movie::spec_standard())
    }

    fn standard() -> (r: Version) {
        let block = List::cons(
            VarOwnedField::header(Datum::Head(VariantHeader)),
            List::cons(VarOwnedField::new(Datum::Movie(Movie::standard())), List::nil()),
        );
        let off = <Version as VariantOffset>::offset(0);
        let fields = block.pad((off, 4));
        proof {
            assert(fields.deep_view() =~= version_fields(Self::spec_standard()));
            Version::lemma_fields_inverse(Self::spec_standard());
        }
        Version::from_fields(fields)
    }
}

impl Standard for Point {
    open spec fn spec_standard() -> PointView {
        PointView { x: 0, y: 0 }
    }

    fn standard() -> (r: Point) {
        let fields = List::cons(
            OwnedField::new(Datum::Byte(u8::standard())),
            List::cons(OwnedField::new(Datum::Byte(u8::standard())), List::nil()),
        );
        proof {
            assert(fields.deep_view() =~= point_fields(Self::spec_standard()));
            Point::lemma_fields_inverse(Self::spec_standard());
        }
        Point::from_fields(fields)
    }
}

impl Standard for Shape {
    open spec fn spec_standard() -> ShapeView {
        ShapeView::Circle(0)
    }

    fn standard() -> (r: Shape) {
        let block = List::cons(
            VarOwnedField::header(Datum::Head(VariantHeader)),
            List::cons(VarOwnedField::new(Datum::Byte(u8::standard())), List::nil()),
        );
        let off = <Shape as VariantOffset>::offset(0);
        let fields = block.pad((off, 5));
        proof {
            assert(fields.deep_view() =~= shape_fields(Self::spec_standard()));
            Shape::lemma_fields_inverse(Self::spec_standard());
        }
        Shape::from_fields(fields)
    }
}

} // verus!
