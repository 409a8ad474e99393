//! Example aggregates and their engine glue.
//!
//! The aggregates here exercise the whole engine: nested structs, enums
//! with differently shaped variants, and an enum whose variants carry a
//! whole aggregate. `Datum` is the uniform content type of their field
//! sequences: every field of every aggregate fits in one of its variants,
//! so one sequence type serves all aggregates.

use vstd::prelude::*;

use crate::field::{
    MutField, OwnedField, Phantom, RefField, TyField, VarMutField, VarOwnedField, VarRefField,
    VarSlotView, VarTyField, VariantHeader,
};
use crate::meta::{
    DataType, EnumMeta, EnumTy, Meta, Metadata, MetadataView, NamedFieldsMeta, StructMeta,
    StructTy, VariantMeta, VariantOffset,
};
use crate::ty::{lemma_list_unfold, List, Pad, SplitOff};
use crate::{Inception, True};

verus! {

/// An actor: a struct of three named fields, one of them an enum.
pub struct Actor {
    pub name: String,
    pub kind: Kind,
    pub net_worth: u128,
}

/// The kind of an actor's engagement: an enum whose variants carry
/// differently sized payloads.
#[derive(Clone, Copy)]
pub enum Kind {
    BigName { salary: u64 },
    Aspiring { salary: u8 },
}

/// A movie: a struct whose fields include nested aggregates.
pub struct Movie {
    pub title: String,
    pub year: u64,
    pub lead: Actor,
    pub also_important: Actor,
    pub director: Director,
}

/// A director: a struct of leaf fields.
pub struct Director {
    pub name: String,
    pub num_movies: u8,
    pub age: u8,
}

/// A cut of a movie: an enum whose variants carry a whole aggregate.
pub enum Version {
    One(Movie),
    Two(Movie),
}

/// A point: the smallest struct aggregate, two byte fields.
#[derive(Clone, Copy, PartialEq, Eq, Structural, Debug)]
pub struct Point {
    pub x: u8,
    pub y: u8,
}

/// A shape: an enum with one- and two-field tuple variants.
#[derive(Clone, Copy, PartialEq, Eq, Structural, Debug)]
pub enum Shape {
    Circle(u8),
    Square(u8, u8),
}

/// The abstract value of a `Kind`.
pub ghost enum KindView {
    BigName { salary: u64 },
    Aspiring { salary: u8 },
}

/// The abstract value of an `Actor`.
pub ghost struct ActorView {
    pub name: Seq<char>,
    pub kind: KindView,
    pub net_worth: u128,
}

/// The abstract value of a `Director`.
pub ghost struct DirectorView {
    pub name: Seq<char>,
    pub num_movies: u8,
    pub age: u8,
}

/// The abstract value of a `Movie`.
pub ghost struct MovieView {
    pub title: Seq<char>,
    pub year: u64,
    pub lead: ActorView,
    pub also_important: ActorView,
    pub director: DirectorView,
}

/// The abstract value of a `Version`.
pub ghost enum VersionView {
    One(MovieView),
    Two(MovieView),
}

/// The abstract value of a `Point`.
pub ghost struct PointView {
    pub x: u8,
    pub y: u8,
}

/// The abstract value of a `Shape`.
pub ghost enum ShapeView {
    Circle(u8),
    Square(u8, u8),
}

/// The abstract value of one field slot's content.
pub ghost enum DatumView {
    Byte(u8),
    Word(u64),
    Wide(u128),
    Text(Seq<char>),
    Head,
    Kind(KindView),
    Actor(ActorView),
    Director(DirectorView),
    Movie(MovieView),
    Version(VersionView),
    Point(PointView),
    Shape(ShapeView),
}

/// The owned content of one field slot: every field type of the example
/// aggregates fits in one of these variants, so field sequences are
/// uniform.
pub enum Datum {
    Byte(u8),
    Word(u64),
    Wide(u128),
    Text(String),
    Head(VariantHeader),
    Kind(Kind),
    Actor(Actor),
    Director(Director),
    Movie(Movie),
    Version(Version),
    Point(Point),
    Shape(Shape),
}

/// The borrowed content of one field slot: the borrowed materialization of
/// `Datum`, holding references into the decomposed aggregate.
pub enum DatumRef<'a> {
    Byte(&'a u8),
    Word(&'a u64),
    Wide(&'a u128),
    Text(&'a String),
    Head(VariantHeader),
    Kind(&'a Kind),
    Actor(&'a Actor),
    Director(&'a Director),
    Movie(&'a Movie),
    Version(&'a Version),
    Point(&'a Point),
    Shape(&'a Shape),
}

impl DeepView for Kind {
    type V = KindView;

    open spec fn deep_view(&self) -> KindView {
        match self {
            Kind::BigName { salary } => KindView::BigName { salary: *salary },
            Kind::Aspiring { salary } => KindView::Aspiring { salary: *salary },
        }
    }
}

impl DeepView for Actor {
    type V = ActorView;

    open spec fn deep_view(&self) -> ActorView {
        ActorView {
            name: self.name.deep_view(),
            kind: self.kind.deep_view(),
            net_worth: self.net_worth,
        }
    }
}

impl DeepView for Director {
    type V = DirectorView;

    open spec fn deep_view(&self) -> DirectorView {
        DirectorView { name: self.name.deep_view(), num_movies: self.num_movies, age: self.age }
    }
}

impl DeepView for Movie {
    type V = MovieView;

    open spec fn deep_view(&self) -> MovieView {
        MovieView {
            title: self.title.deep_view(),
            year: self.year,
            lead: self.lead.deep_view(),
            also_important: self.also_important.deep_view(),
            director: self.director.deep_view(),
        }
    }
}

impl DeepView for Version {
    type V = VersionView;

    open spec fn deep_view(&self) -> VersionView {
        match self {
            Version::One(m) => VersionView::One(m.deep_view()),
            Version::Two(m) => VersionView::Two(m.deep_view()),
        }
    }
}

impl DeepView for Point {
    type V = PointView;

    open spec fn deep_view(&self) -> PointView {
        PointView { x: self.x, y: self.y }
    }
}

impl DeepView for Shape {
    type V = ShapeView;

    open spec fn deep_view(&self) -> ShapeView {
        match self {
            Shape::Circle(r) => ShapeView::Circle(*r),
            Shape::Square(w, h) => ShapeView::Square(*w, *h),
        }
    }
}

impl DeepView for Datum {
    type V = DatumView;

    open spec fn deep_view(&self) -> DatumView {
        match self {
            Datum::Byte(b) => DatumView::Byte(*b),
            Datum::Word(w) => DatumView::Word(*w),
            Datum::Wide(w) => DatumView::Wide(*w),
            Datum::Text(s) => DatumView::Text(s.deep_view()),
            Datum::Head(_) => DatumView::Head,
            Datum::Kind(k) => DatumView::Kind(k.deep_view()),
            Datum::Actor(a) => DatumView::Actor(a.deep_view()),
            Datum::Director(d) => DatumView::Director(d.deep_view()),
            Datum::Movie(m) => DatumView::Movie(m.deep_view()),
            Datum::Version(v) => DatumView::Version(v.deep_view()),
            Datum::Point(p) => DatumView::Point(p.deep_view()),
            Datum::Shape(s) => DatumView::Shape(s.deep_view()),
        }
    }
}

impl<'a> DeepView for DatumRef<'a> {
    type V = DatumView;

    open spec fn deep_view(&self) -> DatumView {
        match self {
            DatumRef::Byte(b) => DatumView::Byte(**b),
            DatumRef::Word(w) => DatumView::Word(**w),
            DatumRef::Wide(w) => DatumView::Wide(**w),
            DatumRef::Text(s) => DatumView::Text(s.deep_view()),
            DatumRef::Head(_) => DatumView::Head,
            DatumRef::Kind(k) => DatumView::Kind(k.deep_view()),
            DatumRef::Actor(a) => DatumView::Actor(a.deep_view()),
            DatumRef::Director(d) => DatumView::Director(d.deep_view()),
            DatumRef::Movie(m) => DatumView::Movie(m.deep_view()),
            DatumRef::Version(v) => DatumView::Version(v.deep_view()),
            DatumRef::Point(p) => DatumView::Point(p.deep_view()),
            DatumRef::Shape(s) => DatumView::Shape(s.deep_view()),
        }
    }
}

impl Clone for Actor {
    fn clone(&self) -> (r: Self)
        ensures
            r == *self,
    {
        Actor { name: self.name.clone(), kind: self.kind, net_worth: self.net_worth }
    }
}

impl Clone for Director {
    fn clone(&self) -> (r: Self)
        ensures
            r == *self,
    {
        Director { name: self.name.clone(), num_movies: self.num_movies, age: self.age }
    }
}

impl Clone for Movie {
    fn clone(&self) -> (r: Self)
        ensures
            r == *self,
    {
        Movie {
            title: self.title.clone(),
            year: self.year,
            lead: self.lead.clone(),
            also_important: self.also_important.clone(),
            director: self.director.clone(),
        }
    }
}

impl Clone for Version {
    fn clone(&self) -> (r: Self)
        ensures
            r == *self,
    {
        match self {
            Version::One(m) => Version::One(m.clone()),
            Version::Two(m) => Version::Two(m.clone()),
        }
    }
}

/// A termination measure on slot contents. Every aggregate's measure
/// strictly exceeds the measure of its decomposed field sequence, so the
/// engine's structural recursion is well founded.
pub open spec fn weight(d: DatumView) -> nat {
    match d {
        DatumView::Byte(_) => 1,
        DatumView::Word(_) => 1,
        DatumView::Wide(_) => 1,
        DatumView::Text(_) => 1,
        DatumView::Head => 1,
        DatumView::Kind(_) => 50,
        DatumView::Point(_) => 50,
        DatumView::Shape(_) => 50,
        DatumView::Director(_) => 50,
        DatumView::Actor(_) => 300,
        DatumView::Movie(_) => 2000,
        DatumView::Version(_) => 10000,
    }
}

/// The measure of one plain slot.
pub open spec fn slot_weight(o: Option<DatumView>) -> nat {
    match o {
        Some(d) => 1 + weight(d),
        None => 1,
    }
}

/// The measure of a plain field sequence.
pub open spec fn slots_weight(s: Seq<Option<DatumView>>) -> nat
    decreases s.len(),
{
    if s.len() == 0 {
        0
    } else {
        1 + slot_weight(s[0]) + slots_weight(s.skip(1))
    }
}

/// The measure of one enum-variant slot.
pub open spec fn var_slot_weight(s: VarSlotView<DatumView>) -> nat {
    match s {
        VarSlotView::Payload(o) => 1 + slot_weight(o),
        VarSlotView::Header(o) => 1 + slot_weight(o),
        VarSlotView::Vacant => 1,
    }
}

/// The measure of an enum's flattened field sequence.
pub open spec fn var_slots_weight(s: Seq<VarSlotView<DatumView>>) -> nat
    decreases s.len(),
{
    if s.len() == 0 {
        0
    } else {
        1 + var_slot_weight(s[0]) + var_slots_weight(s.skip(1))
    }
}

/// The decomposition of an actor's abstract value.
pub open spec fn actor_fields(v: ActorView) -> Seq<Option<DatumView>> {
    seq![
        Some(DatumView::Text(v.name)),
        Some(DatumView::Kind(v.kind)),
        Some(DatumView::Wide(v.net_worth)),
    ]
}

/// Whether a sequence decomposes some actor.
pub open spec fn actor_wf(f: Seq<Option<DatumView>>) -> bool {
    &&& f.len() == 3
    &&& f[0] is Some && f[0]->0 is Text
    &&& f[1] is Some && f[1]->0 is Kind
    &&& f[2] is Some && f[2]->0 is Wide
}

/// The actor that a well-formed sequence reconstructs to.
pub open spec fn actor_value(f: Seq<Option<DatumView>>) -> ActorView {
    ActorView { name: f[0]->0->Text_0, kind: f[1]->0->Kind_0, net_worth: f[2]->0->Wide_0 }
}

/// An actor's decomposition weighs less than the actor itself.
pub proof fn lemma_actor_weight(v: ActorView)
    ensures
        slots_weight(actor_fields(v)) + 1 < weight(DatumView::Actor(v)),
{
    let f = actor_fields(v);
    reveal_with_fuel(slots_weight, 5);
    assert(f.skip(1) =~= seq![Some(DatumView::Kind(v.kind)), Some(DatumView::Wide(v.net_worth))]);
    assert(f.skip(1).skip(1) =~= seq![Some(DatumView::Wide(v.net_worth))]);
    assert(f.skip(1).skip(1).skip(1) =~= Seq::<Option<DatumView>>::empty());
}

impl Inception for Actor {
    type TyFields = List<TyField<Datum, Actor>>;

    type RefFields<'a> = List<RefField<DatumRef<'a>, Actor>>;

    type MutFields = List<MutField<Datum, Actor>>;

    type OwnedFields = List<OwnedField<Datum, Actor>>;

    open spec fn spec_fields(v: ActorView) -> Seq<Option<DatumView>> {
        actor_fields(v)
    }

    open spec fn wf_fields(f: Seq<Option<DatumView>>) -> bool {
        actor_wf(f)
    }

    open spec fn spec_value(f: Seq<Option<DatumView>>) -> ActorView {
        actor_value(f)
    }

    fn fields<'a>(&'a self) -> (r: Self::RefFields<'a>) {
        let r = List::cons(
            RefField::new(DatumRef::Text(&self.name)),
            List::cons(
                RefField::new(DatumRef::Kind(&self.kind)),
                List::cons(RefField::new(DatumRef::Wide(&self.net_worth)), List::nil()),
            ),
        );
        proof {
            assert(r.deep_view() =~= actor_fields(self.deep_view()));
        }
        r
    }

    fn fields_mut(&mut self) -> (r: Self::MutFields) {
        let r = List::cons(
            MutField::new(Datum::Text(self.name.clone())),
            List::cons(
                MutField::new(Datum::Kind(self.kind)),
                List::cons(MutField::new(Datum::Wide(self.net_worth)), List::nil()),
            ),
        );
        proof {
            assert(r.deep_view() =~= actor_fields(old(self).deep_view()));
        }
        r
    }

    fn into_fields(self) -> (r: Self::OwnedFields) {
        let Actor { name, kind, net_worth } = self;
        let r = List::cons(
            OwnedField::new(Datum::Text(name)),
            List::cons(
                OwnedField::new(Datum::Kind(kind)),
                List::cons(OwnedField::new(Datum::Wide(net_worth)), List::nil()),
            ),
        );
        proof {
            assert(r.deep_view() =~= actor_fields(self.deep_view()));
        }
        r
    }

    fn from_fields(fields: Self::OwnedFields) -> (r: Self) {
        proof {
            lemma_list_unfold(fields);
        }
        let (f0, rest) = fields.split();
        proof {
            lemma_list_unfold(rest);
        }
        let (f1, rest) = rest.split();
        proof {
            lemma_list_unfold(rest);
        }
        let (f2, _) = rest.split();
        let name = match f0.0 {
            Some(Datum::Text(s)) => s,
            _ => unreached(),
        };
        let kind = match f1.0 {
            Some(Datum::Kind(k)) => k,
            _ => unreached(),
        };
        let net_worth = match f2.0 {
            Some(Datum::Wide(w)) => w,
            _ => unreached(),
        };
        Actor { name, kind, net_worth }
    }

    proof fn lemma_fields_inverse(v: ActorView) {
    }
}

/// The decomposition of a kind's abstract value: each variant's block —
/// its discriminant header followed by its fields — stands at the
/// variant's global offset inside a row of four slots, and every other
/// position is vacant.
pub open spec fn kind_fields(v: KindView) -> Seq<VarSlotView<DatumView>> {
    match v {
        KindView::BigName { salary } => seq![
            VarSlotView::Header(Some(DatumView::Head)),
            VarSlotView::Payload(Some(DatumView::Word(salary))),
            VarSlotView::Vacant,
            VarSlotView::Vacant,
        ],
        KindView::Aspiring { salary } => seq![
            VarSlotView::Vacant,
            VarSlotView::Vacant,
            VarSlotView::Header(Some(DatumView::Head)),
            VarSlotView::Payload(Some(DatumView::Byte(salary))),
        ],
    }
}

/// Whether a sequence is the flattened block layout of an active
/// first variant of a kind.
pub open spec fn kind_wf_big_name(f: Seq<VarSlotView<DatumView>>) -> bool {
    &&& f[0] is Header && f[0]->Header_0 == Some(DatumView::Head)
    &&& f[1] is Payload && f[1]->Payload_0 is Some && f[1]->Payload_0->0 is Word
    &&& f[2] is Vacant
    &&& f[3] is Vacant
}

/// Whether a sequence is the flattened block layout of an active
/// second variant of a kind.
pub open spec fn kind_wf_aspiring(f: Seq<VarSlotView<DatumView>>) -> bool {
    &&& f[0] is Vacant
    &&& f[1] is Vacant
    &&& f[2] is Header && f[2]->Header_0 == Some(DatumView::Head)
    &&& f[3] is Payload && f[3]->Payload_0 is Some && f[3]->Payload_0->0 is Byte
}

/// Whether a sequence decomposes some kind.
pub open spec fn kind_wf(f: Seq<VarSlotView<DatumView>>) -> bool {
    &&& f.len() == 4
    &&& (kind_wf_big_name(f) || kind_wf_aspiring(f))
}

/// The kind that a well-formed sequence reconstructs to: the first variant
/// whose header slot is present is the active one.
pub open spec fn kind_value(f: Seq<VarSlotView<DatumView>>) -> KindView {
    if f[0] is Header {
        KindView::BigName { salary: f[1]->Payload_0->0->Word_0 }
    } else {
        KindView::Aspiring { salary: f[3]->Payload_0->0->Byte_0 }
    }
}

/// A kind's decomposition weighs less than the kind itself.
pub proof fn lemma_kind_weight(v: KindView)
    ensures
        var_slots_weight(kind_fields(v)) + 1 < weight(DatumView::Kind(v)),
{
    let f = kind_fields(v);
    reveal_with_fuel(var_slots_weight, 6);
    assert(f.skip(1).skip(1) =~= f.skip(2));
    assert(f.skip(2).skip(1) =~= f.skip(3));
    assert(f.skip(3).skip(1) =~= f.skip(4));
    assert(f.skip(4) =~= Seq::<VarSlotView<DatumView>>::empty());
}

impl Inception for Kind {
    type TyFields = List<VarTyField<Datum, Kind>>;

    type RefFields<'a> = List<VarRefField<DatumRef<'a>, Kind>>;

    type MutFields = List<VarMutField<Datum, Kind>>;

    type OwnedFields = List<VarOwnedField<Datum, Kind>>;

    open spec fn spec_fields(v: KindView) -> Seq<VarSlotView<DatumView>> {
        kind_fields(v)
    }

    open spec fn wf_fields(f: Seq<VarSlotView<DatumView>>) -> bool {
        kind_wf(f)
    }

    open spec fn spec_value(f: Seq<VarSlotView<DatumView>>) -> KindView {
        kind_value(f)
    }

    fn fields<'a>(&'a self) -> (r: Self::RefFields<'a>) {
        match self {
            Kind::BigName { salary } => {
                let block = List::cons(
                    VarRefField::header(DatumRef::Head(VariantHeader)),
                    List::cons(VarRefField::new(DatumRef::Word(salary)), List::nil()),
                );
                let off = <Kind as VariantOffset>::offset(0);
                let r = block.pad((off, 4));
                proof {
                    assert(r.deep_view() =~= kind_fields(self.deep_view()));
                }
                r
            }
            Kind::Aspiring { salary } => {
                let block = List::cons(
                    VarRefField::header(DatumRef::Head(VariantHeader)),
                    List::cons(VarRefField::new(DatumRef::Byte(salary)), List::nil()),
                );
                let off = <Kind as VariantOffset>::offset(1);
                let r = block.pad((off, 4));
                proof {
                    assert(r.deep_view() =~= kind_fields(self.deep_view()));
                }
                r
            }
        }
    }

    fn fields_mut(&mut self) -> (r: Self::MutFields) {
        match &*self {
            Kind::BigName { salary } => {
                let block = List::cons(
                    VarMutField::header(Datum::Head(VariantHeader)),
                    List::cons(VarMutField::new(Datum::Word(*salary)), List::nil()),
                );
                let off = <Kind as VariantOffset>::offset(0);
                let r = block.pad((off, 4));
                proof {
                    assert(r.deep_view() =~= kind_fields(old(self).deep_view()));
                }
                r
            }
            Kind::Aspiring { salary } => {
                let block = List::cons(
                    VarMutField::header(Datum::Head(VariantHeader)),
                    List::cons(VarMutField::new(Datum::Byte(*salary)), List::nil()),
                );
                let off = <Kind as VariantOffset>::offset(1);
                let r = block.pad((off, 4));
                proof {
                    assert(r.deep_view() =~= kind_fields(old(self).deep_view()));
                }
                r
            }
        }
    }

    fn into_fields(self) -> (r: Self::OwnedFields) {
        match self {
            Kind::BigName { salary } => {
                let block = List::cons(
                    VarOwnedField::header(Datum::Head(VariantHeader)),
                    List::cons(VarOwnedField::new(Datum::Word(salary)), List::nil()),
                );
                let off = <Kind as VariantOffset>::offset(0);
                let r = block.pad((off, 4));
                proof {
                    assert(r.deep_view() =~= kind_fields(self.deep_view()));
                }
                r
            }
            Kind::Aspiring { salary } => {
                let block = List::cons(
                    VarOwnedField::header(Datum::Head(VariantHeader)),
                    List::cons(VarOwnedField::new(Datum::Byte(salary)), List::nil()),
                );
                let off = <Kind as VariantOffset>::offset(1);
                let r = block.pad((off, 4));
                proof {
                    assert(r.deep_view() =~= kind_fields(self.deep_view()));
                }
                r
            }
        }
    }

    fn from_fields(fields: Self::OwnedFields) -> (r: Self) {
        let ghost f = fields.deep_view();
        let width: List<()> = List::cons((), List::cons((), List::nil()));
        let (block, rest) = fields.split_off(width);
        proof {
            assert(block.deep_view() =~= f.take(2));
            assert(rest.deep_view() =~= f.skip(2));
            lemma_list_unfold(block);
        }
        let (h, bt) = block.split();
        if h.has_value() {
            proof {
                lemma_list_unfold(bt);
            }
            let (p, _) = bt.split();
            match p {
                VarOwnedField::Owned(OwnedField(Some(Datum::Word(salary)), _)) => Kind::BigName {
                    salary,
                },
                _ => unreached(),
            }
        } else {
            proof {
                lemma_list_unfold(rest);
            }
            let (h2, bt2) = rest.split();
            proof {
                lemma_list_unfold(bt2);
            }
            let (p2, _) = bt2.split();
            match p2 {
                VarOwnedField::Owned(OwnedField(Some(Datum::Byte(salary)), _)) => Kind::Aspiring {
                    salary,
                },
                _ => unreached(),
            }
        }
    }

    proof fn lemma_fields_inverse(v: KindView) {
    }
}

impl DataType for Actor {
    type Ty = StructTy<True>;

    open spec fn spec_name() -> Seq<char> {
        "Actor"@
    }

    fn name() -> (r: &'static str) {
        proof {
            reveal_strlit("Actor");
        }
        "Actor"
    }
}

impl Meta for Actor {
    open spec fn spec_metadata() -> MetadataView {
        MetadataView::Struct {
            name: "Actor"@,
            field_names: seq!["name"@, "kind"@, "net_worth"@],
        }
    }

    fn metadata() -> (r: Metadata) {
        let r = Metadata::Struct {
            name: Actor::name(),
            field_names: Actor::field_names(),
        };
        r
    }
}

impl StructMeta for Actor {
    type NamedFields = True;

    open spec fn spec_num_fields() -> nat {
        3
    }

    fn num_fields() -> (r: usize) {
        3
    }
}

impl NamedFieldsMeta for Actor {
    open spec fn spec_field_names() -> Seq<Seq<char>> {
        seq!["name"@, "kind"@, "net_worth"@]
    }

    fn field_names() -> (r: Vec<&'static str>) {
        let v: Vec<&'static str> = vec!["name", "kind", "net_worth"];
        proof {
            assert(v.deep_view() =~= Self::spec_field_names());
        }
        v
    }
}

impl DataType for Kind {
    type Ty = EnumTy;

    open spec fn spec_name() -> Seq<char> {
        "Kind"@
    }

    fn name() -> (r: &'static str) {
        proof {
            reveal_strlit("Kind");
        }
        "Kind"
    }
}

impl Meta for Kind {
    open spec fn spec_metadata() -> MetadataView {
        MetadataView::Enum {
            name: "Kind"@,
            variant_names: seq!["BigName"@, "Aspiring"@],
            field_names: seq![seq!["salary"@], seq!["salary"@]],
        }
    }

    fn metadata() -> (r: Metadata) {
        let r = Metadata::Enum {
            name: Kind::name(),
            variant_names: Kind::variant_names(),
            field_names: Kind::field_names(),
        };
        r
    }
}

impl EnumMeta for Kind {
    open spec fn spec_variant_names() -> Seq<Seq<char>> {
        seq!["BigName"@, "Aspiring"@]
    }

    open spec fn spec_field_names() -> Seq<Seq<Seq<char>>> {
        seq![seq!["salary"@], seq!["salary"@]]
    }

    fn variant_names() -> (r: Vec<&'static str>) {
        let v: Vec<&'static str> = vec!["BigName", "Aspiring"];
        proof {
            assert(v.deep_view() =~= Self::spec_variant_names());
        }
        v
    }

    fn field_names() -> (r: Vec<Vec<&'static str>>) {
        let a: Vec<&'static str> = vec!["salary"];
        let b: Vec<&'static str> = vec!["salary"];
        let v: Vec<Vec<&'static str>> = vec![a, b];
        proof {
            assert(v.deep_view() =~~= Self::spec_field_names());
        }
        v
    }
}

impl VariantOffset for Kind {
    open spec fn spec_offset(v: int) -> int {
        if v == 0 {
            0
        } else {
            2
        }
    }

    fn offset(v: usize) -> (r: usize) {
        if v == 0 {
            0
        } else {
            2
        }
    }
}

impl VariantMeta for Kind {
    open spec fn spec_variant_name(v: int) -> Seq<char> {
        if v == 0 {
            "BigName"@
        } else {
            "Aspiring"@
        }
    }

    open spec fn spec_variant_field_names(v: int) -> Seq<Seq<char>> {
        seq!["salary"@]
    }

    fn variant_name(v: usize) -> (r: &'static str) {
        if v == 0 {
            "BigName"
        } else {
            "Aspiring"
        }
    }

    fn variant_field_names(v: usize) -> (r: Vec<&'static str>) {
        let names: Vec<&'static str> = vec!["salary"];
        proof {
            assert(names.deep_view() =~= Self::spec_variant_field_names(v as int));
        }
        names
    }
}

} // verus!

verus! {

/// The decomposition of a director's abstract value.
pub open spec fn director_fields(v: DirectorView) -> Seq<Option<DatumView>> {
    seq![
        Some(DatumView::Text(v.name)),
        Some(DatumView::Byte(v.num_movies)),
        Some(DatumView::Byte(v.age)),
    ]
}

/// Whether a sequence decomposes some director.
pub open spec fn director_wf(f: Seq<Option<DatumView>>) -> bool {
    &&& f.len() == 3
    &&& f[0] is Some && f[0]->0 is Text
    &&& f[1] is Some && f[1]->0 is Byte
    &&& f[2] is Some && f[2]->0 is Byte
}

/// The director that a well-formed sequence reconstructs to.
pub open spec fn director_value(f: Seq<Option<DatumView>>) -> DirectorView {
    DirectorView { name: f[0]->0->Text_0, num_movies: f[1]->0->Byte_0, age: f[2]->0->Byte_0 }
}

/// A director's decomposition weighs less than the director itself.
pub proof fn lemma_director_weight(v: DirectorView)
    ensures
        slots_weight(director_fields(v)) + 1 < weight(DatumView::Director(v)),
{
    let f = director_fields(v);
    reveal_with_fuel(slots_weight, 5);
    assert(f.skip(1).skip(1) =~= f.skip(2));
    assert(f.skip(2).skip(1) =~= f.skip(3));
    assert(f.skip(3) =~= Seq::<Option<DatumView>>::empty());
}

impl Inception for Director {
    type TyFields = List<TyField<Datum, Director>>;

    type RefFields<'a> = List<RefField<DatumRef<'a>, Director>>;

    type MutFields = List<MutField<Datum, Director>>;

    type OwnedFields = List<OwnedField<Datum, Director>>;

    open spec fn spec_fields(v: DirectorView) -> Seq<Option<DatumView>> {
        director_fields(v)
    }

    open spec fn wf_fields(f: Seq<Option<DatumView>>) -> bool {
        director_wf(f)
    }

    open spec fn spec_value(f: Seq<Option<DatumView>>) -> DirectorView {
        director_value(f)
    }

    fn fields<'a>(&'a self) -> (r: Self::RefFields<'a>) {
        let r = List::cons(
            RefField::new(DatumRef::Text(&self.name)),
            List::cons(
                RefField::new(DatumRef::Byte(&self.num_movies)),
                List::cons(RefField::new(DatumRef::Byte(&self.age)), List::nil()),
            ),
        );
        proof {
            assert(r.deep_view() =~= director_fields(self.deep_view()));
        }
        r
    }

    fn fields_mut(&mut self) -> (r: Self::MutFields) {
        let r = List::cons(
            MutField::new(Datum::Text(self.name.clone())),
            List::cons(
                MutField::new(Datum::Byte(self.num_movies)),
                List::cons(MutField::new(Datum::Byte(self.age)), List::nil()),
            ),
        );
        proof {
            assert(r.deep_view() =~= director_fields(old(self).deep_view()));
        }
        r
    }

    fn into_fields(self) -> (r: Self::OwnedFields) {
        let Director { name, num_movies, age } = self;
        let r = List::cons(
            OwnedField::new(Datum::Text(name)),
            List::cons(
                OwnedField::new(Datum::Byte(num_movies)),
                List::cons(OwnedField::new(Datum::Byte(age)), List::nil()),
            ),
        );
        proof {
            assert(r.deep_view() =~= director_fields(self.deep_view()));
        }
        r
    }

    fn from_fields(fields: Self::OwnedFields) -> (r: Self) {
        proof {
            lemma_list_unfold(fields);
        }
        let (f0, rest) = fields.split();
        proof {
            lemma_list_unfold(rest);
        }
        let (f1, rest) = rest.split();
        proof {
            lemma_list_unfold(rest);
        }
        let (f2, _) = rest.split();
        let name = match f0.0 {
            Some(Datum::Text(s)) => s,
            _ => unreached(),
        };
        let num_movies = match f1.0 {
            Some(Datum::Byte(b)) => b,
            _ => unreached(),
        };
        let age = match f2.0 {
            Some(Datum::Byte(b)) => b,
            _ => unreached(),
        };
        Director { name, num_movies, age }
    }

    proof fn lemma_fields_inverse(v: DirectorView) {
    }
}

/// The decomposition of a movie's abstract value.
pub open spec fn movie_fields(v: MovieView) -> Seq<Option<DatumView>> {
    seq![
        Some(DatumView::Text(v.title)),
        Some(DatumView::Word(v.year)),
        Some(DatumView::Actor(v.lead)),
        Some(DatumView::Actor(v.also_important)),
        Some(DatumView::Director(v.director)),
    ]
}

/// Whether a sequence decomposes some movie.
pub open spec fn movie_wf(f: Seq<Option<DatumView>>) -> bool {
    &&& f.len() == 5
    &&& f[0] is Some && f[0]->0 is Text
    &&& f[1] is Some && f[1]->0 is Word
    &&& f[2] is Some && f[2]->0 is Actor
    &&& f[3] is Some && f[3]->0 is Actor
    &&& f[4] is Some && f[4]->0 is Director
}

/// The movie that a well-formed sequence reconstructs to.
pub open spec fn movie_value(f: Seq<Option<DatumView>>) -> MovieView {
    MovieView {
        title: f[0]->0->Text_0,
        year: f[1]->0->Word_0,
        lead: f[2]->0->Actor_0,
        also_important: f[3]->0->Actor_0,
        director: f[4]->0->Director_0,
    }
}

/// A movie's decomposition weighs less than the movie itself.
pub proof fn lemma_movie_weight(v: MovieView)
    ensures
        slots_weight(movie_fields(v)) + 1 < weight(DatumView::Movie(v)),
{
    let f = movie_fields(v);
    reveal_with_fuel(slots_weight, 7);
    assert(f.skip(1).skip(1) =~= f.skip(2));
    assert(f.skip(2).skip(1) =~= f.skip(3));
    assert(f.skip(3).skip(1) =~= f.skip(4));
    assert(f.skip(4).skip(1) =~= f.skip(5));
    assert(f.skip(5) =~= Seq::<Option<DatumView>>::empty());
}

impl Inception for Movie {
    type TyFields = List<TyField<Datum, Movie>>;

    type RefFields<'a> = List<RefField<DatumRef<'a>, Movie>>;

    type MutFields = List<MutField<Datum, Movie>>;

    type OwnedFields = List<OwnedField<Datum, Movie>>;

    open spec fn spec_fields(v: MovieView) -> Seq<Option<DatumView>> {
        movie_fields(v)
    }

    open spec fn wf_fields(f: Seq<Option<DatumView>>) -> bool {
        movie_wf(f)
    }

    open spec fn spec_value(f: Seq<Option<DatumView>>) -> MovieView {
        movie_value(f)
    }

    fn fields<'a>(&'a self) -> (r: Self::RefFields<'a>) {
        let r = List::cons(
            RefField::new(DatumRef::Text(&self.title)),
            List::cons(
                RefField::new(DatumRef::Word(&self.year)),
                List::cons(
                    RefField::new(DatumRef::Actor(&self.lead)),
                    List::cons(
                        RefField::new(DatumRef::Actor(&self.also_important)),
                        List::cons(RefField::new(DatumRef::Director(&self.director)), List::nil()),
                    ),
                ),
            ),
        );
        proof {
            assert(r.deep_view() =~= movie_fields(self.deep_view()));
        }
        r
    }

    fn fields_mut(&mut self) -> (r: Self::MutFields) {
        let r = List::cons(
            MutField::new(Datum::Text(self.title.clone())),
            List::cons(
                MutField::new(Datum::Word(self.year)),
                List::cons(
                    MutField::new(Datum::Actor(self.lead.clone())),
                    List::cons(
                        MutField::new(Datum::Actor(self.also_important.clone())),
                        List::cons(MutField::new(Datum::Director(self.director.clone())), List::nil()),
                    ),
                ),
            ),
        );
        proof {
            assert(r.deep_view() =~= movie_fields(old(self).deep_view()));
        }
        r
    }

    fn into_fields(self) -> (r: Self::OwnedFields) {
        let Movie { title, year, lead, also_important, director } = self;
        let r = List::cons(
            OwnedField::new(Datum::Text(title)),
            List::cons(
                OwnedField::new(Datum::Word(year)),
                List::cons(
                    OwnedField::new(Datum::Actor(lead)),
                    List::cons(
                        OwnedField::new(Datum::Actor(also_important)),
                        List::cons(OwnedField::new(Datum::Director(director)), List::nil()),
                    ),
                ),
            ),
        );
        proof {
            assert(r.deep_view() =~= movie_fields(self.deep_view()));
        }
        r
    }

    fn from_fields(fields: Self::OwnedFields) -> (r: Self) {
        proof {
            lemma_list_unfold(fields);
        }
        let (f0, rest) = fields.split();
        proof {
            lemma_list_unfold(rest);
        }
        let (f1, rest) = rest.split();
        proof {
            lemma_list_unfold(rest);
        }
        let (f2, rest) = rest.split();
        proof {
            lemma_list_unfold(rest);
        }
        let (f3, rest) = rest.split();
        proof {
            lemma_list_unfold(rest);
        }
        let (f4, _) = rest.split();
        let title = match f0.0 {
            Some(Datum::Text(s)) => s,
            _ => unreached(),
        };
        let year = match f1.0 {
            Some(Datum::Word(w)) => w,
            _ => unreached(),
        };
        let lead = match f2.0 {
            Some(Datum::Actor(a)) => a,
            _ => unreached(),
        };
        let also_important = match f3.0 {
            Some(Datum::Actor(a)) => a,
            _ => unreached(),
        };
        let director = match f4.0 {
            Some(Datum::Director(d)) => d,
            _ => unreached(),
        };
        Movie { title, year, lead, also_important, director }
    }

    proof fn lemma_fields_inverse(v: MovieView) {
    }
}

/// The decomposition of a point's abstract value.
pub open spec fn point_fields(v: PointView) -> Seq<Option<DatumView>> {
    seq![Some(DatumView::Byte(v.x)), Some(DatumView::Byte(v.y))]
}

/// Whether a sequence decomposes some point.
pub open spec fn point_wf(f: Seq<Option<DatumView>>) -> bool {
    &&& f.len() == 2
    &&& f[0] is Some && f[0]->0 is Byte
    &&& f[1] is Some && f[1]->0 is Byte
}

/// The point that a well-formed sequence reconstructs to.
pub open spec fn point_value(f: Seq<Option<DatumView>>) -> PointView {
    PointView { x: f[0]->0->Byte_0, y: f[1]->0->Byte_0 }
}

/// A point's decomposition weighs less than the point itself.
pub proof fn lemma_point_weight(v: PointView)
    ensures
        slots_weight(point_fields(v)) + 1 < weight(DatumView::Point(v)),
{
    let f = point_fields(v);
    reveal_with_fuel(slots_weight, 4);
    assert(f.skip(1).skip(1) =~= f.skip(2));
    assert(f.skip(2) =~= Seq::<Option<DatumView>>::empty());
}

impl Inception for Point {
    type TyFields = List<TyField<Datum, Point>>;

    type RefFields<'a> = List<RefField<DatumRef<'a>, Point>>;

    type MutFields = List<MutField<Datum, Point>>;

    type OwnedFields = List<OwnedField<Datum, Point>>;

    open spec fn spec_fields(v: PointView) -> Seq<Option<DatumView>> {
        point_fields(v)
    }

    open spec fn wf_fields(f: Seq<Option<DatumView>>) -> bool {
        point_wf(f)
    }

    open spec fn spec_value(f: Seq<Option<DatumView>>) -> PointView {
        point_value(f)
    }

    fn fields<'a>(&'a self) -> (r: Self::RefFields<'a>) {
        let r = List::cons(
            RefField::new(DatumRef::Byte(&self.x)),
            List::cons(RefField::new(DatumRef::Byte(&self.y)), List::nil()),
        );
        proof {
            assert(r.deep_view() =~= point_fields(self.deep_view()));
        }
        r
    }

    fn fields_mut(&mut self) -> (r: Self::MutFields) {
        let r = List::cons(
            MutField::new(Datum::Byte(self.x)),
            List::cons(MutField::new(Datum::Byte(self.y)), List::nil()),
        );
        proof {
            assert(r.deep_view() =~= point_fields(old(self).deep_view()));
        }
        r
    }

    fn into_fields(self) -> (r: Self::OwnedFields) {
        let r = List::cons(
            OwnedField::new(Datum::Byte(self.x)),
            List::cons(OwnedField::new(Datum::Byte(self.y)), List::nil()),
        );
        proof {
            assert(r.deep_view() =~= point_fields(self.deep_view()));
        }
        r
    }

    fn from_fields(fields: Self::OwnedFields) -> (r: Self) {
        proof {
            lemma_list_unfold(fields);
        }
        let (f0, rest) = fields.split();
        proof {
            lemma_list_unfold(rest);
        }
        let (f1, _) = rest.split();
        let x = match f0.0 {
            Some(Datum::Byte(b)) => b,
            _ => unreached(),
        };
        let y = match f1.0 {
            Some(Datum::Byte(b)) => b,
            _ => unreached(),
        };
        Point { x, y }
    }

    proof fn lemma_fields_inverse(v: PointView) {
    }
}

} // verus!

verus! {

/// The decomposition of a version's abstract value: each variant's block —
/// header and movie — at its global offset in a row of four slots.
pub open spec fn version_fields(v: VersionView) -> Seq<VarSlotView<DatumView>> {
    match v {
        VersionView::One(m) => seq![
            VarSlotView::Header(Some(DatumView::Head)),
            VarSlotView::Payload(Some(DatumView::Movie(m))),
            VarSlotView::Vacant,
            VarSlotView::Vacant,
        ],
        VersionView::Two(m) => seq![
            VarSlotView::Vacant,
            VarSlotView::Vacant,
            VarSlotView::Header(Some(DatumView::Head)),
            VarSlotView::Payload(Some(DatumView::Movie(m))),
        ],
    }
}

/// Whether a sequence is the flattened block layout of an active first
/// variant of a version.
pub open spec fn version_wf_one(f: Seq<VarSlotView<DatumView>>) -> bool {
    &&& f[0] is Header && f[0]->Header_0 == Some(DatumView::Head)
    &&& f[1] is Payload && f[1]->Payload_0 is Some && f[1]->Payload_0->0 is Movie
    &&& f[2] is Vacant
    &&& f[3] is Vacant
}

/// Whether a sequence is the flattened block layout of an active second
/// variant of a version.
pub open spec fn version_wf_two(f: Seq<VarSlotView<DatumView>>) -> bool {
    &&& f[0] is Vacant
    &&& f[1] is Vacant
    &&& f[2] is Header && f[2]->Header_0 == Some(DatumView::Head)
    &&& f[3] is Payload && f[3]->Payload_0 is Some && f[3]->Payload_0->0 is Movie
}

/// Whether a sequence decomposes some version.
pub open spec fn version_wf(f: Seq<VarSlotView<DatumView>>) -> bool {
    &&& f.len() == 4
    &&& (version_wf_one(f) || version_wf_two(f))
}

/// The version that a well-formed sequence reconstructs to: the first
/// variant whose header slot is present is the active one.
pub open spec fn version_value(f: Seq<VarSlotView<DatumView>>) -> VersionView {
    if f[0] is Header {
        VersionView::One(f[1]->Payload_0->0->Movie_0)
    } else {
        VersionView::Two(f[3]->Payload_0->0->Movie_0)
    }
}

/// A version's decomposition weighs less than the version itself.
pub proof fn lemma_version_weight(v: VersionView)
    ensures
        var_slots_weight(version_fields(v)) + 1 < weight(DatumView::Version(v)),
{
    let f = version_fields(v);
    reveal_with_fuel(var_slots_weight, 6);
    assert(f.skip(1).skip(1) =~= f.skip(2));
    assert(f.skip(2).skip(1) =~= f.skip(3));
    assert(f.skip(3).skip(1) =~= f.skip(4));
    assert(f.skip(4) =~= Seq::<VarSlotView<DatumView>>::empty());
}

impl Inception for Version {
    type TyFields = List<VarTyField<Datum, Version>>;

    type RefFields<'a> = List<VarRefField<DatumRef<'a>, Version>>;

    type MutFields = List<VarMutField<Datum, Version>>;

    type OwnedFields = List<VarOwnedField<Datum, Version>>;

    open spec fn spec_fields(v: VersionView) -> Seq<VarSlotView<DatumView>> {
        version_fields(v)
    }

    open spec fn wf_fields(f: Seq<VarSlotView<DatumView>>) -> bool {
        version_wf(f)
    }

    open spec fn spec_value(f: Seq<VarSlotView<DatumView>>) -> VersionView {
        version_value(f)
    }

    fn fields<'a>(&'a self) -> (r: Self::RefFields<'a>) {
        match self {
            Version::One(m) => {
                let block = List::cons(
                    VarRefField::header(DatumRef::Head(VariantHeader)),
                    List::cons(VarRefField::new(DatumRef::Movie(m)), List::nil()),
                );
                let off = <Version as VariantOffset>::offset(0);
                let r = block.pad((off, 4));
                proof {
                    assert(r.deep_view() =~= version_fields(self.deep_view()));
                }
                r
            }
            Version::Two(m) => {
                let block = List::cons(
                    VarRefField::header(DatumRef::Head(VariantHeader)),
                    List::cons(VarRefField::new(DatumRef::Movie(m)), List::nil()),
                );
                let off = <Version as VariantOffset>::offset(1);
                let r = block.pad((off, 4));
                proof {
                    assert(r.deep_view() =~= version_fields(self.deep_view()));
                }
                r
            }
        }
    }

    fn fields_mut(&mut self) -> (r: Self::MutFields) {
        match &*self {
            Version::One(m) => {
                let block = List::cons(
                    VarMutField::header(Datum::Head(VariantHeader)),
                    List::cons(VarMutField::new(Datum::Movie(m.clone())), List::nil()),
                );
                let off = <Version as VariantOffset>::offset(0);
                let r = block.pad((off, 4));
                proof {
                    assert(r.deep_view() =~= version_fields(old(self).deep_view()));
                }
                r
            }
            Version::Two(m) => {
                let block = List::cons(
                    VarMutField::header(Datum::Head(VariantHeader)),
                    List::cons(VarMutField::new(Datum::Movie(m.clone())), List::nil()),
                );
                let off = <Version as VariantOffset>::offset(1);
                let r = block.pad((off, 4));
                proof {
                    assert(r.deep_view() =~= version_fields(old(self).deep_view()));
                }
                r
            }
        }
    }

    fn into_fields(self) -> (r: Self::OwnedFields) {
        match self {
            Version::One(m) => {
                let block = List::cons(
                    VarOwnedField::header(Datum::Head(VariantHeader)),
                    List::cons(VarOwnedField::new(Datum::Movie(m)), List::nil()),
                );
                let off = <Version as VariantOffset>::offset(0);
                let r = block.pad((off, 4));
                proof {
                    assert(r.deep_view() =~= version_fields(self.deep_view()));
                }
                r
            }
            Version::Two(m) => {
                let block = List::cons(
                    VarOwnedField::header(Datum::Head(VariantHeader)),
                    List::cons(VarOwnedField::new(Datum::Movie(m)), List::nil()),
                );
                let off = <Version as VariantOffset>::offset(1);
                let r = block.pad((off, 4));
                proof {
                    assert(r.deep_view() =~= version_fields(self.deep_view()));
                }
                r
            }
        }
    }

    fn from_fields(fields: Self::OwnedFields) -> (r: Self) {
        let ghost f = fields.deep_view();
        let width: List<()> = List::cons((), List::cons((), List::nil()));
        let (block, rest) = fields.split_off(width);
        proof {
            assert(block.deep_view() =~= f.take(2));
            assert(rest.deep_view() =~= f.skip(2));
            lemma_list_unfold(block);
        }
        let (h, bt) = block.split();
        if h.has_value() {
            proof {
                lemma_list_unfold(bt);
            }
            let (p, _) = bt.split();
            match p {
                VarOwnedField::Owned(OwnedField(Some(Datum::Movie(m)), _)) => Version::One(m),
                _ => unreached(),
            }
        } else {
            proof {
                lemma_list_unfold(rest);
            }
            let (h2, bt2) = rest.split();
            proof {
                lemma_list_unfold(bt2);
            }
            let (p2, _) = bt2.split();
            match p2 {
                VarOwnedField::Owned(OwnedField(Some(Datum::Movie(m)), _)) => Version::Two(m),
                _ => unreached(),
            }
        }
    }

    proof fn lemma_fields_inverse(v: VersionView) {
    }
}

/// The decomposition of a shape's abstract value: the one-field block of a
/// circle at offset zero, or the two-field block of a square at offset
/// two, in a row of five slots.
pub open spec fn shape_fields(v: ShapeView) -> Seq<VarSlotView<DatumView>> {
    match v {
        ShapeView::Circle(radius) => seq![
            VarSlotView::Header(Some(DatumView::Head)),
            VarSlotView::Payload(Some(DatumView::Byte(radius))),
            VarSlotView::Vacant,
            VarSlotView::Vacant,
            VarSlotView::Vacant,
        ],
        ShapeView::Square(w, h) => seq![
            VarSlotView::Vacant,
            VarSlotView::Vacant,
            VarSlotView::Header(Some(DatumView::Head)),
            VarSlotView::Payload(Some(DatumView::Byte(w))),
            VarSlotView::Payload(Some(DatumView::Byte(h))),
        ],
    }
}

/// Whether a sequence is the flattened block layout of an active circle.
pub open spec fn shape_wf_circle(f: Seq<VarSlotView<DatumView>>) -> bool {
    &&& f[0] is Header && f[0]->Header_0 == Some(DatumView::Head)
    &&& f[1] is Payload && f[1]->Payload_0 is Some && f[1]->Payload_0->0 is Byte
    &&& f[2] is Vacant
    &&& f[3] is Vacant
    &&& f[4] is Vacant
}

/// Whether a sequence is the flattened block layout of an active square.
pub open spec fn shape_wf_square(f: Seq<VarSlotView<DatumView>>) -> bool {
    &&& f[0] is Vacant
    &&& f[1] is Vacant
    &&& f[2] is Header && f[2]->Header_0 == Some(DatumView::Head)
    &&& f[3] is Payload && f[3]->Payload_0 is Some && f[3]->Payload_0->0 is Byte
    &&& f[4] is Payload && f[4]->Payload_0 is Some && f[4]->Payload_0->0 is Byte
}

/// Whether a sequence decomposes some shape.
pub open spec fn shape_wf(f: Seq<VarSlotView<DatumView>>) -> bool {
    &&& f.len() == 5
    &&& (shape_wf_circle(f) || shape_wf_square(f))
}

/// The shape that a well-formed sequence reconstructs to: the first
/// variant whose header slot is present is the active one.
pub open spec fn shape_value(f: Seq<VarSlotView<DatumView>>) -> ShapeView {
    if f[0] is Header {
        ShapeView::Circle(f[1]->Payload_0->0->Byte_0)
    } else {
        ShapeView::Square(f[3]->Payload_0->0->Byte_0, f[4]->Payload_0->0->Byte_0)
    }
}

/// A shape's decomposition weighs less than the shape itself.
pub proof fn lemma_shape_weight(v: ShapeView)
    ensures
        var_slots_weight(shape_fields(v)) + 1 < weight(DatumView::Shape(v)),
{
    let f = shape_fields(v);
    reveal_with_fuel(var_slots_weight, 7);
    assert(f.skip(1).skip(1) =~= f.skip(2));
    assert(f.skip(2).skip(1) =~= f.skip(3));
    assert(f.skip(3).skip(1) =~= f.skip(4));
    assert(f.skip(4).skip(1) =~= f.skip(5));
    assert(f.skip(5) =~= Seq::<VarSlotView<DatumView>>::empty());
}

impl Inception for Shape {
    type TyFields = List<VarTyField<Datum, Shape>>;

    type RefFields<'a> = List<VarRefField<DatumRef<'a>, Shape>>;

    type MutFields = List<VarMutField<Datum, Shape>>;

    type OwnedFields = List<VarOwnedField<Datum, Shape>>;

    open spec fn spec_fields(v: ShapeView) -> Seq<VarSlotView<DatumView>> {
        shape_fields(v)
    }

    open spec fn wf_fields(f: Seq<VarSlotView<DatumView>>) -> bool {
        shape_wf(f)
    }

    open spec fn spec_value(f: Seq<VarSlotView<DatumView>>) -> ShapeView {
        shape_value(f)
    }

    fn fields<'a>(&'a self) -> (r: Self::RefFields<'a>) {
        match self {
            Shape::Circle(radius) => {
                let block = List::cons(
                    VarRefField::header(DatumRef::Head(VariantHeader)),
                    List::cons(VarRefField::new(DatumRef::Byte(radius)), List::nil()),
                );
                let off = <Shape as VariantOffset>::offset(0);
                let r = block.pad((off, 5));
                proof {
                    assert(r.deep_view() =~= shape_fields(self.deep_view()));
                }
                r
            }
            Shape::Square(w, h) => {
                let block = List::cons(
                    VarRefField::header(DatumRef::Head(VariantHeader)),
                    List::cons(
                        VarRefField::new(DatumRef::Byte(w)),
                        List::cons(VarRefField::new(DatumRef::Byte(h)), List::nil()),
                    ),
                );
                let off = <Shape as VariantOffset>::offset(1);
                let r = block.pad((off, 5));
                proof {
                    assert(r.deep_view() =~= shape_fields(self.deep_view()));
                }
                r
            }
        }
    }

    fn fields_mut(&mut self) -> (r: Self::MutFields) {
        match &*self {
            Shape::Circle(radius) => {
                let block = List::cons(
                    VarMutField::header(Datum::Head(VariantHeader)),
                    List::cons(VarMutField::new(Datum::Byte(*radius)), List::nil()),
                );
                let off = <Shape as VariantOffset>::offset(0);
                let r = block.pad((off, 5));
                proof {
                    assert(r.deep_view() =~= shape_fields(old(self).deep_view()));
                }
                r
            }
            Shape::Square(w, h) => {
                let block = List::cons(
                    VarMutField::header(Datum::Head(VariantHeader)),
                    List::cons(
                        VarMutField::new(Datum::Byte(*w)),
                        List::cons(VarMutField::new(Datum::Byte(*h)), List::nil()),
                    ),
                );
                let off = <Shape as VariantOffset>::offset(1);
                let r = block.pad((off, 5));
                proof {
                    assert(r.deep_view() =~= shape_fields(old(self).deep_view()));
                }
                r
            }
        }
    }

    fn into_fields(self) -> (r: Self::OwnedFields) {
        match self {
            Shape::Circle(radius) => {
                let block = List::cons(
                    VarOwnedField::header(Datum::Head(VariantHeader)),
                    List::cons(VarOwnedField::new(Datum::Byte(radius)), List::nil()),
                );
                let off = <Shape as VariantOffset>::offset(0);
                let r = block.pad((off, 5));
                proof {
                    assert(r.deep_view() =~= shape_fields(self.deep_view()));
                }
                r
            }
            Shape::Square(w, h) => {
                let block = List::cons(
                    VarOwnedField::header(Datum::Head(VariantHeader)),
                    List::cons(
                        VarOwnedField::new(Datum::Byte(w)),
                        List::cons(VarOwnedField::new(Datum::Byte(h)), List::nil()),
                    ),
                );
                let off = <Shape as VariantOffset>::offset(1);
                let r = block.pad((off, 5));
                proof {
                    assert(r.deep_view() =~= shape_fields(self.deep_view()));
                }
                r
            }
        }
    }

    fn from_fields(fields: Self::OwnedFields) -> (r: Self) {
        let ghost f = fields.deep_view();
        let width: List<()> = List::cons((), List::cons((), List::nil()));
        let (block, rest) = fields.split_off(width);
        proof {
            assert(block.deep_view() =~= f.take(2));
            assert(rest.deep_view() =~= f.skip(2));
            lemma_list_unfold(block);
        }
        let (h, bt) = block.split();
        if h.has_value() {
            proof {
                lemma_list_unfold(bt);
            }
            let (p, _) = bt.split();
            match p {
                VarOwnedField::Owned(OwnedField(Some(Datum::Byte(radius)), _)) => Shape::Circle(
                    radius,
                ),
                _ => unreached(),
            }
        } else {
            proof {
                lemma_list_unfold(rest);
            }
            let (h2, bt2) = rest.split();
            proof {
                lemma_list_unfold(bt2);
            }
            let (p2, bt3) = bt2.split();
            proof {
                lemma_list_unfold(bt3);
            }
            let (p3, _) = bt3.split();
            let w = match p2 {
                VarOwnedField::Owned(OwnedField(Some(Datum::Byte(w)), _)) => w,
                _ => unreached(),
            };
            let h = match p3 {
                VarOwnedField::Owned(OwnedField(Some(Datum::Byte(h)), _)) => h,
                _ => unreached(),
            };
            Shape::Square(w, h)
        }
    }

    proof fn lemma_fields_inverse(v: ShapeView) {
    }
}

} // verus!

verus! {

impl DataType for Director {
    type Ty = StructTy<True>;

    open spec fn spec_name() -> Seq<char> {
        "Director"@
    }

    fn name() -> (r: &'static str) {
        proof {
            reveal_strlit("Director");
        }
        "Director"
    }
}

impl Meta for Director {
    open spec fn spec_metadata() -> MetadataView {
        MetadataView::Struct {
            name: "Director"@,
            field_names: seq!["name"@, "num_movies"@, "age"@],
        }
    }

    fn metadata() -> (r: Metadata) {
        Metadata::Struct { name: Director::name(), field_names: Director::field_names() }
    }
}

impl StructMeta for Director {
    type NamedFields = True;

    open spec fn spec_num_fields() -> nat {
        3
    }

    fn num_fields() -> (r: usize) {
        3
    }
}

impl NamedFieldsMeta for Director {
    open spec fn spec_field_names() -> Seq<Seq<char>> {
        seq!["name"@, "num_movies"@, "age"@]
    }

    fn field_names() -> (r: Vec<&'static str>) {
        let v: Vec<&'static str> = vec!["name", "num_movies", "age"];
        proof {
            assert(v.deep_view() =~= Self::spec_field_names());
        }
        v
    }
}

impl DataType for Movie {
    type Ty = StructTy<True>;

    open spec fn spec_name() -> Seq<char> {
        "Movie"@
    }

    fn name() -> (r: &'static str) {
        proof {
            reveal_strlit("Movie");
        }
        "Movie"
    }
}

impl Meta for Movie {
    open spec fn spec_metadata() -> MetadataView {
        MetadataView::Struct {
            name: "Movie"@,
            field_names: seq!["title"@, "year"@, "lead"@, "also_important"@, "director"@],
        }
    }

    fn metadata() -> (r: Metadata) {
        Metadata::Struct { name: Movie::name(), field_names: Movie::field_names() }
    }
}

impl StructMeta for Movie {
    type NamedFields = True;

    open spec fn spec_num_fields() -> nat {
        5
    }

    fn num_fields() -> (r: usize) {
        5
    }
}

impl NamedFieldsMeta for Movie {
    open spec fn spec_field_names() -> Seq<Seq<char>> {
        seq!["title"@, "year"@, "lead"@, "also_important"@, "director"@]
    }

    fn field_names() -> (r: Vec<&'static str>) {
        let v: Vec<&'static str> = vec!["title", "year", "lead", "also_important", "director"];
        proof {
            assert(v.deep_view() =~= Self::spec_field_names());
        }
        v
    }
}

impl DataType for Point {
    type Ty = StructTy<True>;

    open spec fn spec_name() -> Seq<char> {
        "Point"@
    }

    fn name() -> (r: &'static str) {
        proof {
            reveal_strlit("Point");
        }
        "Point"
    }
}

impl Meta for Point {
    open spec fn spec_metadata() -> MetadataView {
        MetadataView::Struct { name: "Point"@, field_names: seq!["x"@, "y"@] }
    }

    fn metadata() -> (r: Metadata) {
        Metadata::Struct { name: Point::name(), field_names: Point::field_names() }
    }
}

impl StructMeta for Point {
    type NamedFields = True;

    open spec fn spec_num_fields() -> nat {
        2
    }

    fn num_fields() -> (r: usize) {
        2
    }
}

impl NamedFieldsMeta for Point {
    open spec fn spec_field_names() -> Seq<Seq<char>> {
        seq!["x"@, "y"@]
    }

    fn field_names() -> (r: Vec<&'static str>) {
        let v: Vec<&'static str> = vec!["x", "y"];
        proof {
            assert(v.deep_view() =~= Self::spec_field_names());
        }
        v
    }
}

impl DataType for Version {
    type Ty = EnumTy;

    open spec fn spec_name() -> Seq<char> {
        "Version"@
    }

    fn name() -> (r: &'static str) {
        proof {
            reveal_strlit("Version");
        }
        "Version"
    }
}

impl Meta for Version {
    open spec fn spec_metadata() -> MetadataView {
        MetadataView::Enum {
            name: "Version"@,
            variant_names: seq!["One"@, "Two"@],
            field_names: seq![Seq::<Seq<char>>::empty(), Seq::<Seq<char>>::empty()],
        }
    }

    fn metadata() -> (r: Metadata) {
        Metadata::Enum {
            name: Version::name(),
            variant_names: Version::variant_names(),
            field_names: Version::field_names(),
        }
    }
}

impl EnumMeta for Version {
    open spec fn spec_variant_names() -> Seq<Seq<char>> {
        seq!["One"@, "Two"@]
    }

    open spec fn spec_field_names() -> Seq<Seq<Seq<char>>> {
        seq![Seq::<Seq<char>>::empty(), Seq::<Seq<char>>::empty()]
    }

    fn variant_names() -> (r: Vec<&'static str>) {
        let v: Vec<&'static str> = vec!["One", "Two"];
        proof {
            assert(v.deep_view() =~= Self::spec_variant_names());
        }
        v
    }

    fn field_names() -> (r: Vec<Vec<&'static str>>) {
        let a: Vec<&'static str> = Vec::new();
        let b: Vec<&'static str> = Vec::new();
        let v: Vec<Vec<&'static str>> = vec![a, b];
        proof {
            assert(v.deep_view() =~~= Self::spec_field_names());
        }
        v
    }
}

impl VariantOffset for Version {
    open spec fn spec_offset(v: int) -> int {
        if v == 0 {
            0
        } else {
            2
        }
    }

    fn offset(v: usize) -> (r: usize) {
        if v == 0 {
            0
        } else {
            2
        }
    }
}

impl VariantMeta for Version {
    open spec fn spec_variant_name(v: int) -> Seq<char> {
        if v == 0 {
            "One"@
        } else {
            "Two"@
        }
    }

    open spec fn spec_variant_field_names(v: int) -> Seq<Seq<char>> {
        Seq::empty()
    }

    fn variant_name(v: usize) -> (r: &'static str) {
        if v == 0 {
            "One"
        } else {
            "Two"
        }
    }

    fn variant_field_names(v: usize) -> (r: Vec<&'static str>) {
        let names: Vec<&'static str> = Vec::new();
        proof {
            assert(names.deep_view() =~= Self::spec_variant_field_names(v as int));
        }
        names
    }
}

impl DataType for Shape {
    type Ty = EnumTy;

    open spec fn spec_name() -> Seq<char> {
        "Shape"@
    }

    fn name() -> (r: &'static str) {
        proof {
            reveal_strlit("Shape");
        }
        "Shape"
    }
}

impl Meta for Shape {
    open spec fn spec_metadata() -> MetadataView {
        MetadataView::Enum {
            name: "Shape"@,
            variant_names: seq!["Circle"@, "Square"@],
            field_names: seq![Seq::<Seq<char>>::empty(), Seq::<Seq<char>>::empty()],
        }
    }

    fn metadata() -> (r: Metadata) {
        Metadata::Enum {
            name: Shape::name(),
            variant_names: Shape::variant_names(),
            field_names: Shape::field_names(),
        }
    }
}

impl EnumMeta for Shape {
    open spec fn spec_variant_names() -> Seq<Seq<char>> {
        seq!["Circle"@, "Square"@]
    }

    open spec fn spec_field_names() -> Seq<Seq<Seq<char>>> {
        seq![Seq::<Seq<char>>::empty(), Seq::<Seq<char>>::empty()]
    }

    fn variant_names() -> (r: Vec<&'static str>) {
        let v: Vec<&'static str> = vec!["Circle", "Square"];
        proof {
            assert(v.deep_view() =~= Self::spec_variant_names());
        }
        v
    }

    fn field_names() -> (r: Vec<Vec<&'static str>>) {
        let a: Vec<&'static str> = Vec::new();
        let b: Vec<&'static str> = Vec::new();
        let v: Vec<Vec<&'static str>> = vec![a, b];
        proof {
            assert(v.deep_view() =~~= Self::spec_field_names());
        }
        v
    }
}

impl VariantOffset for Shape {
    open spec fn spec_offset(v: int) -> int {
        if v == 0 {
            0
        } else {
            2
        }
    }

    fn offset(v: usize) -> (r: usize) {
        if v == 0 {
            0
        } else {
            2
        }
    }
}

impl VariantMeta for Shape {
    open spec fn spec_variant_name(v: int) -> Seq<char> {
        if v == 0 {
            "Circle"@
        } else {
            "Square"@
        }
    }

    open spec fn spec_variant_field_names(v: int) -> Seq<Seq<char>> {
        Seq::empty()
    }

    fn variant_name(v: usize) -> (r: &'static str) {
        if v == 0 {
            "Circle"
        } else {
            "Square"
        }
    }

    fn variant_field_names(v: usize) -> (r: Vec<&'static str>) {
        let names: Vec<&'static str> = Vec::new();
        proof {
            assert(names.deep_view() =~= Self::spec_variant_field_names(v as int));
        }
        names
    }
}

} // verus!

verus! {

/// Decomposing a kind places the active variant's block at its offset and
/// leaves every position of the other variant vacant, rather than raising
/// a fault.
pub proof fn lemma_kind_inactive_vacant(v: KindView)
    ensures
        v is BigName ==> forall|i: int| 2 <= i < 4 ==> #[trigger] kind_fields(v)[i] is Vacant,
        v is Aspiring ==> forall|i: int| 0 <= i < 2 ==> #[trigger] kind_fields(v)[i] is Vacant,
{
}

/// Decomposing a version leaves every position of the inactive variant
/// vacant.
pub proof fn lemma_version_inactive_vacant(v: VersionView)
    ensures
        v is One ==> forall|i: int| 2 <= i < 4 ==> #[trigger] version_fields(v)[i] is Vacant,
        v is Two ==> forall|i: int| 0 <= i < 2 ==> #[trigger] version_fields(v)[i] is Vacant,
{
}

/// Decomposing a shape leaves every position of the inactive variant
/// vacant.
pub proof fn lemma_shape_inactive_vacant(v: ShapeView)
    ensures
        v is Circle ==> forall|i: int| 2 <= i < 5 ==> #[trigger] shape_fields(v)[i] is Vacant,
        v is Square ==> forall|i: int| 0 <= i < 2 ==> #[trigger] shape_fields(v)[i] is Vacant,
{
}

impl<X: crate::Property> crate::meta::IsPrimitive<X> for crate::field::VariantHeader {
    type Is = crate::ty::True;
}

impl<X: crate::Property> crate::meta::IsPrimitive<X> for u8 {
    type Is = crate::ty::True;
}

impl<X: crate::Property> crate::meta::IsPrimitive<X> for u64 {
    type Is = crate::ty::True;
}

impl<X: crate::Property> crate::meta::IsPrimitive<X> for u128 {
    type Is = crate::ty::True;
}

impl<X: crate::Property> crate::meta::IsPrimitive<X> for String {
    type Is = crate::ty::True;
}

impl<X: crate::Property> crate::meta::IsPrimitive<X> for Kind {
    type Is = crate::ty::False;
}

impl<X: crate::Property> crate::meta::IsPrimitive<X> for Actor {
    type Is = crate::ty::False;
}

impl<X: crate::Property> crate::meta::IsPrimitive<X> for Director {
    type Is = crate::ty::False;
}

impl<X: crate::Property> crate::meta::IsPrimitive<X> for Movie {
    type Is = crate::ty::False;
}

impl<X: crate::Property> crate::meta::IsPrimitive<X> for Version {
    type Is = crate::ty::False;
}

impl<X: crate::Property> crate::meta::IsPrimitive<X> for Point {
    type Is = crate::ty::False;
}

impl<X: crate::Property> crate::meta::IsPrimitive<X> for Shape {
    type Is = crate::ty::False;
}

} // verus!

verus! {

impl crate::field::Kind for Kind {
    fn identifier() -> (r: &'static str)
        ensures
            r@ == <Kind as DataType>::spec_name(),
    {
        <Kind as DataType>::name()
    }
}

impl crate::field::Kind for Actor {
    fn identifier() -> (r: &'static str)
        ensures
            r@ == <Actor as DataType>::spec_name(),
    {
        <Actor as DataType>::name()
    }
}

impl crate::field::Kind for Director {
    fn identifier() -> (r: &'static str)
        ensures
            r@ == <Director as DataType>::spec_name(),
    {
        <Director as DataType>::name()
    }
}

impl crate::field::Kind for Movie {
    fn identifier() -> (r: &'static str)
        ensures
            r@ == <Movie as DataType>::spec_name(),
    {
        <Movie as DataType>::name()
    }
}

impl crate::field::Kind for Version {
    fn identifier() -> (r: &'static str)
        ensures
            r@ == <Version as DataType>::spec_name(),
    {
        <Version as DataType>::name()
    }
}

impl crate::field::Kind for Point {
    fn identifier() -> (r: &'static str)
        ensures
            r@ == <Point as DataType>::spec_name(),
    {
        <Point as DataType>::name()
    }
}

impl crate::field::Kind for Shape {
    fn identifier() -> (r: &'static str)
        ensures
            r@ == <Shape as DataType>::spec_name(),
    {
        <Shape as DataType>::name()
    }
}

} // verus!
