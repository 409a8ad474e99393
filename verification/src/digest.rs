//! Hashing: the engine's rules set for feeding an aggregate's content to a
//! hasher. The byte writes are a function of the abstract content alone,
//! so two aggregates with the same type and the same field values —
//! nested aggregates included — produce identical digests.

use std::collections::hash_map::DefaultHasher;
use std::hash::Hasher;

use vstd::prelude::*;
use vstd::std_specs::hash::DefaultHasherAdditionalSpecFns;

use crate::data::{
    actor_fields, director_fields, kind_fields, lemma_actor_weight, lemma_director_weight,
    lemma_kind_weight, lemma_movie_weight, lemma_point_weight, lemma_shape_weight,
    lemma_version_weight, movie_fields, point_fields, shape_fields, slot_weight, slots_weight,
    var_slot_weight, var_slots_weight, version_fields, weight, Actor, DatumRef, DatumView,
    Director, Kind, Movie, Point, Shape, Version,
};
use crate::field::{RefField, VarRefField, VarSlotView, VariantHeader};
use crate::ty::{lemma_list_unfold, List};
use crate::{Inception, Property};

verus! {

/// The property marker of hashing.
pub struct Digestible;

impl Property for Digestible {
}

/// The bytes a single byte leaf feeds the hasher.
pub open spec fn byte_write(b: u8) -> Seq<u8> {
    seq![b]
}

/// The little-endian bytes a word leaf feeds the hasher.
pub open spec fn word_write(w: u64) -> Seq<u8> {
    Seq::new(8, |i: int| ((w >> (8 * i)) & 0xff) as u8)
}

/// The little-endian bytes a wide leaf feeds the hasher.
pub open spec fn wide_write(w: u128) -> Seq<u8> {
    Seq::new(16, |i: int| ((w >> (8 * i)) & 0xff) as u8)
}

/// The little-endian bytes one character feeds the hasher.
pub open spec fn char_write(c: char) -> Seq<u8> {
    Seq::new(4, |i: int| (((c as u32) >> (8 * i)) & 0xff) as u8)
}

/// The sequence of hasher writes one slot content contributes, a function
/// of the abstract content alone.
pub open spec fn writes_of(d: DatumView) -> Seq<Seq<u8>>
    decreases weight(d),
    via writes_of_decreases
{
    match d {
        DatumView::Byte(b) => seq![byte_write(b)],
        DatumView::Word(w) => seq![word_write(w)],
        DatumView::Wide(w) => seq![wide_write(w)],
        DatumView::Text(s) => Seq::new(s.len(), |i: int| char_write(s[i])),
        DatumView::Head => Seq::empty(),
        DatumView::Kind(k) => var_writes_of_slots(kind_fields(k)),
        DatumView::Actor(a) => writes_of_slots(actor_fields(a)),
        DatumView::Director(dr) => writes_of_slots(director_fields(dr)),
        DatumView::Movie(m) => writes_of_slots(movie_fields(m)),
        DatumView::Version(v) => var_writes_of_slots(version_fields(v)),
        DatumView::Point(p) => writes_of_slots(point_fields(p)),
        DatumView::Shape(s) => var_writes_of_slots(shape_fields(s)),
    }
}

#[via_fn]
proof fn writes_of_decreases(d: DatumView) {
    match d {
        DatumView::Kind(k) => lemma_kind_weight(k),
        DatumView::Actor(a) => lemma_actor_weight(a),
        DatumView::Director(dr) => lemma_director_weight(dr),
        DatumView::Movie(m) => lemma_movie_weight(m),
        DatumView::Version(v) => lemma_version_weight(v),
        DatumView::Point(p) => lemma_point_weight(p),
        DatumView::Shape(s) => lemma_shape_weight(s),
        _ => {}
    }
}

/// The writes one plain slot contributes: an absent content contributes
/// nothing.
pub open spec fn slot_writes(o: Option<DatumView>) -> Seq<Seq<u8>>
    decreases slot_weight(o),
{
    match o {
        Some(d) => writes_of(d),
        None => Seq::empty(),
    }
}

/// The writes of a plain field sequence, position by position.
pub open spec fn writes_of_slots(s: Seq<Option<DatumView>>) -> Seq<Seq<u8>>
    decreases slots_weight(s),
{
    if s.len() == 0 {
        Seq::empty()
    } else {
        slot_writes(s[0]) + writes_of_slots(s.skip(1))
    }
}

/// The writes one enum-variant slot contributes: a discriminant header and
/// a vacant position contribute nothing, so the digest covers exactly the
/// active variant's payloads.
pub open spec fn var_slot_writes(s: VarSlotView<DatumView>) -> Seq<Seq<u8>>
    decreases var_slot_weight(s),
{
    match s {
        VarSlotView::Payload(o) => slot_writes(o),
        VarSlotView::Header(_) => Seq::empty(),
        VarSlotView::Vacant => Seq::empty(),
    }
}

/// The writes of an enum's flattened field sequence.
pub open spec fn var_writes_of_slots(s: Seq<VarSlotView<DatumView>>) -> Seq<Seq<u8>>
    decreases var_slots_weight(s),
{
    if s.len() == 0 {
        Seq::empty()
    } else {
        var_slot_writes(s[0]) + var_writes_of_slots(s.skip(1))
    }
}

/// Hashing: feeding a value to the hasher appends the writes determined by
/// the value's abstract content, and nothing else.
pub trait Digest: DeepView {
    /// The writes this value's content feeds the hasher.
    spec fn digest_writes(v: <Self as DeepView>::V) -> Seq<Seq<u8>>;

    fn digest(&self, state: &mut DefaultHasher)
        ensures
            final(state)@ == old(state)@ + Self::digest_writes(self.deep_view()),
    ;
}

impl Digest for u8 {
    open spec fn digest_writes(v: u8) -> Seq<Seq<u8>> {
        seq![byte_write(v)]
    }

    fn digest(&self, state: &mut DefaultHasher) {
        let arr: [u8; 1] = [*self];
        state.write(arr.as_slice());
        proof {
            assert(arr@ =~= byte_write(*self));
            assert(old(state)@.push(arr@) =~= old(state)@ + seq![byte_write(*self)]);
        }
    }
}

impl Digest for u64 {
    open spec fn digest_writes(v: u64) -> Seq<Seq<u8>> {
        seq![word_write(v)]
    }

    fn digest(&self, state: &mut DefaultHasher) {
        let w = *self;
        let arr: [u8; 8] = [
            (w & 0xff) as u8,
            ((w >> 8) & 0xff) as u8,
            ((w >> 16) & 0xff) as u8,
            ((w >> 24) & 0xff) as u8,
            ((w >> 32) & 0xff) as u8,
            ((w >> 40) & 0xff) as u8,
            ((w >> 48) & 0xff) as u8,
            ((w >> 56) & 0xff) as u8,
        ];
        state.write(arr.as_slice());
        proof {
            assert(w >> 0 == w) by (bit_vector);
            assert(arr@ =~= word_write(w));
            assert(old(state)@.push(arr@) =~= old(state)@ + seq![word_write(w)]);
        }
    }
}

impl Digest for u128 {
    open spec fn digest_writes(v: u128) -> Seq<Seq<u8>> {
        seq![wide_write(v)]
    }

    fn digest(&self, state: &mut DefaultHasher) {
        let w = *self;
        let arr: [u8; 16] = [
            (w & 0xff) as u8,
            ((w >> 8) & 0xff) as u8,
            ((w >> 16) & 0xff) as u8,
            ((w >> 24) & 0xff) as u8,
            ((w >> 32) & 0xff) as u8,
            ((w >> 40) & 0xff) as u8,
            ((w >> 48) & 0xff) as u8,
            ((w >> 56) & 0xff) as u8,
            ((w >> 64) & 0xff) as u8,
            ((w >> 72) & 0xff) as u8,
            ((w >> 80) & 0xff) as u8,
            ((w >> 88) & 0xff) as u8,
            ((w >> 96) & 0xff) as u8,
            ((w >> 104) & 0xff) as u8,
            ((w >> 112) & 0xff) as u8,
            ((w >> 120) & 0xff) as u8,
        ];
        state.write(arr.as_slice());
        proof {
            assert(w >> 0 == w) by (bit_vector);
            assert(arr@ =~= wide_write(w));
            assert(old(state)@.push(arr@) =~= old(state)@ + seq![wide_write(w)]);
        }
    }
}

impl Digest for char {
    open spec fn digest_writes(v: char) -> Seq<Seq<u8>> {
        seq![char_write(v)]
    }

    fn digest(&self, state: &mut DefaultHasher) {
        let u = *self as u32;
        let arr: [u8; 4] = [
            (u & 0xff) as u8,
            ((u >> 8) & 0xff) as u8,
            ((u >> 16) & 0xff) as u8,
            ((u >> 24) & 0xff) as u8,
        ];
        state.write(arr.as_slice());
        proof {
            assert(u >> 0 == u) by (bit_vector);
            assert(arr@ =~= char_write(*self));
            assert(old(state)@.push(arr@) =~= old(state)@ + seq![char_write(*self)]);
        }
    }
}

impl Digest for String {
    open spec fn digest_writes(v: Seq<char>) -> Seq<Seq<u8>> {
        Seq::new(v.len(), |i: int| char_write(v[i]))
    }

    fn digest(&self, state: &mut DefaultHasher) {
        let s = self.as_str();
        let n = s.unicode_len();
        let ghost sv = self@;
        let ghost pre = state@;
        let mut i: usize = 0;
        while i < n
            invariant
                n == sv.len(),
                sv == s@,
                i <= n,
                state@ == pre + Seq::new(i as nat, |j: int| char_write(sv[j])),
            decreases n - i,
        {
            let c = s.get_char(i);
            c.digest(state);
            proof {
                assert(pre + Seq::new((i + 1) as nat, |j: int| char_write(sv[j])) =~= (pre
                    + Seq::new(i as nat, |j: int| char_write(sv[j]))) + seq![char_write(c)]);
            }
            i = i + 1;
        }
        proof {
            assert(state@ =~= old(state)@ + Self::digest_writes(self.deep_view()));
        }
    }
}

impl Digest for VariantHeader {
    open spec fn digest_writes(v: VariantHeader) -> Seq<Seq<u8>> {
        Seq::empty()
    }

    fn digest(&self, _state: &mut DefaultHasher) {
        proof {
            assert(old(_state)@ + Seq::<Seq<u8>>::empty() =~= old(_state)@);
        }
    }
}

/// Feeds one slot content to the hasher.
fn digest_datum<'a>(d: &DatumRef<'a>, state: &mut DefaultHasher, Ghost(dv): Ghost<DatumView>)
    requires
        dv == d.deep_view(),
    ensures
        final(state)@ == old(state)@ + writes_of(d.deep_view()),
    decreases weight(dv),
{
    match d {
        DatumRef::Byte(b) => (*b).digest(state),
        DatumRef::Word(w) => (*w).digest(state),
        DatumRef::Wide(w) => (*w).digest(state),
        DatumRef::Text(s) => (*s).digest(state),
        DatumRef::Head(h) => h.digest(state),
        DatumRef::Kind(k) => {
            proof {
                lemma_kind_weight(k.deep_view());
            }
            (*k).digest(state)
        }
        DatumRef::Actor(a) => {
            proof {
                lemma_actor_weight(a.deep_view());
            }
            (*a).digest(state)
        }
        DatumRef::Director(dr) => {
            proof {
                lemma_director_weight(dr.deep_view());
            }
            (*dr).digest(state)
        }
        DatumRef::Movie(m) => {
            proof {
                lemma_movie_weight(m.deep_view());
            }
            (*m).digest(state)
        }
        DatumRef::Version(v) => {
            proof {
                lemma_version_weight(v.deep_view());
            }
            (*v).digest(state)
        }
        DatumRef::Point(p) => {
            proof {
                lemma_point_weight(p.deep_view());
            }
            (*p).digest(state)
        }
        DatumRef::Shape(s) => {
            proof {
                lemma_shape_weight(s.deep_view());
            }
            (*s).digest(state)
        }
    }
}

/// Feeds one plain slot to the hasher.
fn digest_slot<'a, S>(
    f: &RefField<DatumRef<'a>, S>,
    state: &mut DefaultHasher,
    Ghost(fv): Ghost<Option<DatumView>>,
)
    requires
        fv == f.deep_view(),
    ensures
        final(state)@ == old(state)@ + slot_writes(f.deep_view()),
    decreases slot_weight(fv),
{
    match &f.0 {
        Some(d) => digest_datum(d, state, Ghost(d.deep_view())),
        None => {
            proof {
                assert(state@ + Seq::<Seq<u8>>::empty() =~= state@);
            }
        }
    }
}

/// Feeds one enum-variant slot to the hasher: only a present payload of
/// the active variant contributes writes.
fn digest_var_slot<'a, S>(
    f: &VarRefField<DatumRef<'a>, S>,
    state: &mut DefaultHasher,
    Ghost(fv): Ghost<VarSlotView<DatumView>>,
)
    requires
        fv == f.deep_view(),
    ensures
        final(state)@ == old(state)@ + var_slot_writes(f.deep_view()),
    decreases var_slot_weight(fv),
{
    match f {
        VarRefField::Ref(f) => match &f.0 {
            Some(d) => digest_datum(d, state, Ghost(d.deep_view())),
            None => {
                proof {
                    assert(state@ + Seq::<Seq<u8>>::empty() =~= state@);
                }
            }
        },
        _ => {
            proof {
                assert(state@ + Seq::<Seq<u8>>::empty() =~= state@);
            }
        }
    }
}

/// Reduces a plain field sequence into the hasher, head to tail.
fn digest_fields<'a, S>(
    l: &List<RefField<DatumRef<'a>, S>>,
    state: &mut DefaultHasher,
    Ghost(lv): Ghost<Seq<Option<DatumView>>>,
)
    requires
        lv == l.deep_view(),
    ensures
        final(state)@ == old(state)@ + writes_of_slots(l.deep_view()),
    decreases slots_weight(lv),
{
    proof {
        lemma_list_unfold(*l);
    }
    match l {
        List::Nil => {
            proof {
                assert(state@ + Seq::<Seq<u8>>::empty() =~= state@);
            }
        }
        List::Cons(h, t) => {
            proof {
                assert(lv.skip(1) =~= t.deep_view());
            }
            digest_slot(h, state, Ghost(h.deep_view()));
            digest_fields(&**t, state, Ghost(t.deep_view()));
            proof {
                assert((old(state)@ + slot_writes(h.deep_view())) + writes_of_slots(t.deep_view())
                    =~= old(state)@ + writes_of_slots(l.deep_view()));
            }
        }
    }
}

/// As `digest_fields`, for an enum's flattened sequence.
fn digest_var_fields<'a, S>(
    l: &List<VarRefField<DatumRef<'a>, S>>,
    state: &mut DefaultHasher,
    Ghost(lv): Ghost<Seq<VarSlotView<DatumView>>>,
)
    requires
        lv == l.deep_view(),
    ensures
        final(state)@ == old(state)@ + var_writes_of_slots(l.deep_view()),
    decreases var_slots_weight(lv),
{
    proof {
        lemma_list_unfold(*l);
    }
    match l {
        List::Nil => {
            proof {
                assert(state@ + Seq::<Seq<u8>>::empty() =~= state@);
            }
        }
        List::Cons(h, t) => {
            proof {
                assert(lv.skip(1) =~= t.deep_view());
            }
            digest_var_slot(h, state, Ghost(h.deep_view()));
            digest_var_fields(&**t, state, Ghost(t.deep_view()));
            proof {
                assert((old(state)@ + var_slot_writes(h.deep_view())) + var_writes_of_slots(
                    t.deep_view(),
                ) =~= old(state)@ + var_writes_of_slots(l.deep_view()));
            }
        }
    }
}

impl Digest for Kind {
    open spec fn digest_writes(v: <Self as DeepView>::V) -> Seq<Seq<u8>> {
        var_writes_of_slots(kind_fields(v))
    }

    fn digest(&self, state: &mut DefaultHasher)
        decreases var_slots_weight(kind_fields(self.deep_view())) + 1,
    {
        let fields = self.fields();
        digest_var_fields(&fields, state, Ghost(fields.deep_view()));
    }
}

impl Digest for Actor {
    open spec fn digest_writes(v: <Self as DeepView>::V) -> Seq<Seq<u8>> {
        writes_of_slots(actor_fields(v))
    }

    fn digest(&self, state: &mut DefaultHasher)
        decreases slots_weight(actor_fields(self.deep_view())) + 1,
    {
        let fields = self.fields();
        digest_fields(&fields, state, Ghost(fields.deep_view()));
    }
}

impl Digest for Director {
    open spec fn digest_writes(v: <Self as DeepView>::V) -> Seq<Seq<u8>> {
        writes_of_slots(director_fields(v))
    }

    fn digest(&self, state: &mut DefaultHasher)
        decreases slots_weight(director_fields(self.deep_view())) + 1,
    {
        let fields = self.fields();
        digest_fields(&fields, state, Ghost(fields.deep_view()));
    }
}

impl Digest for Movie {
    open spec fn digest_writes(v: <Self as DeepView>::V) -> Seq<Seq<u8>> {
        writes_of_slots(movie_fields(v))
    }

    fn digest(&self, state: &mut DefaultHasher)
        decreases slots_weight(movie_fields(self.deep_view())) + 1,
    {
        let fields = self.fields();
        digest_fields(&fields, state, Ghost(fields.deep_view()));
    }
}

impl Digest for Version {
    open spec fn digest_writes(v: <Self as DeepView>::V) -> Seq<Seq<u8>> {
        var_writes_of_slots(version_fields(v))
    }

    fn digest(&self, state: &mut DefaultHasher)
        decreases var_slots_weight(version_fields(self.deep_view())) + 1,
    {
        let fields = self.fields();
        digest_var_fields(&fields, state, Ghost(fields.deep_view()));
    }
}

impl Digest for Point {
    open spec fn digest_writes(v: <Self as DeepView>::V) -> Seq<Seq<u8>> {
        writes_of_slots(point_fields(v))
    }

    fn digest(&self, state: &mut DefaultHasher)
        decreases slots_weight(point_fields(self.deep_view())) + 1,
    {
        let fields = self.fields();
        digest_fields(&fields, state, Ghost(fields.deep_view()));
    }
}

impl Digest for Shape {
    open spec fn digest_writes(v: <Self as DeepView>::V) -> Seq<Seq<u8>> {
        var_writes_of_slots(shape_fields(v))
    }

    fn digest(&self, state: &mut DefaultHasher)
        decreases var_slots_weight(shape_fields(self.deep_view())) + 1,
    {
        let fields = self.fields();
        digest_var_fields(&fields, state, Ghost(fields.deep_view()));
    }
}

/// The digest depends on the abstract content alone: two values of the
/// same aggregate with identical field values — nested aggregates included
/// — fed to hashers in identical states leave the hashers in identical
/// states, so their digests are identical.
pub proof fn lemma_identical_content_identical_digest<T: Digest>(
    pre: Seq<Seq<u8>>,
    a: <T as DeepView>::V,
    b: <T as DeepView>::V,
)
    requires
        a == b,
    ensures
        DefaultHasher::spec_finish(pre + T::digest_writes(a)) == DefaultHasher::spec_finish(
            pre + T::digest_writes(b),
        ),
{
}

} // verus!
