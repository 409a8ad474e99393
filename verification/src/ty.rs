//! The positional field sequence and its algebra.
//!
//! A field sequence is a cons list: position 0 is the head, the remainder the
//! tail. The padding, masking and splitting operations let an enum's
//! per-variant field blocks live inside one flattened sequence whose
//! positions are disjoint: `pad` aligns a block to its global offset,
//! `mask` overlays a variant's wrappers onto a flattened sequence, and
//! `split_off` divides a sequence at a statically known position.

use vstd::prelude::*;

use crate::field::Phantom;

verus! {

/// A positional sequence of field slots, head first.
pub enum List<T> {
    Nil,
    Cons(T, Box<List<T>>),
}

/// The mathematical contents of a list, head first.
pub open spec fn list_view<T>(l: List<T>) -> Seq<T>
    decreases l,
{
    match l {
        List::Nil => Seq::empty(),
        List::Cons(h, t) => seq![h] + list_view(*t),
    }
}

impl<T> View for List<T> {
    type V = Seq<T>;

    open spec fn view(&self) -> Seq<T> {
        list_view(*self)
    }
}

impl<T: DeepView> DeepView for List<T> {
    type V = Seq<T::V>;

    open spec fn deep_view(&self) -> Seq<T::V> {
        self.view().map_values(|t: T| t.deep_view())
    }
}

/// Unfolds one step of a list's view.
pub proof fn lemma_view_unfold<T>(l: List<T>)
    ensures
        (match l {
            List::Nil => l@ == Seq::<T>::empty(),
            List::Cons(h, t) => l@ == seq![h] + t@,
        }),
{
    match l {
        List::Nil => {
        }
        List::Cons(h, t) => {
            assert(l@ =~= seq![h] + t@);
        }
    }
}

/// Unfolds one step of a list's view and deep view.
pub proof fn lemma_list_unfold<T: DeepView>(l: List<T>)
    ensures
        (match l {
            List::Nil => l@ == Seq::<T>::empty() && l.deep_view() == Seq::<T::V>::empty(),
            List::Cons(h, t) => l@ == seq![h] + t@ && l.deep_view() == seq![h.deep_view()]
                + t.deep_view(),
        }),
{
    match l {
        List::Nil => {
            assert(l.deep_view() =~= Seq::<T::V>::empty());
        }
        List::Cons(h, t) => {
            assert(l@ =~= seq![h] + t@);
            assert(l.deep_view() =~= seq![h.deep_view()] + t.deep_view());
        }
    }
}

impl<T> List<T> {
    /// The empty sequence.
    pub fn nil() -> (r: Self)
        ensures
            r@ == Seq::<T>::empty(),
            r is Nil,
    {
        List::Nil
    }

    /// Prepends a head to a sequence.
    pub fn cons(h: T, t: Self) -> (r: Self)
        ensures
            r@ == seq![h] + t@,
    {
        List::Cons(h, Box::new(t))
    }

    /// The number of slots.
    pub fn length(&self) -> (r: usize)
        requires
            self@.len() <= usize::MAX,
        ensures
            r == self@.len(),
        decreases *self,
    {
        match self {
            List::Nil => 0,
            List::Cons(_, t) => 1 + t.length(),
        }
    }

    /// Head and tail of a non-empty sequence.
    pub fn split(self) -> (r: (T, List<T>))
        requires
            self@.len() > 0,
        ensures
            r.0 == self@[0],
            r.1@ == self@.skip(1),
    {
        match self {
            List::Cons(h, t) => {
                proof {
                    assert(self@.skip(1) =~= t@);
                }
                (h, *t)
            }
            List::Nil => unreached(),
        }
    }

    /// Concatenation.
    pub fn append(self, other: Self) -> (r: Self)
        ensures
            r@ == self@ + other@,
        decreases self,
    {
        match self {
            List::Nil => {
                proof {
                    assert(self@ + other@ =~= other@);
                }
                other
            }
            List::Cons(h, t) => {
                let rest = t.append(other);
                let r = List::cons(h, rest);
                proof {
                    assert(r@ =~= self@ + other@);
                }
                r
            }
        }
    }
}

/// The empty field sequence: the base case that seeds every fold.
pub type Nothing = List<()>;

/// Sequence composition is associative, so nested aggregates' sequences
/// can be flattened and spliced without special-casing depth.
pub proof fn lemma_append_associative<T>(a: Seq<T>, b: Seq<T>, c: Seq<T>)
    ensures
        (a + b) + c == a + (b + c),
{
    assert((a + b) + c =~= a + (b + c));
}

/// Type-level truth, kept for capability flags computed per type.
pub struct True;

/// Type-level falsehood.
pub struct False;

/// The class of type-level truth values.
pub trait TruthValue {
}

impl TruthValue for True {
}

impl TruthValue for False {
}

/// Whether two slot types may stand in the same sequence.
pub trait Compat<T> {
    type Out: TruthValue;
}

impl<T> Compat<T> for T {
    type Out = True;
}

/// Alternates the slots of two sequences, heads first.
pub open spec fn interleave_view<T>(a: Seq<T>, b: Seq<T>) -> Seq<T>
    decreases a.len() + b.len(),
{
    if a.len() == 0 {
        b
    } else {
        seq![a[0]] + interleave_view(b, a.skip(1))
    }
}

/// Merges two sequences by alternating their slots.
pub trait Interleave<Rhs> {
    type Out;

    fn interleave(self, rhs: Rhs) -> Self::Out;
}

impl<T> Interleave<List<T>> for List<T> {
    type Out = List<T>;

    fn interleave(self, rhs: List<T>) -> (r: List<T>)
        ensures
            r@ == interleave_view(self@, rhs@),
        decreases self@.len() + rhs@.len(),
    {
        proof {
            lemma_view_unfold(self);
        }
        match self {
            List::Nil => rhs,
            List::Cons(h, t) => {
                let rest = rhs.interleave(*t);
                let r = List::cons(h, rest);
                proof {
                    assert(self@.skip(1) =~= t@);
                    assert(r@ =~= interleave_view(self@, rhs@));
                }
                r
            }
        }
    }
}

/// Decomposes a sequence into its head and the remaining tail.
pub trait IntoTuples: Sized {
    type Left;

    type Right;

    /// Whether the sequence has a head to decompose.
    spec fn decomposable(self) -> bool;

    fn into_tuples(self) -> (Self::Left, Self::Right)
        requires
            self.decomposable(),
    ;
}

impl<T> IntoTuples for List<T> {
    type Left = T;

    type Right = List<T>;

    open spec fn decomposable(self) -> bool {
        self@.len() > 0
    }

    fn into_tuples(self) -> (r: (T, List<T>))
        ensures
            r.0 == self@[0],
            r.1@ == self@.skip(1),
    {
        self.split()
    }
}

/// A block of `block` slots placed at `offset` inside a row of `width`
/// slots; every position outside the block holds the `empty` slot.
pub open spec fn pad_view<T>(block: Seq<T>, empty: T, offset: nat, width: nat) -> Seq<T> {
    if offset + block.len() <= width {
        Seq::new(offset, |i: int| empty) + block + Seq::new((width - offset - block.len()) as nat, |i: int| empty)
    } else {
        block
    }
}

/// Aligns a field block to its global offset, filling the rest of the row
/// with empty slots. The padding argument carries the block's offset and
/// the row's total width.
pub trait Pad<P>: Sized {
    type Out;

    /// Whether the block fits inside the row the padding describes.
    spec fn fits(self, padding: P) -> bool;

    fn pad(self, padding: P) -> Self::Out
        requires
            self.fits(padding),
    ;
}

/// Builds `n` empty slots.
fn empties<T: Phantom>(n: usize) -> (r: List<T>)
    ensures
        r@ == Seq::new(n as nat, |i: int| T::spec_phantom()),
    decreases n,
{
    if n == 0 {
        let r = List::nil();
        proof {
            assert(r@ =~= Seq::new(0, |i: int| T::spec_phantom()));
        }
        r
    } else {
        let rest = empties(n - 1);
        let r = List::cons(T::phantom(), rest);
        proof {
            assert(r@ =~= Seq::new(n as nat, |i: int| T::spec_phantom()));
        }
        r
    }
}

impl<T: Phantom> Pad<(usize, usize)> for List<T> {
    type Out = List<T>;

    open spec fn fits(self, padding: (usize, usize)) -> bool {
        padding.0 + self@.len() <= padding.1
    }

    fn pad(self, padding: (usize, usize)) -> (r: List<T>)
        ensures
            r@ == pad_view(self@, T::spec_phantom(), padding.0 as nat, padding.1 as nat),
    {
        proof {
            assert(self.fits(padding) == (padding.0 + self@.len() <= padding.1));
        }
        let (offset, width) = padding;
        let len = self.length();
        let front: List<T> = empties(offset);
        let back: List<T> = empties(width - offset - len);
        let r = front.append(self.append(back));
        proof {
            assert(r@ =~= pad_view(self@, T::spec_phantom(), offset as nat, width as nat));
        }
        r
    }
}

/// The overlay of a mask onto a flattened sequence: positions where the
/// mask holds a slot are replaced by it, all others pass through.
pub open spec fn mask_view<T>(flat: Seq<T>, m: Seq<Option<T>>) -> Seq<T> {
    Seq::new(
        flat.len(),
        |i: int|
            if i < m.len() && m[i] is Some {
                m[i]->0
            } else {
                flat[i]
            },
    )
}

/// Overlays a variant's field wrappers onto a flattened sequence.
pub trait Mask<M>: Sized {
    type Out;

    /// Whether the mask fits onto the sequence.
    spec fn maskable(self, mask: M) -> bool;

    fn mask(self, mask: M) -> Self::Out
        requires
            self.maskable(mask),
    ;
}

impl<T> Mask<List<Option<T>>> for List<T> {
    type Out = List<T>;

    open spec fn maskable(self, mask: List<Option<T>>) -> bool {
        mask@.len() <= self@.len()
    }

    fn mask(self, mask: List<Option<T>>) -> (r: List<T>)
        ensures
            r@ == mask_view(self@, mask@),
        decreases self,
    {
        let ghost s0 = self;
        proof {
            lemma_view_unfold(self);
            lemma_view_unfold(mask);
        }
        match self {
            List::Nil => {
                let r = List::<T>::nil();
                proof {
                    assert(r@ =~= mask_view(s0@, mask@));
                }
                r
            }
            List::Cons(h, t) => {
                match mask {
                    List::Nil => {
                        let r = List::Cons(h, t);
                        proof {
                            assert(r@ =~= mask_view(s0@, mask@));
                        }
                        r
                    }
                    List::Cons(m, mt) => {
                        let rest = t.mask(*mt);
                        let head = match m {
                            Some(s) => s,
                            None => h,
                        };
                        let r = List::cons(head, rest);
                        proof {
                            assert(r@ =~= mask_view(s0@, mask@));
                        }
                        r
                    }
                }
            }
        }
    }
}

/// Divides the pair's first sequence at the length of its second: the left
/// part holds everything before that position, the right part the rest.
pub trait SplitOffInfix: Sized {
    type Left;

    type Right;

    /// Whether the witness is no longer than the sequence it divides.
    spec fn splittable(self) -> bool;

    fn split_off_infix(self) -> (Self::Left, Self::Right)
        requires
            self.splittable(),
    ;
}

impl<T, U> SplitOffInfix for (List<T>, List<U>) {
    type Left = List<T>;

    type Right = List<T>;

    open spec fn splittable(self) -> bool {
        self.1@.len() <= self.0@.len()
    }

    fn split_off_infix(self) -> (r: (List<T>, List<T>))
        ensures
            r.0@ == self.0@.take(self.1@.len() as int),
            r.1@ == self.0@.skip(self.1@.len() as int),
        decreases self.1,
    {
        proof {
            assert(self.splittable() == (self.1@.len() <= self.0@.len()));
            lemma_view_unfold(self.1);
        }
        let (s, l) = self;
        match l {
            List::Nil => {
                let r = (List::nil(), s);
                proof {
                    assert(r.0@ =~= self.0@.take(0));
                    assert(r.1@ =~= self.0@.skip(0));
                }
                r
            }
            List::Cons(_, lt) => {
                proof {
                    lemma_view_unfold(s);
                }
                let (h, t) = s.split();
                let (a, b) = (t, *lt).split_off_infix();
                let left = List::cons(h, a);
                proof {
                    assert(left@ =~= self.0@.take(self.1@.len() as int));
                    assert(b@ =~= self.0@.skip(self.1@.len() as int));
                }
                (left, b)
            }
        }
    }
}

/// Divides a sequence at a statically known position, given as a witness
/// sequence of that length.
pub trait SplitOff<U>: Sized {
    type Left;

    type Right;

    /// Whether the witness is no longer than the sequence it divides.
    spec fn splittable_at(self, l: U) -> bool;

    fn split_off(self, l: U) -> (Self::Left, Self::Right)
        requires
            self.splittable_at(l),
    ;
}

impl<T, U> SplitOff<List<U>> for List<T> {
    type Left = List<T>;

    type Right = List<T>;

    open spec fn splittable_at(self, l: List<U>) -> bool {
        l@.len() <= self@.len()
    }

    fn split_off(self, l: List<U>) -> (r: (List<T>, List<T>))
        ensures
            r.0@ == self@.take(l@.len() as int),
            r.1@ == self@.skip(l@.len() as int),
    {
        proof {
            assert(self.splittable_at(l) == (l@.len() <= self@.len()));
            assert((self, l).splittable() == (l@.len() <= self@.len()));
        }
        (self, l).split_off_infix()
    }
}

/// Padding a block and then masking it onto a flattened row is a no-op for
/// every position outside the block: those positions keep whatever the
/// flattened row held, while the block's own positions take its slots.
pub proof fn lemma_pad_mask_no_op<T>(flat: Seq<T>, block: Seq<Option<T>>, offset: nat, width: nat)
    requires
        flat.len() == width,
        offset + block.len() <= width,
    ensures
        forall|i: int|
            0 <= i < offset || offset + block.len() <= i < width ==> #[trigger] mask_view(
                flat,
                pad_view(block, None, offset, width),
            )[i] == flat[i],
        forall|i: int|
            offset <= i < offset + block.len() && block[i - offset] is Some ==> #[trigger] mask_view(
                flat,
                pad_view(block, None, offset, width),
            )[i] == block[i - offset]->0,
{
}

/// Splitting a sequence of width `w` off at `w` yields the whole sequence
/// and an empty remainder; splitting off at width zero yields an empty
/// prefix and the whole sequence.
pub proof fn lemma_split_off_extremes<T>(s: Seq<T>)
    ensures
        s.take(s.len() as int) == s,
        s.skip(s.len() as int) == Seq::<T>::empty(),
        s.take(0) == Seq::<T>::empty(),
        s.skip(0) == s,
{
    assert(s.take(s.len() as int) =~= s);
    assert(s.skip(s.len() as int) =~= Seq::<T>::empty());
    assert(s.take(0) =~= Seq::<T>::empty());
    assert(s.skip(0) =~= s);
}

} // verus!
