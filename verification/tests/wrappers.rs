use inception::data::{Datum, Point, Shape};
use inception::dupe::{DupeOwned, DupeRef};
use inception::field::{Access, MutField, OwnedField, Phantom, RefField, VarOwnedField};
use inception::sameness::Same;
use inception::ty::List;
use inception::{Inception, Split, SplitRef, SplitTy, Wrapper};

#[test]
fn owned_wrappers() {
    let w: OwnedField<u8, Point> = OwnedField::new(5);
    assert!(matches!(w, OwnedField(Some(5), _)));
    let e: OwnedField<u8, Point> = OwnedField::empty();
    assert!(matches!(e, OwnedField(None, _)));

    let v: VarOwnedField<u8, Shape> = VarOwnedField::new(5);
    assert!(v.has_value());
    let h: VarOwnedField<u8, Shape> = VarOwnedField::header(1);
    assert!(h.has_value());
    let em: VarOwnedField<u8, Shape> = VarOwnedField::empty();
    assert!(!em.has_value());
}

#[test]
fn wrap_builds_a_slot() {
    let w: OwnedField<u8, Point> = Wrapper::wrap(9);
    assert!(matches!(w, OwnedField(Some(9), _)));
    let v: VarOwnedField<u8, Shape> = Wrapper::wrap(9);
    assert!(v.has_value());
}

#[test]
fn phantom_construction() {
    let l: List<RefField<u8, Point>> = List::phantom();
    assert!(matches!(l, List::Nil));
    let f: RefField<u8, Point> = RefField::phantom();
    assert!(matches!(f, RefField(None, _)));
    let c = f.copy();
    assert!(matches!(c, RefField(None, _)));
    let m: MutField<u8, Point> = MutField::phantom();
    assert!(matches!(m, MutField(None, _)));
}

#[test]
fn access_unwraps_payloads() {
    let w: OwnedField<u8, Point> = OwnedField::new(5);
    assert_eq!(w.access(), 5);
    let l: List<OwnedField<u8, Point>> = List::cons(
        OwnedField::new(1),
        List::cons(OwnedField::new(2), List::nil()),
    );
    let contents = l.access();
    let (a, rest) = contents.split();
    let (b, _) = rest.split();
    assert_eq!((a, b), (1, 2));
}

#[test]
fn ref_field_to_owned() {
    let r: RefField<u8, Point> = RefField::new(3);
    let o = r.to_owned();
    assert!(matches!(o, OwnedField(Some(3), _)));
    let e: RefField<u8, Point> = RefField::empty();
    assert!(matches!(e.to_owned(), OwnedField(None, _)));
}

#[test]
fn split_variants() {
    let l: List<u8> = List::cons(1, List::cons(2, List::nil()));
    let (h, t) = Split::<DupeOwned>::split(l);
    assert_eq!(h, 1);
    let (h2, _) = SplitTy::<inception::diag::Ty>::split_ty(t);
    assert_eq!(h2, 2);

    let l2: List<u8> = List::cons(7, List::nil());
    let (h3, rest) = SplitRef::<DupeRef>::split_ref(&l2);
    assert_eq!(h3, 7);
    assert!(matches!(rest, List::Nil));
}

#[test]
fn square_round_trip() {
    let s = Shape::Square(2, 3);
    let fields = s.into_fields();
    let (s0, rest) = fields.split();
    assert!(matches!(s0, VarOwnedField::Empty(_)));
    let (s1, rest) = rest.split();
    assert!(matches!(s1, VarOwnedField::Empty(_)));
    let (s2, rest) = rest.split();
    assert!(s2.has_value());
    let rebuilt = Shape::from_fields(
        List::cons(s0, List::cons(s1, List::cons(s2, rest))),
    );
    assert_eq!(rebuilt, Shape::Square(2, 3));
}

#[test]
fn datum_carries_aggregates() {
    let d = Datum::Point(Point { x: 1, y: 2 });
    match d {
        Datum::Point(p) => assert!(p.same(&Point { x: 1, y: 2 })),
        _ => panic!("a point datum holds a point"),
    }
}
