use inception::data::{Actor, Datum, Kind, Point, Shape};
use inception::field::{MutField, OwnedField, RefField, TryAccess, VarOwnedField, VarRefField,
    VarTyField, RefEnumAccessError, VariantHeader};
use inception::sameness::Same;
use inception::ty::{Interleave, IntoTuples, List, Mask, Pad, SplitOff};
use inception::Inception;

fn bytes(values: &[u8]) -> List<u8> {
    let mut l = List::nil();
    for v in values.iter().rev() {
        l = List::cons(*v, l);
    }
    l
}

fn to_vec(mut l: List<u8>) -> Vec<u8> {
    let mut out = Vec::new();
    loop {
        match l {
            List::Nil => return out,
            List::Cons(h, t) => {
                out.push(h);
                l = *t;
            }
        }
    }
}

#[test]
fn point_decomposes_to_its_bytes() {
    let p = Point { x: 3, y: 4 };
    let fields = p.into_fields();
    let (f0, rest) = fields.split();
    let (f1, _) = rest.split();
    assert!(matches!(f0, OwnedField(Some(Datum::Byte(3)), _)));
    assert!(matches!(f1, OwnedField(Some(Datum::Byte(4)), _)));
}

#[test]
fn point_reconstructs_from_bytes() {
    let fields = List::cons(
        OwnedField::new(Datum::Byte(3)),
        List::cons(OwnedField::new(Datum::Byte(4)), List::nil()),
    );
    let p = Point::from_fields(fields);
    assert_eq!(p, Point { x: 3, y: 4 });

    let changed = List::cons(
        OwnedField::new(Datum::Byte(3)),
        List::cons(OwnedField::new(Datum::Byte(5)), List::nil()),
    );
    let q = Point::from_fields(changed);
    assert_ne!(q, Point { x: 3, y: 4 });
}

#[test]
fn circle_round_trip() {
    let s = Shape::Circle(5);
    let fields = s.into_fields();

    let mut slots = Vec::new();
    let mut l = fields;
    loop {
        match l {
            List::Nil => break,
            List::Cons(h, t) => {
                slots.push(h);
                l = *t;
            }
        }
    }
    assert_eq!(slots.len(), 5);
    assert!(slots[0].has_value());
    assert!(matches!(slots[1], VarOwnedField::Owned(OwnedField(Some(Datum::Byte(5)), _))));
    assert!(matches!(slots[2], VarOwnedField::Empty(_)));
    assert!(matches!(slots[3], VarOwnedField::Empty(_)));
    assert!(matches!(slots[4], VarOwnedField::Empty(_)));

    let mut rebuilt = List::nil();
    while let Some(slot) = slots.pop() {
        rebuilt = List::cons(slot, rebuilt);
    }
    assert_eq!(Shape::from_fields(rebuilt), Shape::Circle(5));
}

#[test]
fn actor_round_trip() {
    let a = Actor {
        name: String::from("Leo"),
        kind: Kind::Aspiring { salary: 9 },
        net_worth: 77,
    };
    let reference = Actor {
        name: String::from("Leo"),
        kind: Kind::Aspiring { salary: 9 },
        net_worth: 77,
    };
    let rebuilt = Actor::from_fields(a.into_fields());
    assert!(rebuilt.same(&reference));
}

#[test]
fn kind_round_trip() {
    let k = Kind::Aspiring { salary: 9 };
    let rebuilt = Kind::from_fields(k.into_fields());
    assert!(rebuilt.same(&Kind::Aspiring { salary: 9 }));
}

#[test]
fn pad_places_block_at_offset() {
    let block: List<Option<u8>> = List::cons(Some(7), List::nil());
    let padded = block.pad((1, 4));
    let (a, rest) = padded.split();
    let (b, rest) = rest.split();
    let (c, rest) = rest.split();
    let (d, _) = rest.split();
    assert_eq!((a, b, c, d), (None, Some(7), None, None));
}

#[test]
fn mask_overlays_only_block_positions() {
    let flat = bytes(&[10, 20, 30, 40]);
    let block: List<Option<u8>> = List::cons(Some(7), List::nil());
    let mask = block.pad((1, 4));
    let masked = flat.mask(mask);
    assert_eq!(to_vec(masked), vec![10, 7, 30, 40]);
}

#[test]
fn split_off_extremes() {
    let l = bytes(&[1, 2, 3]);
    let w3: List<()> = List::cons((), List::cons((), List::cons((), List::nil())));
    let (left, right) = l.split_off(w3);
    assert_eq!(to_vec(left), vec![1, 2, 3]);
    assert_eq!(to_vec(right), Vec::<u8>::new());

    let l = bytes(&[1, 2, 3]);
    let w0: List<()> = List::nil();
    let (left, right) = l.split_off(w0);
    assert_eq!(to_vec(left), Vec::<u8>::new());
    assert_eq!(to_vec(right), vec![1, 2, 3]);
}

#[test]
fn split_off_middle() {
    let l = bytes(&[1, 2, 3, 4]);
    let w2: List<()> = List::cons((), List::cons((), List::nil()));
    let (left, right) = l.split_off(w2);
    assert_eq!(to_vec(left), vec![1, 2]);
    assert_eq!(to_vec(right), vec![3, 4]);
}

#[test]
fn interleave_alternates() {
    let a = bytes(&[1, 3]);
    let b = bytes(&[2, 4]);
    assert_eq!(to_vec(a.interleave(b)), vec![1, 2, 3, 4]);
}

#[test]
fn into_tuples_decomposes() {
    let l = bytes(&[1, 2]);
    let (head, tail) = l.into_tuples();
    assert_eq!(head, 1);
    assert_eq!(to_vec(tail), vec![2]);
}

#[test]
fn try_access_classifies_slots() {
    let real: VarRefField<u8, Kind> = VarRefField::new(9);
    assert!(matches!(real.try_access(), Ok(9)));

    let header: VarRefField<u8, Kind> = VarRefField::header(1);
    assert!(matches!(
        header.try_access(),
        Err(RefEnumAccessError::Header(RefField(Some(1), _)))
    ));

    let empty: VarRefField<u8, Kind> = VarRefField::empty();
    assert!(matches!(
        empty.try_access(),
        Err(RefEnumAccessError::EmptyField(VarTyField::Ty(_)))
    ));
}

#[test]
fn take_consumes_exactly_once() {
    let mut slot: MutField<u8, Point> = MutField::new(5);
    let taken = slot.take();
    assert!(matches!(taken, MutField(Some(5), _)));
    assert!(matches!(slot, MutField(None, _)));
    let again = slot.take();
    assert!(matches!(again, MutField(None, _)));
}

#[test]
fn type_only_slots_carry_no_value() {
    let slot: VarTyField<Datum, Kind> = VarTyField::new();
    assert!(!slot.has_value());
    let header: VarTyField<Datum, Kind> = VarTyField::header();
    assert!(!header.has_value());
    let _ = VariantHeader;
}
