use inception::data::{Actor, Kind, Movie};
use inception::sameness::{Different, Same};
use inception::standard::Standard;

#[test]
fn sameness() {
    let m = Movie::standard();
    assert!(m.same(&m));
}

#[test]
fn different() {
    let m = Movie::standard();
    assert!(!m.different(&m));
}

fn lead() -> Actor {
    Actor {
        name: String::from("Leo"),
        kind: Kind::BigName { salary: 20_000_000 },
        net_worth: 300_000_000,
    }
}

#[test]
fn identical_fields_compare_equal() {
    let a = lead();
    let b = lead();
    assert!(a.same(&b));
    assert!(!a.different(&b));
}

#[test]
fn changed_field_compares_unequal() {
    let a = lead();
    let mut b = lead();
    b.net_worth = 1;
    assert!(!a.same(&b));
    assert!(a.different(&b));

    let mut c = lead();
    c.kind = Kind::Aspiring { salary: 7 };
    assert!(!a.same(&c));

    let mut d = lead();
    d.name = String::from("Lea");
    assert!(!a.same(&d));
}

#[test]
fn enum_variants_compare_by_variant() {
    let a = Kind::BigName { salary: 5 };
    let b = Kind::BigName { salary: 5 };
    let c = Kind::BigName { salary: 6 };
    let d = Kind::Aspiring { salary: 5 };
    assert!(a.same(&b));
    assert!(!a.same(&c));
    assert!(!a.same(&d));
}
