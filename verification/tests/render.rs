use inception::data::{Actor, Kind, Version};
use inception::diag::{render_wide, DiagRef, DiagTy};
use inception::dupe::Duplicate;
use inception::sameness::Same;
use inception::standard::Standard;
use inception::Inception;

#[test]
fn nested_rendering() {
    let a = Actor {
        name: String::from("Leo"),
        kind: Kind::BigName { salary: 7 },
        net_worth: 5,
    };
    let expected = "Actor {\n   0: Leo\n   1: Kind {\n      0: [[BigName]]\n      1: unnamed: 7\n      2: unnamed\n      3: unnamed\n   }\n   2: 5\n}";
    assert_eq!(a.print(), expected);
}

#[test]
fn nested_type_diagram() {
    let expected = "Actor {\n   String\n   Kind {\n      0: __variant__\n      1: u64\n      2: __variant__\n      3: u8\n   }\n   u128\n}";
    assert_eq!(Actor::diag(), expected);
}

#[test]
fn decimal_rendering() {
    assert_eq!(render_wide(0), "0");
    assert_eq!(render_wide(9), "9");
    assert_eq!(render_wide(10), "10");
    assert_eq!(render_wide(105), "105");
    assert_eq!(render_wide(340_282_366_920_938_463_463_374_607_431_768_211_455), "340282366920938463463374607431768211455");
}

fn tenet() -> inception::data::Movie {
    let mut m: inception::data::Movie = Standard::standard();
    m.title = String::from("Tenet");
    m.year = 2020;
    m
}

#[test]
fn version_round_trip() {
    let v = Version::Two(tenet());
    let reference = Version::Two(tenet());
    let rebuilt = Version::from_fields(v.into_fields());
    assert!(rebuilt.same(&reference));
    assert!(!rebuilt.same(&Version::One(tenet())));
}

#[test]
fn version_duplicate() {
    let v = Version::One(tenet());
    let copy = v.dupe();
    assert!(copy.same(&Version::One(tenet())));
}

#[test]
fn standard_movie_prints() {
    let m = inception::data::Movie::standard();
    let s = m.print();
    assert!(s.starts_with("Movie {\n   0: \n   1: 0\n   2: Actor {"));
    assert!(s.ends_with("}"));
}
