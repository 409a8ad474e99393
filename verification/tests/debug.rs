use inception::data::{Kind, Movie, Point};
use inception::diag::{DiagRef, DiagTy};
use inception::standard::Standard;

#[test]
fn tydiag() {
    let s = Movie::diag();
    println!("{s}");
}

#[test]
fn refdiag() {
    let data = Movie::standard();
    let s = data.print();
    println!("{s}");
}

#[test]
fn point_type_diagram() {
    assert_eq!(Point::diag(), "Point {\n   u8\n   u8\n}");
}

#[test]
fn kind_type_diagram() {
    assert_eq!(Kind::diag(), "Kind {\n   0: __variant__\n   1: u64\n   2: __variant__\n   3: u8\n}");
}

#[test]
fn point_rendering() {
    let p = Point { x: 3, y: 4 };
    assert_eq!(p.print(), "Point {\n   0: 3\n   1: 4\n}");
}

#[test]
fn kind_rendering() {
    let k = Kind::BigName { salary: 7 };
    assert_eq!(
        k.print(),
        "Kind {\n   0: [[BigName]]\n   1: unnamed: 7\n   2: unnamed\n   3: unnamed\n}"
    );
    let k = Kind::Aspiring { salary: 9 };
    assert_eq!(
        k.print(),
        "Kind {\n   0: salary\n   1: unnamed\n   2: [[Aspiring]]\n   3: unnamed: 9\n}"
    );
}

#[test]
fn leaf_rendering() {
    assert_eq!(255u8.print(), "255");
    assert_eq!(0u64.print(), "0");
    assert_eq!(340_282_366_920_938_463_463u128.print(), "340282366920938463463");
    assert_eq!(String::from("hi").print(), "hi");
}
