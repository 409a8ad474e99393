use inception::data::{Kind, Movie};
use inception::standard::Standard;

#[test]
fn default() {
    let _s = Movie::standard();
}

#[test]
fn standard_values() {
    let m = Movie::standard();
    assert_eq!(m.title, "");
    assert_eq!(m.year, 0);
    assert_eq!(m.lead.name, "");
    assert_eq!(m.lead.net_worth, 0);
    assert!(matches!(m.lead.kind, Kind::BigName { salary: 0 }));
    assert_eq!(m.director.num_movies, 0);
    assert_eq!(m.director.age, 0);

    let k = Kind::standard();
    assert!(matches!(k, Kind::BigName { salary: 0 }));
}
