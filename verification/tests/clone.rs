use inception::data::{Actor, Director, Kind, Movie};
use inception::dupe::{Duplicate, MutDupe, OwnDupe};
use inception::sameness::Same;
use inception::standard::Standard;

#[test]
fn clone() {
    let mut data = Movie::standard();

    data.dupe_mut();
    data.dupe();
    data.dupe_owned();
}

#[test]
fn dupe_preserves_content() {
    let m = Movie {
        title: String::from("Inception"),
        year: 2010,
        lead: Actor {
            name: String::from("Leo"),
            kind: Kind::BigName { salary: 20_000_000 },
            net_worth: 300_000_000,
        },
        also_important: Actor {
            name: String::from("Joseph"),
            kind: Kind::Aspiring { salary: 200 },
            net_worth: 1_000_000,
        },
        director: Director { name: String::from("Christopher"), num_movies: 12, age: 55 },
    };
    let copy = m.dupe();
    assert!(copy.same(&m));

    let mut original = m.dupe();
    let taken_copy = original.dupe_mut();
    assert!(taken_copy.same(&m));
    assert!(original.same(&m));

    let consumed_copy = original.dupe_owned();
    assert!(consumed_copy.same(&m));
}
