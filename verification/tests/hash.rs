use std::collections::hash_map::DefaultHasher;
use std::hash::Hasher;

use inception::data::{Actor, Director, Kind, Movie};
use inception::digest::Digest;
use inception::standard::Standard;

#[test]
fn digest() {
    let mut h = DefaultHasher::new();
    let inception = Movie::standard();
    inception.digest(&mut h);
    let a = h.finish();

    let mut h = DefaultHasher::new();
    let leo = Actor::standard();
    leo.digest(&mut h);
    let b = h.finish();

    assert_ne!(a, b);
}

#[test]
fn identical_aggregates_identical_digests() {
    let build = || Movie {
        title: String::from("Inception"),
        year: 2010,
        lead: Actor {
            name: String::from("Leo"),
            kind: Kind::BigName { salary: 20_000_000 },
            net_worth: 300_000_000,
        },
        also_important: Actor {
            name: String::from("Joseph"),
            kind: Kind::Aspiring { salary: 200 },
            net_worth: 1_000_000,
        },
        director: Director { name: String::from("Christopher"), num_movies: 12, age: 55 },
    };

    let mut h1 = DefaultHasher::new();
    build().digest(&mut h1);
    let mut h2 = DefaultHasher::new();
    build().digest(&mut h2);
    assert_eq!(h1.finish(), h2.finish());
}

#[test]
fn leaf_change_changes_digest() {
    let mut h1 = DefaultHasher::new();
    Movie::standard().digest(&mut h1);

    let mut changed = Movie::standard();
    changed.year = 1;
    let mut h2 = DefaultHasher::new();
    changed.digest(&mut h2);

    assert_ne!(h1.finish(), h2.finish());
}
