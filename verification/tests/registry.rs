use inception::data::{Actor, Kind, Movie};
use inception::meta::{DataType, EnumMeta, Meta, Metadata, NamedFieldsMeta, StructMeta,
    VariantMeta, VariantOffset};

#[test]
fn struct_registry_entries() {
    assert_eq!(Actor::name(), "Actor");
    assert_eq!(Actor::num_fields(), 3);
    assert_eq!(Actor::field_names(), vec!["name", "kind", "net_worth"]);
    assert_eq!(Movie::field_names(), vec!["title", "year", "lead", "also_important", "director"]);
    match Actor::metadata() {
        Metadata::Struct { name, field_names } => {
            assert_eq!(name, "Actor");
            assert_eq!(field_names, vec!["name", "kind", "net_worth"]);
        }
        _ => panic!("an aggregate struct reports struct metadata"),
    }
}

#[test]
fn enum_registry_entries() {
    assert_eq!(Kind::name(), "Kind");
    assert_eq!(Kind::variant_names(), vec!["BigName", "Aspiring"]);
    assert_eq!(Kind::field_names(), vec![vec!["salary"], vec!["salary"]]);
    assert_eq!(Kind::variant_name(0), "BigName");
    assert_eq!(Kind::variant_name(1), "Aspiring");
    assert_eq!(Kind::offset(0), 0);
    assert_eq!(Kind::offset(1), 2);
    match Kind::metadata() {
        Metadata::Enum { name, variant_names, .. } => {
            assert_eq!(name, "Kind");
            assert_eq!(variant_names, vec!["BigName", "Aspiring"]);
        }
        _ => panic!("an aggregate enum reports enum metadata"),
    }
}
