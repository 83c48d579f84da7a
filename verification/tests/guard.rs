use plan_schema::guard::{schema_is_eq, Subst};
use plan_schema::store::SchemaStore;

fn store_of(schemas: &[&[usize]]) -> SchemaStore {
    let mut store = SchemaStore::new();
    for schema in schemas {
        store.push(schema.to_vec());
    }
    store
}

#[test]
fn guard_is_reflexive() {
    let store = store_of(&[&[1, 2, 3]]);
    let mut subst = Subst::new();
    subst.bind(0, 0);
    assert!(schema_is_eq(0, 0, &subst, &store));
}

#[test]
fn guard_accepts_equal_schemas_of_distinct_classes() {
    let store = store_of(&[&[1, 2], &[1, 2]]);
    let mut subst = Subst::new();
    subst.bind(0, 0);
    subst.bind(1, 1);
    assert!(schema_is_eq(0, 1, &subst, &store));
    assert!(schema_is_eq(1, 0, &subst, &store));
}

#[test]
fn guard_rejects_same_columns_in_different_order() {
    let store = store_of(&[&[1, 2], &[2, 1]]);
    let mut subst = Subst::new();
    subst.bind(0, 0);
    subst.bind(1, 1);
    assert!(!schema_is_eq(0, 1, &subst, &store));
}

#[test]
fn guard_rejects_different_lengths() {
    let store = store_of(&[&[1], &[1, 2]]);
    let mut subst = Subst::new();
    subst.bind(0, 0);
    subst.bind(1, 1);
    assert!(!schema_is_eq(0, 1, &subst, &store));
}

#[test]
fn guard_rejects_different_columns() {
    let store = store_of(&[&[1, 2], &[1, 3]]);
    let mut subst = Subst::new();
    subst.bind(0, 0);
    subst.bind(1, 1);
    assert!(!schema_is_eq(0, 1, &subst, &store));
}

#[test]
fn bindings_resolve_to_the_bound_class() {
    let mut subst = Subst::new();
    subst.bind(3, 8);
    assert_eq!(subst.lookup(3), 8);
    subst.bind(0, 5);
    assert_eq!(subst.lookup(0), 5);
    assert_eq!(subst.lookup(3), 8);
    subst.bind(3, 9);
    assert_eq!(subst.lookup(3), 9);
}
