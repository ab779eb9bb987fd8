use trait_query::tick::Tick;
use trait_query::registry::{TraitImplMeta, TraitImplRegistry};
use trait_query::storage::{Column, ComponentSparseSet, SparseSets, Table};
use trait_query::one_changed::{ChangeDetectionStorage, OneChanged, TraitQueryState};

fn tick(t: u32) -> Tick {
    Tick::new(t)
}

fn state_of(components: &[usize]) -> TraitQueryState {
    TraitQueryState { components: components.to_vec() }
}

fn empty_sparse() -> SparseSets {
    SparseSets { components: vec![], sets: vec![] }
}

#[test]
fn init_state_concatenates_table_then_sparse() {
    let mut registry = TraitImplRegistry::new();
    registry.register_table(4, TraitImplMeta { dyn_ctor: 40 });
    registry.register_sparse(6, TraitImplMeta { dyn_ctor: 60 });
    registry.register_table(5, TraitImplMeta { dyn_ctor: 50 });
    let state = OneChanged::init_state(&registry);
    assert_eq!(state.components, vec![4, 5, 6]);
}

#[test]
fn matches_component_set_requires_exactly_one_present_implementor() {
    let table = Table {
        entities: vec![1],
        columns: vec![Column { component: 7, added: vec![tick(0)], changed: vec![tick(0)] }],
    };
    let sparse_sets = SparseSets {
        components: vec![8],
        sets: vec![ComponentSparseSet {
            entities: vec![1],
            added: vec![tick(0)],
            changed: vec![tick(0)],
        }],
    };
    // Exactly one candidate present: via the table, or via the sparse backend.
    assert!(OneChanged::matches_component_set(&state_of(&[7]), &table, &empty_sparse()));
    assert!(OneChanged::matches_component_set(&state_of(&[8]), &table, &sparse_sets));
    assert!(OneChanged::matches_component_set(&state_of(&[7, 9]), &table, &sparse_sets));
    // No candidate present.
    assert!(!OneChanged::matches_component_set(&state_of(&[9]), &table, &sparse_sets));
    assert!(!OneChanged::matches_component_set(&state_of(&[]), &table, &sparse_sets));
    // Two candidates present is too many for the exactly-one query.
    assert!(!OneChanged::matches_component_set(&state_of(&[7, 8]), &table, &sparse_sets));
}

#[test]
fn change_filter_resolves_table_and_tracks_window() {
    // Archetype with a single implementor, component 7, in table storage;
    // its added and changed ticks equal this_run = 5.
    let table = Table {
        entities: vec![42],
        columns: vec![Column { component: 7, added: vec![tick(5)], changed: vec![tick(5)] }],
    };
    let sparse_sets = empty_sparse();
    let state = state_of(&[7]);

    // A query whose window is (last_run = 2, this_run = 5) sees the change.
    let mut fetch = OneChanged::init_fetch(&sparse_sets, tick(2), tick(5));
    assert!(matches!(fetch.storage, ChangeDetectionStorage::Uninit));
    OneChanged::set_archetype(&mut fetch, &state, &table);
    assert!(matches!(fetch.storage, ChangeDetectionStorage::Table { .. }));
    assert!(OneChanged::fetch(&mut fetch, 42, 0));
    assert!(OneChanged::filter_fetch(&mut fetch, 42, 0));

    // A later query captures a window whose last_run has reached the
    // changed tick: the change is no longer reported.
    let mut later = OneChanged::init_fetch(&sparse_sets, tick(5), tick(9));
    OneChanged::set_archetype(&mut later, &state, &table);
    assert!(!OneChanged::fetch(&mut later, 42, 0));
    assert!(!OneChanged::filter_fetch(&mut later, 42, 0));
}

#[test]
fn change_filter_resolves_sparse_backend() {
    let table = Table { entities: vec![42], columns: vec![] };
    let sparse_sets = SparseSets {
        components: vec![3],
        sets: vec![ComponentSparseSet {
            entities: vec![42],
            added: vec![tick(4)],
            changed: vec![tick(4)],
        }],
    };
    let state = state_of(&[3]);
    let mut fetch = OneChanged::init_fetch(&sparse_sets, tick(2), tick(5));
    OneChanged::set_archetype(&mut fetch, &state, &table);
    assert!(matches!(fetch.storage, ChangeDetectionStorage::SparseSet { .. }));
    assert!(OneChanged::fetch(&mut fetch, 42, 0));

    let mut later = OneChanged::init_fetch(&sparse_sets, tick(4), tick(8));
    OneChanged::set_archetype(&mut later, &state, &table);
    assert!(!OneChanged::fetch(&mut later, 42, 0));
}

#[test]
fn change_filter_prefers_the_table_backend() {
    // Component 1 resolves via the table, component 2 via the sparse
    // backend; the table entry is found first even though the sparse
    // instance changed more recently.
    let table = Table {
        entities: vec![42],
        columns: vec![Column { component: 1, added: vec![tick(1)], changed: vec![tick(1)] }],
    };
    let sparse_sets = SparseSets {
        components: vec![2],
        sets: vec![ComponentSparseSet {
            entities: vec![42],
            added: vec![tick(9)],
            changed: vec![tick(9)],
        }],
    };
    let state = state_of(&[1, 2]);
    let mut fetch = OneChanged::init_fetch(&sparse_sets, tick(2), tick(10));
    OneChanged::set_archetype(&mut fetch, &state, &table);
    assert!(matches!(fetch.storage, ChangeDetectionStorage::Table { .. }));
    // The table instance's changed tick (1) lies outside the window (2, 10].
    assert!(!OneChanged::fetch(&mut fetch, 42, 0));
}
