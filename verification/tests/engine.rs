use trait_query::tick::Tick;
use trait_query::registry::{TraitImplMeta, TraitImplRegistry};
use trait_query::storage::{Column, ComponentSparseSet, SparseSets, Table};
use trait_query::read::ReadTraits;

fn tick(t: u32) -> Tick {
    Tick::new(t)
}

/// One-row table holding columns for the given components, every cell
/// carrying the same added/changed ticks.
fn one_row_table(entity: u64, components: &[usize], added: u32, changed: u32) -> Table {
    Table {
        entities: vec![entity],
        columns: components
            .iter()
            .map(|&component| Column {
                component,
                added: vec![tick(added)],
                changed: vec![tick(changed)],
            })
            .collect(),
    }
}

fn sparse_with(component: usize, entity: u64, added: u32, changed: u32) -> SparseSets {
    SparseSets {
        components: vec![component],
        sets: vec![ComponentSparseSet {
            entities: vec![entity],
            added: vec![tick(added)],
            changed: vec![tick(changed)],
        }],
    }
}

fn empty_sparse() -> SparseSets {
    SparseSets { components: vec![], sets: vec![] }
}

#[test]
fn registry_lists_stay_paired() {
    let mut registry = TraitImplRegistry::new();
    registry.register_table(1, TraitImplMeta { dyn_ctor: 10 });
    registry.register_table(2, TraitImplMeta { dyn_ctor: 20 });
    registry.register_sparse(3, TraitImplMeta { dyn_ctor: 30 });
    assert_eq!(registry.table_components.len(), registry.table_meta.len());
    assert_eq!(registry.sparse_components.len(), registry.sparse_meta.len());
    assert_eq!(registry.table_components, vec![1, 2]);
    assert_eq!(registry.sparse_components, vec![3]);
    assert_eq!(registry.table_meta[1].dyn_ctor, 20);
}

#[test]
fn iterate_yields_table_then_sparse_in_registration_order() {
    // Entity 42 has implementor A (component 1) in table storage and
    // implementor B (component 2) in sparse storage, registered [A, B].
    let mut registry = TraitImplRegistry::new();
    registry.register_table(1, TraitImplMeta { dyn_ctor: 100 });
    registry.register_sparse(2, TraitImplMeta { dyn_ctor: 200 });
    let table = one_row_table(42, &[1], 3, 4);
    let sparse_sets = sparse_with(2, 42, 5, 6);
    let view = ReadTraits {
        registry: &registry,
        table: &table,
        table_row: 0,
        sparse_sets: &sparse_sets,
        last_run: tick(0),
        this_run: tick(10),
    };
    let refs = view.iter();
    assert_eq!(refs.len(), 2);
    assert_eq!(refs[0].component, 1);
    assert_eq!(refs[0].dyn_ctor, 100);
    assert_eq!(refs[0].added, tick(3));
    assert_eq!(refs[0].changed, tick(4));
    assert_eq!(refs[1].component, 2);
    assert_eq!(refs[1].dyn_ctor, 200);
    assert_eq!(refs[1].added, tick(5));
    assert_eq!(refs[1].changed, tick(6));
}

#[test]
fn iterate_with_no_present_implementor_is_empty() {
    // Components 1 and 2 are registered, but entity 7 holds neither.
    let mut registry = TraitImplRegistry::new();
    registry.register_table(1, TraitImplMeta { dyn_ctor: 100 });
    registry.register_sparse(2, TraitImplMeta { dyn_ctor: 200 });
    let table = one_row_table(7, &[], 0, 0);
    let sparse_sets = empty_sparse();
    let view = ReadTraits {
        registry: &registry,
        table: &table,
        table_row: 0,
        sparse_sets: &sparse_sets,
        last_run: tick(0),
        this_run: tick(10),
    };
    assert_eq!(view.iter().len(), 0);
    assert_eq!(view.iter_added().len(), 0);
    assert_eq!(view.iter_changed().len(), 0);
}

#[test]
fn iterate_counts_one_per_present_implementor() {
    // k = 2 present via the table, m = 1 present via the sparse backend;
    // a third table registration (component 9) is absent from this table.
    let mut registry = TraitImplRegistry::new();
    registry.register_table(1, TraitImplMeta { dyn_ctor: 100 });
    registry.register_table(9, TraitImplMeta { dyn_ctor: 900 });
    registry.register_table(2, TraitImplMeta { dyn_ctor: 200 });
    registry.register_sparse(3, TraitImplMeta { dyn_ctor: 300 });
    let table = one_row_table(11, &[1, 2], 1, 1);
    let sparse_sets = sparse_with(3, 11, 1, 1);
    let view = ReadTraits {
        registry: &registry,
        table: &table,
        table_row: 0,
        sparse_sets: &sparse_sets,
        last_run: tick(0),
        this_run: tick(2),
    };
    let refs = view.iter();
    assert_eq!(refs.len(), 3);
    let components: Vec<usize> = refs.iter().map(|r| r.component).collect();
    assert_eq!(components, vec![1, 2, 3]);
}

#[test]
fn iterate_twice_yields_identical_sequences() {
    let mut registry = TraitImplRegistry::new();
    registry.register_table(1, TraitImplMeta { dyn_ctor: 100 });
    registry.register_sparse(2, TraitImplMeta { dyn_ctor: 200 });
    let table = one_row_table(5, &[1], 8, 9);
    let sparse_sets = sparse_with(2, 5, 8, 9);
    let view = ReadTraits {
        registry: &registry,
        table: &table,
        table_row: 0,
        sparse_sets: &sparse_sets,
        last_run: tick(7),
        this_run: tick(9),
    };
    let first = view.iter();
    let second = view.iter();
    assert_eq!(first.len(), second.len());
    for i in 0..first.len() {
        assert_eq!(first[i], second[i]);
    }
}

#[test]
fn chained_iterator_matches_iter_and_exhausts() {
    let mut registry = TraitImplRegistry::new();
    registry.register_table(1, TraitImplMeta { dyn_ctor: 100 });
    registry.register_sparse(2, TraitImplMeta { dyn_ctor: 200 });
    let table = one_row_table(5, &[1], 1, 2);
    let sparse_sets = sparse_with(2, 5, 3, 4);
    let view = ReadTraits {
        registry: &registry,
        table: &table,
        table_row: 0,
        sparse_sets: &sparse_sets,
        last_run: tick(0),
        this_run: tick(10),
    };
    let collected = view.iter();
    let mut it = view.into_iter();
    let mut manual = Vec::new();
    while let Some(item) = it.next() {
        manual.push(item);
    }
    assert_eq!(manual, collected);
    assert!(it.next().is_none());
}

#[test]
fn added_and_changed_filters_respect_window_boundaries() {
    // Window (last_run = 2, this_run = 5): a tick equal to last_run is
    // excluded, a tick equal to this_run is included.
    let mut registry = TraitImplRegistry::new();
    registry.register_table(1, TraitImplMeta { dyn_ctor: 100 });
    registry.register_table(2, TraitImplMeta { dyn_ctor: 200 });
    registry.register_table(3, TraitImplMeta { dyn_ctor: 300 });
    let table = Table {
        entities: vec![42],
        columns: vec![
            // added at the window's lower bound, changed inside it
            Column { component: 1, added: vec![tick(2)], changed: vec![tick(3)] },
            // added at the window's upper bound, changed before it
            Column { component: 2, added: vec![tick(5)], changed: vec![tick(1)] },
            // added inside the window, changed at the upper bound
            Column { component: 3, added: vec![tick(4)], changed: vec![tick(5)] },
        ],
    };
    let sparse_sets = empty_sparse();
    let view = ReadTraits {
        registry: &registry,
        table: &table,
        table_row: 0,
        sparse_sets: &sparse_sets,
        last_run: tick(2),
        this_run: tick(5),
    };
    let added: Vec<usize> = view.iter_added().iter().map(|r| r.component).collect();
    assert_eq!(added, vec![2, 3]);
    let changed: Vec<usize> = view.iter_changed().iter().map(|r| r.component).collect();
    assert_eq!(changed, vec![1, 3]);
}

#[test]
fn tick_comparison_exact_values() {
    // tick == last_run is never newer; tick == this_run is newer exactly
    // when the window is not empty.
    assert_eq!(Tick::new(5).get(), 5);
    assert!(!Tick::new(2).is_newer_than(tick(2), tick(5)));
    assert!(Tick::new(5).is_newer_than(tick(2), tick(5)));
    assert!(!Tick::new(5).is_newer_than(tick(5), tick(5)));
    assert!(Tick::new(3).is_newer_than(tick(2), tick(5)));
    assert!(!Tick::new(1).is_newer_than(tick(2), tick(5)));
}

#[test]
fn tick_comparison_survives_counter_wraparound() {
    // The counter wrapped: this_run is numerically small, the tick and
    // last_run lie just below u32::MAX.
    let last_run = tick(u32::MAX - 1);
    let this_run = tick(1);
    assert!(Tick::new(0).is_newer_than(last_run, this_run));
    assert!(Tick::new(u32::MAX).is_newer_than(last_run, this_run));
    assert!(!Tick::new(u32::MAX - 1).is_newer_than(last_run, this_run));
    assert!(!Tick::new(u32::MAX - 2).is_newer_than(last_run, this_run));
}
