//! The exactly-one change-filter fast path: per entity, "did the single
//! registered implementor change since the last run?", answered without
//! constructing an interface reference.
//!
//! A query instance starts unresolved.  When iteration enters an archetype,
//! [`OneChanged::set_archetype`] resolves, once, which backend holds the
//! implementor there — the registry's table entries are scanned first, being
//! the cheaper access path — and keeps a handle to that backend's changed
//! ticks.  Every entity of the archetype is then evaluated against the
//! resolved handle and the query's captured tick window.  Whether an
//! archetype may be visited at all is decided by the exactly-one membership
//! test ([`OneChanged::matches_component_set`]); an archetype that resolves
//! to neither backend should have been excluded by it, and the contracts
//! here rule that violation out rather than recover from it.

use vstd::prelude::*;
use crate::tick::Tick;
use crate::tick::tick_is_newer_than;
use crate::registry::TraitImplRegistry;
use crate::storage::ComponentSparseSet;
use crate::storage::SparseSets;
use crate::storage::Table;

verus! {

/// The identifiers of every component registered as an implementor of the
/// queried interface, table entries first, in registration order.
pub struct TraitQueryState {
    pub components: Vec<usize>,
}

impl TraitQueryState {
    /// Capture the registry's component list at query initialisation.
    pub fn init(registry: &TraitImplRegistry) -> (r: TraitQueryState)
        ensures
            r.components@ == registry.table_components@ + registry.sparse_components@,
    {
        let mut components: Vec<usize> = Vec::new();
        let mut i: usize = 0;
        while i < registry.table_components.len()
            invariant
                i <= registry.table_components@.len(),
                components@ == registry.table_components@.take(i as int),
            decreases registry.table_components@.len() - i,
        {
            components.push(registry.table_components[i]);
            i = i + 1;
            proof {
                assert(registry.table_components@.take(i as int) =~= registry.table_components@.take(
                    i as int - 1,
                ).push(registry.table_components@[i as int - 1]));
            }
        }
        proof {
            assert(registry.table_components@.take(registry.table_components@.len() as int)
                =~= registry.table_components@);
        }
        let mut j: usize = 0;
        while j < registry.sparse_components.len()
            invariant
                j <= registry.sparse_components@.len(),
                components@ == registry.table_components@ + registry.sparse_components@.take(
                    j as int,
                ),
            decreases registry.sparse_components@.len() - j,
        {
            components.push(registry.sparse_components[j]);
            j = j + 1;
            proof {
                assert(registry.table_components@ + registry.sparse_components@.take(j as int)
                    =~= (registry.table_components@ + registry.sparse_components@.take(
                    j as int - 1,
                )).push(registry.sparse_components@[j as int - 1]));
            }
        }
        proof {
            assert(registry.table_components@ + registry.sparse_components@.take(
                registry.sparse_components@.len() as int,
            ) =~= registry.table_components@ + registry.sparse_components@);
        }
        TraitQueryState { components }
    }
}

/// Which backend was found to hold the implementor for the archetype being
/// visited: unresolved at first, then terminal for the archetype.
pub enum ChangeDetectionStorage<'w> {
    /// Initial state, before any archetype was entered.
    Uninit,
    /// The implementor lives in the archetype's table: its changed-tick
    /// column, one cell per row.
    Table { ticks: &'w Vec<Tick> },
    /// The implementor lives in the sparse backend: its entity-keyed set.
    SparseSet { components: &'w ComponentSparseSet },
}

/// Per-query fetch state for the change filter: the resolution state, the
/// sparse backend to resolve against, and the captured tick window.
pub struct ChangeDetectionFetch<'w> {
    pub storage: ChangeDetectionStorage<'w>,
    pub sparse_sets: &'w SparseSets,
    pub last_run: Tick,
    pub this_run: Tick,
}

/// Index of the first component of `components` that `table` holds a column
/// for, or `-1` when it holds none of them.
pub open spec fn first_table_component(components: Seq<usize>, table: Table) -> int
    decreases components.len(),
{
    if components.len() == 0 {
        -1
    } else if table.spec_has_column(components[0]) {
        0
    } else {
        let rest = first_table_component(components.drop_first(), table);
        if rest < 0 {
            -1
        } else {
            rest + 1
        }
    }
}

/// Index of the first component of `components` that the sparse backend
/// holds a set for, or `-1` when it holds none of them.
pub open spec fn first_sparse_component(components: Seq<usize>, sparse_sets: SparseSets) -> int
    decreases components.len(),
{
    if components.len() == 0 {
        -1
    } else if sparse_sets.spec_has_set(components[0]) {
        0
    } else {
        let rest = first_sparse_component(components.drop_first(), sparse_sets);
        if rest < 0 {
            -1
        } else {
            rest + 1
        }
    }
}

/// At least one registered component resolves against this archetype's
/// table or against the sparse backend: the precondition under which
/// [`OneChanged::set_archetype`] can complete a resolution.
pub open spec fn spec_resolvable(components: Seq<usize>, table: Table, sparse_sets: SparseSets) -> bool {
    exists|i: int|
        0 <= i < components.len() && (table.spec_has_column(#[trigger] components[i])
            || sparse_sets.spec_has_set(components[i]))
}

/// How many registered candidates this archetype holds: components the
/// table has a column for, or the sparse backend has a set for.
pub open spec fn present_candidate_count(
    components: Seq<usize>,
    table: Table,
    sparse_sets: SparseSets,
) -> nat
    decreases components.len(),
{
    if components.len() == 0 {
        0
    } else {
        (if table.spec_has_column(components[0]) || sparse_sets.spec_has_set(components[0]) {
            1nat
        } else {
            0nat
        }) + present_candidate_count(components.drop_first(), table, sparse_sets)
    }
}

proof fn lemma_present_candidate_count_positive_iff_resolvable(
    components: Seq<usize>,
    table: Table,
    sparse_sets: SparseSets,
)
    ensures
        (present_candidate_count(components, table, sparse_sets) > 0) == spec_resolvable(
            components,
            table,
            sparse_sets,
        ),
    decreases components.len(),
{
    if components.len() == 0 {
    } else {
        lemma_present_candidate_count_positive_iff_resolvable(
            components.drop_first(),
            table,
            sparse_sets,
        );
        assert forall|i: int|
            1 <= i < components.len() implies components.drop_first()[i - 1] == components[i] by {}
        if table.spec_has_column(components[0]) || sparse_sets.spec_has_set(components[0]) {
            assert(spec_resolvable(components, table, sparse_sets));
        } else {
            if spec_resolvable(components, table, sparse_sets) {
                let i = choose|i: int|
                    0 <= i < components.len() && (table.spec_has_column(#[trigger] components[i])
                        || sparse_sets.spec_has_set(components[i]));
                assert(components.drop_first()[i - 1] == components[i]);
                assert(spec_resolvable(components.drop_first(), table, sparse_sets));
            }
            if spec_resolvable(components.drop_first(), table, sparse_sets) {
                let j = choose|j: int|
                    0 <= j < components.drop_first().len() && (table.spec_has_column(
                        #[trigger] components.drop_first()[j],
                    ) || sparse_sets.spec_has_set(components.drop_first()[j]));
                assert(components[j + 1] == components.drop_first()[j]);
                assert(spec_resolvable(components, table, sparse_sets));
            }
        }
    }
}

/// What a completed resolution holds: the changed-tick column of the first
/// registered component the table stores or, failing that, the sparse set of
/// the first registered component the sparse backend stores.
pub open spec fn spec_resolves_to(
    components: Seq<usize>,
    table: Table,
    sparse_sets: SparseSets,
    storage: ChangeDetectionStorage,
) -> bool {
    if first_table_component(components, table) >= 0 {
        storage matches ChangeDetectionStorage::Table { ticks } && ticks@ == table.columns@[
            table.column_index(components[first_table_component(components, table)])].changed@
    } else if first_sparse_component(components, sparse_sets) >= 0 {
        storage matches ChangeDetectionStorage::SparseSet { components: set } && *set
            == sparse_sets.set_of(components[first_sparse_component(components, sparse_sets)])
    } else {
        false
    }
}

/// The first-table-match index is a faithful first match: nonnegative
/// exactly when some component matches, in range, matching, and preceded
/// only by non-matches.
proof fn lemma_first_table_component_props(components: Seq<usize>, table: Table)
    ensures
        first_table_component(components, table) == -1 ==> forall|i: int|
            0 <= i < components.len() ==> !table.spec_has_column(#[trigger] components[i]),
        first_table_component(components, table) >= 0 ==> {
            let f = first_table_component(components, table);
            &&& 0 <= f < components.len()
            &&& table.spec_has_column(components[f])
            &&& forall|j: int| 0 <= j < f ==> !table.spec_has_column(#[trigger] components[j])
        },
    decreases components.len(),
{
    if components.len() == 0 {
    } else if table.spec_has_column(components[0]) {
    } else {
        lemma_first_table_component_props(components.drop_first(), table);
        assert forall|i: int|
            1 <= i < components.len() implies components.drop_first()[i - 1] == components[i] by {}
    }
}

/// The sparse counterpart of `lemma_first_table_component_props`.
proof fn lemma_first_sparse_component_props(components: Seq<usize>, sparse_sets: SparseSets)
    ensures
        first_sparse_component(components, sparse_sets) == -1 ==> forall|i: int|
            0 <= i < components.len() ==> !sparse_sets.spec_has_set(#[trigger] components[i]),
        first_sparse_component(components, sparse_sets) >= 0 ==> {
            let f = first_sparse_component(components, sparse_sets);
            &&& 0 <= f < components.len()
            &&& sparse_sets.spec_has_set(components[f])
            &&& forall|j: int| 0 <= j < f ==> !sparse_sets.spec_has_set(#[trigger] components[j])
        },
    decreases components.len(),
{
    if components.len() == 0 {
    } else if sparse_sets.spec_has_set(components[0]) {
    } else {
        lemma_first_sparse_component_props(components.drop_first(), sparse_sets);
        assert forall|i: int|
            1 <= i < components.len() implies components.drop_first()[i - 1] == components[i] by {}
    }
}

/// Filter for entities with exactly one component implementing an
/// interface, which was changed since the last time the query ran.
pub struct OneChanged;

impl OneChanged {
    /// A fresh, unresolved fetch over the store's sparse backend, carrying
    /// the query's captured tick window.
    pub fn init_fetch<'w>(sparse_sets: &'w SparseSets, last_run: Tick, this_run: Tick) -> (r:
        ChangeDetectionFetch<'w>)
        ensures
            r.storage is Uninit,
            r.sparse_sets == sparse_sets,
            r.last_run == last_run,
            r.this_run == this_run,
    {
        ChangeDetectionFetch { storage: ChangeDetectionStorage::Uninit, sparse_sets, last_run, this_run }
    }

    /// Membership test for visiting an archetype: does its component set
    /// contain *exactly one* registered implementor, counting both the
    /// table and the sparse backend?  An archetype that passes this test
    /// also resolves, so [`OneChanged::set_archetype`] may follow.
    pub fn matches_component_set(
        state: &TraitQueryState,
        table: &Table,
        sparse_sets: &SparseSets,
    ) -> (r: bool)
        requires
            table.wf(),
            sparse_sets.wf(),
        ensures
            r == (present_candidate_count(state.components@, *table, *sparse_sets) == 1),
            r ==> spec_resolvable(state.components@, *table, *sparse_sets),
    {
        let mut count: usize = 0;
        let mut i: usize = 0;
        proof {
            assert(state.components@.skip(0) =~= state.components@);
        }
        while i < state.components.len()
            invariant
                table.wf(),
                sparse_sets.wf(),
                i <= state.components@.len(),
                count <= i,
                count as nat + present_candidate_count(
                    state.components@.skip(i as int),
                    *table,
                    *sparse_sets,
                ) == present_candidate_count(state.components@, *table, *sparse_sets),
            decreases state.components@.len() - i,
        {
            let component = state.components[i];
            proof {
                assert(state.components@.skip(i as int).drop_first() =~= state.components@.skip(
                    i as int + 1,
                ));
            }
            let in_table = table.contains_component(component);
            let in_sparse = match sparse_sets.get(component) {
                Some(_) => true,
                None => false,
            };
            if in_table || in_sparse {
                count = count + 1;
            }
            i = i + 1;
        }
        proof {
            assert(state.components@.skip(state.components@.len() as int) =~= Seq::<
                usize,
            >::empty());
            lemma_present_candidate_count_positive_iff_resolvable(
                state.components@,
                *table,
                *sparse_sets,
            );
        }
        count == 1
    }

    /// Resolve, once per archetype, which backend holds the implementor:
    /// scan the registry's table entries first (the cheaper access path),
    /// then the sparse entries.  The archetype must satisfy the query's
    /// precondition — some registered component must resolve.
    pub fn set_archetype<'w>(
        fetch: &mut ChangeDetectionFetch<'w>,
        state: &TraitQueryState,
        table: &'w Table,
    )
        requires
            table.wf(),
            old(fetch).sparse_sets.wf(),
            spec_resolvable(state.components@, *table, *old(fetch).sparse_sets),
        ensures
            final(fetch).sparse_sets == old(fetch).sparse_sets,
            final(fetch).last_run == old(fetch).last_run,
            final(fetch).this_run == old(fetch).this_run,
            spec_resolves_to(
                state.components@,
                *table,
                *old(fetch).sparse_sets,
                final(fetch).storage,
            ),
    {
        let mut i: usize = 0;
        while i < state.components.len()
            invariant
                table.wf(),
                *fetch == *old(fetch),
                i <= state.components@.len(),
                forall|j: int|
                    0 <= j < i ==> !table.spec_has_column(#[trigger] state.components@[j]),
            decreases state.components@.len() - i,
        {
            let component = state.components[i];
            match table.get_changed_ticks_slice_for(component) {
                Some(changed) => {
                    proof {
                        lemma_first_table_component_props(state.components@, *table);
                        assert(first_table_component(state.components@, *table) == i);
                    }
                    fetch.storage = ChangeDetectionStorage::Table { ticks: changed };
                    return;
                },
                None => {},
            }
            i = i + 1;
        }
        let sparse_sets = fetch.sparse_sets;
        let mut i: usize = 0;
        while i < state.components.len()
            invariant
                table.wf(),
                sparse_sets.wf(),
                sparse_sets == old(fetch).sparse_sets,
                *fetch == *old(fetch),
                i <= state.components@.len(),
                forall|j: int|
                    0 <= j < state.components@.len() ==> !table.spec_has_column(
                        #[trigger] state.components@[j],
                    ),
                forall|j: int|
                    0 <= j < i ==> !sparse_sets.spec_has_set(#[trigger] state.components@[j]),
            decreases state.components@.len() - i,
        {
            let component = state.components[i];
            match sparse_sets.get(component) {
                Some(set) => {
                    proof {
                        lemma_first_table_component_props(state.components@, *table);
                        lemma_first_sparse_component_props(state.components@, *sparse_sets);
                        assert(first_table_component(state.components@, *table) == -1);
                        assert(first_sparse_component(state.components@, *sparse_sets) == i);
                    }
                    fetch.storage = ChangeDetectionStorage::SparseSet { components: set };
                    return;
                },
                None => {},
            }
            i = i + 1;
        }
        // Unreachable: the precondition promises that some registered
        // component resolves, and both scans found none.
        proof {
            assert(false);
        }
    }

    /// Evaluate one entity against the resolved backend: read its changed
    /// tick at the entity's row or key and compare it with the captured
    /// window.  Resolution must have happened, and the locator must be valid
    /// for the resolved backend.
    pub fn fetch(fetch: &mut ChangeDetectionFetch<'_>, entity: u64, table_row: usize) -> (r: bool)
        requires
            !(old(fetch).storage is Uninit),
            old(fetch).storage matches ChangeDetectionStorage::Table { ticks } ==> table_row
                < ticks@.len(),
            old(fetch).storage matches ChangeDetectionStorage::SparseSet { components: set }
                ==> set.wf() && set.spec_has_entity(entity),
        ensures
            *final(fetch) == *old(fetch),
            r == (match old(fetch).storage {
                ChangeDetectionStorage::Uninit => false,
                ChangeDetectionStorage::Table { ticks } => tick_is_newer_than(
                    ticks@[table_row as int].tick,
                    old(fetch).last_run.tick,
                    old(fetch).this_run.tick,
                ),
                ChangeDetectionStorage::SparseSet { components: set } => tick_is_newer_than(
                    set.changed_of(entity).tick,
                    old(fetch).last_run.tick,
                    old(fetch).this_run.tick,
                ),
            }),
    {
        let changed_tick: Tick = match &fetch.storage {
            ChangeDetectionStorage::Uninit => {
                // Excluded by the precondition; any value satisfies the
                // contract here.
                Tick::new(0)
            },
            ChangeDetectionStorage::Table { ticks } => ticks[table_row],
            ChangeDetectionStorage::SparseSet { components } => {
                match components.get_changed_tick(entity) {
                    Some(tick) => tick,
                    None => Tick::new(0),
                }
            },
        };
        changed_tick.is_newer_than(fetch.last_run, fetch.this_run)
    }

    /// The filter's per-entity answer is exactly `fetch`'s: did the
    /// implementor change inside the captured window?
    pub fn filter_fetch(fetch: &mut ChangeDetectionFetch<'_>, entity: u64, table_row: usize) -> (r:
        bool)
        requires
            !(old(fetch).storage is Uninit),
            old(fetch).storage matches ChangeDetectionStorage::Table { ticks } ==> table_row
                < ticks@.len(),
            old(fetch).storage matches ChangeDetectionStorage::SparseSet { components: set }
                ==> set.wf() && set.spec_has_entity(entity),
        ensures
            *final(fetch) == *old(fetch),
            r == (match old(fetch).storage {
                ChangeDetectionStorage::Uninit => false,
                ChangeDetectionStorage::Table { ticks } => tick_is_newer_than(
                    ticks@[table_row as int].tick,
                    old(fetch).last_run.tick,
                    old(fetch).this_run.tick,
                ),
                ChangeDetectionStorage::SparseSet { components: set } => tick_is_newer_than(
                    set.changed_of(entity).tick,
                    old(fetch).last_run.tick,
                    old(fetch).this_run.tick,
                ),
            }),
    {
        Self::fetch(fetch, entity, table_row)
    }

    /// Build the query state from the interface's registry.
    pub fn init_state(registry: &TraitImplRegistry) -> (r: TraitQueryState)
        ensures
            r.components@ == registry.table_components@ + registry.sparse_components@,
    {
        TraitQueryState::init(registry)
    }
}

} // verus!
