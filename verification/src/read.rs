//! The combined iteration engine: read access to every implementor of an
//! interface present on one entity.
//!
//! A [`ReadTraits`] view bundles the registry, the entity's table row, the
//! sparse backend and the query's tick window.  Iteration scans the
//! registry's table entries in registration order, probing the table at the
//! view's row, then the sparse entries keyed by the view's entity, and
//! yields one [`TraitRef`] per *present* implementor: table results first,
//! then sparse results, each in registration order.  The view only reads
//! shared state, so iteration can be restarted at will and reproduces the
//! same sequence.

use vstd::prelude::*;
use crate::tick::MAX_CHANGE_AGE;
use crate::tick::Tick;
use crate::tick::lemma_tick_window;
use crate::tick::tick_is_newer_than;
use crate::registry::TraitImplMeta;
use crate::registry::TraitImplRegistry;
use crate::storage::SparseSets;
use crate::storage::Table;

verus! {

/// One interface reference yielded by the iteration engine: the component it
/// was built from, the constructor handle that reinterprets that component's
/// storage, and the tick snapshot attached at yield time.
#[derive(Clone, Copy, PartialEq, Eq, Structural, Debug)]
pub struct TraitRef {
    pub component: usize,
    pub dyn_ctor: usize,
    pub added: Tick,
    pub changed: Tick,
    pub last_run: Tick,
    pub this_run: Tick,
}

/// The reference's instance was added inside the captured tick window.
pub open spec fn spec_is_added(r: TraitRef) -> bool {
    tick_is_newer_than(r.added.tick, r.last_run.tick, r.this_run.tick)
}

/// The reference's instance was changed inside the captured tick window.
pub open spec fn spec_is_changed(r: TraitRef) -> bool {
    tick_is_newer_than(r.changed.tick, r.last_run.tick, r.this_run.tick)
}

/// The added-inside-the-window references of `s`, in order.
pub open spec fn added_refs(s: Seq<TraitRef>) -> Seq<TraitRef> {
    s.filter(|r: TraitRef| spec_is_added(r))
}

/// The changed-inside-the-window references of `s`, in order.
pub open spec fn changed_refs(s: Seq<TraitRef>) -> Seq<TraitRef> {
    s.filter(|r: TraitRef| spec_is_changed(r))
}

impl TraitRef {
    /// Was this instance created since the last run, as of the snapshot the
    /// reference carries?  Never re-reads the store.
    pub fn is_added(&self) -> (r: bool)
        ensures
            r == spec_is_added(*self),
    {
        self.added.is_newer_than(self.last_run, self.this_run)
    }

    /// Was this instance mutated since the last run, as of the snapshot the
    /// reference carries?  Never re-reads the store.
    pub fn is_changed(&self) -> (r: bool)
        ensures
            r == spec_is_changed(*self),
    {
        self.changed.is_newer_than(self.last_run, self.this_run)
    }
}

/// The references produced by scanning `components` (with their aligned
/// `meta` constructors) against the table backend at row `row`: one per
/// component the table holds, in list order.
pub open spec fn table_scan(
    components: Seq<usize>,
    meta: Seq<TraitImplMeta>,
    table: Table,
    row: int,
    last_run: Tick,
    this_run: Tick,
) -> Seq<TraitRef>
    decreases components.len(),
{
    if components.len() == 0 {
        Seq::empty()
    } else {
        let rest = table_scan(
            components.drop_first(),
            meta.drop_first(),
            table,
            row,
            last_run,
            this_run,
        );
        if table.spec_has_column(components[0]) {
            seq![
                TraitRef {
                    component: components[0],
                    dyn_ctor: meta[0].dyn_ctor,
                    added: table.added_at(components[0], row),
                    changed: table.changed_at(components[0], row),
                    last_run,
                    this_run,
                },
            ] + rest
        } else {
            rest
        }
    }
}

/// The references produced by scanning `components` against the sparse
/// backend keyed by `entity`: one per component stored for that entity, in
/// list order.
pub open spec fn sparse_scan(
    components: Seq<usize>,
    meta: Seq<TraitImplMeta>,
    sparse_sets: SparseSets,
    entity: u64,
    last_run: Tick,
    this_run: Tick,
) -> Seq<TraitRef>
    decreases components.len(),
{
    if components.len() == 0 {
        Seq::empty()
    } else {
        let rest = sparse_scan(
            components.drop_first(),
            meta.drop_first(),
            sparse_sets,
            entity,
            last_run,
            this_run,
        );
        if sparse_sets.spec_has(components[0], entity) {
            seq![
                TraitRef {
                    component: components[0],
                    dyn_ctor: meta[0].dyn_ctor,
                    added: sparse_sets.set_of(components[0]).added_of(entity),
                    changed: sparse_sets.set_of(components[0]).changed_of(entity),
                    last_run,
                    this_run,
                },
            ] + rest
        } else {
            rest
        }
    }
}

/// The components of `components` that the table backend holds, in order.
pub open spec fn table_present_components(components: Seq<usize>, table: Table) -> Seq<usize>
    decreases components.len(),
{
    if components.len() == 0 {
        Seq::empty()
    } else {
        let rest = table_present_components(components.drop_first(), table);
        if table.spec_has_column(components[0]) {
            seq![components[0]] + rest
        } else {
            rest
        }
    }
}

/// The components of `components` stored for `entity` in the sparse
/// backend, in order.
pub open spec fn sparse_present_components(
    components: Seq<usize>,
    sparse_sets: SparseSets,
    entity: u64,
) -> Seq<usize>
    decreases components.len(),
{
    if components.len() == 0 {
        Seq::empty()
    } else {
        let rest = sparse_present_components(components.drop_first(), sparse_sets, entity);
        if sparse_sets.spec_has(components[0], entity) {
            seq![components[0]] + rest
        } else {
            rest
        }
    }
}

/// Read access to all components implementing an interface for one entity:
/// the per-entity, per-query view the iteration engine walks.  Created fresh
/// for a visited row and discarded after; it only ever reads.
#[derive(Clone, Copy)]
pub struct ReadTraits<'a> {
    /// Read-only access to the interface's registry.
    pub registry: &'a TraitImplRegistry,
    /// The table backing the entity's archetype.
    pub table: &'a Table,
    /// The entity's row in that table.
    pub table_row: usize,
    /// Shared access to the sparse backend; only registered components are
    /// ever read through it.
    pub sparse_sets: &'a SparseSets,
    /// Tick window captured once at query start.
    pub last_run: Tick,
    pub this_run: Tick,
}

impl<'a> ReadTraits<'a> {
    pub open spec fn wf(self) -> bool {
        &&& self.registry.wf()
        &&& self.table.wf()
        &&& self.sparse_sets.wf()
        &&& self.table_row < self.table.entities@.len()
    }

    /// The entity resident in the view's table row.
    pub open spec fn spec_entity(self) -> u64 {
        self.table.entities@[self.table_row as int]
    }

    /// The full reference sequence this view denotes: table hits first, then
    /// sparse hits, each in registration order.
    pub open spec fn spec_iterate(self) -> Seq<TraitRef> {
        table_scan(
            self.registry.table_components@,
            self.registry.table_meta@,
            *self.table,
            self.table_row as int,
            self.last_run,
            self.this_run,
        ) + sparse_scan(
            self.registry.sparse_components@,
            self.registry.sparse_meta@,
            *self.sparse_sets,
            self.spec_entity(),
            self.last_run,
            self.this_run,
        )
    }
}

/// The table-backend phase of the iteration: scans the registry's table
/// entries from `index` on, probing the table at the view's row.
pub struct ReadTableTraitsIter<'a> {
    pub components: &'a Vec<usize>,
    pub meta: &'a Vec<TraitImplMeta>,
    pub index: usize,
    pub table: &'a Table,
    pub table_row: usize,
    pub last_run: Tick,
    pub this_run: Tick,
}

impl<'a> ReadTableTraitsIter<'a> {
    pub open spec fn wf(self) -> bool {
        &&& self.components@.len() == self.meta@.len()
        &&& self.index <= self.components@.len()
        &&& self.table.wf()
        &&& self.table_row < self.table.entities@.len()
    }

    /// The references this iterator still has to yield.
    pub open spec fn remaining(self) -> Seq<TraitRef> {
        table_scan(
            self.components@.skip(self.index as int),
            self.meta@.skip(self.index as int),
            *self.table,
            self.table_row as int,
            self.last_run,
            self.this_run,
        )
    }

    /// Yield a reference to the next registered implementor the table holds,
    /// advancing past absent entries, or `None` once the entries are
    /// exhausted.
    pub fn next(&mut self) -> (r: Option<TraitRef>)
        requires
            old(self).wf(),
        ensures
            final(self).wf(),
            final(self).components == old(self).components,
            final(self).meta == old(self).meta,
            final(self).table == old(self).table,
            final(self).table_row == old(self).table_row,
            final(self).last_run == old(self).last_run,
            final(self).this_run == old(self).this_run,
            match r {
                Some(item) => old(self).remaining() == seq![item] + final(self).remaining(),
                None => old(self).remaining() == Seq::<TraitRef>::empty()
                    && final(self).remaining() == Seq::<TraitRef>::empty(),
            },
    {
        while self.index < self.components.len()
            invariant
                self.wf(),
                self.components == old(self).components,
                self.meta == old(self).meta,
                self.table == old(self).table,
                self.table_row == old(self).table_row,
                self.last_run == old(self).last_run,
                self.this_run == old(self).this_run,
                self.remaining() == old(self).remaining(),
            decreases self.components@.len() - self.index,
        {
            let component = self.components[self.index];
            proof {
                assert(self.components@.skip(self.index as int).drop_first() =~= self.components@.skip(
                    self.index as int + 1,
                ));
                assert(self.meta@.skip(self.index as int).drop_first() =~= self.meta@.skip(
                    self.index as int + 1,
                ));
            }
            match self.table.get_ticks(component, self.table_row) {
                Some(ticks) => {
                    let item = TraitRef {
                        component,
                        dyn_ctor: self.meta[self.index].dyn_ctor,
                        added: ticks.0,
                        changed: ticks.1,
                        last_run: self.last_run,
                        this_run: self.this_run,
                    };
                    self.index = self.index + 1;
                    return Some(item);
                },
                None => {
                    self.index = self.index + 1;
                },
            }
        }
        proof {
            assert(self.components@.skip(self.index as int) =~= Seq::<usize>::empty());
        }
        None
    }
}

/// The sparse-backend phase of the iteration: scans the registry's sparse
/// entries from `index` on, probing the sparse sets with the view's entity.
pub struct ReadSparseTraitsIter<'a> {
    pub components: &'a Vec<usize>,
    pub meta: &'a Vec<TraitImplMeta>,
    pub index: usize,
    pub entity: u64,
    pub sparse_sets: &'a SparseSets,
    pub last_run: Tick,
    pub this_run: Tick,
}

impl<'a> ReadSparseTraitsIter<'a> {
    pub open spec fn wf(self) -> bool {
        &&& self.components@.len() == self.meta@.len()
        &&& self.index <= self.components@.len()
        &&& self.sparse_sets.wf()
    }

    /// The references this iterator still has to yield.
    pub open spec fn remaining(self) -> Seq<TraitRef> {
        sparse_scan(
            self.components@.skip(self.index as int),
            self.meta@.skip(self.index as int),
            *self.sparse_sets,
            self.entity,
            self.last_run,
            self.this_run,
        )
    }

    /// Yield a reference to the next registered implementor stored for the
    /// entity, advancing past absent entries, or `None` once the entries are
    /// exhausted.
    pub fn next(&mut self) -> (r: Option<TraitRef>)
        requires
            old(self).wf(),
        ensures
            final(self).wf(),
            final(self).components == old(self).components,
            final(self).meta == old(self).meta,
            final(self).entity == old(self).entity,
            final(self).sparse_sets == old(self).sparse_sets,
            final(self).last_run == old(self).last_run,
            final(self).this_run == old(self).this_run,
            match r {
                Some(item) => old(self).remaining() == seq![item] + final(self).remaining(),
                None => old(self).remaining() == Seq::<TraitRef>::empty()
                    && final(self).remaining() == Seq::<TraitRef>::empty(),
            },
    {
        while self.index < self.components.len()
            invariant
                self.wf(),
                self.components == old(self).components,
                self.meta == old(self).meta,
                self.entity == old(self).entity,
                self.sparse_sets == old(self).sparse_sets,
                self.last_run == old(self).last_run,
                self.this_run == old(self).this_run,
                self.remaining() == old(self).remaining(),
            decreases self.components@.len() - self.index,
        {
            let component = self.components[self.index];
            proof {
                assert(self.components@.skip(self.index as int).drop_first() =~= self.components@.skip(
                    self.index as int + 1,
                ));
                assert(self.meta@.skip(self.index as int).drop_first() =~= self.meta@.skip(
                    self.index as int + 1,
                ));
            }
            let found = match self.sparse_sets.get(component) {
                Some(set) => set.get_with_ticks(self.entity),
                None => None,
            };
            match found {
                Some(ticks) => {
                    let item = TraitRef {
                        component,
                        dyn_ctor: self.meta[self.index].dyn_ctor,
                        added: ticks.0,
                        changed: ticks.1,
                        last_run: self.last_run,
                        this_run: self.this_run,
                    };
                    self.index = self.index + 1;
                    return Some(item);
                },
                None => {
                    self.index = self.index + 1;
                },
            }
        }
        proof {
            assert(self.components@.skip(self.index as int) =~= Seq::<usize>::empty());
        }
        None
    }
}

/// Both phases chained: table results exhausted before sparse results begin.
pub struct CombinedReadTraitsIter<'a> {
    pub table_iter: ReadTableTraitsIter<'a>,
    pub sparse_iter: ReadSparseTraitsIter<'a>,
}

impl<'a> CombinedReadTraitsIter<'a> {
    pub open spec fn wf(self) -> bool {
        &&& self.table_iter.wf()
        &&& self.sparse_iter.wf()
    }

    /// The references this iterator still has to yield.
    pub open spec fn remaining(self) -> Seq<TraitRef> {
        self.table_iter.remaining() + self.sparse_iter.remaining()
    }

    /// Yield the next present implementor's reference: from the table phase
    /// while it lasts, then from the sparse phase.
    pub fn next(&mut self) -> (r: Option<TraitRef>)
        requires
            old(self).wf(),
        ensures
            final(self).wf(),
            match r {
                Some(item) => old(self).remaining() == seq![item] + final(self).remaining()
                    && final(self).remaining().len() < old(self).remaining().len(),
                None => old(self).remaining() == Seq::<TraitRef>::empty()
                    && final(self).remaining() == Seq::<TraitRef>::empty(),
            },
    {
        match self.table_iter.next() {
            Some(item) => {
                proof {
                    assert((seq![item] + self.table_iter.remaining())
                        + self.sparse_iter.remaining() =~= seq![item] + (
                    self.table_iter.remaining() + self.sparse_iter.remaining()));
                }
                Some(item)
            },
            None => {
                let r = self.sparse_iter.next();
                proof {
                    assert(Seq::<TraitRef>::empty() + self.sparse_iter.remaining()
                        =~= self.sparse_iter.remaining());
                    if let Some(item) = r {
                        assert(old(self).remaining() =~= seq![item] + self.remaining());
                    } else {
                        assert(old(self).remaining() =~= Seq::<TraitRef>::empty());
                    }
                }
                r
            },
        }
    }
}

impl<'a> ReadTraits<'a> {
    /// Build the chained iterator over the view: the registry's table
    /// entries first, then its sparse entries keyed by the view's entity.
    pub fn into_iter(self) -> (r: CombinedReadTraitsIter<'a>)
        requires
            self.wf(),
        ensures
            r.wf(),
            r.remaining() == self.spec_iterate(),
    {
        let table_iter = ReadTableTraitsIter {
            components: &self.registry.table_components,
            meta: &self.registry.table_meta,
            index: 0,
            table: self.table,
            table_row: self.table_row,
            last_run: self.last_run,
            this_run: self.this_run,
        };
        let sparse_iter = ReadSparseTraitsIter {
            components: &self.registry.sparse_components,
            meta: &self.registry.sparse_meta,
            index: 0,
            entity: self.table.entities[self.table_row],
            sparse_sets: self.sparse_sets,
            last_run: self.last_run,
            this_run: self.this_run,
        };
        proof {
            assert(self.registry.table_components@.skip(0) =~= self.registry.table_components@);
            assert(self.registry.table_meta@.skip(0) =~= self.registry.table_meta@);
            assert(self.registry.sparse_components@.skip(0) =~= self.registry.sparse_components@);
            assert(self.registry.sparse_meta@.skip(0) =~= self.registry.sparse_meta@);
        }
        CombinedReadTraitsIter { table_iter, sparse_iter }
    }

    /// All references to components implementing the interface for the
    /// view's entity, in iteration order.
    pub fn iter(&self) -> (r: Vec<TraitRef>)
        requires
            self.wf(),
        ensures
            r@ == self.spec_iterate(),
    {
        let mut it = self.into_iter();
        let mut out: Vec<TraitRef> = Vec::new();
        loop
            invariant_except_break
                it.wf(),
                out@ + it.remaining() == self.spec_iterate(),
            ensures
                out@ == self.spec_iterate(),
            decreases it.remaining().len(),
        {
            match it.next() {
                Some(item) => {
                    proof {
                        assert((out@ + (seq![item] + it.remaining())) =~= (out@.push(item)
                            + it.remaining()));
                    }
                    out.push(item);
                },
                None => {
                    proof {
                        assert(out@ + Seq::<TraitRef>::empty() =~= out@);
                    }
                    break;
                },
            }
        }
        out
    }

    /// The references of `iter` whose instances were added since the last
    /// run, judged by the snapshot each reference carries.
    pub fn iter_added(&self) -> (r: Vec<TraitRef>)
        requires
            self.wf(),
        ensures
            r@ == added_refs(self.spec_iterate()),
    {
        let all = self.iter();
        let mut out: Vec<TraitRef> = Vec::new();
        let mut i: usize = 0;
        while i < all.len()
            invariant
                i <= all@.len(),
                all@ == self.spec_iterate(),
                out@ == added_refs(all@.take(i as int)),
            decreases all@.len() - i,
        {
            let item = all[i];
            proof {
                reveal(Seq::filter);
                assert(all@.take(i as int + 1).drop_last() =~= all@.take(i as int));
                assert(all@.take(i as int + 1).last() == item);
            }
            if item.is_added() {
                out.push(item);
            }
            i = i + 1;
        }
        proof {
            assert(all@.take(all@.len() as int) =~= all@);
        }
        out
    }

    /// The references of `iter` whose instances were changed since the last
    /// run, judged by the snapshot each reference carries.
    pub fn iter_changed(&self) -> (r: Vec<TraitRef>)
        requires
            self.wf(),
        ensures
            r@ == changed_refs(self.spec_iterate()),
    {
        let all = self.iter();
        let mut out: Vec<TraitRef> = Vec::new();
        let mut i: usize = 0;
        while i < all.len()
            invariant
                i <= all@.len(),
                all@ == self.spec_iterate(),
                out@ == changed_refs(all@.take(i as int)),
            decreases all@.len() - i,
        {
            let item = all[i];
            proof {
                reveal(Seq::filter);
                assert(all@.take(i as int + 1).drop_last() =~= all@.take(i as int));
                assert(all@.take(i as int + 1).last() == item);
            }
            if item.is_changed() {
                out.push(item);
            }
            i = i + 1;
        }
        proof {
            assert(all@.take(all@.len() as int) =~= all@);
        }
        out
    }
}

/// Scanning yields exactly one reference per present component, in list
/// order: the components of the table phase's output are exactly the
/// registered table components the table holds.
proof fn lemma_table_scan_components(
    components: Seq<usize>,
    meta: Seq<TraitImplMeta>,
    table: Table,
    row: int,
    last_run: Tick,
    this_run: Tick,
)
    ensures
        table_scan(components, meta, table, row, last_run, this_run).map_values(
            |r: TraitRef| r.component,
        ) == table_present_components(components, table),
    decreases components.len(),
{
    if components.len() == 0 {
        assert(table_scan(components, meta, table, row, last_run, this_run).map_values(
            |r: TraitRef| r.component,
        ) =~= table_present_components(components, table));
    } else {
        lemma_table_scan_components(
            components.drop_first(),
            meta.drop_first(),
            table,
            row,
            last_run,
            this_run,
        );
        assert(table_scan(components, meta, table, row, last_run, this_run).map_values(
            |r: TraitRef| r.component,
        ) =~= table_present_components(components, table));
    }
}

/// The sparse counterpart of `lemma_table_scan_components`.
proof fn lemma_sparse_scan_components(
    components: Seq<usize>,
    meta: Seq<TraitImplMeta>,
    sparse_sets: SparseSets,
    entity: u64,
    last_run: Tick,
    this_run: Tick,
)
    ensures
        sparse_scan(components, meta, sparse_sets, entity, last_run, this_run).map_values(
            |r: TraitRef| r.component,
        ) == sparse_present_components(components, sparse_sets, entity),
    decreases components.len(),
{
    if components.len() == 0 {
        assert(sparse_scan(components, meta, sparse_sets, entity, last_run, this_run).map_values(
            |r: TraitRef| r.component,
        ) =~= sparse_present_components(components, sparse_sets, entity));
    } else {
        lemma_sparse_scan_components(
            components.drop_first(),
            meta.drop_first(),
            sparse_sets,
            entity,
            last_run,
            this_run,
        );
        assert(sparse_scan(components, meta, sparse_sets, entity, last_run, this_run).map_values(
            |r: TraitRef| r.component,
        ) =~= sparse_present_components(components, sparse_sets, entity));
    }
}

/// A view's iteration yields exactly one reference per present implementor
/// — `k` held by the table backend plus `m` held by the sparse backend —
/// and their components come in table-then-sparse, registration order.
pub proof fn lemma_iterate_one_per_present(v: ReadTraits)
    requires
        v.wf(),
    ensures
        v.spec_iterate().len() == table_present_components(
            v.registry.table_components@,
            *v.table,
        ).len() + sparse_present_components(
            v.registry.sparse_components@,
            *v.sparse_sets,
            v.spec_entity(),
        ).len(),
        v.spec_iterate().map_values(|r: TraitRef| r.component) == table_present_components(
            v.registry.table_components@,
            *v.table,
        ) + sparse_present_components(
            v.registry.sparse_components@,
            *v.sparse_sets,
            v.spec_entity(),
        ),
{
    lemma_table_scan_components(
        v.registry.table_components@,
        v.registry.table_meta@,
        *v.table,
        v.table_row as int,
        v.last_run,
        v.this_run,
    );
    lemma_sparse_scan_components(
        v.registry.sparse_components@,
        v.registry.sparse_meta@,
        *v.sparse_sets,
        v.spec_entity(),
        v.last_run,
        v.this_run,
    );
    assert(v.spec_iterate().map_values(|r: TraitRef| r.component) =~= table_scan(
        v.registry.table_components@,
        v.registry.table_meta@,
        *v.table,
        v.table_row as int,
        v.last_run,
        v.this_run,
    ).map_values(|r: TraitRef| r.component) + sparse_scan(
        v.registry.sparse_components@,
        v.registry.sparse_meta@,
        *v.sparse_sets,
        v.spec_entity(),
        v.last_run,
        v.this_run,
    ).map_values(|r: TraitRef| r.component));
}

/// An item is "added" exactly when its added tick is strictly newer than
/// `last_run` and no newer than `this_run`, judged on the snapshot the item
/// carries — provided neither the window nor the tick has outrun the
/// counter's clamping age.
pub proof fn lemma_item_added_iff_inside_window(r: TraitRef)
    requires
        r.last_run.tick <= r.this_run.tick,
        r.this_run.tick - r.last_run.tick <= MAX_CHANGE_AGE,
        r.added.tick <= r.this_run.tick,
        r.this_run.tick - r.added.tick <= MAX_CHANGE_AGE,
    ensures
        spec_is_added(r) == (r.last_run.tick < r.added.tick && r.added.tick <= r.this_run.tick),
{
    lemma_tick_window(r.added.tick, r.last_run.tick, r.this_run.tick);
}

/// The changed counterpart of `lemma_item_added_iff_inside_window`: an item
/// is "changed" exactly when its changed tick lies inside the window.
pub proof fn lemma_item_changed_iff_inside_window(r: TraitRef)
    requires
        r.last_run.tick <= r.this_run.tick,
        r.this_run.tick - r.last_run.tick <= MAX_CHANGE_AGE,
        r.changed.tick <= r.this_run.tick,
        r.this_run.tick - r.changed.tick <= MAX_CHANGE_AGE,
    ensures
        spec_is_changed(r) == (r.last_run.tick < r.changed.tick && r.changed.tick
            <= r.this_run.tick),
{
    lemma_tick_window(r.changed.tick, r.last_run.tick, r.this_run.tick);
}

/// Iteration is restartable: the view only reads shared state, so `iter`'s
/// contract pins its result to `spec_iterate`, and any two sequences
/// obtained from the same view are item-for-item identical.
pub proof fn lemma_iterate_restartable(v: ReadTraits, first: Seq<TraitRef>, second: Seq<TraitRef>)
    requires
        first == v.spec_iterate(),
        second == v.spec_iterate(),
    ensures
        first == second,
        first.len() == second.len(),
        forall|i: int| 0 <= i < first.len() ==> first[i] == second[i],
{
}

} // verus!
