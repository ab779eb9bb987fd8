//! The two storage backends a component store splits its data across, as the
//! read path of the query engine sees them.
//!
//! Table-resident storage is dense: all entities of one archetype share a
//! table, and each component type present in the archetype contributes one
//! column with a cell per row.  Sparse-set-resident storage is keyed by
//! entity, one set per component type.  The iteration engine only reads each
//! instance's added and changed ticks and the identity of its storage
//! location, so that is what these models hold.

use vstd::prelude::*;
use crate::tick::Tick;

verus! {

/// One table column: per row of the owning table, the added and changed
/// ticks of this component's instance in that row.
pub struct Column {
    pub component: usize,
    pub added: Vec<Tick>,
    pub changed: Vec<Tick>,
}

/// Dense storage for one archetype: the entities resident in it, row by
/// row, and one column per component type present in the archetype.
pub struct Table {
    pub entities: Vec<u64>,
    pub columns: Vec<Column>,
}

impl Table {
    /// Every column covers every row, and no component owns two columns.
    pub open spec fn wf(self) -> bool {
        &&& forall|i: int|
            0 <= i < self.columns@.len() ==> (#[trigger] self.columns@[i]).added@.len()
                == self.entities@.len() && self.columns@[i].changed@.len() == self.entities@.len()
        &&& forall|i: int, j: int|
            0 <= i < self.columns@.len() && 0 <= j < self.columns@.len() && i != j
                ==> (#[trigger] self.columns@[i]).component != (#[trigger] self.columns@[j]).component
    }

    /// Does this table hold a column for `component`?  An archetype either
    /// stores a component for all of its rows or for none of them.
    pub open spec fn spec_has_column(self, component: usize) -> bool {
        exists|i: int|
            0 <= i < self.columns@.len() && (#[trigger] self.columns@[i]).component == component
    }

    /// The index of `component`'s column; meaningful only when the column
    /// exists, and unique under `wf`.
    pub open spec fn column_index(self, component: usize) -> int {
        choose|i: int|
            0 <= i < self.columns@.len() && (#[trigger] self.columns@[i]).component == component
    }

    /// Added tick of `component`'s instance in row `row`.
    pub open spec fn added_at(self, component: usize, row: int) -> Tick {
        self.columns@[self.column_index(component)].added@[row]
    }

    /// Changed tick of `component`'s instance in row `row`.
    pub open spec fn changed_at(self, component: usize, row: int) -> Tick {
        self.columns@[self.column_index(component)].changed@[row]
    }

    /// Fast pre-check: does this table hold any rows for `component`?
    pub fn contains_component(&self, component: usize) -> (r: bool)
        ensures
            r == self.spec_has_column(component),
    {
        let mut i: usize = 0;
        while i < self.columns.len()
            invariant
                i <= self.columns@.len(),
                forall|j: int|
                    0 <= j < i ==> (#[trigger] self.columns@[j]).component != component,
            decreases self.columns@.len() - i,
        {
            if self.columns[i].component == component {
                return true;
            }
            i = i + 1;
        }
        false
    }

    /// Look up `component`'s column, if this table holds one.
    fn find_column(&self, component: usize) -> (r: Option<&Column>)
        requires
            self.wf(),
        ensures
            match r {
                Some(col) => self.spec_has_column(component) && *col == self.columns@[
                    self.column_index(component)],
                None => !self.spec_has_column(component),
            },
    {
        let mut i: usize = 0;
        while i < self.columns.len()
            invariant
                self.wf(),
                i <= self.columns@.len(),
                forall|j: int|
                    0 <= j < i ==> (#[trigger] self.columns@[j]).component != component,
            decreases self.columns@.len() - i,
        {
            if self.columns[i].component == component {
                return Some(&self.columns[i]);
            }
            i = i + 1;
        }
        None
    }

    /// Table adapter: the added and changed ticks of `component`'s instance
    /// in row `row`, or `None` when the component is absent from this table.
    pub fn get_ticks(&self, component: usize, row: usize) -> (r: Option<(Tick, Tick)>)
        requires
            self.wf(),
            row < self.entities@.len(),
        ensures
            match r {
                Some(ticks) => self.spec_has_column(component) && ticks.0 == self.added_at(
                    component,
                    row as int,
                ) && ticks.1 == self.changed_at(component, row as int),
                None => !self.spec_has_column(component),
            },
    {
        match self.find_column(component) {
            Some(col) => Some((col.added[row], col.changed[row])),
            None => None,
        }
    }

    /// The whole changed-tick column of `component`, or `None` when this
    /// table does not hold the component.
    pub fn get_changed_ticks_slice_for(&self, component: usize) -> (r: Option<&Vec<Tick>>)
        requires
            self.wf(),
        ensures
            match r {
                Some(ticks) => self.spec_has_column(component) && ticks@ == self.columns@[
                    self.column_index(component)].changed@,
                None => !self.spec_has_column(component),
            },
    {
        match self.find_column(component) {
            Some(col) => Some(&col.changed),
            None => None,
        }
    }
}

/// Sparse storage for one component type: entity-keyed instances with their
/// added and changed ticks, index-aligned across the three lists.
pub struct ComponentSparseSet {
    pub entities: Vec<u64>,
    pub added: Vec<Tick>,
    pub changed: Vec<Tick>,
}

impl ComponentSparseSet {
    /// The tick lists cover exactly the keyed entities, and no entity is
    /// keyed twice.
    pub open spec fn wf(self) -> bool {
        &&& self.added@.len() == self.entities@.len()
        &&& self.changed@.len() == self.entities@.len()
        &&& forall|i: int, j: int|
            0 <= i < self.entities@.len() && 0 <= j < self.entities@.len() && i != j
                ==> self.entities@[i] != self.entities@[j]
    }

    /// Does this set hold an instance for `entity`?
    pub open spec fn spec_has_entity(self, entity: u64) -> bool {
        self.entities@.contains(entity)
    }

    /// The index of `entity`'s instance; meaningful only when present, and
    /// unique under `wf`.
    pub open spec fn entity_index(self, entity: u64) -> int {
        choose|i: int| 0 <= i < self.entities@.len() && self.entities@[i] == entity
    }

    /// Added tick of `entity`'s instance.
    pub open spec fn added_of(self, entity: u64) -> Tick {
        self.added@[self.entity_index(entity)]
    }

    /// Changed tick of `entity`'s instance.
    pub open spec fn changed_of(self, entity: u64) -> Tick {
        self.changed@[self.entity_index(entity)]
    }

    /// Sparse adapter: the added and changed ticks of `entity`'s instance,
    /// or `None` when this set does not hold the entity.
    pub fn get_with_ticks(&self, entity: u64) -> (r: Option<(Tick, Tick)>)
        requires
            self.wf(),
        ensures
            match r {
                Some(ticks) => self.spec_has_entity(entity) && ticks.0 == self.added_of(entity)
                    && ticks.1 == self.changed_of(entity),
                None => !self.spec_has_entity(entity),
            },
    {
        let mut i: usize = 0;
        while i < self.entities.len()
            invariant
                self.wf(),
                i <= self.entities@.len(),
                forall|j: int| 0 <= j < i ==> self.entities@[j] != entity,
            decreases self.entities@.len() - i,
        {
            if self.entities[i] == entity {
                return Some((self.added[i], self.changed[i]));
            }
            i = i + 1;
        }
        None
    }

    /// The changed tick of `entity`'s instance alone, or `None` when absent.
    pub fn get_changed_tick(&self, entity: u64) -> (r: Option<Tick>)
        requires
            self.wf(),
        ensures
            match r {
                Some(tick) => self.spec_has_entity(entity) && tick == self.changed_of(entity),
                None => !self.spec_has_entity(entity),
            },
    {
        match self.get_with_ticks(entity) {
            Some(ticks) => Some(ticks.1),
            None => None,
        }
    }
}

/// All sparse-set storage of the store: one set per component type that has
/// sparse-resident instances, the two lists index-aligned.
pub struct SparseSets {
    pub components: Vec<usize>,
    pub sets: Vec<ComponentSparseSet>,
}

impl SparseSets {
    /// The set list covers exactly the listed components, each set is
    /// well formed, and no component owns two sets.
    pub open spec fn wf(self) -> bool {
        &&& self.components@.len() == self.sets@.len()
        &&& forall|i: int| 0 <= i < self.sets@.len() ==> (#[trigger] self.sets@[i]).wf()
        &&& forall|i: int, j: int|
            0 <= i < self.components@.len() && 0 <= j < self.components@.len() && i != j
                ==> self.components@[i] != self.components@[j]
    }

    /// Does any entity hold a sparse-resident instance of `component`?
    pub open spec fn spec_has_set(self, component: usize) -> bool {
        self.components@.contains(component)
    }

    /// The index of `component`'s set; meaningful only when it exists, and
    /// unique under `wf`.
    pub open spec fn set_index(self, component: usize) -> int {
        choose|i: int| 0 <= i < self.components@.len() && self.components@[i] == component
    }

    /// The sparse set holding `component`'s instances.
    pub open spec fn set_of(self, component: usize) -> ComponentSparseSet {
        self.sets@[self.set_index(component)]
    }

    /// Does the sparse backend hold an instance of `component` for `entity`?
    pub open spec fn spec_has(self, component: usize, entity: u64) -> bool {
        self.spec_has_set(component) && self.set_of(component).spec_has_entity(entity)
    }

    /// The sparse set of `component`, or `None` when no entity holds a
    /// sparse-resident instance of it.
    pub fn get(&self, component: usize) -> (r: Option<&ComponentSparseSet>)
        requires
            self.wf(),
        ensures
            match r {
                Some(set) => self.spec_has_set(component) && *set == self.set_of(component)
                    && set.wf(),
                None => !self.spec_has_set(component),
            },
    {
        let mut i: usize = 0;
        while i < self.components.len()
            invariant
                self.wf(),
                i <= self.components@.len(),
                forall|j: int| 0 <= j < i ==> self.components@[j] != component,
            decreases self.components@.len() - i,
        {
            if self.components[i] == component {
                assert(self.components@[i as int] == component);
                return Some(&self.sets[i]);
            }
            i = i + 1;
        }
        None
    }
}

} // verus!
