//! The per-interface registry of implementing component types.
//!
//! The registry is built once, during an explicit startup registration
//! phase, and is read-only while queries execute.  For each storage backend
//! it keeps two index-aligned lists: the component identifiers of the
//! implementing types, and the constructor handles through which a raw
//! storage location of that type is reinterpreted as an interface reference.
//! Insertion order is iteration order.

use vstd::prelude::*;

verus! {

/// Per implementing type, the handle naming the type-erasure constructor
/// that reinterprets its raw storage as an interface reference.
#[derive(Clone, Copy, PartialEq, Eq, Structural, Debug)]
pub struct TraitImplMeta {
    pub dyn_ctor: usize,
}

/// Which component types implement one interface, partitioned by the storage
/// backend that holds them, in registration order.
pub struct TraitImplRegistry {
    /// Identifiers of implementing components held in table storage.
    pub table_components: Vec<usize>,
    /// Constructor handles, index-aligned with `table_components`.
    pub table_meta: Vec<TraitImplMeta>,
    /// Identifiers of implementing components held in sparse-set storage.
    pub sparse_components: Vec<usize>,
    /// Constructor handles, index-aligned with `sparse_components`.
    pub sparse_meta: Vec<TraitImplMeta>,
}

impl TraitImplRegistry {
    /// Each backend's component list and constructor list are paired: equal
    /// length, index-aligned.
    pub open spec fn wf(self) -> bool {
        &&& self.table_components@.len() == self.table_meta@.len()
        &&& self.sparse_components@.len() == self.sparse_meta@.len()
    }

    /// An empty registry, the start of the registration phase.
    pub fn new() -> (r: TraitImplRegistry)
        ensures
            r.wf(),
            r.table_components@ =~= Seq::<usize>::empty(),
            r.table_meta@ =~= Seq::<TraitImplMeta>::empty(),
            r.sparse_components@ =~= Seq::<usize>::empty(),
            r.sparse_meta@ =~= Seq::<TraitImplMeta>::empty(),
    {
        TraitImplRegistry {
            table_components: Vec::new(),
            table_meta: Vec::new(),
            sparse_components: Vec::new(),
            sparse_meta: Vec::new(),
        }
    }

    /// Record that the table-resident component `component` implements the
    /// interface, reachable through `meta`'s constructor.  Appends, keeping
    /// the order of earlier registrations.
    pub fn register_table(&mut self, component: usize, meta: TraitImplMeta)
        requires
            old(self).wf(),
        ensures
            final(self).wf(),
            final(self).table_components@ == old(self).table_components@.push(component),
            final(self).table_meta@ == old(self).table_meta@.push(meta),
            final(self).sparse_components@ == old(self).sparse_components@,
            final(self).sparse_meta@ == old(self).sparse_meta@,
    {
        self.table_components.push(component);
        self.table_meta.push(meta);
    }

    /// Record that the sparse-set-resident component `component` implements
    /// the interface, reachable through `meta`'s constructor.
    pub fn register_sparse(&mut self, component: usize, meta: TraitImplMeta)
        requires
            old(self).wf(),
        ensures
            final(self).wf(),
            final(self).sparse_components@ == old(self).sparse_components@.push(component),
            final(self).sparse_meta@ == old(self).sparse_meta@.push(meta),
            final(self).table_components@ == old(self).table_components@,
            final(self).table_meta@ == old(self).table_meta@,
    {
        self.sparse_components.push(component);
        self.sparse_meta.push(meta);
    }
}

/// In a well-formed registry, each backend's entry list and constructor list
/// have equal length.
pub proof fn lemma_registry_lists_paired(r: TraitImplRegistry)
    requires
        r.wf(),
    ensures
        r.table_components@.len() == r.table_meta@.len(),
        r.sparse_components@.len() == r.sparse_meta@.len(),
{
}

} // verus!
