//! Core engine for querying, on one entity of a component store, every
//! concrete component that implements a chosen behavioural interface.
//!
//! A [`registry::TraitImplRegistry`] records, per interface, which component
//! types implement it and through which constructor handle their storage is
//! reinterpreted as an interface reference.  Component data and its change
//! ticks live in one of two backends, modelled in [`storage`]: dense
//! table-resident columns and sparse entity-keyed sets.  The iteration engine
//! in [`read`] walks both backends in registration order, table entries
//! first, and yields one reference per present implementor, each carrying the
//! tick snapshot taken when it was produced.  [`one_changed`] holds the
//! fast-path filter that answers "did the single implementor change?" without
//! materialising a reference, and [`access`] derives the read/write footprint
//! such a query declares to the host scheduler.

pub mod tick;
pub mod registry;
pub mod storage;
pub mod read;
pub mod one_changed;
pub mod access;
