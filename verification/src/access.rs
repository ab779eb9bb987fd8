//! Access-set computation: the read/write footprint an exactly-one
//! interface query declares to the host scheduler.
//!
//! The declaration itself is the store's `FilteredAccess` collection, held
//! here behind [`AccessDeclaration`] and reasoned about through three named
//! views of its contents — the set of components with declared access, the
//! set with declared exclusive access, and the `With`-filter sets in
//! disjunctive normal form.  Because exactly one implementor is present per
//! matched entity but which one varies by archetype, the computation unions
//! read access over *every* registered candidate and OR-composes the filter
//! sets, one disjunct per candidate.  Declaring shared access on a component
//! the query already accesses exclusively is a configuration error; the
//! checked entry point reports it instead of proceeding.

use vstd::prelude::*;
use bevy_ecs::component::ComponentId;
use bevy_ecs::query::FilteredAccess;
use crate::one_changed::OneChanged;
use crate::one_changed::TraitQueryState;

verus! {

/// A query's accumulated access declaration: the store's
/// `FilteredAccess<ComponentId>`, opaque to the verifier and described only
/// by the three named views below.
#[verifier::external_body]
pub struct AccessDeclaration {
    inner: FilteredAccess<ComponentId>,
}

/// The components (by index) the declaration has any access to, shared or
/// exclusive.
pub uninterp spec fn access_reads_and_writes(a: AccessDeclaration) -> Set<usize>;

/// The components (by index) the declaration has exclusive access to.
pub uninterp spec fn access_writes(a: AccessDeclaration) -> Set<usize>;

/// The declaration's filter sets in disjunctive normal form: per disjunct,
/// the components a matching archetype must contain (its `With` set).
pub uninterp spec fn access_filters(a: AccessDeclaration) -> Seq<Set<usize>>;

/// Relies on `FilteredAccess::default` (`matches_everything`): no access,
/// and a single empty filter set.
#[verifier::external_body]
fn filtered_access_new() -> (r: AccessDeclaration)
    ensures
        access_reads_and_writes(r) == Set::<usize>::empty(),
        access_writes(r) == Set::<usize>::empty(),
        access_filters(r) == seq![Set::<usize>::empty()],
{
    AccessDeclaration { inner: FilteredAccess::default() }
}

/// Relies on `FilteredAccess::clone`: a field-for-field copy of the access
/// bit sets and the filter sets.
#[verifier::external_body]
fn filtered_access_clone(a: &AccessDeclaration) -> (r: AccessDeclaration)
    ensures
        access_reads_and_writes(r) == access_reads_and_writes(*a),
        access_writes(r) == access_writes(*a),
        access_filters(r) == access_filters(*a),
{
    AccessDeclaration { inner: a.inner.clone() }
}

/// Relies on `Access::has_component_read`, reached through
/// `FilteredAccess::access`: membership of the component in the accessed
/// set.
#[verifier::external_body]
fn filtered_access_has_component_read(a: &AccessDeclaration, component: usize) -> (r: bool)
    ensures
        r == access_reads_and_writes(*a).contains(component),
{
    a.inner.access().has_component_read(ComponentId::new(component))
}

/// Relies on `Access::has_component_write`, reached through
/// `FilteredAccess::access`: membership of the component in the
/// exclusively-accessed set.
#[verifier::external_body]
fn filtered_access_has_component_write(a: &AccessDeclaration, component: usize) -> (r: bool)
    ensures
        r == access_writes(*a).contains(component),
{
    a.inner.access().has_component_write(ComponentId::new(component))
}

/// Relies on `Access::add_component_read`, reached through
/// `FilteredAccess::access_mut`: inserts the component into the accessed
/// set, leaving the exclusive set and the filter sets alone.
#[verifier::external_body]
fn filtered_access_add_access_read(a: &mut AccessDeclaration, component: usize)
    ensures
        access_reads_and_writes(*final(a)) == access_reads_and_writes(*old(a)).insert(component),
        access_writes(*final(a)) == access_writes(*old(a)),
        access_filters(*final(a)) == access_filters(*old(a)),
{
    a.inner.access_mut().add_component_read(ComponentId::new(component));
}

/// Relies on `FilteredAccess::add_component_read`: inserts the component
/// into the accessed set and ANDs a `With` clause for it onto every filter
/// set.
#[verifier::external_body]
fn filtered_access_add_component_read(a: &mut AccessDeclaration, component: usize)
    ensures
        access_reads_and_writes(*final(a)) == access_reads_and_writes(*old(a)).insert(component),
        access_writes(*final(a)) == access_writes(*old(a)),
        access_filters(*final(a)) == access_filters(*old(a)).map_values(
            |s: Set<usize>| s.insert(component),
        ),
{
    a.inner.add_component_read(ComponentId::new(component));
}

/// Relies on `FilteredAccess::add_component_write`: inserts the component
/// into both access sets and ANDs a `With` clause for it onto every filter
/// set.
#[verifier::external_body]
fn filtered_access_add_component_write(a: &mut AccessDeclaration, component: usize)
    ensures
        access_reads_and_writes(*final(a)) == access_reads_and_writes(*old(a)).insert(component),
        access_writes(*final(a)) == access_writes(*old(a)).insert(component),
        access_filters(*final(a)) == access_filters(*old(a)).map_values(
            |s: Set<usize>| s.insert(component),
        ),
{
    a.inner.add_component_write(ComponentId::new(component));
}

/// Relies on `FilteredAccess::and_with`: ANDs a `With` clause for the
/// component onto every filter set, leaving the access sets alone.
#[verifier::external_body]
fn filtered_access_and_with(a: &mut AccessDeclaration, component: usize)
    ensures
        access_reads_and_writes(*final(a)) == access_reads_and_writes(*old(a)),
        access_writes(*final(a)) == access_writes(*old(a)),
        access_filters(*final(a)) == access_filters(*old(a)).map_values(
            |s: Set<usize>| s.insert(component),
        ),
{
    a.inner.and_with(ComponentId::new(component));
}

/// Relies on `FilteredAccess::append_or`: appends the other declaration's
/// filter sets (a disjunction), leaving the access sets alone.
#[verifier::external_body]
fn filtered_access_append_or(a: &mut AccessDeclaration, other: &AccessDeclaration)
    ensures
        access_reads_and_writes(*final(a)) == access_reads_and_writes(*old(a)),
        access_writes(*final(a)) == access_writes(*old(a)),
        access_filters(*final(a)) == access_filters(*old(a)) + access_filters(*other),
{
    a.inner.append_or(&other.inner);
}

/// Relies on `Access::extend`, reached through
/// `FilteredAccess::extend_access`: unions both access sets with the other
/// declaration's, leaving the filter sets alone.
#[verifier::external_body]
fn filtered_access_extend_access(a: &mut AccessDeclaration, other: &AccessDeclaration)
    ensures
        access_reads_and_writes(*final(a)) == access_reads_and_writes(*old(a)).union(
            access_reads_and_writes(*other),
        ),
        access_writes(*final(a)) == access_writes(*old(a)).union(access_writes(*other)),
        access_filters(*final(a)) == access_filters(*old(a)),
{
    a.inner.extend_access(&other.inner);
}

impl AccessDeclaration {
    /// A fresh declaration: no access declared yet, one empty filter set.
    pub fn new() -> (r: AccessDeclaration)
        ensures
            access_reads_and_writes(r) == Set::<usize>::empty(),
            access_writes(r) == Set::<usize>::empty(),
            access_filters(r) == seq![Set::<usize>::empty()],
    {
        filtered_access_new()
    }

    /// Declare exclusive (write) access on `component`, as an earlier term
    /// of the query expression would have accumulated it.
    pub fn declare_component_write(&mut self, component: usize)
        ensures
            access_reads_and_writes(*final(self)) == access_reads_and_writes(*old(self)).insert(
                component,
            ),
            access_writes(*final(self)) == access_writes(*old(self)).insert(component),
            access_filters(*final(self)) == access_filters(*old(self)).map_values(
                |s: Set<usize>| s.insert(component),
            ),
    {
        filtered_access_add_component_write(self, component);
    }

    /// Does the declaration hold any access on `component`?
    pub fn declares_component_read(&self, component: usize) -> (r: bool)
        ensures
            r == access_reads_and_writes(*self).contains(component),
    {
        filtered_access_has_component_read(self, component)
    }

    /// Does the declaration hold exclusive access on `component`?
    pub fn declares_component_write(&self, component: usize) -> (r: bool)
        ensures
            r == access_writes(*self).contains(component),
    {
        filtered_access_has_component_write(self, component)
    }
}

/// Every filter set of `filters`, with a `With` clause for `component`
/// ANDed on.
pub open spec fn widened_filters(filters: Seq<Set<usize>>, component: usize) -> Seq<Set<usize>> {
    filters.map_values(|s: Set<usize>| s.insert(component))
}

/// The OR-composition the access computation builds: one copy of the
/// original filter sets per candidate component, each copy ANDed with a
/// `With` clause for its candidate, concatenated in candidate order.
pub open spec fn or_composed_filters(filters: Seq<Set<usize>>, components: Seq<usize>) -> Seq<
    Set<usize>,
>
    decreases components.len(),
{
    if components.len() == 0 {
        Seq::empty()
    } else {
        widened_filters(filters, components[0]) + or_composed_filters(
            filters,
            components.drop_first(),
        )
    }
}

proof fn lemma_or_composed_snoc(filters: Seq<Set<usize>>, components: Seq<usize>, component: usize)
    ensures
        or_composed_filters(filters, components.push(component)) == or_composed_filters(
            filters,
            components,
        ) + widened_filters(filters, component),
    decreases components.len(),
{
    if components.len() == 0 {
        assert(components.push(component)[0] == component);
        assert(components.push(component).drop_first() =~= Seq::<usize>::empty());
        assert(or_composed_filters(filters, Seq::<usize>::empty()) =~= Seq::<Set<usize>>::empty());
        assert(or_composed_filters(filters, components.push(component)) =~= or_composed_filters(
            filters,
            components,
        ) + widened_filters(filters, component));
    } else {
        lemma_or_composed_snoc(filters, components.drop_first(), component);
        assert(components.push(component).drop_first() =~= components.drop_first().push(component));
        assert(components.push(component)[0] == components[0]);
        assert(or_composed_filters(filters, components.push(component)) =~= or_composed_filters(
            filters,
            components,
        ) + widened_filters(filters, component));
    }
}

proof fn lemma_to_set_push(s: Seq<usize>, v: usize)
    ensures
        s.push(v).to_set() == s.to_set().insert(v),
{
    s.lemma_push_to_set_commute(v);
}

impl OneChanged {
    /// Derive the declaration an exactly-one query adds for its interface:
    /// shared read access on every registered candidate component, with the
    /// filter sets OR-composed over the candidates.  The query must not
    /// already hold exclusive access on any candidate; that configuration
    /// error is excluded here and reported by
    /// [`OneChanged::checked_update_component_access`].
    pub fn update_component_access(state: &TraitQueryState, access: &mut AccessDeclaration)
        requires
            forall|i: int|
                0 <= i < state.components@.len() ==> !access_writes(*old(access)).contains(
                    #[trigger] state.components@[i],
                ),
        ensures
            access_writes(*final(access)) == access_writes(*old(access)),
            access_reads_and_writes(*final(access)) == access_reads_and_writes(*old(access)).union(
                state.components@.to_set(),
            ),
            access_filters(*final(access)) == (if state.components@.len() == 0 {
                access_filters(*old(access))
            } else {
                or_composed_filters(access_filters(*old(access)), state.components@)
            }),
    {
        let mut new_access = filtered_access_clone(access);
        let mut not_first = false;
        let mut i: usize = 0;
        while i < state.components.len()
            invariant
                *access == *old(access),
                i <= state.components@.len(),
                not_first == (i > 0),
                access_writes(new_access) == access_writes(*old(access)),
                access_reads_and_writes(new_access) == access_reads_and_writes(*old(access)).union(
                    state.components@.take(i as int).to_set(),
                ),
                access_filters(new_access) == (if i == 0 {
                    access_filters(*old(access))
                } else {
                    or_composed_filters(
                        access_filters(*old(access)),
                        state.components@.take(i as int),
                    )
                }),
            decreases state.components@.len() - i,
        {
            let component = state.components[i];
            proof {
                assert(state.components@.take(i as int + 1) =~= state.components@.take(
                    i as int,
                ).push(component));
                lemma_to_set_push(state.components@.take(i as int), component);
            }
            if not_first {
                let mut intermediate = filtered_access_clone(access);
                filtered_access_add_component_read(&mut intermediate, component);
                filtered_access_append_or(&mut new_access, &intermediate);
                filtered_access_extend_access(&mut new_access, &intermediate);
                proof {
                    lemma_or_composed_snoc(
                        access_filters(*old(access)),
                        state.components@.take(i as int),
                        component,
                    );
                    assert(access_reads_and_writes(new_access) =~= access_reads_and_writes(
                        *old(access),
                    ).union(state.components@.take(i as int + 1).to_set()));
                }
            } else {
                filtered_access_and_with(&mut new_access, component);
                filtered_access_add_access_read(&mut new_access, component);
                not_first = true;
                proof {
                    assert(state.components@.take(1) =~= seq![component]);
                    assert(seq![component].drop_first() =~= Seq::<usize>::empty());
                    assert(or_composed_filters(
                        access_filters(*old(access)),
                        Seq::<usize>::empty(),
                    ) =~= Seq::<Set<usize>>::empty());
                    assert(seq![component][0] == component);
                    assert(or_composed_filters(
                        access_filters(*old(access)),
                        state.components@.take(1),
                    ) =~= widened_filters(access_filters(*old(access)), component));
                    assert(access_reads_and_writes(new_access) =~= access_reads_and_writes(
                        *old(access),
                    ).union(state.components@.take(1).to_set()));
                }
            }
            i = i + 1;
        }
        proof {
            assert(state.components@.take(state.components@.len() as int) =~= state.components@);
            if state.components@.len() == 0 {
                assert(access_reads_and_writes(new_access) =~= access_reads_and_writes(
                    *old(access),
                ).union(state.components@.to_set()));
            }
        }
        *access = new_access;
    }

    /// Like [`OneChanged::update_component_access`], but first checks the
    /// precondition at run time: if the query already declares exclusive
    /// access on a candidate component, the declaration is left untouched
    /// and the offending component is reported — shared and exclusive
    /// access cannot coexist.
    pub fn checked_update_component_access(
        state: &TraitQueryState,
        access: &mut AccessDeclaration,
    ) -> (r: Result<(), usize>)
        ensures
            r is Ok <==> (forall|i: int|
                0 <= i < state.components@.len() ==> !access_writes(*old(access)).contains(
                    #[trigger] state.components@[i],
                )),
            r is Ok ==> access_writes(*final(access)) == access_writes(*old(access))
                && access_reads_and_writes(*final(access)) == access_reads_and_writes(
                *old(access),
            ).union(state.components@.to_set()) && access_filters(*final(access)) == (
            if state.components@.len() == 0 {
                access_filters(*old(access))
            } else {
                or_composed_filters(access_filters(*old(access)), state.components@)
            }),
            r matches Err(component) ==> state.components@.contains(component) && access_writes(
                *old(access),
            ).contains(component) && *final(access) == *old(access),
    {
        let mut i: usize = 0;
        while i < state.components.len()
            invariant
                *access == *old(access),
                i <= state.components@.len(),
                forall|j: int|
                    0 <= j < i ==> !access_writes(*old(access)).contains(
                        #[trigger] state.components@[j],
                    ),
            decreases state.components@.len() - i,
        {
            let component = state.components[i];
            if filtered_access_has_component_write(access, component) {
                proof {
                    assert(state.components@[i as int] == component);
                }
                return Result::Err(component);
            }
            i = i + 1;
        }
        Self::update_component_access(state, access);
        Result::Ok(())
    }
}

/// Shared-read access-set computations compose without aborting.  The
/// computation demands no exclusive access on any candidate component and
/// — by [`OneChanged::update_component_access`]'s contract — leaves the
/// exclusive set exactly as it was; so a declaration that meets the demand
/// before one read-only computation still meets it after, and any number
/// of queries declaring only shared reads on the candidate set may
/// accumulate in turn.  A declaration that does hold exclusive access on a
/// candidate is refused instead:
/// [`OneChanged::checked_update_component_access`] then returns the
/// offending component and leaves the declaration untouched.
pub proof fn lemma_shared_read_computations_compose(
    before: AccessDeclaration,
    after: AccessDeclaration,
    state: TraitQueryState,
)
    requires
        forall|i: int|
            0 <= i < state.components@.len() ==> !access_writes(before).contains(
                #[trigger] state.components@[i],
            ),
        access_writes(after) == access_writes(before),
    ensures
        forall|i: int|
            0 <= i < state.components@.len() ==> !access_writes(after).contains(
                #[trigger] state.components@[i],
            ),
{
}

} // verus!
