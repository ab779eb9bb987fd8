use trait_query::access::AccessDeclaration;
use trait_query::one_changed::{OneChanged, TraitQueryState};

fn state_of(components: &[usize]) -> TraitQueryState {
    TraitQueryState { components: components.to_vec() }
}

#[test]
fn fresh_declaration_declares_nothing() {
    let access = AccessDeclaration::new();
    assert!(!access.declares_component_read(1));
    assert!(!access.declares_component_write(1));
}

#[test]
fn update_declares_read_access_on_every_candidate() {
    let state = state_of(&[1, 2, 3]);
    let mut access = AccessDeclaration::new();
    OneChanged::update_component_access(&state, &mut access);
    for component in [1, 2, 3] {
        assert!(access.declares_component_read(component));
        assert!(!access.declares_component_write(component));
    }
    assert!(!access.declares_component_read(4));
}

#[test]
fn shared_read_declarations_compose_without_aborting() {
    // Two queries, each declaring only shared reads on interface X's
    // candidate set, both succeed.
    let state = state_of(&[1, 2]);
    let mut first = AccessDeclaration::new();
    let mut second = AccessDeclaration::new();
    assert_eq!(OneChanged::checked_update_component_access(&state, &mut first), Ok(()));
    assert_eq!(OneChanged::checked_update_component_access(&state, &mut second), Ok(()));
    // And a single query may accumulate shared reads over the candidates
    // more than once: reads never conflict with reads.
    assert_eq!(OneChanged::checked_update_component_access(&state, &mut first), Ok(()));
    assert!(first.declares_component_read(1));
    assert!(first.declares_component_read(2));
}

#[test]
fn write_on_a_candidate_aborts_the_computation() {
    // The query has already declared exclusive access on candidate 2;
    // declaring the interface's shared reads must be refused.
    let state = state_of(&[1, 2]);
    let mut access = AccessDeclaration::new();
    access.declare_component_write(2);
    assert!(access.declares_component_write(2));
    assert_eq!(
        OneChanged::checked_update_component_access(&state, &mut access),
        Err(2)
    );
    // The declaration was left untouched: no shared read on candidate 1
    // was added on the failed path.
    assert!(!access.declares_component_read(1));
}

#[test]
fn write_on_a_non_candidate_does_not_conflict() {
    let state = state_of(&[1, 2]);
    let mut access = AccessDeclaration::new();
    access.declare_component_write(9);
    assert_eq!(OneChanged::checked_update_component_access(&state, &mut access), Ok(()));
    assert!(access.declares_component_read(1));
    assert!(access.declares_component_read(2));
    assert!(access.declares_component_write(9));
    assert!(!access.declares_component_write(1));
}

#[test]
fn update_with_no_candidates_changes_nothing() {
    let state = state_of(&[]);
    let mut access = AccessDeclaration::new();
    assert_eq!(OneChanged::checked_update_component_access(&state, &mut access), Ok(()));
    assert!(!access.declares_component_read(1));
}
