use sidecar_supervisor::error::FatalError;
use sidecar_supervisor::port::{find_free_port, PortAssignment, PortPolicy, DEV_PORT};

#[test]
fn development_port_is_8765() {
    assert_eq!(DEV_PORT, 8765);
}

#[test]
fn fixed_policy_resolves_without_a_probe() {
    assert_eq!(PortPolicy::Fixed(9000).resolve_fixed(), Some(PortAssignment::Fixed(9000)));
    assert_eq!(PortPolicy::Fixed(0).resolve_fixed(), Some(PortAssignment::Fixed(0)));
    assert_eq!(PortPolicy::Fixed(65_535).resolve_fixed(), Some(PortAssignment::Fixed(65_535)));
}

#[test]
fn ephemeral_policy_waits_for_the_probe() {
    assert_eq!(PortPolicy::Ephemeral.resolve_fixed(), None);
}

#[test]
fn find_free_port_takes_the_port_that_was_assigned() {
    assert_eq!(find_free_port(Some(55_123)), Ok(PortAssignment::Ephemeral(55_123)));
    assert_eq!(find_free_port(Some(49_152)), Ok(PortAssignment::Ephemeral(49_152)));
}

#[test]
fn find_free_port_fails_when_the_bind_was_refused() {
    assert_eq!(find_free_port(None), Err(FatalError::PortAllocation));
}

#[test]
fn assignment_gives_its_port_under_either_policy() {
    assert_eq!(PortAssignment::Fixed(8765).port(), 8765);
    assert_eq!(PortAssignment::Ephemeral(51_000).port(), 51_000);
}
