use cca::error::Error;
use cca::ipa::ipa_width;
use cca::lifecycle::{advance, op_allowed, RealmOp, RealmState};

const ALL_STATES: [RealmState; 6] = [
    RealmState::Created,
    RealmState::MeasurementConfigured,
    RealmState::DescriptorCreated,
    RealmState::Populated,
    RealmState::Initiated,
    RealmState::Activated,
];

const ALL_OPS: [RealmOp; 5] = [
    RealmOp::ConfigureMeasurement,
    RealmOp::CreateDescriptor,
    RealmOp::Populate,
    RealmOp::Initiate,
    RealmOp::Activate,
];

fn precondition_states(op: RealmOp) -> Vec<RealmState> {
    match op {
        RealmOp::ConfigureMeasurement => vec![RealmState::Created],
        RealmOp::CreateDescriptor => vec![RealmState::MeasurementConfigured],
        RealmOp::Populate => vec![RealmState::DescriptorCreated, RealmState::Populated],
        RealmOp::Initiate => vec![RealmState::Populated],
        RealmOp::Activate => vec![RealmState::Initiated],
    }
}

#[test]
fn every_op_fails_with_state_error_outside_its_precondition() {
    for op in ALL_OPS {
        let allowed = precondition_states(op);
        for s in ALL_STATES {
            if allowed.contains(&s) {
                assert!(op_allowed(op, s));
                assert!(advance(s, op).is_ok());
            } else {
                assert!(!op_allowed(op, s));
                assert_eq!(advance(s, op), Err(Error::State));
            }
        }
    }
}

#[test]
fn configure_measurement_twice_fails() {
    let s = advance(RealmState::Created, RealmOp::ConfigureMeasurement).unwrap();
    assert_eq!(s, RealmState::MeasurementConfigured);
    assert_eq!(advance(s, RealmOp::ConfigureMeasurement), Err(Error::State));
}

#[test]
fn populate_is_repeatable() {
    let s = advance(RealmState::DescriptorCreated, RealmOp::Populate).unwrap();
    assert_eq!(s, RealmState::Populated);
    let s = advance(s, RealmOp::Populate).unwrap();
    assert_eq!(s, RealmState::Populated);
}

#[test]
fn full_lifecycle_in_order_then_sealed() {
    // The ordered walk a caller drives a Realm through, as the lifecycle
    // core sees it: create with a bound needing 33 bits of address space,
    // then the five configuration steps in their fixed sequence.
    assert_eq!(ipa_width(0x10FFF), 33);
    let mut s = RealmState::Created;
    s = advance(s, RealmOp::ConfigureMeasurement).unwrap();
    s = advance(s, RealmOp::CreateDescriptor).unwrap();
    s = advance(s, RealmOp::Populate).unwrap();
    s = advance(s, RealmOp::Initiate).unwrap();
    s = advance(s, RealmOp::Activate).unwrap();
    assert_eq!(s, RealmState::Activated);
    // Activated is terminal: every further configuration call fails.
    for op in ALL_OPS {
        assert_eq!(advance(s, op), Err(Error::State));
    }
}

#[test]
fn no_step_may_be_skipped() {
    // From each state of the forward walk, the next-but-one operation is
    // rejected before any request is issued.
    assert_eq!(
        advance(RealmState::Created, RealmOp::CreateDescriptor),
        Err(Error::State)
    );
    assert_eq!(
        advance(RealmState::MeasurementConfigured, RealmOp::Populate),
        Err(Error::State)
    );
    assert_eq!(
        advance(RealmState::DescriptorCreated, RealmOp::Initiate),
        Err(Error::State)
    );
    assert_eq!(
        advance(RealmState::Populated, RealmOp::Activate),
        Err(Error::State)
    );
}
