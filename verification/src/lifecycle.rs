use vstd::prelude::*;
use crate::error::Error;

verus! {

/// The lifecycle state attached to a Realm VM.
///
/// Transitions are strictly forward-only: no operation may run twice
/// (except populate) or out of order, and there is no path back to an
/// earlier state. `Activated` is terminal.
#[derive(Clone, Copy, Debug, PartialEq, Eq, Structural)]
pub enum RealmState {
    /// The VM exists but no Realm configuration has happened yet.
    Created,
    /// The measurement hash algorithm has been selected.
    MeasurementConfigured,
    /// The Realm descriptor has been allocated; the algorithm is now fixed.
    DescriptorCreated,
    /// At least one region of guest memory has been copied in and measured.
    Populated,
    /// The final guest physical address window has been fixed.
    Initiated,
    /// The Realm is sealed and running; no further configuration is valid.
    Activated,
}

/// The five ordered Realm configuration operations.
#[derive(Clone, Copy, Debug, PartialEq, Eq, Structural)]
pub enum RealmOp {
    /// Select the measurement hash algorithm.
    ConfigureMeasurement,
    /// Allocate the Realm descriptor.
    CreateDescriptor,
    /// Copy a region of guest memory into the Realm and measure it.
    Populate,
    /// Fix the final guest physical address window.
    Initiate,
    /// Seal the Realm and start it.
    Activate,
}

/// The states in which `op` may be invoked.
pub open spec fn op_allowed_in(op: RealmOp, s: RealmState) -> bool {
    match op {
        RealmOp::ConfigureMeasurement => s == RealmState::Created,
        RealmOp::CreateDescriptor => s == RealmState::MeasurementConfigured,
        RealmOp::Populate => s == RealmState::DescriptorCreated || s == RealmState::Populated,
        RealmOp::Initiate => s == RealmState::Populated,
        RealmOp::Activate => s == RealmState::Initiated,
    }
}

/// The state a Realm is in after `op` succeeds.
pub open spec fn op_target(op: RealmOp) -> RealmState {
    match op {
        RealmOp::ConfigureMeasurement => RealmState::MeasurementConfigured,
        RealmOp::CreateDescriptor => RealmState::DescriptorCreated,
        RealmOp::Populate => RealmState::Populated,
        RealmOp::Initiate => RealmState::Initiated,
        RealmOp::Activate => RealmState::Activated,
    }
}

/// How far along the forward-only lifecycle a state lies.
pub open spec fn state_rank(s: RealmState) -> nat {
    match s {
        RealmState::Created => 0,
        RealmState::MeasurementConfigured => 1,
        RealmState::DescriptorCreated => 2,
        RealmState::Populated => 3,
        RealmState::Initiated => 4,
        RealmState::Activated => 5,
    }
}

/// Decide whether `op` may be invoked in state `s`.
pub fn op_allowed(op: RealmOp, s: RealmState) -> (b: bool)
    ensures
        b == op_allowed_in(op, s),
{
    match op {
        RealmOp::ConfigureMeasurement => s == RealmState::Created,
        RealmOp::CreateDescriptor => s == RealmState::MeasurementConfigured,
        RealmOp::Populate => s == RealmState::DescriptorCreated || s == RealmState::Populated,
        RealmOp::Initiate => s == RealmState::Populated,
        RealmOp::Activate => s == RealmState::Initiated,
    }
}

/// The pure lifecycle step: the state reached when `op` is invoked in state
/// `s` and the hypervisor accepts it, or the `State` error when `s` is not
/// the operation's precondition state.
pub fn advance(s: RealmState, op: RealmOp) -> (r: Result<RealmState, Error>)
    ensures
        op_allowed_in(op, s) ==> r == Ok::<RealmState, Error>(op_target(op)),
        !op_allowed_in(op, s) ==> r == Err::<RealmState, Error>(Error::State),
{
    if op_allowed(op, s) {
        Ok(match op {
            RealmOp::ConfigureMeasurement => RealmState::MeasurementConfigured,
            RealmOp::CreateDescriptor => RealmState::DescriptorCreated,
            RealmOp::Populate => RealmState::Populated,
            RealmOp::Initiate => RealmState::Initiated,
            RealmOp::Activate => RealmState::Activated,
        })
    } else {
        Err(Error::State)
    }
}

/// Transitions only move forward: a permitted operation never lowers the
/// lifecycle rank, and it strictly raises it except for a repeated populate.
pub proof fn lemma_forward_only(op: RealmOp, s: RealmState)
    requires
        op_allowed_in(op, s),
    ensures
        state_rank(op_target(op)) >= state_rank(s),
        op_target(op) == s ==> op == RealmOp::Populate && s == RealmState::Populated,
{
}

/// Selecting the measurement algorithm is not repeatable: the state a
/// successful selection leaves behind no longer admits the operation.
pub proof fn lemma_configure_measurement_once()
    ensures
        !op_allowed_in(RealmOp::ConfigureMeasurement, op_target(RealmOp::ConfigureMeasurement)),
{
}

/// Populate is repeatable: the state a successful populate leaves behind
/// admits populate again.
pub proof fn lemma_populate_repeatable()
    ensures
        op_allowed_in(RealmOp::Populate, op_target(RealmOp::Populate)),
{
}

/// `Activated` is terminal: no configuration operation is permitted there.
pub proof fn lemma_activated_terminal(op: RealmOp)
    ensures
        !op_allowed_in(op, RealmState::Activated),
{
}

} // verus!
