use vstd::prelude::*;

verus! {

/// Errors surfaced by the Realm lifecycle operations.
///
/// One kind per hypervisor-facing operation, each wrapping the raw system
/// error code returned by the kernel verbatim, plus a local `State` error for
/// lifecycle-ordering violations detected before any system call is made.
#[derive(Clone, Copy, Debug, PartialEq, Eq, Structural)]
pub enum Error {
    /// The VM creation request itself was rejected by the hypervisor.
    VmCreate(i32),
    /// The measurement-algorithm selection was rejected by the hypervisor.
    Configure(i32),
    /// The Realm descriptor allocation was rejected by the hypervisor.
    CreateDescriptor(i32),
    /// A populate request was rejected by the hypervisor.
    Populate(i32),
    /// The address-range initiation was rejected by the hypervisor.
    Initiate(i32),
    /// The activation request was rejected by the hypervisor.
    Activate(i32),
    /// The operation was invoked outside its precondition state; no request
    /// was issued and the lifecycle state is unchanged.
    State,
}

} // verus!
