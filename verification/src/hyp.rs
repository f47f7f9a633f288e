use vstd::prelude::*;
use kvm_ioctls::{Kvm, VmFd};

verus! {

// ---------------------------------------------------------------------------
// Wire protocol of the confidential-VM capability interface.
//
// The hypervisor exposes the Realm lifecycle through one extended
// capability. Each configuration request names that capability and a
// sub-command in argument slot 0. A sub-command that takes operands reads
// them from a fixed-layout argument record; the record's address stands in
// slot 1 for the duration of the call and is never retained past it. These
// constants and record layouts are this library's contract with the
// hypervisor; the kernel bindings in use do not define them.
// ---------------------------------------------------------------------------

/// Capability identifier of the Arm confidential-VM (RME) extension.
pub const RME_CAP: u32 = 300;

/// Sub-command: configure the Realm before descriptor creation. Its
/// argument record is a `ConfigRecord`.
pub const RME_CONFIG_REALM: u64 = 0;

/// Sub-command: allocate the Realm descriptor. No argument record.
pub const RME_CREATE_RD: u64 = 1;

/// Sub-command: fix the final guest physical address window. Its argument
/// record is an `InitiateRecord`.
pub const RME_INIT_IPA_REALM: u64 = 2;

/// Sub-command: copy mapped guest memory into the Realm. Its argument
/// record is a `PopulateRecord`.
pub const RME_POPULATE_REALM: u64 = 3;

/// Sub-command: seal the Realm and start it. No argument record.
pub const RME_ACTIVATE_REALM: u64 = 4;

/// Configuration item selector: the measurement hash algorithm.
pub const RME_CFG_HASH_ALGO: u64 = 1;

/// Measurement hash algorithm identifier: the 256-bit digest scheme.
pub const RME_HASH_ALGO_SHA256: u64 = 0;

/// Populate flag: fold the copied memory into the Realm's measurement.
pub const RME_POPULATE_FLAG_MEASURE: u64 = 1;

/// Tag marking a VM type value as a confidential Realm VM.
pub const REALM_VM_TYPE: u32 = 0x100;

/// Mask of the address-space width field within a VM type value.
pub const IPA_SIZE_MASK: u32 = 0xff;

// ---------------------------------------------------------------------------
// The fixed-layout argument records, as plain value types with the wire's
// field order, and their verified encodings into that order.
// ---------------------------------------------------------------------------

/// Argument record of a configuration request: the selector of the item
/// being configured, then its value, in that order.
#[derive(Clone, Copy, Debug, PartialEq, Eq, Structural)]
pub struct ConfigRecord {
    /// Which configuration item is being set.
    pub selector: u64,
    /// The value the item is set to.
    pub value: u64,
}

impl ConfigRecord {
    /// The record in its wire field order.
    pub fn encode(&self) -> (w: [u64; 2])
        ensures
            w@ == seq![self.selector, self.value],
    {
        [self.selector, self.value]
    }
}

/// Argument record of a populate request: guest physical base address,
/// size in bytes, then flags, in that order.
#[derive(Clone, Copy, Debug, PartialEq, Eq, Structural)]
pub struct PopulateRecord {
    /// Guest physical base address of the region.
    pub base: u64,
    /// Size of the region in bytes.
    pub size: u64,
    /// Populate flags.
    pub flags: u64,
}

impl PopulateRecord {
    /// The record in its wire field order.
    pub fn encode(&self) -> (w: [u64; 3])
        ensures
            w@ == seq![self.base, self.size, self.flags],
    {
        [self.base, self.size, self.flags]
    }
}

/// Argument record of an initiate request: guest physical base address,
/// then size in bytes, in that order.
#[derive(Clone, Copy, Debug, PartialEq, Eq, Structural)]
pub struct InitiateRecord {
    /// Guest physical base address of the window.
    pub base: u64,
    /// Size of the window in bytes.
    pub size: u64,
}

impl InitiateRecord {
    /// The record in its wire field order.
    pub fn encode(&self) -> (w: [u64; 2])
        ensures
            w@ == seq![self.base, self.size],
    {
        [self.base, self.size]
    }
}

/// Whether a probe's raw answer reports the capability present: the kernel
/// answers a strictly positive level when it is, 0 when it is not.
pub fn extension_present(level: i32) -> (b: bool)
    ensures
        b == (level > 0),
{
    level > 0
}

// ---------------------------------------------------------------------------
// Trusted declarations for the hypervisor connection handles.
// ---------------------------------------------------------------------------

#[verifier::external_type_specification]
#[verifier::external_body]
pub struct ExKvm(Kvm);

#[verifier::external_type_specification]
#[verifier::external_body]
pub struct ExVmFd(VmFd);

// ---------------------------------------------------------------------------
// Trusted wrappers around the hypervisor system calls. Their results depend
// on the host kernel, so each contract states only what holds of every
// outcome; the verified callers decide everything else.
// ---------------------------------------------------------------------------

/// Relies on kvm_ioctls::Kvm::check_extension_raw: issues KVM_CHECK_EXTENSION
/// for the given raw capability number and returns 0 when the capability is
/// absent, a positive value when it is present.
#[verifier::external_body]
pub(crate) fn check_extension_level(kvm: &Kvm, cap: u64) -> (r: i32)
    ensures
        r >= 0,
{
    kvm.check_extension_raw(cap)
}

/// Relies on kvm_ioctls::Kvm::create_vm_with_type: issues KVM_CREATE_VM with
/// the given VM type value and returns the new VM descriptor, or the raw
/// system error code when the kernel rejects the request.
#[verifier::external_body]
pub(crate) fn create_vm_with_type(kvm: &Kvm, vm_type: u64) -> (r: Result<VmFd, i32>)
{
    match kvm.create_vm_with_type(vm_type) {
        Ok(fd) => Ok(fd),
        Err(e) => Err(e.errno()),
    }
}

/// Relies on kvm_ioctls::VmFd::enable_cap: issues KVM_ENABLE_CAP on the VM
/// with the given capability number and the sub-command in slot 0, for the
/// sub-commands that take no argument record. Returns whether the kernel
/// accepted the request, with the raw system error code when it did not.
#[verifier::external_body]
pub(crate) fn enable_cap(vm: &VmFd, cap: u32, sub: u64) -> (r: Result<(), i32>)
{
    let mut req = kvm_bindings::kvm_enable_cap::default();
    req.cap = cap;
    req.args[0] = sub;
    match vm.enable_cap(&req) {
        Ok(()) => Ok(()),
        Err(e) => Err(e.errno()),
    }
}

/// Relies on kvm_ioctls::VmFd::enable_cap: issues KVM_ENABLE_CAP on the VM
/// with the given capability number, the sub-command in slot 0, and the
/// address of the caller's fixed-layout argument record in slot 1; the
/// address is taken for the duration of the call alone. Returns whether the
/// kernel accepted the request, with the raw system error code when it did
/// not.
#[verifier::external_body]
pub(crate) fn enable_cap_with_record(vm: &VmFd, cap: u32, sub: u64, rec: &[u64]) -> (r: Result<
    (),
    i32,
>)
{
    let mut req = kvm_bindings::kvm_enable_cap::default();
    req.cap = cap;
    req.args[0] = sub;
    req.args[1] = rec.as_ptr() as u64;
    match vm.enable_cap(&req) {
        Ok(()) => Ok(()),
        Err(e) => Err(e.errno()),
    }
}

} // verus!
