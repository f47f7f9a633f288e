pub mod error;
pub mod hyp;
pub mod ipa;
pub mod lifecycle;

use vstd::prelude::*;
use kvm_ioctls::{Kvm, VmFd};
use crate::error::Error;
use crate::ipa::{ipa_width, spec_ipa_width};
use crate::lifecycle::{op_allowed, op_allowed_in, op_target, RealmOp, RealmState};

verus! {

/// The measurement hash algorithms in the type surface.
///
/// Only the 256-bit digest scheme is wired to the capability protocol; the
/// 512-bit variant is a declared future option whose protocol identifier is
/// not yet settled, so no request path accepts it.
#[derive(Clone, Copy, Debug, PartialEq, Eq, Structural)]
pub enum MeasurementAlgo {
    /// 256-bit digest scheme.
    Sha256,
    /// 512-bit digest scheme; declared but not yet wired to a request path.
    Sha512,
}

/// A confidential Realm VM under construction.
///
/// Owns the hypervisor VM descriptor, the address-space width the VM was
/// created with (fixed at creation), and the lifecycle state that gates the
/// ordered configuration operations.
pub struct Realm {
    vm_fd: VmFd,
    ipa_bits: u32,
    state: RealmState,
}

/// A successful configuration step: the handle has moved to the
/// operation's target state, and the VM descriptor and the address-space
/// width are untouched.
pub open spec fn op_advanced(pre: Realm, post: Realm, op: RealmOp) -> bool {
    &&& post.state_spec() == op_target(op)
    &&& post.ipa_bits_spec() == pre.ipa_bits_spec()
    &&& post.vm_fd_spec() == pre.vm_fd_spec()
}

/// The VM type value requesting a confidential Realm VM with the given
/// address-space width: the Realm tag with the width in the masked field.
pub open spec fn spec_realm_vm_type(ipa_bits: u32) -> u64 {
    (hyp::REALM_VM_TYPE | (ipa_bits & hyp::IPA_SIZE_MASK)) as u64
}

/// Encode an address-space width into a Realm VM type value.
pub fn realm_vm_type(ipa_bits: u32) -> (t: u64)
    ensures
        t == spec_realm_vm_type(ipa_bits),
{
    (hyp::REALM_VM_TYPE | (ipa_bits & hyp::IPA_SIZE_MASK)) as u64
}

impl Realm {
    /// The underlying VM descriptor, as seen by contracts.
    pub closed spec fn vm_fd_spec(self) -> VmFd {
        self.vm_fd
    }

    /// The recorded address-space width, as seen by contracts.
    pub closed spec fn ipa_bits_spec(self) -> u32 {
        self.ipa_bits
    }

    /// The lifecycle state, as seen by contracts.
    pub closed spec fn state_spec(self) -> RealmState {
        self.state
    }

    /// Whether the host hypervisor exposes the confidential-VM extension.
    /// Read-only probe: capability absence is a valid outcome, not an error.
    pub fn supported(kvm: &Kvm) -> bool {
        hyp::extension_present(hyp::check_extension_level(kvm, hyp::RME_CAP as u64))
    }

    /// Create a Realm VM sized so that the guest physical address `max_ipa`
    /// is addressable, in lifecycle state `Created`.
    pub fn new(kvm: &Kvm, max_ipa: usize) -> (r: Result<Realm, Error>)
        ensures
            r matches Ok(realm) ==> realm.ipa_bits_spec() == spec_ipa_width(max_ipa as nat)
                && realm.state_spec() == RealmState::Created,
            r matches Err(e) ==> e matches Error::VmCreate(_),
    {
        let ipa_bits = ipa_width(max_ipa as u64);
        match hyp::create_vm_with_type(kvm, realm_vm_type(ipa_bits)) {
            Ok(vm_fd) => Ok(Realm { vm_fd, ipa_bits, state: RealmState::Created }),
            Err(e) => Err(Error::VmCreate(e)),
        }
    }

    /// The number of bits of guest physical address space the VM was
    /// created with.
    pub fn ipa_bits(&self) -> (w: u32)
        ensures
            w == self.ipa_bits_spec(),
    {
        self.ipa_bits
    }

    /// The current lifecycle state.
    pub fn state(&self) -> (s: RealmState)
        ensures
            s == self.state_spec(),
    {
        self.state
    }

    /// Select the measurement hash algorithm. Permitted only in state
    /// `Created`; a success moves to `MeasurementConfigured`.
    ///
    /// Only the wired algorithm may be requested: the 512-bit variant has
    /// no protocol identifier yet.
    pub fn configure_measurement(&mut self, algorithm: MeasurementAlgo) -> (r: Result<(), Error>)
        requires
            algorithm == MeasurementAlgo::Sha256,
        ensures
            !op_allowed_in(RealmOp::ConfigureMeasurement, old(self).state_spec()) ==> r == Err::<
                (),
                Error,
            >(Error::State) && *final(self) == *old(self),
            r matches Ok(()) ==> op_allowed_in(RealmOp::ConfigureMeasurement, old(self).state_spec())
                && op_advanced(*old(self), *final(self), RealmOp::ConfigureMeasurement),
            r matches Err(e) ==> (op_allowed_in(RealmOp::ConfigureMeasurement, old(self).state_spec())
                ==> ((e matches Error::Configure(_)) && *final(self) == *old(self))),
    {
        if !op_allowed(RealmOp::ConfigureMeasurement, self.state) {
            return Err(Error::State);
        }
        let rec = (hyp::ConfigRecord {
            selector: hyp::RME_CFG_HASH_ALGO,
            value: hyp::RME_HASH_ALGO_SHA256,
        }).encode();
        match hyp::enable_cap_with_record(
            &self.vm_fd,
            hyp::RME_CAP,
            hyp::RME_CONFIG_REALM,
            rec.as_slice(),
        ) {
            Ok(()) => {
                self.state = RealmState::MeasurementConfigured;
                Ok(())
            },
            Err(e) => Err(Error::Configure(e)),
        }
    }

    /// Allocate the Realm descriptor, fixing the measurement algorithm for
    /// good. Permitted only in state `MeasurementConfigured`; a success
    /// moves to `DescriptorCreated`.
    pub fn create_descriptor(&mut self) -> (r: Result<(), Error>)
        ensures
            !op_allowed_in(RealmOp::CreateDescriptor, old(self).state_spec()) ==> r == Err::<
                (),
                Error,
            >(Error::State) && *final(self) == *old(self),
            r matches Ok(()) ==> op_allowed_in(RealmOp::CreateDescriptor, old(self).state_spec())
                && op_advanced(*old(self), *final(self), RealmOp::CreateDescriptor),
            r matches Err(e) ==> (op_allowed_in(RealmOp::CreateDescriptor, old(self).state_spec())
                ==> ((e matches Error::CreateDescriptor(_)) && *final(self) == *old(self))),
    {
        if !op_allowed(RealmOp::CreateDescriptor, self.state) {
            return Err(Error::State);
        }
        match hyp::enable_cap(&self.vm_fd, hyp::RME_CAP, hyp::RME_CREATE_RD) {
            Ok(()) => {
                self.state = RealmState::DescriptorCreated;
                Ok(())
            },
            Err(e) => Err(Error::CreateDescriptor(e)),
        }
    }

    /// Copy `size` bytes of previously mapped guest memory at `base` into
    /// the Realm and fold them into its measurement. Permitted in states
    /// `DescriptorCreated` and `Populated` and repeatable; a success moves
    /// to (or stays in) `Populated`.
    pub fn populate(&mut self, base: u64, size: u64) -> (r: Result<(), Error>)
        requires
            size > 0,
        ensures
            !op_allowed_in(RealmOp::Populate, old(self).state_spec()) ==> r == Err::<
                (),
                Error,
            >(Error::State) && *final(self) == *old(self),
            r matches Ok(()) ==> op_allowed_in(RealmOp::Populate, old(self).state_spec())
                && op_advanced(*old(self), *final(self), RealmOp::Populate),
            r matches Err(e) ==> (op_allowed_in(RealmOp::Populate, old(self).state_spec())
                ==> ((e matches Error::Populate(_)) && *final(self) == *old(self))),
    {
        if !op_allowed(RealmOp::Populate, self.state) {
            return Err(Error::State);
        }
        let rec = (hyp::PopulateRecord {
            base,
            size,
            flags: hyp::RME_POPULATE_FLAG_MEASURE,
        }).encode();
        match hyp::enable_cap_with_record(
            &self.vm_fd,
            hyp::RME_CAP,
            hyp::RME_POPULATE_REALM,
            rec.as_slice(),
        ) {
            Ok(()) => {
                self.state = RealmState::Populated;
                Ok(())
            },
            Err(e) => Err(Error::Populate(e)),
        }
    }

    /// Fix the final guest physical address window `base..base + size`; the
    /// hypervisor rejects a window that excludes a populated region.
    /// Permitted only in state `Populated`; a success moves to `Initiated`.
    pub fn initiate(&mut self, base: u64, size: u64) -> (r: Result<(), Error>)
        ensures
            !op_allowed_in(RealmOp::Initiate, old(self).state_spec()) ==> r == Err::<
                (),
                Error,
            >(Error::State) && *final(self) == *old(self),
            r matches Ok(()) ==> op_allowed_in(RealmOp::Initiate, old(self).state_spec())
                && op_advanced(*old(self), *final(self), RealmOp::Initiate),
            r matches Err(e) ==> (op_allowed_in(RealmOp::Initiate, old(self).state_spec())
                ==> ((e matches Error::Initiate(_)) && *final(self) == *old(self))),
    {
        if !op_allowed(RealmOp::Initiate, self.state) {
            return Err(Error::State);
        }
        let rec = (hyp::InitiateRecord { base, size }).encode();
        match hyp::enable_cap_with_record(
            &self.vm_fd,
            hyp::RME_CAP,
            hyp::RME_INIT_IPA_REALM,
            rec.as_slice(),
        ) {
            Ok(()) => {
                self.state = RealmState::Initiated;
                Ok(())
            },
            Err(e) => Err(Error::Initiate(e)),
        }
    }

    /// Seal the Realm and start it: the point of no return, after which the
    /// guest's memory and register state are opaque to the host. Permitted
    /// only in state `Initiated`; a success moves to the terminal state
    /// `Activated`.
    pub fn activate(&mut self) -> (r: Result<(), Error>)
        ensures
            !op_allowed_in(RealmOp::Activate, old(self).state_spec()) ==> r == Err::<
                (),
                Error,
            >(Error::State) && *final(self) == *old(self),
            r matches Ok(()) ==> op_allowed_in(RealmOp::Activate, old(self).state_spec())
                && op_advanced(*old(self), *final(self), RealmOp::Activate),
            r matches Err(e) ==> (op_allowed_in(RealmOp::Activate, old(self).state_spec())
                ==> ((e matches Error::Activate(_)) && *final(self) == *old(self))),
    {
        if !op_allowed(RealmOp::Activate, self.state) {
            return Err(Error::State);
        }
        match hyp::enable_cap(&self.vm_fd, hyp::RME_CAP, hyp::RME_ACTIVATE_REALM) {
            Ok(()) => {
                self.state = RealmState::Activated;
                Ok(())
            },
            Err(e) => Err(Error::Activate(e)),
        }
    }

    /// The Realm's underlying VM descriptor, for the external collaborators
    /// that map guest memory and finalize virtual CPUs.
    pub fn vm_fd(&mut self) -> (fd: &mut VmFd)
        ensures
            *fd == old(self).vm_fd_spec(),
            final(self).vm_fd_spec() == *final(fd),
            final(self).ipa_bits_spec() == old(self).ipa_bits_spec(),
            final(self).state_spec() == old(self).state_spec(),
    {
        &mut self.vm_fd
    }
}

} // verus!
