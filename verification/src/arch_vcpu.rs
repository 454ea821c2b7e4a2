//! The interface that every architecture-specific virtual CPU implements.

use vstd::prelude::*;

use axaddrspace::{GuestPhysAddr, HostPhysAddr};
use axerrno::AxResult;
use axvisor_api::vmm::{VCpuId, VMId};

use crate::exit::AxVCpuExitReason;

verus! {

/// A host-physical address: `axaddrspace::HostPhysAddr`. The library
/// carries such an address from the caller to the backend and never looks
/// inside.
#[verifier::external_type_specification]
#[verifier::external_body]
pub struct ExHostPhysAddr(axaddrspace::HostPhysAddr);

/// An architecture-specific virtual CPU.
///
/// The lifecycle controller owns one value of this type. Its lifecycle
/// operations call `set_entry`, `set_ept_root` and `setup` in this order when
/// the virtual CPU is set up, and `run` only between `bind` and `unbind`. The
/// register and interrupt operations may be called at any time.
///
/// Each method comes with an outcome relation, which says which results and
/// which changes of the backend the method may produce. The contracts of the
/// lifecycle controller are stated over these relations. A backend that
/// leaves a relation at its default promises nothing about that method; a
/// verified backend overrides the relation and proves that the method keeps
/// to it.
pub trait AxArchVCpu: Sized {
    /// What the backend needs to know to create a virtual CPU.
    type CreateConfig;

    /// What the backend needs to know to complete the setup of a virtual CPU.
    type SetupConfig;

    /// Whether `new`, called with these arguments, may return `result`.
    open spec fn new_outcome(
        vm_id: VMId,
        vcpu_id: VCpuId,
        config: Self::CreateConfig,
        result: AxResult<Self>,
    ) -> bool {
        true
    }

    /// Whether `set_entry`, called on `pre`, may leave `post` and return `result`.
    open spec fn set_entry_outcome(pre: Self, entry: GuestPhysAddr, post: Self, result: AxResult) -> bool {
        true
    }

    /// Whether `set_ept_root`, called on `pre`, may leave `post` and return `result`.
    open spec fn set_ept_root_outcome(
        pre: Self,
        ept_root: HostPhysAddr,
        post: Self,
        result: AxResult,
    ) -> bool {
        true
    }

    /// Whether `setup`, called on `pre`, may leave `post` and return `result`.
    open spec fn setup_outcome(pre: Self, config: Self::SetupConfig, post: Self, result: AxResult) -> bool {
        true
    }

    /// Whether `run`, called on `pre`, may leave `post` and return `result`.
    open spec fn run_outcome(pre: Self, post: Self, result: AxResult<AxVCpuExitReason>) -> bool {
        true
    }

    /// Whether `bind`, called on `pre`, may leave `post` and return `result`.
    open spec fn bind_outcome(pre: Self, post: Self, result: AxResult) -> bool {
        true
    }

    /// Whether `unbind`, called on `pre`, may leave `post` and return `result`.
    open spec fn unbind_outcome(pre: Self, post: Self, result: AxResult) -> bool {
        true
    }

    /// Whether `set_gpr`, called on `pre`, may leave `post`.
    open spec fn set_gpr_outcome(pre: Self, reg: usize, val: usize, post: Self) -> bool {
        true
    }

    /// Whether `inject_interrupt`, called on `pre`, may leave `post` and return `result`.
    open spec fn inject_interrupt_outcome(pre: Self, vector: usize, post: Self, result: AxResult) -> bool {
        true
    }

    /// Whether `set_return_value`, called on `pre`, may leave `post`.
    open spec fn set_return_value_outcome(pre: Self, val: usize, post: Self) -> bool {
        true
    }

    /// Creates the virtual CPU `vcpu_id` of the virtual machine `vm_id`.
    fn new(vm_id: VMId, vcpu_id: VCpuId, config: Self::CreateConfig) -> (result: AxResult<Self>)
        ensures
            Self::new_outcome(vm_id, vcpu_id, config, result),
    ;

    /// Sets the guest-physical address at which the guest starts executing.
    fn set_entry(&mut self, entry: GuestPhysAddr) -> (result: AxResult)
        ensures
            Self::set_entry_outcome(*old(self), entry, *final(self), result),
    ;

    /// Sets the host-physical address of the root of the table that maps
    /// guest-physical to host-physical addresses.
    fn set_ept_root(&mut self, ept_root: HostPhysAddr) -> (result: AxResult)
        ensures
            Self::set_ept_root_outcome(*old(self), ept_root, *final(self), result),
    ;

    /// Completes the initialization of the virtual CPU.
    fn setup(&mut self, config: Self::SetupConfig) -> (result: AxResult)
        ensures
            Self::setup_outcome(*old(self), config, *final(self), result),
    ;

    /// Enters the guest and returns when it hands control back, with the
    /// reason for which it did.
    fn run(&mut self) -> (result: AxResult<AxVCpuExitReason>)
        ensures
            Self::run_outcome(*old(self), *final(self), result),
    ;

    /// Attaches the virtual CPU to the physical core that executes the call.
    fn bind(&mut self) -> (result: AxResult)
        ensures
            Self::bind_outcome(*old(self), *final(self), result),
    ;

    /// Detaches the virtual CPU from the physical core that executes the call.
    fn unbind(&mut self) -> (result: AxResult)
        ensures
            Self::unbind_outcome(*old(self), *final(self), result),
    ;

    /// Sets the general-purpose register with index `reg` to `val`.
    fn set_gpr(&mut self, reg: usize, val: usize)
        ensures
            Self::set_gpr_outcome(*old(self), reg, val, *final(self)),
    ;

    /// Injects the interrupt `vector` into the virtual CPU.
    ///
    /// The caller executes on the physical core on which the virtual CPU is
    /// running or queued. The virtual CPU need not be running: the backend
    /// keeps the interrupt until the guest is entered again.
    fn inject_interrupt(&mut self, vector: usize) -> (result: AxResult)
        ensures
            Self::inject_interrupt_outcome(*old(self), vector, *final(self), result),
    ;

    /// Sets the value that the guest receives as the result of its request.
    fn set_return_value(&mut self, val: usize)
        ensures
            Self::set_return_value_outcome(*old(self), val, *final(self)),
    ;
}

} // verus!
