//! The lifecycle controller of a virtual CPU and the per-core record of the
//! virtual CPU that is active on a physical core.

use vstd::prelude::*;

use axaddrspace::{GuestPhysAddr, HostPhysAddr};
use axerrno::AxResult;
use axvisor_api::vmm::{VCpuId, VMId};

use crate::arch_vcpu::AxArchVCpu;
use crate::error::{from_backend, lift_backend, VCpuError, VCpuResult};
use crate::exit::AxVCpuExitReason;
use crate::state::{guard_result, state_after, VCpuState};

verus! {

/// What is fixed about a virtual CPU when it is created.
struct AxVCpuInnerConst {
    /// The virtual machine that the virtual CPU belongs to.
    vm_id: VMId,
    /// The identifier of the virtual CPU within its virtual machine.
    vcpu_id: VCpuId,
    /// The physical core that should preferably run the virtual CPU.
    favor_phys_cpu: usize,
    /// The physical cores that may run the virtual CPU, as a bit mask;
    /// `None` allows every core.
    phys_cpu_set: Option<usize>,
}

/// What changes about a virtual CPU while it is used.
pub struct AxVCpuInnerMut {
    /// The lifecycle state.
    state: VCpuState,
    /// The states that the virtual CPU has left behind, oldest first.
    passed: Ghost<Seq<VCpuState>>,
}

/// The lifecycle controller of one virtual CPU.
///
/// It owns the architecture-specific virtual CPU, keeps the lifecycle state
/// and lets an operation reach the backend only from the state that the
/// operation requires. It is not meant to be shared: one physical core at a
/// time works on a virtual CPU.
pub struct AxVCpu<A: AxArchVCpu> {
    /// What is fixed about the virtual CPU.
    inner_const: AxVCpuInnerConst,
    /// What changes about the virtual CPU.
    inner_mut: AxVCpuInnerMut,
    /// The architecture-specific virtual CPU.
    arch_vcpu: A,
}

/// The abstract value of a lifecycle controller.
pub struct AxVCpuView<A> {
    /// The virtual machine that the virtual CPU belongs to.
    pub vm_id: VMId,
    /// The identifier of the virtual CPU within its virtual machine.
    pub vcpu_id: VCpuId,
    /// The physical core that should preferably run the virtual CPU.
    pub favor_phys_cpu: usize,
    /// The physical cores that may run the virtual CPU; `None` allows every core.
    pub phys_cpu_set: Option<usize>,
    /// The lifecycle state.
    pub state: VCpuState,
    /// The states that the virtual CPU has left behind, oldest first: every
    /// change of the state appends the state that was left.
    pub passed: Seq<VCpuState>,
    /// The architecture-specific virtual CPU.
    pub arch: A,
}

impl<A> AxVCpuView<A> {
    /// The identity under which the virtual CPU is entered into the per-core
    /// record.
    pub open spec fn handle(self) -> VCpuHandle {
        VCpuHandle { vm_id: self.vm_id, vcpu_id: self.vcpu_id }
    }

    /// The controller after its state was set to `state`, with the backend
    /// in the state `arch`.
    pub open spec fn moved_to(self, state: VCpuState, arch: A) -> AxVCpuView<A> {
        AxVCpuView { state, passed: self.passed.push(self.state), arch, ..self }
    }

    /// The controller after a guarded transition from `from` to `to` that
    /// left the backend in the state `arch`, where `body_ok` says whether the
    /// guarded operation succeeded.
    pub open spec fn transitioned(self, from: VCpuState, to: VCpuState, body_ok: bool, arch: A) -> AxVCpuView<
        A,
    > {
        self.moved_to(state_after(self.state, from, to, body_ok), arch)
    }

    /// The controller after work on the backend past the lifecycle, which
    /// left the backend in the state `arch`.
    pub open spec fn with_arch(self, arch: A) -> AxVCpuView<A> {
        AxVCpuView { arch, ..self }
    }
}

/// The identity of a virtual CPU, as the per-core record keeps it.
#[derive(Clone, Copy, Debug, PartialEq, Eq, Structural)]
pub struct VCpuHandle {
    /// The virtual machine that the virtual CPU belongs to.
    pub vm_id: VMId,
    /// The identifier of the virtual CPU within its virtual machine.
    pub vcpu_id: VCpuId,
}

/// The record that one physical core keeps of the virtual CPU that is active
/// on it.
///
/// The record is filled right before the backend of a virtual CPU is worked on
/// and emptied right after, whether or not the work succeeded. It refers to the
/// virtual CPU without owning it. Code that runs on the core in the meantime,
/// such as an interrupt handler of the backend, finds in it the virtual CPU on
/// whose behalf it runs.
pub struct CurrentVCpu {
    /// The virtual CPU that is active on the core, if one is.
    pub current: Option<VCpuHandle>,
    /// Every virtual CPU that was entered into the record so far, oldest
    /// first.
    pub entered: Ghost<Seq<VCpuHandle>>,
}

impl CurrentVCpu {
    /// Creates the record of a core on which no virtual CPU has been active.
    pub fn new() -> (slot: Self)
        ensures
            slot.current is None,
            slot.entered@ == Seq::<VCpuHandle>::empty(),
    {
        CurrentVCpu { current: None, entered: Ghost(Seq::empty()) }
    }

    /// Whether `after` is this record once `handle` was entered into it and
    /// removed again.
    pub open spec fn visited_by(self, handle: VCpuHandle, after: CurrentVCpu) -> bool {
        after.current is None && after.entered@ == self.entered@.push(handle)
    }
}

/// Whether setting up a backend that is in the state `pre` may leave it in the
/// state `post` and return `result`.
///
/// The entry address is set first, then the root of the address mapping, then
/// the backend's own setup runs. The first of the three that fails ends the
/// sequence, and its error is the result.
pub open spec fn setup_sequence<A: AxArchVCpu>(
    pre: A,
    entry: GuestPhysAddr,
    ept_root: HostPhysAddr,
    config: A::SetupConfig,
    post: A,
    result: AxResult,
) -> bool {
    exists|with_entry: A, entry_result: AxResult| #[trigger]
        A::set_entry_outcome(pre, entry, with_entry, entry_result) && if entry_result is Err {
            post == with_entry && result == entry_result
        } else {
            exists|with_root: A, root_result: AxResult| #[trigger]
                A::set_ept_root_outcome(with_entry, ept_root, with_root, root_result)
                    && if root_result is Err {
                    post == with_root && result == root_result
                } else {
                    A::setup_outcome(with_root, config, post, result)
                }
        }
}

impl<A: AxArchVCpu> View for AxVCpu<A> {
    type V = AxVCpuView<A>;

    closed spec fn view(&self) -> AxVCpuView<A> {
        AxVCpuView {
            vm_id: self.inner_const.vm_id,
            vcpu_id: self.inner_const.vcpu_id,
            favor_phys_cpu: self.inner_const.favor_phys_cpu,
            phys_cpu_set: self.inner_const.phys_cpu_set,
            state: self.inner_mut.state,
            passed: self.inner_mut.passed@,
            arch: self.arch_vcpu,
        }
    }
}

impl<A: AxArchVCpu> AxVCpu<A> {
    /// Creates the virtual CPU `vcpu_id` of the virtual machine `vm_id`,
    /// in the state `Created`. It fails when the backend cannot create its
    /// part, with the error of the backend.
    pub fn new(
        vm_id: VMId,
        vcpu_id: VCpuId,
        favor_phys_cpu: usize,
        phys_cpu_set: Option<usize>,
        arch_config: A::CreateConfig,
    ) -> (r: VCpuResult<Self>)
        ensures
            match r {
                Ok(vcpu) => {
                    &&& A::new_outcome(vm_id, vcpu_id, arch_config, Ok(vcpu@.arch))
                    &&& vcpu@.vm_id == vm_id
                    &&& vcpu@.vcpu_id == vcpu_id
                    &&& vcpu@.favor_phys_cpu == favor_phys_cpu
                    &&& vcpu@.phys_cpu_set == phys_cpu_set
                    &&& vcpu@.state == VCpuState::Created
                    &&& vcpu@.passed == Seq::<VCpuState>::empty()
                },
                Err(VCpuError::Backend(e)) => A::new_outcome(vm_id, vcpu_id, arch_config, Err(e)),
                Err(VCpuError::BadState) => false,
            },
    {
        match A::new(vm_id, vcpu_id, arch_config) {
            Ok(arch_vcpu) => Ok(
                AxVCpu {
                    inner_const: AxVCpuInnerConst { vm_id, vcpu_id, favor_phys_cpu, phys_cpu_set },
                    inner_mut: AxVCpuInnerMut { state: VCpuState::Created, passed: Ghost(Seq::empty()) },
                    arch_vcpu,
                },
            ),
            Err(e) => Err(VCpuError::Backend(e)),
        }
    }

    /// Sets up the virtual CPU: a guarded transition from `Created` to `Free`
    /// around the setup of the backend, which receives the entry address of
    /// the guest, then the root of the address mapping, then `arch_config`.
    ///
    /// The per-core record `slot` must be empty if the virtual CPU is
    /// `Created`.
    pub fn setup(
        &mut self,
        slot: &mut CurrentVCpu,
        entry: GuestPhysAddr,
        ept_root: HostPhysAddr,
        arch_config: A::SetupConfig,
    ) -> (r: VCpuResult<()>)
        requires
            old(self)@.state == VCpuState::Created ==> old(slot).current is None,
        ensures
            final(self)@ == old(self)@.transitioned(
                VCpuState::Created,
                VCpuState::Free,
                r is Ok,
                final(self)@.arch,
            ),
            old(self)@.state != VCpuState::Created ==> {
                &&& r == Err::<(), VCpuError>(VCpuError::BadState)
                &&& final(self)@.arch == old(self)@.arch
                &&& *final(slot) == *old(slot)
            },
            old(self)@.state == VCpuState::Created ==> {
                &&& old(slot).visited_by(old(self)@.handle(), *final(slot))
                &&& exists|body: AxResult|
                    setup_sequence::<A>(
                        old(self)@.arch,
                        entry,
                        ept_root,
                        arch_config,
                        final(self)@.arch,
                        body,
                    ) && r == lift_backend(body)
            },
    {
        let call_backend = |arch_vcpu: &mut A| -> (body: AxResult)
            ensures
                setup_sequence::<A>(*old(arch_vcpu), entry, ept_root, arch_config, *final(arch_vcpu), body),
            {
                match arch_vcpu.set_entry(entry) {
                    Ok(()) => match arch_vcpu.set_ept_root(ept_root) {
                        Ok(()) => arch_vcpu.setup(arch_config),
                        Err(e) => Err(e),
                    },
                    Err(e) => Err(e),
                }
            };
        self.manipulate_arch_vcpu(slot, VCpuState::Created, VCpuState::Free, call_backend)
    }

    /// The identifier of the virtual CPU within its virtual machine.
    pub fn id(&self) -> (id: VCpuId)
        ensures
            id == self@.vcpu_id,
    {
        self.inner_const.vcpu_id
    }

    /// The physical core that should preferably run the virtual CPU.
    pub fn favor_phys_cpu(&self) -> (cpu: usize)
        ensures
            cpu == self@.favor_phys_cpu,
    {
        self.inner_const.favor_phys_cpu
    }

    /// The physical cores that may run the virtual CPU; `None` allows every core.
    pub fn phys_cpu_set(&self) -> (set: Option<usize>)
        ensures
            set == self@.phys_cpu_set,
    {
        self.inner_const.phys_cpu_set
    }

    /// Whether the virtual CPU is the bootstrap processor of its virtual
    /// machine, which is the one with the identifier 0.
    pub fn is_bsp(&self) -> (b: bool)
        ensures
            b == (self@.vcpu_id == 0),
    {
        self.inner_const.vcpu_id == 0
    }

    /// The lifecycle state of the virtual CPU.
    pub fn state(&self) -> (s: VCpuState)
        ensures
            s == self@.state,
    {
        self.inner_mut.state
    }

    /// Overrides the lifecycle state, whatever it was.
    ///
    /// This bypasses the lifecycle and is meant for recovery only: it is the
    /// one way out of `Invalid`.
    pub fn set_state(&mut self, state: VCpuState)
        ensures
            final(self)@ == old(self)@.moved_to(state, old(self)@.arch),
    {
        proof {
            self.inner_mut.passed@ = self.inner_mut.passed@.push(self.inner_mut.state);
        }
        self.inner_mut.state = state;
    }

    /// Runs `f` as a guarded transition from `from` to `to`.
    ///
    /// If the virtual CPU is not in the state `from`, `f` is not called, the
    /// state becomes `Invalid` and the bad-state error is returned. Otherwise
    /// `f` is called and its result handed on: the state becomes `to` if `f`
    /// succeeded and `Invalid` if it failed.
    pub fn with_state_transition<F, T>(&mut self, from: VCpuState, to: VCpuState, f: F) -> (r: VCpuResult<T>)
        where F: FnOnce() -> AxResult<T>
        requires
            old(self)@.state == from ==> call_requires(f, ()),
        ensures
            final(self)@ == old(self)@.transitioned(from, to, r is Ok, old(self)@.arch),
            old(self)@.state != from ==> r == Err::<T, VCpuError>(VCpuError::BadState),
            old(self)@.state == from ==> exists|body: AxResult<T>|
                call_ensures(f, (), body) && r == lift_backend(body),
    {
        if self.inner_mut.state != from {
            self.set_state(VCpuState::Invalid);
            Err(VCpuError::BadState)
        } else {
            let result = f();
            self.set_state(
                if result.is_err() {
                    VCpuState::Invalid
                } else {
                    to
                },
            );
            from_backend(result)
        }
    }

    /// Runs `f` while this virtual CPU is recorded in `slot` as the one that
    /// is active on the physical core.
    ///
    /// The record must be empty: working on a virtual CPU while one is
    /// already active on the core is a programming error. The virtual CPU is
    /// entered into the record before `f` is called, and the record is empty
    /// again when the call returns, whatever `f` returned.
    pub fn with_current_cpu_set<F, T>(&self, slot: &mut CurrentVCpu, f: F) -> (r: T)
        where F: FnOnce() -> T
        requires
            old(slot).current is None,
            call_requires(f, ()),
        ensures
            old(slot).visited_by(self@.handle(), *final(slot)),
            call_ensures(f, (), r),
    {
        set_current_vcpu(slot, self);
        let result = f();
        clear_current_vcpu(slot);
        result
    }

    /// Works on the backend with `f`, as a guarded transition from `from` to
    /// `to` and with this virtual CPU recorded in `slot` as the active one.
    ///
    /// If the virtual CPU is not in the state `from`, neither the backend nor
    /// the record is touched, the state becomes `Invalid` and the bad-state
    /// error is returned. Otherwise the record must be empty: the virtual CPU
    /// is entered into it, `f` is called on the backend, the record is
    /// emptied, and the result of `f` is handed on. The state becomes `to`
    /// if `f` succeeded and `Invalid` if it failed.
    pub fn manipulate_arch_vcpu<F, T>(
        &mut self,
        slot: &mut CurrentVCpu,
        from: VCpuState,
        to: VCpuState,
        f: F,
    ) -> (r: VCpuResult<T>)
        where F: FnOnce(&mut A) -> AxResult<T>
        requires
            old(self)@.state == from ==> old(slot).current is None,
            old(self)@.state == from ==> forall|arch: &mut A|
                *arch == old(self)@.arch ==> call_requires(f, (arch,)),
        ensures
            final(self)@ == old(self)@.transitioned(from, to, r is Ok, final(self)@.arch),
            old(self)@.state != from ==> {
                &&& r == Err::<T, VCpuError>(VCpuError::BadState)
                &&& final(self)@.arch == old(self)@.arch
                &&& *final(slot) == *old(slot)
            },
            old(self)@.state == from ==> {
                &&& old(slot).visited_by(old(self)@.handle(), *final(slot))
                &&& exists|arch: &mut A, body: AxResult<T>|
                    *arch == old(self)@.arch && *final(arch) == final(self)@.arch && call_ensures(
                        f,
                        (arch,),
                        body,
                    ) && r == lift_backend(body)
            },
    {
        if self.inner_mut.state != from {
            self.set_state(VCpuState::Invalid);
            Err(VCpuError::BadState)
        } else {
            set_current_vcpu(slot, self);
            let result = f(&mut self.arch_vcpu);
            clear_current_vcpu(slot);
            self.set_state(
                if result.is_err() {
                    VCpuState::Invalid
                } else {
                    to
                },
            );
            from_backend(result)
        }
    }

    /// Moves the virtual CPU from the state `from` to the state `to`.
    ///
    /// If the virtual CPU is not in the state `from`, the state becomes
    /// `Invalid` and the bad-state error is returned.
    pub fn transition_state(&mut self, from: VCpuState, to: VCpuState) -> (r: VCpuResult<()>)
        ensures
            final(self)@ == old(self)@.transitioned(from, to, true, old(self)@.arch),
            r == guard_result(old(self)@.state, from),
    {
        let succeed = || -> (body: AxResult)
            ensures
                body == Ok::<(), axerrno::AxError>(()),
            {
                Ok(())
            };
        self.with_state_transition(from, to, succeed)
    }

    /// The architecture-specific virtual CPU, for direct access past the
    /// lifecycle.
    pub fn get_arch_vcpu(&mut self) -> (arch: &mut A)
        ensures
            *arch == old(self)@.arch,
            final(self)@ == old(self)@.with_arch(*final(arch)),
    {
        &mut self.arch_vcpu
    }

    /// Runs the guest until it hands control back, and returns the reason for
    /// which it did, as the backend reported it.
    ///
    /// The virtual CPU must be `Ready`, and the per-core record `slot` must
    /// then be empty. The virtual CPU becomes `Running`, the backend runs,
    /// and the virtual CPU becomes `Ready` again if the backend succeeded and
    /// `Invalid` if it failed. If the virtual CPU is not `Ready`, the backend
    /// is not called, the state becomes `Invalid` and the bad-state error is
    /// returned. The virtual CPU is never left `Running`.
    pub fn run(&mut self, slot: &mut CurrentVCpu) -> (r: VCpuResult<AxVCpuExitReason>)
        requires
            old(self)@.state == VCpuState::Ready ==> old(slot).current is None,
        ensures
            old(self)@.state != VCpuState::Ready ==> {
                &&& r == Err::<AxVCpuExitReason, VCpuError>(VCpuError::BadState)
                &&& final(self)@ == old(self)@.moved_to(VCpuState::Invalid, old(self)@.arch)
                &&& *final(slot) == *old(slot)
            },
            old(self)@.state == VCpuState::Ready ==> {
                &&& final(self)@ == old(self)@.moved_to(VCpuState::Running, old(self)@.arch).moved_to(
                    if r is Ok {
                        VCpuState::Ready
                    } else {
                        VCpuState::Invalid
                    },
                    final(self)@.arch,
                )
                &&& old(slot).visited_by(old(self)@.handle(), *final(slot))
                &&& exists|body: AxResult<AxVCpuExitReason>|
                    A::run_outcome(old(self)@.arch, final(self)@.arch, body) && r == lift_backend(body)
            },
    {
        match self.transition_state(VCpuState::Ready, VCpuState::Running) {
            Ok(()) => {
                let call_backend = |arch_vcpu: &mut A| -> (body: AxResult<AxVCpuExitReason>)
                    ensures
                        A::run_outcome(*old(arch_vcpu), *final(arch_vcpu), body),
                    {
                        arch_vcpu.run()
                    };
                self.manipulate_arch_vcpu(slot, VCpuState::Running, VCpuState::Ready, call_backend)
            },
            Err(e) => Err(e),
        }
    }

    /// Binds the virtual CPU to the physical core that executes the call:
    /// a guarded transition from `Free` to `Ready` around the backend's
    /// `bind`.
    ///
    /// The per-core record `slot` must be empty if the virtual CPU is `Free`.
    pub fn bind(&mut self, slot: &mut CurrentVCpu) -> (r: VCpuResult<()>)
        requires
            old(self)@.state == VCpuState::Free ==> old(slot).current is None,
        ensures
            final(self)@ == old(self)@.transitioned(
                VCpuState::Free,
                VCpuState::Ready,
                r is Ok,
                final(self)@.arch,
            ),
            old(self)@.state != VCpuState::Free ==> {
                &&& r == Err::<(), VCpuError>(VCpuError::BadState)
                &&& final(self)@.arch == old(self)@.arch
                &&& *final(slot) == *old(slot)
            },
            old(self)@.state == VCpuState::Free ==> {
                &&& old(slot).visited_by(old(self)@.handle(), *final(slot))
                &&& exists|body: AxResult|
                    A::bind_outcome(old(self)@.arch, final(self)@.arch, body) && r == lift_backend(body)
            },
    {
        let call_backend = |arch_vcpu: &mut A| -> (body: AxResult)
            ensures
                A::bind_outcome(*old(arch_vcpu), *final(arch_vcpu), body),
            {
                arch_vcpu.bind()
            };
        self.manipulate_arch_vcpu(slot, VCpuState::Free, VCpuState::Ready, call_backend)
    }

    /// Unbinds the virtual CPU from the physical core that executes the call:
    /// a guarded transition from `Ready` to `Free` around the backend's
    /// `unbind`.
    ///
    /// The per-core record `slot` must be empty if the virtual CPU is
    /// `Ready`.
    pub fn unbind(&mut self, slot: &mut CurrentVCpu) -> (r: VCpuResult<()>)
        requires
            old(self)@.state == VCpuState::Ready ==> old(slot).current is None,
        ensures
            final(self)@ == old(self)@.transitioned(
                VCpuState::Ready,
                VCpuState::Free,
                r is Ok,
                final(self)@.arch,
            ),
            old(self)@.state != VCpuState::Ready ==> {
                &&& r == Err::<(), VCpuError>(VCpuError::BadState)
                &&& final(self)@.arch == old(self)@.arch
                &&& *final(slot) == *old(slot)
            },
            old(self)@.state == VCpuState::Ready ==> {
                &&& old(slot).visited_by(old(self)@.handle(), *final(slot))
                &&& exists|body: AxResult|
                    A::unbind_outcome(old(self)@.arch, final(self)@.arch, body) && r == lift_backend(body)
            },
    {
        let call_backend = |arch_vcpu: &mut A| -> (body: AxResult)
            ensures
                A::unbind_outcome(*old(arch_vcpu), *final(arch_vcpu), body),
            {
                arch_vcpu.unbind()
            };
        self.manipulate_arch_vcpu(slot, VCpuState::Ready, VCpuState::Free, call_backend)
    }

    /// Sets the entry address of the guest, past the lifecycle: the call goes
    /// to the backend in every state and leaves the state as it is.
    pub fn set_entry(&mut self, entry: GuestPhysAddr) -> (r: VCpuResult<()>)
        ensures
            final(self)@ == old(self)@.with_arch(final(self)@.arch),
            exists|body: AxResult|
                A::set_entry_outcome(old(self)@.arch, entry, final(self)@.arch, body) && r
                    == lift_backend(body),
    {
        let result = self.arch_vcpu.set_entry(entry);
        from_backend(result)
    }

    /// Sets the general-purpose register with index `reg` to `val`. The call
    /// goes to the backend in every state and leaves the state as it is.
    pub fn set_gpr(&mut self, reg: usize, val: usize)
        ensures
            final(self)@ == old(self)@.with_arch(final(self)@.arch),
            A::set_gpr_outcome(old(self)@.arch, reg, val, final(self)@.arch),
    {
        self.arch_vcpu.set_gpr(reg, val);
    }

    /// Injects the interrupt `vector` into the virtual CPU. The call goes to
    /// the backend in every state, also when the virtual CPU is not running,
    /// and leaves the state as it is.
    pub fn inject_interrupt(&mut self, vector: usize) -> (r: VCpuResult<()>)
        ensures
            final(self)@ == old(self)@.with_arch(final(self)@.arch),
            exists|body: AxResult|
                A::inject_interrupt_outcome(old(self)@.arch, vector, final(self)@.arch, body) && r
                    == lift_backend(body),
    {
        let result = self.arch_vcpu.inject_interrupt(vector);
        from_backend(result)
    }

    /// Sets the value that the guest receives as the result of its request.
    /// The call goes to the backend in every state and leaves the state as it
    /// is.
    pub fn set_return_value(&mut self, val: usize)
        ensures
            final(self)@ == old(self)@.with_arch(final(self)@.arch),
            A::set_return_value_outcome(old(self)@.arch, val, final(self)@.arch),
    {
        self.arch_vcpu.set_return_value(val);
    }
}

/// The virtual CPU that is active on the physical core of `slot`, if one is.
pub fn get_current_vcpu(slot: &CurrentVCpu) -> (current: Option<VCpuHandle>)
    ensures
        current == slot.current,
{
    slot.current
}

/// Records `vcpu` in `slot` as the virtual CPU that is active on the physical
/// core, in place of whatever was recorded.
pub fn set_current_vcpu<A: AxArchVCpu>(slot: &mut CurrentVCpu, vcpu: &AxVCpu<A>)
    ensures
        final(slot).current == Some(vcpu@.handle()),
        final(slot).entered@ == old(slot).entered@.push(vcpu@.handle()),
{
    let handle = VCpuHandle { vm_id: vcpu.inner_const.vm_id, vcpu_id: vcpu.inner_const.vcpu_id };
    slot.current = Some(handle);
    proof {
        slot.entered@ = slot.entered@.push(handle);
    }
}

/// Empties `slot`: no virtual CPU is active on the physical core any more.
pub fn clear_current_vcpu(slot: &mut CurrentVCpu)
    ensures
        final(slot).current is None,
        final(slot).entered@ == old(slot).entered@,
{
    slot.current = None;
}

} // verus!
