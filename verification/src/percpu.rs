//! The state that a physical core keeps to run guests: whether hardware
//! virtualization is set up and enabled on it.

use vstd::prelude::*;

use axerrno::AxResult;

use crate::error::{from_backend, lift_backend, VCpuError, VCpuResult};

verus! {

/// The architecture-specific part of the per-core state.
///
/// As for a virtual CPU, each method that an implementation has to provide
/// comes with an outcome relation that says which results and which changes
/// the method may produce. An implementation that leaves a relation at its
/// default promises nothing about that method.
pub trait AxArchPerCpu: Sized {
    /// Whether `new`, called for the core `cpu_id`, may return `result`.
    open spec fn new_outcome(cpu_id: usize, result: AxResult<Self>) -> bool {
        true
    }

    /// Whether `is_enabled`, called on `state`, may return `enabled`.
    open spec fn is_enabled_outcome(state: Self, enabled: bool) -> bool {
        true
    }

    /// Whether `hardware_enable`, called on `pre`, may leave `post` and return `result`.
    open spec fn hardware_enable_outcome(pre: Self, post: Self, result: AxResult) -> bool {
        true
    }

    /// Whether `hardware_disable`, called on `pre`, may leave `post` and return `result`.
    open spec fn hardware_disable_outcome(pre: Self, post: Self, result: AxResult) -> bool {
        true
    }

    /// Whether the implementation has its own `max_guest_page_table_levels`.
    /// An implementation that keeps the method as it is given here keeps this
    /// too; one that replaces the method says so by replacing this with
    /// `true`, and states in the contract of its method what it returns.
    open spec fn overrides_max_guest_page_table_levels() -> bool {
        false
    }

    /// Creates the state of the core `cpu_id`.
    fn new(cpu_id: usize) -> (result: AxResult<Self>)
        ensures
            Self::new_outcome(cpu_id, result),
    ;

    /// Whether hardware virtualization is enabled on the core.
    fn is_enabled(&self) -> (enabled: bool)
        ensures
            Self::is_enabled_outcome(*self, enabled),
    ;

    /// Enables hardware virtualization on the core.
    fn hardware_enable(&mut self) -> (result: AxResult)
        ensures
            Self::hardware_enable_outcome(*old(self), *final(self), result),
    ;

    /// Disables hardware virtualization on the core.
    fn hardware_disable(&mut self) -> (result: AxResult)
        ensures
            Self::hardware_disable_outcome(*old(self), *final(self), result),
    ;

    /// The largest number of levels that a guest page table has on this
    /// architecture: 4, unless the implementation has its own method.
    fn max_guest_page_table_levels(&self) -> (levels: usize)
        ensures
            !Self::overrides_max_guest_page_table_levels() ==> levels == 4,
    {
        4
    }
}

/// The abstract value of the per-core state.
pub enum AxPerCpuView<A> {
    /// `init` has not been called.
    Uninit,
    /// `init` was called for the core `cpu_id`, and the backend failed to
    /// create its part.
    Failed {
        /// The core that the state was bound to.
        cpu_id: usize,
    },
    /// `init` succeeded for the core `cpu_id`.
    Ready {
        /// The core that the state was bound to.
        cpu_id: usize,
        /// The architecture-specific state.
        arch: A,
    },
}

impl<A> AxPerCpuView<A> {
    /// The architecture-specific state of an initialized per-core state.
    pub open spec fn arch(self) -> A
        recommends
            self is Ready,
    {
        self->arch
    }

    /// This initialized per-core state with `arch` as its
    /// architecture-specific state.
    pub open spec fn with_arch(self, arch: A) -> AxPerCpuView<A>
        recommends
            self is Ready,
    {
        match self {
            AxPerCpuView::Ready { cpu_id, .. } => AxPerCpuView::Ready { cpu_id, arch },
            _ => self,
        }
    }
}

/// The state that a physical core keeps to run guests.
///
/// It starts out uninitialized. `init` binds it to a core and creates the
/// architecture-specific state, once. Hardware virtualization is then enabled
/// and disabled through it. Whoever owns the state calls `release` before the
/// state goes out of use, so that hardware virtualization does not stay
/// enabled on the core.
pub struct AxPerCpu<A: AxArchPerCpu> {
    /// The core that the state belongs to; `Some` once `init` was called.
    cpu_id: Option<usize>,
    /// The architecture-specific state; `Some` once `init` succeeded.
    arch: Option<A>,
}

impl<A: AxArchPerCpu> View for AxPerCpu<A> {
    type V = AxPerCpuView<A>;

    closed spec fn view(&self) -> AxPerCpuView<A> {
        match (self.cpu_id, self.arch) {
            (Some(cpu_id), Some(arch)) => AxPerCpuView::Ready { cpu_id, arch },
            (Some(cpu_id), None) => AxPerCpuView::Failed { cpu_id },
            (None, _) => AxPerCpuView::Uninit,
        }
    }
}

impl<A: AxArchPerCpu> AxPerCpu<A> {
    /// Creates the state, uninitialized.
    pub fn new_uninit() -> (r: Self)
        ensures
            r@ == AxPerCpuView::<A>::Uninit,
    {
        AxPerCpu { cpu_id: None, arch: None }
    }

    /// Initializes the state for the core `cpu_id`.
    ///
    /// A state can be initialized once: a later call reports the bad-state
    /// error and changes nothing. The first call binds the state to the core
    /// and asks the backend for its part; if the backend fails, its error is
    /// returned and the state stays without architecture-specific part.
    pub fn init(&mut self, cpu_id: usize) -> (r: VCpuResult<()>)
        ensures
            !(old(self)@ is Uninit) ==> r == Err::<(), VCpuError>(VCpuError::BadState) && final(self)@
                == old(self)@,
            old(self)@ is Uninit ==> match r {
                Ok(()) => final(self)@ == (AxPerCpuView::Ready { cpu_id, arch: final(self)@.arch() })
                    && A::new_outcome(cpu_id, Ok(final(self)@.arch())),
                Err(VCpuError::Backend(e)) => final(self)@ == (AxPerCpuView::<A>::Failed { cpu_id })
                    && A::new_outcome(cpu_id, Err(e)),
                Err(VCpuError::BadState) => false,
            },
    {
        if self.cpu_id.is_some() {
            Err(VCpuError::BadState)
        } else {
            self.cpu_id = Some(cpu_id);
            match A::new(cpu_id) {
                Ok(arch) => {
                    self.arch = Some(arch);
                    Ok(())
                },
                Err(e) => {
                    self.arch = None;
                    Err(VCpuError::Backend(e))
                },
            }
        }
    }

    /// Whether `init` has succeeded, so that the architecture-specific state
    /// exists.
    pub fn is_initialized(&self) -> (b: bool)
        ensures
            b == (self@ is Ready),
    {
        self.cpu_id.is_some() && self.arch.is_some()
    }

    /// The architecture-specific state. The per-core state must be
    /// initialized.
    pub fn arch_checked(&self) -> (arch: &A)
        requires
            self@ is Ready,
        ensures
            *arch == self@.arch(),
    {
        self.arch.as_ref().unwrap()
    }

    /// The architecture-specific state, for changing it. The per-core state
    /// must be initialized.
    pub fn arch_checked_mut(&mut self) -> (arch: &mut A)
        requires
            old(self)@ is Ready,
        ensures
            *arch == old(self)@.arch(),
            final(self)@ == old(self)@.with_arch(*final(arch)),
    {
        self.arch.as_mut().unwrap()
    }

    /// Whether hardware virtualization is enabled on the core. The per-core
    /// state must be initialized.
    pub fn is_enabled(&self) -> (enabled: bool)
        requires
            self@ is Ready,
        ensures
            A::is_enabled_outcome(self@.arch(), enabled),
    {
        self.arch_checked().is_enabled()
    }

    /// Enables hardware virtualization on the core. The per-core state must
    /// be initialized.
    pub fn hardware_enable(&mut self) -> (r: VCpuResult<()>)
        requires
            old(self)@ is Ready,
        ensures
            final(self)@ == old(self)@.with_arch(final(self)@.arch()),
            exists|body: AxResult|
                A::hardware_enable_outcome(old(self)@.arch(), final(self)@.arch(), body) && r
                    == lift_backend(body),
    {
        let result = self.arch_checked_mut().hardware_enable();
        from_backend(result)
    }

    /// Disables hardware virtualization on the core. The per-core state must
    /// be initialized.
    pub fn hardware_disable(&mut self) -> (r: VCpuResult<()>)
        requires
            old(self)@ is Ready,
        ensures
            final(self)@ == old(self)@.with_arch(final(self)@.arch()),
            exists|body: AxResult|
                A::hardware_disable_outcome(old(self)@.arch(), final(self)@.arch(), body) && r
                    == lift_backend(body),
    {
        let result = self.arch_checked_mut().hardware_disable();
        from_backend(result)
    }

    /// Takes the state out of use: if it is initialized and the backend
    /// reports hardware virtualization as enabled, disables it. Otherwise
    /// nothing changes.
    ///
    /// A failure of the backend to disable hardware virtualization is
    /// returned; the owner must not let it pass.
    pub fn release(&mut self) -> (r: VCpuResult<()>)
        ensures
            !(old(self)@ is Ready) ==> r is Ok && final(self)@ == old(self)@,
            old(self)@ is Ready ==> exists|enabled: bool|
                A::is_enabled_outcome(old(self)@.arch(), enabled) && if enabled {
                    &&& final(self)@ == old(self)@.with_arch(final(self)@.arch())
                    &&& exists|body: AxResult|
                        A::hardware_disable_outcome(old(self)@.arch(), final(self)@.arch(), body) && r
                            == lift_backend(body)
                } else {
                    r is Ok && final(self)@ == old(self)@
                },
    {
        if self.is_initialized() && self.is_enabled() {
            self.hardware_disable()
        } else {
            Ok(())
        }
    }
}

} // verus!
