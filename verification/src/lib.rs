//! Architecture-independent virtual CPU management for hypervisors.
//!
//! A virtual CPU is an architecture-specific backend, which implements
//! [`AxArchVCpu`], inside a lifecycle controller, [`AxVCpu`]. The controller
//! keeps the lifecycle state of the virtual CPU and lets the operations of the
//! backend through only in the states that allow them. While it works on the
//! backend, the virtual CPU is recorded as the current one of the physical
//! core, in a [`CurrentVCpu`]. [`AxPerCpu`] is the state that a physical core
//! keeps to run guests at all, and [`AxVCpuExitReason`] tells why a guest
//! handed control back.

pub mod arch_vcpu;
pub mod error;
pub mod exit;
pub mod percpu;
pub mod state;
pub mod vcpu;

pub use arch_vcpu::AxArchVCpu;
pub use error::{from_backend, lift_backend, VCpuError, VCpuResult};
pub use exit::{width_of_size, AccessWidth, AxVCpuExitReason};
pub use percpu::{AxArchPerCpu, AxPerCpu, AxPerCpuView};
pub use state::{guard_result, is_lifecycle_step, state_after, state_after_all, Attempt, VCpuState};
pub use vcpu::{
    clear_current_vcpu, get_current_vcpu, set_current_vcpu, setup_sequence, AxVCpu, AxVCpuInnerMut,
    AxVCpuView, CurrentVCpu, VCpuHandle,
};
