//! The reasons for which a guest hands control back to the hypervisor.

use vstd::prelude::*;
use vstd::std_specs::convert::{FromSpecImpl, TryFromSpecImpl};

verus! {

/// A guest-physical address: `axaddrspace::GuestPhysAddr`. The library
/// carries such an address from the backend to the caller and never looks
/// inside.
#[verifier::external_type_specification]
#[verifier::external_body]
pub struct ExGuestPhysAddr(axaddrspace::GuestPhysAddr);

/// The permissions of a memory access: `axaddrspace::MappingFlags`. The
/// library carries them from the backend to the caller and never looks
/// inside.
#[verifier::external_type_specification]
#[verifier::external_body]
pub struct ExMappingFlags(axaddrspace::MappingFlags);

/// The number of an I/O port: `axaddrspace::device::Port`. The library
/// carries it from the backend to the caller and never looks inside.
#[verifier::external_type_specification]
#[verifier::external_body]
pub struct ExPort(axaddrspace::device::Port);

/// The identifier of a system register: `axaddrspace::device::SysRegAddr`.
/// The library carries it from the backend to the caller and never looks
/// inside.
#[verifier::external_type_specification]
#[verifier::external_body]
pub struct ExSysRegAddr(axaddrspace::device::SysRegAddr);

/// The width of a memory, register or port access.
///
/// These are the four widths of `axaddrspace::device::AccessWidth`, as a type
/// of this crate, so that the conversions from and to a number of bytes are
/// verified. "Word" follows the x86 convention and means 16 bits.
#[derive(Debug, Clone, Copy, PartialEq, Eq, Structural)]
pub enum AccessWidth {
    /// 8 bits.
    Byte,
    /// 16 bits.
    Word,
    /// 32 bits.
    Dword,
    /// 64 bits.
    Qword,
}

/// The width that spans `size` bytes, if there is one.
pub open spec fn width_of_size(size: int) -> Option<AccessWidth> {
    if size == 1 {
        Some(AccessWidth::Byte)
    } else if size == 2 {
        Some(AccessWidth::Word)
    } else if size == 4 {
        Some(AccessWidth::Dword)
    } else if size == 8 {
        Some(AccessWidth::Qword)
    } else {
        None
    }
}

impl AccessWidth {
    /// The number of bytes that an access of this width spans.
    pub open spec fn byte_count(self) -> int {
        match self {
            AccessWidth::Byte => 1,
            AccessWidth::Word => 2,
            AccessWidth::Dword => 4,
            AccessWidth::Qword => 8,
        }
    }

    /// The size of an access of this width, in bytes.
    pub fn size(&self) -> (n: usize)
        ensures
            n == self.byte_count(),
    {
        match self {
            AccessWidth::Byte => 1,
            AccessWidth::Word => 2,
            AccessWidth::Dword => 4,
            AccessWidth::Qword => 8,
        }
    }

    /// The range of bits that an access of this width covers, counted from
    /// the least significant bit.
    pub fn bits_range(&self) -> (r: core::ops::Range<usize>)
        ensures
            r.start == 0,
            r.end == 8 * self.byte_count(),
    {
        match self {
            AccessWidth::Byte => 0..8,
            AccessWidth::Word => 0..16,
            AccessWidth::Dword => 0..32,
            AccessWidth::Qword => 0..64,
        }
    }
}

impl TryFrom<usize> for AccessWidth {
    type Error = ();

    /// The width that spans `value` bytes; sizes other than 1, 2, 4 and 8
    /// are rejected.
    fn try_from(value: usize) -> (r: Result<Self, Self::Error>) {
        if value == 1 {
            Ok(AccessWidth::Byte)
        } else if value == 2 {
            Ok(AccessWidth::Word)
        } else if value == 4 {
            Ok(AccessWidth::Dword)
        } else if value == 8 {
            Ok(AccessWidth::Qword)
        } else {
            Err(())
        }
    }
}

impl TryFromSpecImpl<usize> for AccessWidth {
    open spec fn obeys_try_from_spec() -> bool {
        true
    }

    open spec fn try_from_spec(value: usize) -> Result<Self, Self::Error> {
        match width_of_size(value as int) {
            Some(width) => Ok(width),
            None => Err(()),
        }
    }
}

impl From<AccessWidth> for usize {
    /// The size of an access of the given width, in bytes.
    fn from(width: AccessWidth) -> (n: usize) {
        width.size()
    }
}

impl FromSpecImpl<AccessWidth> for usize {
    open spec fn obeys_from_spec() -> bool {
        true
    }

    open spec fn from_spec(width: AccessWidth) -> usize {
        width.byte_count() as usize
    }
}

/// Why a virtual CPU stopped executing guest code and returned to the
/// hypervisor.
///
/// A value is produced by exactly one run of the backend and is never changed
/// afterwards. More variants and fields may be added later: match with a
/// wildcard arm and with `..`, and resume the guest without further action on
/// a variant that is not handled.
#[non_exhaustive]
#[allow(inconsistent_fields)]
#[derive(Debug)]
pub enum AxVCpuExitReason {
    /// The guest asked the hypervisor for a service.
    Hypercall {
        /// The number of the hypercall.
        nr: u64,
        /// The arguments of the hypercall.
        args: [u64; 6],
    },
    /// The guest read from a memory-mapped device region.
    MmioRead {
        /// The guest-physical address that was read.
        addr: axaddrspace::GuestPhysAddr,
        /// The width of the read.
        width: AccessWidth,
        /// The index of the register that receives the value.
        reg: usize,
        /// The width of the register that receives the value.
        reg_width: AccessWidth,
        /// Whether the value is sign-extended to the register's width.
        signed_ext: bool,
    },
    /// The guest wrote to a memory-mapped device region.
    MmioWrite {
        /// The guest-physical address that was written.
        addr: axaddrspace::GuestPhysAddr,
        /// The width of the write.
        width: AccessWidth,
        /// The value that was written.
        data: u64,
    },
    /// The guest read a system register that has to be emulated: an MSR on
    /// x86, a CSR on RISC-V, a system register on AArch64.
    SysRegRead {
        /// The identifier of the register, as the architecture encodes it.
        addr: axaddrspace::device::SysRegAddr,
        /// The index of the general-purpose register that receives the value.
        reg: usize,
    },
    /// The guest wrote a system register that has to be emulated.
    SysRegWrite {
        /// The identifier of the register, as the architecture encodes it.
        addr: axaddrspace::device::SysRegAddr,
        /// The value that was written.
        value: u64,
    },
    /// The guest read from an I/O port. Architectures without port I/O never
    /// report this.
    IoRead {
        /// The number of the port.
        port: axaddrspace::device::Port,
        /// The width of the read.
        width: AccessWidth,
    },
    /// The guest wrote to an I/O port. Architectures without port I/O never
    /// report this.
    IoWrite {
        /// The number of the port.
        port: axaddrspace::device::Port,
        /// The width of the write.
        width: AccessWidth,
        /// The value that was written.
        data: u64,
    },
    /// A hardware interrupt arrived while the guest was executing.
    ExternalInterrupt {
        /// The interrupt vector.
        vector: u64,
    },
    /// The second-level address mapping had no entry for an access of the
    /// guest, or did not permit it.
    NestedPageFault {
        /// The guest-physical address of the access.
        addr: axaddrspace::GuestPhysAddr,
        /// The permissions that the access needed.
        access_flags: axaddrspace::MappingFlags,
    },
    /// The guest executed a halt or idle instruction.
    Halt,
    /// The guest asked for another of its cores to be started.
    CpuUp {
        /// The core to start, as the architecture identifies it.
        target_cpu: u64,
        /// The guest-physical address at which the core starts executing.
        entry_point: axaddrspace::GuestPhysAddr,
        /// The argument handed to the core when it starts.
        arg: u64,
    },
    /// The guest asked for this core to be powered down. The virtual CPU may
    /// be resumed later.
    CpuDown {
        /// Reserved for a power state.
        _state: u64,
    },
    /// The guest asked for the whole machine to be shut down.
    SystemDown,
    /// The backend handled the exit by itself. The caller should still look
    /// for pending device and interrupt work before resuming the guest.
    Nothing,
    /// The backend could not enter the guest at all.
    FailEntry {
        /// The failure code that the hardware reported.
        hardware_entry_failure_reason: u64,
    },
    /// The guest asked for an inter-processor interrupt to be sent.
    SendIPI {
        /// The core to interrupt; without meaning when `send_to_all` or
        /// `send_to_self` is set.
        target_cpu: u64,
        /// A second field that helps to identify the target; without meaning
        /// when `send_to_all` or `send_to_self` is set.
        target_cpu_aux: u64,
        /// Whether the interrupt goes to every core but the sender.
        send_to_all: bool,
        /// Whether the interrupt goes to the sender itself.
        send_to_self: bool,
        /// The interrupt vector.
        vector: u64,
    },
}

/// Sizes and widths correspond one to one: the size of a width maps back to
/// that width, a size that has a width is the size of that width, and the
/// sizes that have a width are exactly 1, 2, 4 and 8.
pub proof fn lemma_width_size_bijection(width: AccessWidth, size: int)
    ensures
        width_of_size(width.byte_count()) == Some(width),
        width_of_size(size) is Some ==> width_of_size(size).unwrap().byte_count() == size,
        width_of_size(size) is Some <==> (size == 1 || size == 2 || size == 4 || size == 8),
        width_of_size(size) == Some(width) <==> width.byte_count() == size,
{
}

} // verus!
