//! A reference backend for the suspend capability, and the register state a
//! hart observes when it resumes.
//!
//! Hardware power-state sequencing is out of scope for this crate, so the
//! backend here models the decisions a platform makes before it would hand
//! the request to hardware: which sleep types it implements (only suspend to
//! RAM), whether a wake-up device is present, whether the resume address
//! lies in the executable window of physical memory, and whether every
//! other hart is stopped. It answers each request exactly as the error
//! table of the extension prescribes.

use vstd::prelude::*;
use crate::ret::RET_ERR_DENIED;
use crate::ret::RET_ERR_INVALID_ADDRESS;
use crate::ret::RET_ERR_INVALID_PARAM;
use crate::ret::RET_ERR_NOT_SUPPORTED;
use crate::ret::RET_SUCCESS;
use crate::ret::available_sentinel;
use crate::ret::probe_available;
use crate::ret::sbi_ret;
use crate::ret::sbiret_denied;
use crate::ret::sbiret_invalid_address;
use crate::ret::sbiret_invalid_param;
use crate::ret::sbiret_not_supported;
use crate::ret::sbiret_success;
use crate::susp::SUSPEND_TO_RAM;
use crate::susp::Susp;

verus! {

/// A backend that implements the one sleep type whose support the presence
/// of the extension implies, suspend to RAM, over an explicit model of the
/// platform conditions the request depends on.
#[derive(Clone, Copy, PartialEq, Eq, Structural)]
pub struct RamSuspend {
    /// First physical address of the window a resuming hart may execute.
    pub resume_lo: usize,
    /// First physical address past that window.
    pub resume_hi: usize,
    /// Whether the platform has a wake-up device for suspend to RAM.
    pub wakeup_device: bool,
    /// Whether every hart other than the calling one is stopped.
    pub other_harts_stopped: bool,
}

impl RamSuspend {
    /// Whether `addr` is a valid, executable resume address on this
    /// platform.
    pub open spec fn spec_addr_executable(&self, addr: usize) -> bool {
        self.resume_lo <= addr < self.resume_hi
    }
}

impl Susp for RamSuspend {
    open spec fn spec_suspend(&self, sleep_type: u32, resume_addr: usize, opaque: usize)
        -> sbi_spec::binary::SbiRet {
        if sleep_type != SUSPEND_TO_RAM {
            sbi_ret(RET_ERR_INVALID_PARAM, 0)
        } else if !self.wakeup_device {
            sbi_ret(RET_ERR_NOT_SUPPORTED, 0)
        } else if !self.spec_addr_executable(resume_addr) {
            sbi_ret(RET_ERR_INVALID_ADDRESS, 0)
        } else if !self.other_harts_stopped {
            sbi_ret(RET_ERR_DENIED, 0)
        } else {
            sbi_ret(RET_SUCCESS, 0)
        }
    }

    open spec fn spec_implemented(&self, sleep_type: u32) -> bool {
        sleep_type == SUSPEND_TO_RAM
    }

    open spec fn spec_probe(&self) -> usize {
        available_sentinel()
    }

    fn system_suspend(&self, sleep_type: u32, resume_addr: usize, opaque: usize)
        -> (r: sbi_spec::binary::SbiRet) {
        if sleep_type != SUSPEND_TO_RAM {
            sbiret_invalid_param()
        } else if !self.wakeup_device {
            sbiret_not_supported()
        } else if !(self.resume_lo <= resume_addr && resume_addr < self.resume_hi) {
            sbiret_invalid_address()
        } else if !self.other_harts_stopped {
            sbiret_denied()
        } else {
            sbiret_success(0)
        }
    }

    fn _rustsbi_probe(&self) -> (r: usize) {
        probe_available()
    }
}

/// The register state fixed for a hart that resumes after a successful
/// suspend: address translation off, supervisor interrupts disabled, the
/// hart's id in the first argument register and the opaque word of the
/// request in the second. All other registers are undefined.
#[derive(Clone, Copy, PartialEq, Eq, Structural)]
pub struct ResumeContext {
    /// Address-translation root register; zero, translation disabled.
    pub satp: usize,
    /// Supervisor interrupt-enable flag; cleared.
    pub sie: bool,
    /// First argument register, holding the resuming hart's id.
    pub a0: usize,
    /// Second argument register, holding the opaque word unchanged.
    pub a1: usize,
}

/// The exact register state the platform must establish when hart `hartid`
/// resumes from a suspend that carried the word `opaque`.
pub fn resume_entry(hartid: usize, opaque: usize) -> (r: ResumeContext)
    ensures
        r.satp == 0,
        !r.sie,
        r.a0 == hartid,
        r.a1 == opaque,
{
    ResumeContext { satp: 0, sie: false, a0: hartid, a1: opaque }
}

} // verus!
