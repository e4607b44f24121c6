//! The system-suspend capability and its combinators.
//!
//! [`Susp`] is the contract of the extension: one operation that requests a
//! system-wide sleep transition, and a probe that tells the extension
//! registry whether the capability is present at all.
//!
//! Two combinators make the capability compose through indirection: a
//! non-owning reference to a backend is itself a backend, and an optional
//! slot is a backend that answers `not_supported` and probes unavailable
//! while it is empty. Both forward each operation unchanged whenever a
//! backend is there to forward to.

use vstd::prelude::*;
use crate::ret::RET_ERR_INVALID_PARAM;
use crate::ret::RET_ERR_NOT_SUPPORTED;
use crate::ret::RET_SUCCESS;
use crate::ret::available_sentinel;
use crate::ret::is_susp_outcome;
use crate::ret::sbi_ret;
use crate::ret::sbiret_not_supported;
use crate::ret::unavailable_sentinel;

verus! {

/// Sleep type of the "suspend to RAM" state, the one sleep type whose
/// support is implied by the presence of the extension itself.
pub const SUSPEND_TO_RAM: u32 = 0;

/// Whether `sleep_type` lies in the range reserved for future
/// standardization, `0x1..=0x7fff_ffff`. The remaining range,
/// `0x8000_0000..=0xffff_ffff`, is left to platform-defined sleep types.
pub open spec fn reserved_sleep_type(sleep_type: u32) -> bool {
    0 < sleep_type < 0x8000_0000
}

/// System-Suspend extension.
///
/// A backend of the extension accepts a request to put the system into the
/// sleep state named by `sleep_type`. A return from `system_suspend` means
/// an error; on success the calling hart ceases to run and later resumes at
/// `resume_addr` in supervisor mode (see [`crate::platform::ResumeContext`]),
/// so control never comes back to the call site.
///
/// Each implementer describes itself to the verifier with three
/// specification functions: the exact outcome of every request
/// (`spec_suspend`), the set of sleep types it implements
/// (`spec_implemented`), and the probe sentinel it reports (`spec_probe`).
/// The contracts of the two executable operations tie the code to that
/// description and hold every implementer to the rules of the extension:
/// the outcome taxonomy is closed; a reserved, unimplemented sleep type is
/// never accepted; `invalid_param` is reported only for unimplemented sleep
/// types; and a backend that probes available implements suspend to RAM.
pub trait Susp {
    /// The outcome this backend produces for the given request.
    spec fn spec_suspend(&self, sleep_type: u32, resume_addr: usize, opaque: usize)
        -> sbi_spec::binary::SbiRet;

    /// Whether this backend implements the given sleep type.
    spec fn spec_implemented(&self, sleep_type: u32) -> bool;

    /// The probe sentinel this backend reports to the extension registry.
    spec fn spec_probe(&self) -> usize;

    /// Request that the system transition to the sleep state `sleep_type`,
    /// resuming at `resume_addr` with `opaque` handed through to the resumed
    /// context.
    fn system_suspend(&self, sleep_type: u32, resume_addr: usize, opaque: usize)
        -> (r: sbi_spec::binary::SbiRet)
        ensures
            r == self.spec_suspend(sleep_type, resume_addr, opaque),
            is_susp_outcome(r.error),
            reserved_sleep_type(sleep_type) && !self.spec_implemented(sleep_type)
                ==> r.error != RET_SUCCESS,
            r.error == RET_ERR_INVALID_PARAM ==> !self.spec_implemented(sleep_type),
            self.spec_probe() == available_sentinel()
                ==> self.spec_implemented(SUSPEND_TO_RAM),
    ;

    /// The probe the extension registry uses to detect presence of the
    /// capability. Internal to the registry: not part of the calling
    /// convention that supervisor software sees.
    fn _rustsbi_probe(&self) -> (r: usize)
        ensures
            r == self.spec_probe(),
            r == unavailable_sentinel() || r == available_sentinel(),
    ;
}

impl<T: Susp> Susp for &T {
    open spec fn spec_suspend(&self, sleep_type: u32, resume_addr: usize, opaque: usize)
        -> sbi_spec::binary::SbiRet {
        (**self).spec_suspend(sleep_type, resume_addr, opaque)
    }

    open spec fn spec_implemented(&self, sleep_type: u32) -> bool {
        (**self).spec_implemented(sleep_type)
    }

    open spec fn spec_probe(&self) -> usize {
        (**self).spec_probe()
    }

    fn system_suspend(&self, sleep_type: u32, resume_addr: usize, opaque: usize)
        -> (r: sbi_spec::binary::SbiRet) {
        T::system_suspend(*self, sleep_type, resume_addr, opaque)
    }

    fn _rustsbi_probe(&self) -> (r: usize) {
        T::_rustsbi_probe(*self)
    }
}

impl<T: Susp> Susp for Option<T> {
    open spec fn spec_suspend(&self, sleep_type: u32, resume_addr: usize, opaque: usize)
        -> sbi_spec::binary::SbiRet {
        match self {
            Some(inner) => inner.spec_suspend(sleep_type, resume_addr, opaque),
            None => sbi_ret(RET_ERR_NOT_SUPPORTED, 0),
        }
    }

    open spec fn spec_implemented(&self, sleep_type: u32) -> bool {
        match self {
            Some(inner) => inner.spec_implemented(sleep_type),
            None => false,
        }
    }

    open spec fn spec_probe(&self) -> usize {
        match self {
            Some(inner) => inner.spec_probe(),
            None => unavailable_sentinel(),
        }
    }

    fn system_suspend(&self, sleep_type: u32, resume_addr: usize, opaque: usize)
        -> (r: sbi_spec::binary::SbiRet) {
        match self {
            Some(inner) => inner.system_suspend(sleep_type, resume_addr, opaque),
            None => sbiret_not_supported(),
        }
    }

    fn _rustsbi_probe(&self) -> (r: usize) {
        match self {
            Some(inner) => inner._rustsbi_probe(),
            None => crate::ret::probe_unavailable(),
        }
    }
}

/// Law: access through a non-owning reference is transparent. A reference
/// to a backend models the same outcome for every request, the same
/// implemented sleep types and the same probe sentinel as the backend
/// itself; with the contract of `system_suspend`, the results of both
/// operations through the reference are therefore bit-identical to calling
/// the backend directly.
pub proof fn lemma_reference_transparent<B: Susp>(
    backend: &B,
    sleep_type: u32,
    resume_addr: usize,
    opaque: usize,
)
    ensures
        <&B as Susp>::spec_suspend(&backend, sleep_type, resume_addr, opaque)
            == backend.spec_suspend(sleep_type, resume_addr, opaque),
        <&B as Susp>::spec_implemented(&backend, sleep_type)
            == backend.spec_implemented(sleep_type),
        <&B as Susp>::spec_probe(&backend) == backend.spec_probe(),
{
}

/// Law: an optional slot that is empty refuses every request with
/// `not_supported` and a zero payload, implements no sleep type, and
/// reports the unavailable probe sentinel to the extension registry.
pub proof fn lemma_empty_slot<B: Susp>(
    slot: Option<B>,
    sleep_type: u32,
    resume_addr: usize,
    opaque: usize,
)
    requires
        slot is None,
    ensures
        slot.spec_suspend(sleep_type, resume_addr, opaque) == sbi_ret(RET_ERR_NOT_SUPPORTED, 0),
        !slot.spec_implemented(sleep_type),
        slot.spec_probe() == unavailable_sentinel(),
{
}

/// Law: an optional slot that holds a backend behaves exactly as that
/// backend for every request — the same outcome, the same implemented sleep
/// types and the same probe sentinel — and so, by reference transparency,
/// exactly as a reference to it.
pub proof fn lemma_populated_slot<B: Susp>(
    slot: Option<B>,
    backend: B,
    sleep_type: u32,
    resume_addr: usize,
    opaque: usize,
)
    requires
        slot == Some(backend),
    ensures
        slot.spec_suspend(sleep_type, resume_addr, opaque)
            == backend.spec_suspend(sleep_type, resume_addr, opaque),
        slot.spec_implemented(sleep_type) == backend.spec_implemented(sleep_type),
        slot.spec_probe() == backend.spec_probe(),
{
}

} // verus!
