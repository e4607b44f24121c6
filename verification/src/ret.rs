//! The SBI return value and the error codes the suspend capability may use.
//!
//! The calling convention returns a pair of machine words: an error code and
//! a payload value. The pair itself, `SbiRet`, comes from the `sbi_spec`
//! crate; this module declares it for the verifier, mirrors the error codes
//! that the suspend operation is allowed to produce, and wraps the `SbiRet`
//! constructors that the rest of the crate needs.

use vstd::prelude::*;

verus! {

/// Error code of a call that succeeded.
pub const RET_SUCCESS: usize = 0;

/// Error code of a call that failed for unspecified reasons.
pub const RET_ERR_FAILED: usize = usize::MAX;

/// Error code of a call whose operation is implemented but cannot be honored
/// by the platform (a missing dependency, such as a wake-up device).
pub const RET_ERR_NOT_SUPPORTED: usize = usize::MAX - 1;

/// Error code of a call with a reserved-and-unimplemented or
/// platform-specific-and-unimplemented parameter.
pub const RET_ERR_INVALID_PARAM: usize = usize::MAX - 2;

/// Error code of a call whose entry preconditions were not met.
pub const RET_ERR_DENIED: usize = usize::MAX - 3;

/// Error code of a call whose address argument is not valid and executable.
pub const RET_ERR_INVALID_ADDRESS: usize = usize::MAX - 4;

#[verifier::external_type_specification]
pub struct ExSbiRet<T>(sbi_spec::binary::SbiRet<T>);

/// The `SbiRet` with the given error code and payload value.
pub open spec fn sbi_ret(error: usize, value: usize) -> sbi_spec::binary::SbiRet {
    sbi_spec::binary::SbiRet { error, value }
}

/// Whether `error` is one of the six outcomes of the suspend operation.
///
/// The taxonomy is closed: no other classification is valid for this
/// capability.
pub open spec fn is_susp_outcome(error: usize) -> bool {
    ||| error == RET_SUCCESS
    ||| error == RET_ERR_INVALID_PARAM
    ||| error == RET_ERR_NOT_SUPPORTED
    ||| error == RET_ERR_INVALID_ADDRESS
    ||| error == RET_ERR_DENIED
    ||| error == RET_ERR_FAILED
}

/// Probe sentinel reported when the extension is absent.
pub open spec fn unavailable_sentinel() -> usize {
    0
}

/// Probe sentinel reported when the extension is present.
pub open spec fn available_sentinel() -> usize {
    1
}

/// Law: the probe sentinel that reports the extension present is the
/// sentinel that reports it absent plus one. Every backend configuration
/// follows the convention, since each probe returns one of the two
/// sentinels.
pub proof fn lemma_probe_sentinels()
    ensures
        available_sentinel() == unavailable_sentinel() + 1,
{
}

/// Relies on `sbi_spec::base::UNAVAILABLE_EXTENSION`: the probe value for an
/// absent extension, defined as `0`.
#[verifier::external_body]
fn unavailable_extension() -> (r: usize)
    ensures
        r == unavailable_sentinel(),
{
    sbi_spec::base::UNAVAILABLE_EXTENSION
}

/// The probe value reporting the extension absent.
pub fn probe_unavailable() -> (r: usize)
    ensures
        r == unavailable_sentinel(),
{
    unavailable_extension()
}

/// The probe value reporting the extension present: one above the
/// unavailable sentinel.
pub fn probe_available() -> (r: usize)
    ensures
        r == available_sentinel(),
{
    let base: usize = unavailable_extension();
    base + 1
}

/// Relies on `sbi_spec::binary::SbiRet::success`: error is `RET_SUCCESS` and
/// the payload is the given value.
#[verifier::external_body]
pub(crate) fn sbiret_success(value: usize) -> (r: sbi_spec::binary::SbiRet)
    ensures
        r == sbi_ret(RET_SUCCESS, value),
{
    sbi_spec::binary::SbiRet::success(value)
}

/// Relies on `sbi_spec::binary::SbiRet::not_supported`: error is
/// `RET_ERR_NOT_SUPPORTED` and the payload is zero.
#[verifier::external_body]
pub(crate) fn sbiret_not_supported() -> (r: sbi_spec::binary::SbiRet)
    ensures
        r == sbi_ret(RET_ERR_NOT_SUPPORTED, 0),
{
    sbi_spec::binary::SbiRet::not_supported()
}

/// Relies on `sbi_spec::binary::SbiRet::invalid_param`: error is
/// `RET_ERR_INVALID_PARAM` and the payload is zero.
#[verifier::external_body]
pub(crate) fn sbiret_invalid_param() -> (r: sbi_spec::binary::SbiRet)
    ensures
        r == sbi_ret(RET_ERR_INVALID_PARAM, 0),
{
    sbi_spec::binary::SbiRet::invalid_param()
}

/// Relies on `sbi_spec::binary::SbiRet::denied`: error is `RET_ERR_DENIED`
/// and the payload is zero.
#[verifier::external_body]
pub(crate) fn sbiret_denied() -> (r: sbi_spec::binary::SbiRet)
    ensures
        r == sbi_ret(RET_ERR_DENIED, 0),
{
    sbi_spec::binary::SbiRet::denied()
}

/// Relies on `sbi_spec::binary::SbiRet::invalid_address`: error is
/// `RET_ERR_INVALID_ADDRESS` and the payload is zero.
#[verifier::external_body]
pub(crate) fn sbiret_invalid_address() -> (r: sbi_spec::binary::SbiRet)
    ensures
        r == sbi_ret(RET_ERR_INVALID_ADDRESS, 0),
{
    sbi_spec::binary::SbiRet::invalid_address()
}

} // verus!
