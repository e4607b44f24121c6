//! System-suspend capability for a supervisor binary interface (SBI)
//! implementation.
//!
//! The crate defines the [`susp::Susp`] trait, the contract for the
//! system-suspend extension: a request to put the whole system into a sleep
//! state, identified by a 32-bit sleep type, together with the probe used by
//! the extension registry to detect whether the capability is present.
//!
//! Two combinators let a dispatch layer hold a backend behind indirection
//! without special cases: any `&B` of a backend `B` satisfies the capability
//! by forwarding, and an `Option<B>` satisfies it with `not_supported` and the
//! unavailable probe sentinel when the slot is empty.

pub mod platform;
pub mod ret;
pub mod susp;
