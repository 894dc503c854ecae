//! The status by which the module answers the host's question whether it can be
//! unloaded.

use vstd::prelude::*;

verus! {

/// The status that raises no objection to unloading.
pub const READY: i32 = 0;

/// The host's error number for a busy device, `libc::EBUSY`.
///
/// Trusted. The constant is defined target by target and its value differs between
/// them, so the contract claims only what every definition shares: it is not zero,
/// and so never reads as [`READY`].
#[verifier::external_body]
pub(crate) fn busy_code() -> (code: i32)
    ensures
        code != READY,
{
    libc::EBUSY
}

} // verus!
