//! Classification of the operating system's answer to a core-pinning
//! request.
//!
//! Pinning itself is a raw OS call made by the surrounding program; the
//! benchmark's rule — a run is valid only if both threads are pinned, so
//! any rejection is fatal — is decided here, on the plain return code.

use vstd::prelude::*;

verus! {

/// Why a core-pinning request did not take effect.
#[derive(Clone, Copy, Debug, PartialEq, Eq, Structural)]
pub enum AffinityError {
    /// The OS rejected the request (for example, the core index is
    /// beyond the host's topology); holds the nonzero code it returned.
    Os { code: i32 },
    /// The platform offers no way to pin a thread to a core.
    Unsupported,
}

/// Interprets the return code of the OS affinity call: zero means the
/// thread is now restricted to the requested core, anything else is a
/// fatal affinity error carrying that code.
pub fn affinity_outcome(ret: i32) -> (r: Result<(), AffinityError>)
    ensures
        r is Ok <==> ret == 0,
        ret != 0 ==> (r matches Err(AffinityError::Os { code }) && code == ret),
{
    if ret == 0 {
        Ok(())
    } else {
        Err(AffinityError::Os { code: ret })
    }
}

} // verus!
