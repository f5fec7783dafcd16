//! Interpreting a death-signal registration.
//!
//! A platform family that supports the operation exposes one control call;
//! by convention it returns zero on success and leaves the cause of a
//! failure in the process-wide last-error value. The functions here turn
//! that convention into a result, and give the stub behaviour for a
//! platform family with no mechanism at all.

use vstd::prelude::*;

verus! {

/// Turn the raw outcome of a death-signal control call into a result:
/// a zero return code means the registration took effect, any other code
/// reports `err`, the last-error value captured right after the call.
pub fn registration_outcome(rc: i32, err: i32) -> (r: Result<(), i32>)
    ensures
        rc == 0 ==> r == Result::<(), i32>::Ok(()),
        rc != 0 ==> r == Result::<(), i32>::Err(err),
{
    if rc == 0 {
        Ok(())
    } else {
        Err(err)
    }
}

/// Death-signal registration on a platform family with no known mechanism:
/// it fails with `not_implemented`, the platform's "function not
/// implemented" error code, whatever signal was asked for.
#[allow(unused_variables)]
pub fn unsupported_registration(sig: i32, not_implemented: i32) -> (r: Result<(), i32>)
    ensures
        r == Result::<(), i32>::Err(not_implemented),
{
    Err(not_implemented)
}

} // verus!
