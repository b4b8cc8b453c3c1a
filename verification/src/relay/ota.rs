//! The one decision of a firmware update that is not transport: whether the
//! server's answer is worth reading.

use vstd::prelude::*;

verus! {

/// Why an update was given up.
#[derive(Debug, PartialEq, Eq, Structural, Clone, Copy)]
pub enum OtaError {
    /// The transport failed; the driver's error code.
    Esp(i32),
    /// The server answered with a status outside the two hundreds.
    BadResponse(u16),
}

/// Accepts the statuses 200 to 299 and refuses every other.
pub fn check_status(status: u16) -> (r: Result<(), OtaError>)
    ensures
        r == if 200 <= status <= 299 {
            Ok::<(), OtaError>(())
        } else {
            Err(OtaError::BadResponse(status))
        },
{
    if status / 100 != 2 {
        return Err(OtaError::BadResponse(status));
    }
    Ok(())
}

} // verus!
