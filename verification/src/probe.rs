//! Version probe: decides whether an opened device handle supports the
//! generic command-passthrough interface at a trustworthy version.

use vstd::prelude::*;

verus! {

/// Minimum passthrough interface version known to support the required
/// feature set. A device reporting anything older is rejected.
pub const MIN_SUPPORTED_VERSION: i32 = 30000;

/// Why the version probe rejected a device handle.
#[derive(Clone, Copy, Debug, PartialEq, Eq, Structural)]
pub enum ProbeError {
    /// The control call requesting the version failed at the system level;
    /// carries the reported system error code.
    CallFailed { errno: i32 },
    /// The call succeeded but the reported version is below
    /// `MIN_SUPPORTED_VERSION`; carries the reported version.
    VersionTooOld { version: i32 },
}

/// Decides the outcome of the version probe from the raw result of the
/// version-query control call: `Err(errno)` if the call itself failed,
/// `Ok(version)` otherwise.
///
/// The probe succeeds exactly when the call did not fail and the reported
/// version is at least `MIN_SUPPORTED_VERSION`; on failure the error says
/// which of the two conditions was violated.
pub fn evaluate_version_probe(call_result: Result<i32, i32>) -> (r: Result<
    i32,
    ProbeError,
>)
    ensures
        r is Ok <==> (call_result is Ok && call_result->Ok_0 >= MIN_SUPPORTED_VERSION),
        call_result is Ok && call_result->Ok_0 >= MIN_SUPPORTED_VERSION ==> r == Ok::<
            i32,
            ProbeError,
        >(call_result->Ok_0),
        call_result is Ok && call_result->Ok_0 < MIN_SUPPORTED_VERSION ==> r == Err::<
            i32,
            ProbeError,
        >(ProbeError::VersionTooOld { version: call_result->Ok_0 }),
        call_result is Err ==> r == Err::<i32, ProbeError>(
            ProbeError::CallFailed { errno: call_result->Err_0 },
        ),
{
    match call_result {
        Err(errno) => Err(ProbeError::CallFailed { errno }),
        Ok(version) => {
            if version < MIN_SUPPORTED_VERSION {
                Err(ProbeError::VersionTooOld { version })
            } else {
                Ok(version)
            }
        },
    }
}

} // verus!
