use vstd::prelude::*;

verus! {

/// The steps of setting up a capture graph, each one call to the host.
#[derive(Clone, Copy, Debug, PartialEq, Eq, Structural)]
pub enum SetupStep {
    CreateProcessTap,
    ReadDefaultOutputDevice,
    ReadDeviceUid,
    CreateAggregateDevice,
    CreateIoProc,
    StartDevice,
}

/// Why a setup step failed.
#[derive(Clone, Copy, Debug, PartialEq, Eq, Structural)]
pub enum HalError {
    /// The host answered with a non-zero status code.
    Status { step: SetupStep, status: i32 },
    /// The host reported success but handed back its unknown-object id.
    UnknownObject { step: SetupStep },
    /// A fixed-size property read filled another size than was asked for.
    SizeMismatch { step: SetupStep, expected: u32, returned: u32 },
    /// The identity the host reported for a tap is not a well-formed identifier.
    InvalidIdentity,
    /// The host reported the outcome of a step other than the pending one.
    OutOfOrder { pending: SetupStep },
}

/// The outcome of a host call by its status code: zero is success.
pub open spec fn status_result(step: SetupStep, status: i32) -> Result<(), HalError> {
    if status == 0 {
        Ok(())
    } else {
        Err(HalError::Status { step, status })
    }
}

/// The outcome of a fixed-size property read: the status must be zero and the
/// host must have filled exactly the size that was asked for.
pub open spec fn property_read_result(
    step: SetupStep,
    status: i32,
    expected: u32,
    returned: u32,
) -> Result<(), HalError> {
    if status != 0 {
        Err(HalError::Status { step, status })
    } else if returned != expected {
        Err(HalError::SizeMismatch { step, expected, returned })
    } else {
        Ok(())
    }
}

/// Turns the status code of a host call into a result.
pub fn check_status(step: SetupStep, status: i32) -> (r: Result<(), HalError>)
    ensures
        r == status_result(step, status),
{
    if status == 0 {
        Ok(())
    } else {
        Err(HalError::Status { step, status })
    }
}

/// Checks a fixed-size property read instead of trusting the host blindly.
pub fn check_property_read(step: SetupStep, status: i32, expected: u32, returned: u32) -> (r:
    Result<(), HalError>)
    ensures
        r == property_read_result(step, status, expected, returned),
{
    if status != 0 {
        Err(HalError::Status { step, status })
    } else if returned != expected {
        Err(HalError::SizeMismatch { step, expected, returned })
    } else {
        Ok(())
    }
}

} // verus!
