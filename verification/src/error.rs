//! The failures that the register, regulator and panel layers report.

use vstd::prelude::*;

verus! {

/// Why an operation failed.
#[derive(Clone, Copy, Debug, PartialEq, Eq, Structural)]
pub enum Error {
    /// The bus transaction itself failed; the code is the one the backend reported.
    BusError(i32),
    /// The register or field is not declared with the access the operation needs.
    PermissionDenied,
    /// The value does not fit the field's declared bit width.
    ValueTooWide,
    /// The bits read back name no symbol of the field's enumeration.
    DecodeError,
    /// The chip's configuration cannot represent what was asked.
    Unsupported,
    /// The device's resources were already revoked.
    NotReady,
    /// A declaration or an argument is malformed.
    InvalidArgument,
}

impl Error {
    /// The negative error number that stands for this failure at a C boundary.
    pub open spec fn spec_errno(self) -> int {
        match self {
            Error::BusError(code) => if code < 0 {
                code as int
            } else {
                -5
            },
            Error::PermissionDenied => -13,
            Error::ValueTooWide => -34,
            Error::DecodeError => -22,
            Error::Unsupported => -524,
            Error::NotReady => -19,
            Error::InvalidArgument => -22,
        }
    }

    /// The failure that a backend reports with the error number `errno`.
    pub fn from_errno(errno: i32) -> (error: Error)
        ensures
            error == Error::BusError(errno),
    {
        Error::BusError(errno)
    }

    /// Maps the failure to a negative error number; a backend's own negative
    /// code is passed on unchanged.
    pub fn to_errno(self) -> (errno: i32)
        ensures
            errno == self.spec_errno(),
            errno < 0,
    {
        match self {
            Error::BusError(code) => if code < 0 {
                code
            } else {
                -5
            },
            Error::PermissionDenied => -13,
            Error::ValueTooWide => -34,
            Error::DecodeError => -22,
            Error::Unsupported => -524,
            Error::NotReady => -19,
            Error::InvalidArgument => -22,
        }
    }
}

/// What the number `ret` that a backend call handed back means: a failure
/// with that error number where it is negative, the number itself otherwise.
pub open spec fn spec_to_value(ret: i32) -> Result<i32, Error> {
    if ret < 0 {
        Err(Error::BusError(ret))
    } else {
        Ok(ret)
    }
}

/// Reads the number that a backend call handed back as a value or a failure.
pub fn to_value(ret: i32) -> (value: Result<i32, Error>)
    ensures
        value == spec_to_value(ret),
        value matches Ok(v) ==> v >= 0,
{
    if ret < 0 {
        Err(Error::from_errno(ret))
    } else {
        Ok(ret)
    }
}

/// Reads the number that a backend call handed back as success or a failure.
pub fn to_result(ret: i32) -> (result: Result<(), Error>)
    ensures
        ret < 0 ==> result == Err::<(), Error>(Error::BusError(ret)),
        ret >= 0 ==> result is Ok,
{
    if ret < 0 {
        Err(Error::from_errno(ret))
    } else {
        Ok(())
    }
}

/// The number that stands for the result of an operation without an
/// answer: zero for success, the failure's error number otherwise.
pub open spec fn spec_result_number(result: Result<(), Error>) -> int {
    match result {
        Ok(_) => 0,
        Err(e) => e.spec_errno(),
    }
}

/// The number that a caller across a C boundary is handed for the result of
/// an operation without an answer.
pub fn result_number(result: Result<(), Error>) -> (number: i32)
    ensures
        number == spec_result_number(result),
        number <= 0,
{
    match result {
        Ok(_) => 0,
        Err(e) => e.to_errno(),
    }
}

/// A backend's failure goes out with the error number it came in with.
pub proof fn law_errno_round_trip(errno: i32)
    requires
        errno < 0,
    ensures
        Error::BusError(errno).spec_errno() == errno,
{
}

} // verus!
