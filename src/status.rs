use vstd::prelude::*;

verus! {

/// A status code reports success when its sign bit is clear.
pub open spec fn is_success(code: u32) -> bool {
    code < 0x8000_0000
}

/// Where a failure came from.
#[derive(Clone, Copy, Debug, PartialEq, Eq, Structural)]
pub enum ErrorKind {
    /// Registering the window class returned no class atom.
    RegisterClass,
    /// Creating the window returned a null handle.
    CreateWindow,
    /// A call returned a failing status code.
    Status,
    /// Fetching a window message failed.
    FetchMessage,
}

/// A failed platform call and the code that it reported.
#[derive(Clone, Copy, Debug, PartialEq, Eq, Structural)]
pub struct PlatformError {
    pub kind: ErrorKind,
    pub code: u32,
}

impl PlatformError {
    /// The text shown for this failure; for `Status` the host adds the
    /// system's own description of the code.
    pub fn description(&self) -> (r: &'static str)
        ensures
            self.kind == ErrorKind::RegisterClass ==> r@ == "Failed to register Window class"@,
            self.kind == ErrorKind::CreateWindow ==> r@ == "Failed to create Window"@,
            self.kind == ErrorKind::Status ==> r@ == "Platform call failed"@,
            self.kind == ErrorKind::FetchMessage ==> r@ == "Failed to fetch a window message"@,
    {
        match self.kind {
            ErrorKind::RegisterClass => "Failed to register Window class",
            ErrorKind::CreateWindow => "Failed to create Window",
            ErrorKind::Status => "Platform call failed",
            ErrorKind::FetchMessage => "Failed to fetch a window message",
        }
    }
}

/// Hands `value` on when `code` reports success, and the failure otherwise.
pub fn status_value<T>(code: u32, value: T) -> (r: Result<T, PlatformError>)
    ensures
        is_success(code) ==> r == Ok::<T, PlatformError>(value),
        !is_success(code) ==> r == Err::<T, PlatformError>(
            PlatformError { kind: ErrorKind::Status, code },
        ),
{
    if code < 0x8000_0000 {
        Ok(value)
    } else {
        Err(PlatformError { kind: ErrorKind::Status, code })
    }
}

/// Turns a status code into `Ok` on success and the failure otherwise.
pub fn check_status(code: u32) -> (r: Result<(), PlatformError>)
    ensures
        is_success(code) ==> r == Ok::<(), PlatformError>(()),
        !is_success(code) ==> r == Err::<(), PlatformError>(
            PlatformError { kind: ErrorKind::Status, code },
        ),
{
    status_value(code, ())
}

} // verus!
