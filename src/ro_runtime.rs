use vstd::prelude::*;
use crate::status::{is_success, ErrorKind, PlatformError};

verus! {

/// Apartment type that the host passes when it initialises the runtime: 0 is
/// the single-threaded apartment, in which one thread owns the window, the
/// runtime and the message loop. `RoInit::multi_threaded` keeps its name but
/// goes with this type.
pub const APARTMENT_TYPE: i32 = 0;

/// Token for an initialisation of the windows runtime that reported success.
///
/// Only `multi_threaded` makes one, and only from a success status that it is
/// handed; it shows that such a status was passed in, not that the runtime
/// was initialised. The host makes it from the status that its own
/// initialisation call returned, keeps it while the runtime is in use, and
/// uninitialises the runtime when it lets it go.
#[derive(Debug)]
pub struct RoInit {
    sealed: (),
}

impl RoInit {
    /// Takes the status code that initialising the runtime returned, and
    /// yields the token on success and the failure otherwise.
    pub fn multi_threaded(status: u32) -> (r: Result<RoInit, PlatformError>)
        ensures
            r is Ok <==> is_success(status),
            r matches Err(e) ==> e == (PlatformError { kind: ErrorKind::Status, code: status }),
    {
        if status < 0x8000_0000 {
            Ok(RoInit { sealed: () })
        } else {
            Err(PlatformError { kind: ErrorKind::Status, code: status })
        }
    }
}

} // verus!
