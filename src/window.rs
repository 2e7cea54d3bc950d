use vstd::prelude::*;
use crate::status::{ErrorKind, PlatformError};

verus! {

/// Name of the class of the child window that the frame creates.
pub const CHILD_CLASS_NAME: &'static str = "ChildWClass";

/// A rectangle given by its edges, as the platform reports a client area.
#[derive(Clone, Copy, Debug, PartialEq, Eq, Structural)]
pub struct Rect {
    pub left: i32,
    pub top: i32,
    pub right: i32,
    pub bottom: i32,
}

/// A window position and size, as the platform takes them to place a window.
#[derive(Clone, Copy, Debug, PartialEq, Eq, Structural)]
pub struct Bounds {
    pub x: i32,
    pub y: i32,
    pub width: i32,
    pub height: i32,
}

/// The outcome of registering the window class: a zero atom is a failure,
/// reported with the thread's last error code.
pub fn registration_outcome(atom: u16, last_error: i32) -> (r: Result<(), PlatformError>)
    ensures
        r is Ok <==> atom != 0,
        r matches Err(e) ==> e == (PlatformError {
            kind: ErrorKind::RegisterClass,
            code: last_error as u32,
        }),
{
    if atom != 0 {
        Ok(())
    } else {
        Err(PlatformError { kind: ErrorKind::RegisterClass, code: last_error as u32 })
    }
}

/// The outcome of creating the frame window: its handle, or, for a null
/// handle, a failure with the thread's last error code.
pub fn creation_outcome(handle: isize, last_error: i32) -> (r: Result<isize, PlatformError>)
    ensures
        r is Ok <==> handle != 0,
        r matches Ok(h) ==> h == handle,
        r matches Err(e) ==> e == (PlatformError {
            kind: ErrorKind::CreateWindow,
            code: last_error as u32,
        }),
{
    if handle != 0 {
        Ok(handle)
    } else {
        Err(PlatformError { kind: ErrorKind::CreateWindow, code: last_error as u32 })
    }
}

/// Where the island window goes once it is attached: it starts out empty,
/// and is given a fixed size at the frame's origin.
pub fn initial_island_bounds() -> (r: Bounds)
    ensures
        r == (Bounds { x: 0, y: 0, width: 800, height: 200 }),
{
    Bounds { x: 0, y: 0, width: 800, height: 200 }
}

/// Where the child window goes when the frame is resized: it fills the
/// client area from its origin.
pub fn child_bounds(client: &Rect) -> (r: Bounds)
    ensures
        r == (Bounds { x: 0, y: 0, width: client.right, height: client.bottom }),
{
    Bounds { x: 0, y: 0, width: client.right, height: client.bottom }
}

} // verus!
