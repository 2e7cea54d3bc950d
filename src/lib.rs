//! Decision logic of a desktop window that hosts a XAML island.
//!
//! The host program performs the platform calls; this library decides what
//! their status codes mean, what is sent to them, and how window messages are
//! handled.

mod messages;
mod ro_runtime;
mod status;
mod text;
mod window;

pub use messages::{
    action_for, action_of, fetch_failure, handled_result, loop_step, LoopStep, MessageAction,
    WM_CREATE, WM_DESTROY, WM_QUIT, WM_SIZE,
};
pub use ro_runtime::{RoInit, APARTMENT_TYPE};
pub use status::{check_status, is_success, status_value, ErrorKind, PlatformError};
pub use text::{lemma_utf16_nonzero, utf16_of, utf16_units, wide_nul};
pub use window::{
    child_bounds, creation_outcome, initial_island_bounds, registration_outcome, Bounds, Rect,
    CHILD_CLASS_NAME,
};
