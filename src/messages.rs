use vstd::prelude::*;
use crate::status::{ErrorKind, PlatformError};

verus! {

/// Message sent to a window while it is being created.
pub const WM_CREATE: u32 = 0x0001;

/// Message sent to a window that is being destroyed.
pub const WM_DESTROY: u32 = 0x0002;

/// Message sent to a window after its size has changed.
pub const WM_SIZE: u32 = 0x0005;

/// Message that ends the message loop.
pub const WM_QUIT: u32 = 0x0012;

/// What the frame's window procedure does with a message.
#[derive(Clone, Copy, Debug, PartialEq, Eq, Structural)]
pub enum MessageAction {
    /// Create the child window and remember its handle.
    CreateChild,
    /// Place the child window over the whole client area and show it.
    FitChild,
    /// Post a quit message with this exit code.
    Quit { exit_code: i32 },
    /// Hand the message to the default window procedure.
    PassThrough,
}

/// The action for each message.
pub open spec fn action_of(msg: u32) -> MessageAction {
    if msg == WM_DESTROY {
        MessageAction::Quit { exit_code: 0 }
    } else if msg == WM_SIZE {
        MessageAction::FitChild
    } else if msg == WM_CREATE {
        MessageAction::CreateChild
    } else {
        MessageAction::PassThrough
    }
}

/// Decides what the window procedure does with message `msg`.
pub fn action_for(msg: u32) -> (r: MessageAction)
    ensures
        r == action_of(msg),
{
    if msg == WM_DESTROY {
        MessageAction::Quit { exit_code: 0 }
    } else if msg == WM_SIZE {
        MessageAction::FitChild
    } else if msg == WM_CREATE {
        MessageAction::CreateChild
    } else {
        MessageAction::PassThrough
    }
}

/// The value the window procedure returns for a message that it handled
/// itself; for the others it returns what the default procedure gave.
pub fn handled_result(action: MessageAction) -> (r: Option<isize>)
    ensures
        action == MessageAction::PassThrough <==> r is None,
        r matches Some(v) ==> v == 0,
{
    match action {
        MessageAction::PassThrough => None,
        _ => Some(0),
    }
}

/// What the message loop does after fetching a message.
#[derive(Clone, Copy, Debug, PartialEq, Eq, Structural)]
pub enum LoopStep {
    /// Translate and dispatch the fetched message, then fetch the next one.
    Dispatch,
    /// Leave the loop: the quit message arrived.
    Stop,
    /// Leave the loop with the failure: the fetch itself failed.
    Fail,
}

/// Decides the loop's next step from what the fetch returned and the message
/// it fetched. A fetch result of -1 is a failure, which is passed on and not
/// retried; zero means the quit message arrived; any other result dispatches
/// the message unless it is a quit.
pub fn loop_step(fetch_result: i32, message: u32) -> (r: LoopStep)
    ensures
        fetch_result == -1 ==> r == LoopStep::Fail,
        fetch_result == 0 ==> r == LoopStep::Stop,
        fetch_result != -1 && fetch_result != 0 ==> (r == LoopStep::Dispatch <==> message
            != WM_QUIT),
        fetch_result != -1 && fetch_result != 0 && message == WM_QUIT ==> r == LoopStep::Stop,
{
    if fetch_result == -1 {
        LoopStep::Fail
    } else if fetch_result == 0 || message == WM_QUIT {
        LoopStep::Stop
    } else {
        LoopStep::Dispatch
    }
}

/// The failure reported when fetching a message fails, with the thread's
/// last error code.
pub fn fetch_failure(last_error: i32) -> (r: PlatformError)
    ensures
        r == (PlatformError { kind: ErrorKind::FetchMessage, code: last_error as u32 }),
{
    PlatformError { kind: ErrorKind::FetchMessage, code: last_error as u32 }
}

} // verus!
