//! Waiting on the sound server: what one turn of its event loop decides.
//!
//! Every exchange with the server is a request followed by turns of the
//! event loop, until the request is done or has failed. The caller makes the
//! turn and reads the state; the functions here say whether to turn again.

use vstd::prelude::*;

verus! {

/// How one turn of the event loop ended.
#[derive(Clone, Copy, PartialEq, Eq, Debug, Structural)]
pub enum IterateResult {
    /// Events were handled.
    Success,
    /// The loop was told to quit.
    Quit,
    /// The loop failed.
    Failed,
}

/// The state of a request that was sent to the server.
#[derive(Clone, Copy, PartialEq, Eq, Debug, Structural)]
pub enum OperationState {
    /// The server has not answered yet.
    Running,
    /// The server has answered.
    Done,
    /// The request was withdrawn, by the server or because the connection ended.
    Cancelled,
}

/// The state of the connection to the server.
#[derive(Clone, Copy, PartialEq, Eq, Debug, Structural)]
pub enum ContextState {
    Unconnected,
    Connecting,
    Authorizing,
    SettingName,
    Ready,
    Failed,
    Terminated,
}

/// What to do after a turn of the event loop.
#[derive(Clone, Copy, PartialEq, Eq, Debug, Structural)]
pub enum Wait {
    /// Turn the loop once more.
    Again,
    /// Stop turning: what was waited for has come.
    Over,
}

/// What a turn decides while a request is under way: a loop that quit or
/// failed ends the wait with an error, and so does a cancelled request; a
/// running request asks for another turn; a request that is done ends the wait.
pub open spec fn operation_wait(iterated: IterateResult, state: OperationState) -> Result<
    Wait,
    Seq<char>,
> {
    match iterated {
        IterateResult::Quit => Err("Mainloop quit..."@),
        IterateResult::Failed => Err("Error in mainloop"@),
        IterateResult::Success => match state {
            OperationState::Running => Ok(Wait::Again),
            OperationState::Cancelled => Err("Operation was cancelled"@),
            OperationState::Done => Ok(Wait::Over),
        },
    }
}

/// What a turn decides while the connection is being made: a loop that quit
/// or failed ends the wait with an error, and so does a connection that
/// failed or was ended; a ready connection ends the wait; every other state
/// asks for another turn.
pub open spec fn connection_wait(iterated: IterateResult, state: ContextState) -> Result<
    Wait,
    Seq<char>,
> {
    match iterated {
        IterateResult::Quit => Err("Iterate state was not success, quitting..."@),
        IterateResult::Failed => Err("Iterate state was not success, quitting..."@),
        IterateResult::Success => match state {
            ContextState::Ready => Ok(Wait::Over),
            ContextState::Failed => Err("Context in state failed/terminated"@),
            ContextState::Terminated => Err("Context in state failed/terminated"@),
            _ => Ok(Wait::Again),
        },
    }
}

/// Whether `decided` is the decision `expected`, the error compared by its text.
pub open spec fn decides(decided: Result<Wait, &'static str>, expected: Result<Wait, Seq<char>>) -> bool {
    match decided {
        Ok(wait) => expected == Ok::<Wait, Seq<char>>(wait),
        Err(why) => expected == Err::<Wait, Seq<char>>(why@),
    }
}

/// Decides, after a turn of the event loop, whether to go on waiting for a
/// request.
pub fn wait_for_op(iterated: IterateResult, state: OperationState) -> (decided: Result<
    Wait,
    &'static str,
>)
    ensures
        decides(decided, operation_wait(iterated, state)),
{
    match iterated {
        IterateResult::Quit => {
            return Err("Mainloop quit...");
        },
        IterateResult::Failed => {
            return Err("Error in mainloop");
        },
        IterateResult::Success => {},
    }
    match state {
        OperationState::Running => Ok(Wait::Again),
        OperationState::Cancelled => Err("Operation was cancelled"),
        OperationState::Done => Ok(Wait::Over),
    }
}

/// Decides, after a turn of the event loop, whether to go on waiting for the
/// connection.
pub fn connect_to_pulse(iterated: IterateResult, state: ContextState) -> (decided: Result<
    Wait,
    &'static str,
>)
    ensures
        decides(decided, connection_wait(iterated, state)),
{
    match iterated {
        IterateResult::Quit | IterateResult::Failed => {
            return Err("Iterate state was not success, quitting...");
        },
        IterateResult::Success => {},
    }
    match state {
        ContextState::Ready => Ok(Wait::Over),
        ContextState::Failed | ContextState::Terminated => Err(
            "Context in state failed/terminated",
        ),
        _ => Ok(Wait::Again),
    }
}

} // verus!
