use rupamix::pulse_driver::{
    connect_to_pulse, wait_for_op, ContextState, IterateResult, OperationState, Wait,
};

#[test]
fn a_running_request_asks_for_another_turn() {
    assert_eq!(wait_for_op(IterateResult::Success, OperationState::Running), Ok(Wait::Again));
}

#[test]
fn a_request_that_is_done_ends_the_wait() {
    assert_eq!(wait_for_op(IterateResult::Success, OperationState::Done), Ok(Wait::Over));
}

#[test]
fn a_cancelled_request_fails_the_wait() {
    assert_eq!(
        wait_for_op(IterateResult::Success, OperationState::Cancelled),
        Err("Operation was cancelled")
    );
}

#[test]
fn a_loop_that_stopped_fails_the_wait_whatever_the_request_says() {
    for state in [OperationState::Running, OperationState::Done, OperationState::Cancelled] {
        assert_eq!(wait_for_op(IterateResult::Quit, state), Err("Mainloop quit..."));
        assert_eq!(wait_for_op(IterateResult::Failed, state), Err("Error in mainloop"));
    }
}

#[test]
fn a_connection_is_awaited_until_it_is_ready() {
    for state in [
        ContextState::Unconnected,
        ContextState::Connecting,
        ContextState::Authorizing,
        ContextState::SettingName,
    ] {
        assert_eq!(connect_to_pulse(IterateResult::Success, state), Ok(Wait::Again));
    }
    assert_eq!(connect_to_pulse(IterateResult::Success, ContextState::Ready), Ok(Wait::Over));
}

#[test]
fn a_connection_that_ended_fails_the_wait() {
    for state in [ContextState::Failed, ContextState::Terminated] {
        assert_eq!(
            connect_to_pulse(IterateResult::Success, state),
            Err("Context in state failed/terminated")
        );
    }
    for turn in [IterateResult::Quit, IterateResult::Failed] {
        assert_eq!(
            connect_to_pulse(turn, ContextState::Ready),
            Err("Iterate state was not success, quitting...")
        );
    }
}
