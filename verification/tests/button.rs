use soil_sensor_core::button::{gesture_event, ButtonEvent, ButtonInput, ButtonState, ButtonWait};

fn feed(inputs: &[ButtonInput]) -> (ButtonState, Vec<ButtonEvent>) {
    let mut state = ButtonState::new();
    let mut events = Vec::new();
    for input in inputs {
        if let Some(event) = state.step(*input) {
            events.push(event);
        }
    }
    (state, events)
}

fn clicks(n: usize) -> Vec<ButtonInput> {
    let mut inputs = vec![
        ButtonInput::FallingEdge,
        ButtonInput::DebounceElapsed { high: false },
        ButtonInput::RisingEdge,
    ];
    for _ in 1..n {
        inputs.push(ButtonInput::FallingEdge);
        inputs.push(ButtonInput::RisingEdge);
    }
    inputs.push(ButtonInput::WindowElapsed);
    inputs
}

#[test]
fn single_press_samples_now() {
    assert_eq!(feed(&clicks(1)), (ButtonState::Idle, vec![ButtonEvent::SampleNow]));
}

#[test]
fn triple_click_calibrates() {
    assert_eq!(feed(&clicks(3)), (ButtonState::Idle, vec![ButtonEvent::Calibrate]));
}

#[test]
fn other_click_counts_do_nothing() {
    for n in [2usize, 4, 5, 7] {
        assert_eq!(feed(&clicks(n)), (ButtonState::Idle, vec![]));
    }
}

#[test]
fn long_hold_factory_resets() {
    let inputs = [
        ButtonInput::FallingEdge,
        ButtonInput::DebounceElapsed { high: false },
        ButtonInput::HoldElapsed,
        ButtonInput::RisingEdge,
    ];
    assert_eq!(feed(&inputs), (ButtonState::Idle, vec![ButtonEvent::FactoryReset]));
}

#[test]
fn debounce_glitch_is_ignored() {
    let inputs = [ButtonInput::FallingEdge, ButtonInput::DebounceElapsed { high: true }];
    assert_eq!(feed(&inputs), (ButtonState::Idle, vec![]));
}

#[test]
fn unexpected_inputs_change_nothing() {
    let mut state = ButtonState::new();
    assert_eq!(state.step(ButtonInput::RisingEdge), None);
    assert_eq!(state.step(ButtonInput::WindowElapsed), None);
    assert_eq!(state.step(ButtonInput::HoldElapsed), None);
    assert_eq!(state, ButtonState::Idle);
}

#[test]
fn each_state_waits_for_its_inputs() {
    let mut state = ButtonState::new();
    assert_eq!(state.awaiting(), ButtonWait::Press);
    state.step(ButtonInput::FallingEdge);
    assert_eq!(state.awaiting(), ButtonWait::Debounce);
    state.step(ButtonInput::DebounceElapsed { high: false });
    assert_eq!(state.awaiting(), ButtonWait::ReleaseOrHold);
    state.step(ButtonInput::RisingEdge);
    assert_eq!(state, ButtonState::Counting { clicks: 1 });
    assert_eq!(state.awaiting(), ButtonWait::PressOrWindow);
    state.step(ButtonInput::FallingEdge);
    assert_eq!(state, ButtonState::ClickHeld { clicks: 2 });
    assert_eq!(state.awaiting(), ButtonWait::Release);
}

#[test]
fn gesture_events_by_click_count() {
    assert_eq!(gesture_event(0), None);
    assert_eq!(gesture_event(1), Some(ButtonEvent::SampleNow));
    assert_eq!(gesture_event(2), None);
    assert_eq!(gesture_event(3), Some(ButtonEvent::Calibrate));
    assert_eq!(gesture_event(4), None);
}
