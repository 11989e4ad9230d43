//! The user button: single press, triple click and long hold, recognised
//! from GPIO edges and timer expiries by a state machine.
//!
//! The driver waits for what [`ButtonState::awaiting`] names, feeds what
//! happened to [`ButtonState::step`], and forwards each event it returns.
use vstd::prelude::*;

verus! {

/// What a gesture asks the device to do.
#[derive(Clone, Copy, Debug, PartialEq, Eq, Structural)]
pub enum ButtonEvent {
    /// A single press: sample now and show the moisture class.
    SampleNow,
    /// A triple click: run the dry/wet calibration flow.
    Calibrate,
    /// A long hold: erase the network credentials and reboot.
    FactoryReset,
}

/// Where the recogniser stands.
#[derive(Clone, Copy, Debug, PartialEq, Eq, Structural)]
pub enum ButtonState {
    /// Released; waiting for a press.
    Idle,
    /// A falling edge was seen; waiting out the debounce time.
    Debouncing,
    /// The press is real; waiting for its release or for the reset hold.
    Pressed,
    /// `clicks` presses so far, released; waiting for another press or for
    /// the click window to close.
    Counting { clicks: u32 },
    /// Press number `clicks` is down; waiting for its release.
    ClickHeld { clicks: u32 },
    /// The reset hold fired; waiting for the release.
    ResetHeld,
}

/// What happened while the driver waited.
#[derive(Clone, Copy, Debug, PartialEq, Eq, Structural)]
pub enum ButtonInput {
    /// The (active-low) button went down.
    FallingEdge,
    /// The button went up.
    RisingEdge,
    /// The debounce time passed; `high` is the level read then.
    DebounceElapsed { high: bool },
    /// The button stayed down for the whole reset hold time.
    HoldElapsed,
    /// The click window closed without another press.
    WindowElapsed,
}

/// What the driver waits for next.
#[derive(Clone, Copy, Debug, PartialEq, Eq, Structural)]
pub enum ButtonWait {
    /// A falling edge.
    Press,
    /// The debounce time, then a read of the level.
    Debounce,
    /// A rising edge or the reset hold time, whichever comes first.
    ReleaseOrHold,
    /// A falling edge or the click window, whichever comes first.
    PressOrWindow,
    /// A rising edge.
    Release,
}

/// The event a finished run of `clicks` clicks stands for: one click
/// samples, three calibrate, any other number does nothing.
pub open spec fn click_event(clicks: u32) -> Option<ButtonEvent> {
    if clicks == 1 {
        Some(ButtonEvent::SampleNow)
    } else if clicks == 3 {
        Some(ButtonEvent::Calibrate)
    } else {
        None
    }
}

/// The event a finished run of `clicks` clicks stands for.
pub fn gesture_event(clicks: u32) -> (event: Option<ButtonEvent>)
    ensures
        event == click_event(clicks),
{
    match clicks {
        1 => Some(ButtonEvent::SampleNow),
        3 => Some(ButtonEvent::Calibrate),
        _ => None,
    }
}

/// What each state waits for.
pub open spec fn spec_awaiting(state: ButtonState) -> ButtonWait {
    match state {
        ButtonState::Idle => ButtonWait::Press,
        ButtonState::Debouncing => ButtonWait::Debounce,
        ButtonState::Pressed => ButtonWait::ReleaseOrHold,
        ButtonState::Counting { .. } => ButtonWait::PressOrWindow,
        ButtonState::ClickHeld { .. } => ButtonWait::Release,
        ButtonState::ResetHeld => ButtonWait::Release,
    }
}

/// Whether `input` is one of the things `wait` waits for.
pub open spec fn awaited(wait: ButtonWait, input: ButtonInput) -> bool {
    match wait {
        ButtonWait::Press => input is FallingEdge,
        ButtonWait::Debounce => input is DebounceElapsed,
        ButtonWait::ReleaseOrHold => input is RisingEdge || input is HoldElapsed,
        ButtonWait::PressOrWindow => input is FallingEdge || input is WindowElapsed,
        ButtonWait::Release => input is RisingEdge,
    }
}

/// One transition: the next state and the event to forward, if any. An
/// input the state does not wait for changes nothing.
pub open spec fn button_step(state: ButtonState, input: ButtonInput) -> (
    ButtonState,
    Option<ButtonEvent>,
) {
    match (state, input) {
        (ButtonState::Idle, ButtonInput::FallingEdge) => (ButtonState::Debouncing, None),
        (ButtonState::Debouncing, ButtonInput::DebounceElapsed { high }) => if high {
            (ButtonState::Idle, None)
        } else {
            (ButtonState::Pressed, None)
        },
        (ButtonState::Pressed, ButtonInput::RisingEdge) => (ButtonState::Counting { clicks: 1 }, None),
        (ButtonState::Pressed, ButtonInput::HoldElapsed) => (
            ButtonState::ResetHeld,
            Some(ButtonEvent::FactoryReset),
        ),
        (ButtonState::Counting { clicks }, ButtonInput::FallingEdge) => (
            ButtonState::ClickHeld { clicks: (clicks + 1) as u32 },
            None,
        ),
        (ButtonState::Counting { clicks }, ButtonInput::WindowElapsed) => (
            ButtonState::Idle,
            click_event(clicks),
        ),
        (ButtonState::ClickHeld { clicks }, ButtonInput::RisingEdge) => (
            ButtonState::Counting { clicks },
            None,
        ),
        (ButtonState::ResetHeld, ButtonInput::RisingEdge) => (ButtonState::Idle, None),
        _ => (state, None),
    }
}

/// The click counter is 32 bits wide: one more press after `u32::MAX`
/// clicks overflows it.
pub open spec fn step_fits(state: ButtonState, input: ButtonInput) -> bool {
    !(state matches ButtonState::Counting { clicks } && clicks == u32::MAX
        && input is FallingEdge)
}

impl ButtonState {
    /// The recogniser at rest.
    pub fn new() -> (state: ButtonState)
        ensures
            state == ButtonState::Idle,
    {
        ButtonState::Idle
    }

    /// What to wait for next.
    pub fn awaiting(&self) -> (wait: ButtonWait)
        ensures
            wait == spec_awaiting(*self),
    {
        match self {
            ButtonState::Idle => ButtonWait::Press,
            ButtonState::Debouncing => ButtonWait::Debounce,
            ButtonState::Pressed => ButtonWait::ReleaseOrHold,
            ButtonState::Counting { .. } => ButtonWait::PressOrWindow,
            ButtonState::ClickHeld { .. } => ButtonWait::Release,
            ButtonState::ResetHeld => ButtonWait::Release,
        }
    }

    /// Takes one input and returns the event to forward, if any.
    pub fn step(&mut self, input: ButtonInput) -> (event: Option<ButtonEvent>)
        requires
            step_fits(*old(self), input),
        ensures
            (*final(self), event) == button_step(*old(self), input),
    {
        let (next, event) = match (*self, input) {
            (ButtonState::Idle, ButtonInput::FallingEdge) => (ButtonState::Debouncing, None),
            (ButtonState::Debouncing, ButtonInput::DebounceElapsed { high }) => {
                if high {
                    // A glitch, not a real press.
                    (ButtonState::Idle, None)
                } else {
                    (ButtonState::Pressed, None)
                }
            },
            (ButtonState::Pressed, ButtonInput::RisingEdge) => (
                ButtonState::Counting { clicks: 1 },
                None,
            ),
            (ButtonState::Pressed, ButtonInput::HoldElapsed) => (
                ButtonState::ResetHeld,
                Some(ButtonEvent::FactoryReset),
            ),
            (ButtonState::Counting { clicks }, ButtonInput::FallingEdge) => (
                ButtonState::ClickHeld { clicks: clicks + 1 },
                None,
            ),
            (ButtonState::Counting { clicks }, ButtonInput::WindowElapsed) => (
                ButtonState::Idle,
                gesture_event(clicks),
            ),
            (ButtonState::ClickHeld { clicks }, ButtonInput::RisingEdge) => (
                ButtonState::Counting { clicks },
                None,
            ),
            (ButtonState::ResetHeld, ButtonInput::RisingEdge) => (ButtonState::Idle, None),
            (state, _) => (state, None),
        };
        *self = next;
        event
    }
}

/// The events a step forwards, as a sequence.
pub open spec fn event_seq(event: Option<ButtonEvent>) -> Seq<ButtonEvent> {
    match event {
        Some(e) => seq![e],
        None => Seq::empty(),
    }
}

/// The state reached and the events forwarded after feeding `inputs`, in
/// order, starting from `state`.
pub open spec fn run_inputs(state: ButtonState, inputs: Seq<ButtonInput>) -> (
    ButtonState,
    Seq<ButtonEvent>,
)
    decreases inputs.len(),
{
    if inputs.len() == 0 {
        (state, Seq::empty())
    } else {
        let (mid, events) = run_inputs(state, inputs.drop_last());
        let (next, event) = button_step(mid, inputs.last());
        (next, events + event_seq(event))
    }
}

/// A confirmed press: the falling edge and a debounce that reads the
/// button still down.
pub open spec fn press_inputs() -> Seq<ButtonInput> {
    seq![ButtonInput::FallingEdge, ButtonInput::DebounceElapsed { high: false }]
}

/// `k` further clicks inside the click window.
pub open spec fn extra_clicks(k: nat) -> Seq<ButtonInput>
    decreases k,
{
    if k == 0 {
        Seq::empty()
    } else {
        extra_clicks((k - 1) as nat) + seq![ButtonInput::FallingEdge, ButtonInput::RisingEdge]
    }
}

/// `n` clicks in a row, then the click window closing.
pub open spec fn click_gesture(n: nat) -> Seq<ButtonInput> {
    press_inputs() + seq![ButtonInput::RisingEdge] + extra_clicks((n - 1) as nat) + seq![
        ButtonInput::WindowElapsed,
    ]
}

/// A press held for the reset hold time, then released.
pub open spec fn hold_gesture() -> Seq<ButtonInput> {
    press_inputs() + seq![ButtonInput::HoldElapsed, ButtonInput::RisingEdge]
}

proof fn lemma_run_concat(state: ButtonState, a: Seq<ButtonInput>, b: Seq<ButtonInput>)
    ensures
        run_inputs(state, a + b) == ({
            let (mid, first) = run_inputs(state, a);
            let (end, second) = run_inputs(mid, b);
            (end, first + second)
        }),
    decreases b.len(),
{
    if b.len() == 0 {
        assert(a + b == a);
        let (mid, first) = run_inputs(state, a);
        assert(first + Seq::<ButtonEvent>::empty() == first);
    } else {
        let b0 = b.drop_last();
        assert((a + b).drop_last() == a + b0);
        assert((a + b).last() == b.last());
        lemma_run_concat(state, a, b0);
        let (mid, first) = run_inputs(state, a);
        let (m2, second0) = run_inputs(mid, b0);
        let (end, ev) = button_step(m2, b.last());
        assert(first + second0 + event_seq(ev) == first + (second0 + event_seq(ev)));
    }
}

proof fn lemma_run_single(state: ButtonState, input: ButtonInput)
    ensures
        run_inputs(state, seq![input]) == ({
            let (next, event) = button_step(state, input);
            (next, event_seq(event))
        }),
{
    let s = seq![input];
    assert(s.drop_last() == Seq::<ButtonInput>::empty());
    assert(run_inputs(state, Seq::<ButtonInput>::empty()) == (state, Seq::<ButtonEvent>::empty()));
    let (next, event) = button_step(state, input);
    assert(Seq::<ButtonEvent>::empty() + event_seq(event) == event_seq(event));
}

proof fn lemma_extra_clicks(clicks: u32, k: nat)
    requires
        clicks + k <= u32::MAX,
    ensures
        run_inputs(ButtonState::Counting { clicks }, extra_clicks(k)) == (
            ButtonState::Counting { clicks: (clicks + k) as u32 },
            Seq::<ButtonEvent>::empty(),
        ),
    decreases k,
{
    if k == 0 {
    } else {
        let km = (k - 1) as nat;
        lemma_extra_clicks(clicks, km);
        let pair = seq![ButtonInput::FallingEdge, ButtonInput::RisingEdge];
        lemma_run_concat(ButtonState::Counting { clicks }, extra_clicks(km), pair);
        let mid = ButtonState::Counting { clicks: (clicks + km) as u32 };
        lemma_run_concat(mid, seq![ButtonInput::FallingEdge], seq![ButtonInput::RisingEdge]);
        assert(seq![ButtonInput::FallingEdge] + seq![ButtonInput::RisingEdge] == pair);
        lemma_run_single(mid, ButtonInput::FallingEdge);
        lemma_run_single(
            ButtonState::ClickHeld { clicks: (clicks + k) as u32 },
            ButtonInput::RisingEdge,
        );
        assert(Seq::<ButtonEvent>::empty() + Seq::<ButtonEvent>::empty() == Seq::<
            ButtonEvent,
        >::empty());
    }
}

proof fn lemma_press(then: ButtonInput)
    ensures
        run_inputs(ButtonState::Idle, press_inputs() + seq![then]) == ({
            let (next, event) = button_step(ButtonState::Pressed, then);
            (next, event_seq(event))
        }),
{
    let s = press_inputs() + seq![then];
    assert(s.drop_last() == press_inputs());
    assert(s.last() == then);
    assert(press_inputs().drop_last() == seq![ButtonInput::FallingEdge]);
    lemma_run_single(ButtonState::Idle, ButtonInput::FallingEdge);
    assert(Seq::<ButtonEvent>::empty() + Seq::<ButtonEvent>::empty() == Seq::<ButtonEvent>::empty());
    assert(run_inputs(ButtonState::Idle, press_inputs()) == (
        ButtonState::Pressed,
        Seq::<ButtonEvent>::empty(),
    ));
    let (next, event) = button_step(ButtonState::Pressed, then);
    assert(Seq::<ButtonEvent>::empty() + Seq::<ButtonEvent>::empty() == Seq::<ButtonEvent>::empty());
    assert(Seq::<ButtonEvent>::empty() + event_seq(event) == event_seq(event));
}

/// `n` clicks in a row, followed by the click window closing, leave the
/// recogniser at rest and forward exactly the event `n` clicks stand for:
/// one click samples, three calibrate, any other count does nothing.
pub proof fn law_click_gesture(n: u32)
    requires
        n >= 1,
    ensures
        run_inputs(ButtonState::Idle, click_gesture(n as nat)) == (
            ButtonState::Idle,
            event_seq(click_event(n)),
        ),
{
    let first = press_inputs() + seq![ButtonInput::RisingEdge];
    let extra = extra_clicks((n - 1) as nat);
    let close = seq![ButtonInput::WindowElapsed];
    lemma_press(ButtonInput::RisingEdge);
    lemma_extra_clicks(1, (n - 1) as nat);
    lemma_run_concat(ButtonState::Idle, first, extra);
    lemma_run_concat(ButtonState::Idle, first + extra, close);
    lemma_run_single(ButtonState::Counting { clicks: n }, ButtonInput::WindowElapsed);
    assert(Seq::<ButtonEvent>::empty() + Seq::<ButtonEvent>::empty() == Seq::<ButtonEvent>::empty());
    assert(Seq::<ButtonEvent>::empty() + event_seq(click_event(n)) == event_seq(click_event(n)));
}

/// Holding the button for the reset hold time forwards one factory reset,
/// and the release that follows returns the recogniser to rest without
/// forwarding anything else.
pub proof fn law_hold_gesture()
    ensures
        run_inputs(ButtonState::Idle, hold_gesture()) == (
            ButtonState::Idle,
            seq![ButtonEvent::FactoryReset],
        ),
{
    let held = press_inputs() + seq![ButtonInput::HoldElapsed];
    assert(hold_gesture() == held + seq![ButtonInput::RisingEdge]);
    lemma_press(ButtonInput::HoldElapsed);
    lemma_run_concat(ButtonState::Idle, held, seq![ButtonInput::RisingEdge]);
    lemma_run_single(ButtonState::ResetHeld, ButtonInput::RisingEdge);
    assert(seq![ButtonEvent::FactoryReset] + Seq::<ButtonEvent>::empty() == seq![
        ButtonEvent::FactoryReset,
    ]);
}

/// A falling edge that is gone again when the debounce time has passed is
/// a glitch: the recogniser returns to rest and forwards nothing.
pub proof fn law_debounce_glitch()
    ensures
        run_inputs(
            ButtonState::Idle,
            seq![ButtonInput::FallingEdge, ButtonInput::DebounceElapsed { high: true }],
        ) == (ButtonState::Idle, Seq::<ButtonEvent>::empty()),
{
    let s = seq![ButtonInput::FallingEdge, ButtonInput::DebounceElapsed { high: true }];
    assert(s.drop_last() == seq![ButtonInput::FallingEdge]);
    lemma_run_single(ButtonState::Idle, ButtonInput::FallingEdge);
    assert(Seq::<ButtonEvent>::empty() + Seq::<ButtonEvent>::empty() == Seq::<ButtonEvent>::empty());
}

/// An input the current state does not wait for changes nothing and
/// forwards nothing; only a finished click run and the reset hold forward
/// events.
pub proof fn law_step_shape(state: ButtonState, input: ButtonInput)
    ensures
        !awaited(spec_awaiting(state), input) ==> button_step(state, input) == (state, None::<
            ButtonEvent,
        >),
        button_step(state, input).1 is Some ==> (state is Counting && input is WindowElapsed) || (
        state is Pressed && input is HoldElapsed),
{
}

} // verus!
