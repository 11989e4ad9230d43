//! The three status LEDs: what each command shows, as a sequence of steps.
use vstd::prelude::*;
use crate::config::{
    CLASSIFY_BLINK_PERIOD_MS, MOISTURE_DRY_BELOW_PERCENT, MOISTURE_NORMAL_ABOVE_PERCENT,
};

verus! {

#[derive(Clone, Copy, Debug, PartialEq, Eq, Structural)]
pub enum Color {
    Red,
    Yellow,
    Green,
}

#[derive(Clone, Copy, Debug, PartialEq, Eq, Structural)]
pub enum LedCommand {
    /// Blink `count` on/off cycles of `color`, each phase `period_ms` long.
    Blink { color: Color, count: u32, period_ms: u64 },
    /// One long blink of the color classifying `moisture_percent`: red =
    /// dry, yellow = almost dry, green = normal.
    ClassifyMoisture { moisture_percent: u8 },
}

/// A blink pattern: `count` on/off cycles of one color.
#[derive(Clone, Copy, Debug, PartialEq, Eq, Structural)]
pub struct BlinkPattern {
    pub color: Color,
    pub count: u32,
    pub period_ms: u64,
}

/// One step of showing a pattern: switch every LED off, or switch one LED
/// on or off and then hold that for `hold_ms`.
#[derive(Clone, Copy, Debug, PartialEq, Eq, Structural)]
pub enum LedStep {
    AllOff,
    Light { color: Color, on: bool, hold_ms: u64 },
}

/// Red below the dry threshold, yellow below the normal threshold, green
/// otherwise.
pub open spec fn spec_moisture_color(moisture_percent: u8) -> Color {
    if moisture_percent < MOISTURE_DRY_BELOW_PERCENT {
        Color::Red
    } else if moisture_percent < MOISTURE_NORMAL_ABOVE_PERCENT {
        Color::Yellow
    } else {
        Color::Green
    }
}

/// The color that classifies a moisture percentage.
pub fn moisture_color(moisture_percent: u8) -> (color: Color)
    ensures
        color == spec_moisture_color(moisture_percent),
{
    if moisture_percent < MOISTURE_DRY_BELOW_PERCENT {
        Color::Red
    } else if moisture_percent < MOISTURE_NORMAL_ABOVE_PERCENT {
        Color::Yellow
    } else {
        Color::Green
    }
}

/// The pattern a command shows.
pub open spec fn spec_pattern(command: LedCommand) -> BlinkPattern {
    match command {
        LedCommand::Blink { color, count, period_ms } => BlinkPattern { color, count, period_ms },
        LedCommand::ClassifyMoisture { moisture_percent } => BlinkPattern {
            color: spec_moisture_color(moisture_percent),
            count: 1,
            period_ms: CLASSIFY_BLINK_PERIOD_MS,
        },
    }
}

/// How long showing `p` takes: `count` cycles of two phases, each
/// `period_ms` long.
pub open spec fn pattern_duration_ms(p: BlinkPattern) -> int {
    2 * p.count * p.period_ms
}

impl LedCommand {
    /// How long the LEDs are busy showing this command (ms), or `None` when
    /// that does not fit in 64 bits.
    pub fn shown_for_ms(&self) -> (ms: Option<u64>)
        ensures
            ms == if pattern_duration_ms(spec_pattern(*self)) <= u64::MAX {
                Some(pattern_duration_ms(spec_pattern(*self)) as u64)
            } else {
                None::<u64>
            },
    {
        let p = self.pattern();
        let cycles: u64 = 2 * (p.count as u64);
        match cycles.checked_mul(p.period_ms) {
            Some(ms) => Some(ms),
            None => None,
        }
    }

    /// The blink pattern this command shows.
    pub fn pattern(&self) -> (p: BlinkPattern)
        ensures
            p == spec_pattern(*self),
    {
        match *self {
            LedCommand::Blink { color, count, period_ms } => BlinkPattern { color, count, period_ms },
            LedCommand::ClassifyMoisture { moisture_percent } => BlinkPattern {
                color: moisture_color(moisture_percent),
                count: 1,
                period_ms: CLASSIFY_BLINK_PERIOD_MS,
            },
        }
    }
}

/// Step `k` of showing `p`: first every LED off, then `count` times the
/// pattern's LED on and off again, each phase held `period_ms`; `None` once
/// the pattern is over.
pub open spec fn blink_step(p: BlinkPattern, k: int) -> Option<LedStep> {
    if k == 0 {
        Some(LedStep::AllOff)
    } else if 1 <= k <= 2 * p.count {
        Some(LedStep::Light { color: p.color, on: k % 2 == 1, hold_ms: p.period_ms })
    } else {
        None
    }
}

/// Shows one blink pattern step by step.
pub struct Blinker {
    pattern: BlinkPattern,
    position: u64,
}

impl Blinker {
    /// The pattern being shown.
    pub closed spec fn spec_blink_pattern(self) -> BlinkPattern {
        self.pattern
    }

    /// How many steps have been handed out.
    pub closed spec fn position(self) -> int {
        self.position as int
    }

    #[verifier::type_invariant]
    closed spec fn wf(self) -> bool {
        self.position <= 2 * (self.pattern.count as int) + 1
    }

    pub fn new(pattern: BlinkPattern) -> (b: Blinker)
        ensures
            b.spec_blink_pattern() == pattern,
            b.position() == 0,
    {
        Blinker { pattern, position: 0 }
    }

    /// The next step of the pattern, or `None` when it is over.
    pub fn next_step(&mut self) -> (step: Option<LedStep>)
        ensures
            final(self).spec_blink_pattern() == old(self).spec_blink_pattern(),
            step == blink_step(old(self).spec_blink_pattern(), old(self).position()),
            final(self).position() == if step is Some {
                old(self).position() + 1
            } else {
                old(self).position()
            },
    {
        proof {
            use_type_invariant(&*self);
        }
        let total: u64 = 2 * (self.pattern.count as u64);
        if self.position == 0 {
            self.position = 1;
            Some(LedStep::AllOff)
        } else if self.position <= total {
            let on = self.position % 2 == 1;
            self.position = self.position + 1;
            Some(LedStep::Light { color: self.pattern.color, on, hold_ms: self.pattern.period_ms })
        } else {
            None
        }
    }
}

/// How many of the first `k` steps of `p` switch its LED on.
pub open spec fn lit_steps(p: BlinkPattern, k: int) -> int
    decreases k,
{
    if k <= 0 {
        0
    } else {
        lit_steps(p, k - 1) + match blink_step(p, k - 1) {
            Some(LedStep::Light { on: true, .. }) => 1int,
            _ => 0int,
        }
    }
}

proof fn lemma_lit_steps(p: BlinkPattern, j: int)
    requires
        0 <= j <= p.count,
    ensures
        lit_steps(p, 2 * j + 1) == j,
    decreases j,
{
    if j == 0 {
        assert(lit_steps(p, 0) == 0);
        assert(lit_steps(p, 1) == 0);
    } else {
        lemma_lit_steps(p, j - 1);
        assert((2 * j - 1) % 2 == 1);
        assert((2 * j) % 2 == 0);
        assert(lit_steps(p, 2 * j) == lit_steps(p, 2 * j - 1) + 1);
        assert(lit_steps(p, 2 * j + 1) == lit_steps(p, 2 * j));
    }
}

/// Showing a pattern switches its LED on exactly `count` times, lights no
/// other LED, starts from every LED off and ends with its LED off; it has
/// `2 * count + 1` steps.
pub proof fn law_blink_shape(p: BlinkPattern)
    ensures
        lit_steps(p, 2 * p.count + 1) == p.count,
        blink_step(p, 0) == Some(LedStep::AllOff),
        forall|k: int|
            1 <= k <= 2 * p.count ==> ((#[trigger] blink_step(p, k)) matches Some(
                LedStep::Light { color, .. },
            ) && color == p.color),
        p.count > 0 ==> (blink_step(p, 2 * p.count) matches Some(LedStep::Light { on, .. })
            && !on),
        blink_step(p, 2 * p.count + 1) is None,
{
    lemma_lit_steps(p, p.count as int);
}

/// How long the first `k` steps of `p` hold the LEDs, in total (ms).
pub open spec fn held_ms(p: BlinkPattern, k: int) -> int
    decreases k,
{
    if k <= 0 {
        0
    } else {
        held_ms(p, k - 1) + match blink_step(p, k - 1) {
            Some(LedStep::Light { hold_ms, .. }) => hold_ms as int,
            _ => 0int,
        }
    }
}

proof fn lemma_held_ms(p: BlinkPattern, k: int)
    requires
        0 <= k <= 2 * p.count,
    ensures
        held_ms(p, k + 1) == k * p.period_ms,
    decreases k,
{
    if k == 0 {
        assert(held_ms(p, 0) == 0);
        assert(held_ms(p, 1) == 0);
    } else {
        lemma_held_ms(p, k - 1);
        assert(held_ms(p, k + 1) == held_ms(p, k) + p.period_ms);
        assert(k * p.period_ms == (k - 1) * p.period_ms + p.period_ms) by (nonlinear_arith);
    }
}

/// Every on or off phase of a pattern is held for the pattern's full
/// period: step 1 switches the LED on, each later phase switches it to the
/// opposite of the one before, and the steps together keep the LEDs busy
/// for exactly `2 * count * period_ms`, the time `shown_for_ms` reports.
pub proof fn law_blink_timing(p: BlinkPattern)
    ensures
        forall|k: int|
            1 <= k <= 2 * p.count ==> ((#[trigger] blink_step(p, k)) matches Some(
                LedStep::Light { hold_ms, .. },
            ) && hold_ms == p.period_ms),
        p.count > 0 ==> (blink_step(p, 1) matches Some(LedStep::Light { on, .. }) && on),
        forall|k: int|
            1 <= k < 2 * p.count ==> ((#[trigger] blink_step(p, k)) matches Some(
                LedStep::Light { on: a, .. },
            ) && blink_step(p, k + 1) matches Some(LedStep::Light { on: b, .. }) && a != b),
        held_ms(p, 2 * p.count + 1) == pattern_duration_ms(p),
{
    assert forall|k: int| 1 <= k < 2 * p.count implies ((#[trigger] blink_step(p, k)) matches Some(
        LedStep::Light { on: a, .. },
    ) && blink_step(p, k + 1) matches Some(LedStep::Light { on: b, .. }) && a != b) by {
        assert((k % 2 == 1) != ((k + 1) % 2 == 1));
    }
    lemma_held_ms(p, 2 * p.count);
    assert(2 * p.count * p.period_ms == (2 * p.count) * p.period_ms) by (nonlinear_arith);
}

/// The class boundaries of the moisture colors: below 23% is red (dry),
/// from 23% up to but not including 58% is yellow (almost dry), and every
/// reading from 58% up is green (normal); a wetter reading never gets a
/// drier color.
pub proof fn law_moisture_classes(p: u8, q: u8)
    ensures
        p < 23 ==> spec_moisture_color(p) == Color::Red,
        23 <= p < 58 ==> spec_moisture_color(p) == Color::Yellow,
        p >= 58 ==> spec_moisture_color(p) == Color::Green,
        p <= q && spec_moisture_color(p) == Color::Green ==> spec_moisture_color(q) == Color::Green,
        p <= q && spec_moisture_color(q) == Color::Red ==> spec_moisture_color(p) == Color::Red,
{
}

} // verus!
