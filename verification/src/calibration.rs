//! Dry/wet soil-probe calibration: the stored references and the
//! interactive flow that captures new ones.
//!
//! The flow is a state machine. Its driver performs each [`FlowAction`]
//! (blink a prompt, wait, measure the probe, write flash) and hands the
//! result back to [`CalibrationFlow::on_sample`] or
//! [`CalibrationFlow::on_persisted`].
use vstd::prelude::*;
use crate::config::{
    CALIBRATION_BLINK_COUNT, CALIBRATION_BLINK_PERIOD_MS, CALIBRATION_HOLD_MS,
    SOIL_CAL_DEFAULT_DRY_MV, SOIL_CAL_DEFAULT_WET_MV, SOIL_CAL_MIN_SPAN_MV,
};
use crate::status_led::{Color, LedCommand};

verus! {

#[derive(Clone, Copy, Debug, PartialEq, Eq, Structural)]
pub enum CalibrationError {
    /// The probe could not take a measurement (no valid ADC reads).
    SampleFailed,
    /// The dry and wet references were not far enough apart to be a real
    /// calibration (`dry_mv - wet_mv < SOIL_CAL_MIN_SPAN_MV`).
    SpanTooSmall,
    /// The new references could not be written to flash; the previous
    /// values remain in effect.
    PersistFailed,
}

/// The dry (0%) and wet (100%) soil-probe references in effect (mV).
#[derive(Clone, Copy, Debug, PartialEq, Eq, Structural)]
pub struct Calibration {
    pub dry_mv: i32,
    pub wet_mv: i32,
}

impl Calibration {
    /// The references found in storage, each falling back to its firmware
    /// default when nothing has been calibrated yet.
    pub fn load(stored_dry_mv: Option<i32>, stored_wet_mv: Option<i32>) -> (cal: Calibration)
        ensures
            cal.dry_mv == match stored_dry_mv {
                Some(mv) => mv,
                None => SOIL_CAL_DEFAULT_DRY_MV,
            },
            cal.wet_mv == match stored_wet_mv {
                Some(mv) => mv,
                None => SOIL_CAL_DEFAULT_WET_MV,
            },
    {
        let dry_mv = match stored_dry_mv {
            Some(mv) => mv,
            None => SOIL_CAL_DEFAULT_DRY_MV,
        };
        let wet_mv = match stored_wet_mv {
            Some(mv) => mv,
            None => SOIL_CAL_DEFAULT_WET_MV,
        };
        Calibration { dry_mv, wet_mv }
    }

    pub fn dry_mv(&self) -> (mv: i32)
        ensures
            mv == self.dry_mv,
    {
        self.dry_mv
    }

    pub fn wet_mv(&self) -> (mv: i32)
        ensures
            mv == self.wet_mv,
    {
        self.wet_mv
    }

    /// Starts the interactive dry/wet calibration flow (~20 s): red blink
    /// 10 s with the probe in dry air captures the dry reference, then green
    /// blink 10 s with the probe in water captures the wet reference. The
    /// references change only once both are captured, far enough apart and
    /// persisted; on any error the previous calibration stays in effect.
    pub fn run_flow() -> (started: (CalibrationFlow, FlowAction))
        ensures
            started.0.state() == FlowState::AwaitDry,
            started.1 == prompt(Color::Red),
    {
        (CalibrationFlow { state: FlowState::AwaitDry }, FlowAction::Measure {
            led: LedCommand::Blink {
                color: Color::Red,
                count: CALIBRATION_BLINK_COUNT,
                period_ms: CALIBRATION_BLINK_PERIOD_MS,
            },
            hold_ms: CALIBRATION_HOLD_MS,
        })
    }
}

/// Where the calibration flow stands.
#[derive(Clone, Copy, Debug, PartialEq, Eq, Structural)]
pub enum FlowState {
    /// Waiting for the dry-air measurement.
    AwaitDry,
    /// Dry reference captured; waiting for the in-water measurement.
    AwaitWet { dry_sample_mv: u32 },
    /// Both references accepted; waiting for flash to take them.
    AwaitPersist { dry_mv: i32, wet_mv: i32 },
    /// The flow is over.
    Finished,
}

/// What the driver of the flow does next.
#[derive(Clone, Copy, Debug, PartialEq, Eq)]
pub enum FlowAction {
    /// Show `led`, wait `hold_ms`, then measure the probe and pass the
    /// measurement to `on_sample`.
    Measure { led: LedCommand, hold_ms: u64 },
    /// Store both references, then pass whether that worked to
    /// `on_persisted`.
    Persist { dry_mv: i32, wet_mv: i32 },
    /// The flow is over, with this outcome.
    Done { outcome: Result<(), CalibrationError> },
}

/// The prompt for one reference: blink `color`, then hold still.
pub open spec fn prompt(color: Color) -> FlowAction {
    FlowAction::Measure {
        led: LedCommand::Blink {
            color,
            count: CALIBRATION_BLINK_COUNT,
            period_ms: CALIBRATION_BLINK_PERIOD_MS,
        },
        hold_ms: CALIBRATION_HOLD_MS,
    }
}

/// Whether the flow waits for a probe measurement.
pub open spec fn awaits_sample(state: FlowState) -> bool {
    state is AwaitDry || state is AwaitWet
}

/// A probe measurement taken while the flow waits for one.
pub open spec fn sample_step(state: FlowState, sample: Option<u32>) -> (FlowState, FlowAction) {
    match sample {
        None => (
            FlowState::Finished,
            FlowAction::Done { outcome: Err(CalibrationError::SampleFailed) },
        ),
        Some(mv) => match state {
            FlowState::AwaitWet { dry_sample_mv } => {
                let dry = dry_sample_mv as i32;
                let wet = mv as i32;
                if dry - wet < SOIL_CAL_MIN_SPAN_MV {
                    (
                        FlowState::Finished,
                        FlowAction::Done { outcome: Err(CalibrationError::SpanTooSmall) },
                    )
                } else {
                    (
                        FlowState::AwaitPersist { dry_mv: dry, wet_mv: wet },
                        FlowAction::Persist { dry_mv: dry, wet_mv: wet },
                    )
                }
            },
            _ => (FlowState::AwaitWet { dry_sample_mv: mv }, prompt(Color::Green)),
        },
    }
}

/// A running calibration flow.
pub struct CalibrationFlow {
    state: FlowState,
}

impl CalibrationFlow {
    pub closed spec fn state(self) -> FlowState {
        self.state
    }

    /// Takes the probe measurement the last `Measure` asked for (`None`
    /// when it failed).
    pub fn on_sample(&mut self, sample: Option<u32>) -> (action: FlowAction)
        requires
            awaits_sample(old(self).state()),
        ensures
            (final(self).state(), action) == sample_step(old(self).state(), sample),
    {
        match sample {
            None => {
                self.state = FlowState::Finished;
                FlowAction::Done { outcome: Err(CalibrationError::SampleFailed) }
            },
            Some(mv) => match self.state {
                FlowState::AwaitWet { dry_sample_mv } => {
                    let dry = dry_sample_mv as i32;
                    let wet = mv as i32;
                    if (dry as i64) - (wet as i64) < SOIL_CAL_MIN_SPAN_MV as i64 {
                        self.state = FlowState::Finished;
                        FlowAction::Done { outcome: Err(CalibrationError::SpanTooSmall) }
                    } else {
                        self.state = FlowState::AwaitPersist { dry_mv: dry, wet_mv: wet };
                        FlowAction::Persist { dry_mv: dry, wet_mv: wet }
                    }
                },
                _ => {
                    self.state = FlowState::AwaitWet { dry_sample_mv: mv };
                    FlowAction::Measure {
                        led: LedCommand::Blink {
                            color: Color::Green,
                            count: CALIBRATION_BLINK_COUNT,
                            period_ms: CALIBRATION_BLINK_PERIOD_MS,
                        },
                        hold_ms: CALIBRATION_HOLD_MS,
                    }
                },
            },
        }
    }

    /// Takes the outcome of the last `Persist`: on success the new
    /// references take effect, otherwise `calibration` stays as it was.
    pub fn on_persisted(&mut self, calibration: &mut Calibration, persisted: bool) -> (action:
        FlowAction)
        requires
            old(self).state() is AwaitPersist,
        ensures
            final(self).state() == FlowState::Finished,
            persisted ==> action == (FlowAction::Done { outcome: Ok(()) }),
            persisted ==> final(calibration).dry_mv == old(self).state()->AwaitPersist_dry_mv,
            persisted ==> final(calibration).wet_mv == old(self).state()->AwaitPersist_wet_mv,
            !persisted ==> action == (FlowAction::Done {
                outcome: Err(CalibrationError::PersistFailed),
            }),
            !persisted ==> *final(calibration) == *old(calibration),
    {
        let action = match self.state {
            FlowState::AwaitPersist { dry_mv, wet_mv } => {
                if persisted {
                    calibration.dry_mv = dry_mv;
                    calibration.wet_mv = wet_mv;
                    FlowAction::Done { outcome: Ok(()) }
                } else {
                    FlowAction::Done { outcome: Err(CalibrationError::PersistFailed) }
                }
            },
            _ => FlowAction::Done { outcome: Err(CalibrationError::PersistFailed) },
        };
        self.state = FlowState::Finished;
        action
    }
}

/// What a whole calibration run ends in, given the dry and wet
/// measurements (`None`: failed) and whether storing worked: the
/// calibration in effect afterwards and the flow's result.
pub open spec fn flow_outcome(
    cal: Calibration,
    dry: Option<u32>,
    wet: Option<u32>,
    persisted: bool,
) -> (Calibration, Result<(), CalibrationError>) {
    match (dry, wet) {
        (Some(d), Some(w)) => if (d as i32) - (w as i32) < SOIL_CAL_MIN_SPAN_MV {
            (cal, Err(CalibrationError::SpanTooSmall))
        } else if !persisted {
            (cal, Err(CalibrationError::PersistFailed))
        } else {
            (Calibration { dry_mv: d as i32, wet_mv: w as i32 }, Ok(()))
        },
        _ => (cal, Err(CalibrationError::SampleFailed)),
    }
}

/// The calibration in effect and the result after driving the flow from
/// its start: each measurement is taken only while the flow still asks for
/// one, and storing only when it asks for that.
pub open spec fn drive_flow(cal: Calibration, dry: Option<u32>, wet: Option<u32>, persisted: bool) -> (
    Calibration,
    Result<(), CalibrationError>,
) {
    let (s1, a1) = sample_step(FlowState::AwaitDry, dry);
    match a1 {
        FlowAction::Done { outcome } => (cal, outcome),
        _ => {
            let (s2, a2) = sample_step(s1, wet);
            match a2 {
                FlowAction::Persist { dry_mv, wet_mv } => if persisted {
                    (Calibration { dry_mv, wet_mv }, Ok(()))
                } else {
                    (cal, Err(CalibrationError::PersistFailed))
                },
                FlowAction::Done { outcome } => (cal, outcome),
                _ => (cal, Err(CalibrationError::SampleFailed)),
            }
        },
    }
}

/// Driving the flow's steps from the start does what a calibration run
/// promises: a failed measurement, too small a span or a failed write
/// leaves the previous calibration in effect; success installs both new
/// references, which are then at least the minimum span apart, and the
/// dry reference is captured before the wet one.
pub proof fn law_calibration_flow(cal: Calibration, dry: Option<u32>, wet: Option<u32>, persisted: bool)
    ensures
        drive_flow(cal, dry, wet, persisted) == flow_outcome(cal, dry, wet, persisted),
        flow_outcome(cal, dry, wet, persisted).1 is Err ==> flow_outcome(cal, dry, wet, persisted).0
            == cal,
        flow_outcome(cal, dry, wet, persisted).1 is Ok ==> ({
            let new_cal = flow_outcome(cal, dry, wet, persisted).0;
            &&& new_cal.dry_mv - new_cal.wet_mv >= SOIL_CAL_MIN_SPAN_MV
            &&& new_cal.dry_mv == dry.unwrap() as i32
            &&& new_cal.wet_mv == wet.unwrap() as i32
        }),
{
}

} // verus!
