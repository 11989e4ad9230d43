use soil_sensor_core::calibration::{Calibration, CalibrationError, FlowAction};
use soil_sensor_core::status_led::{Color, LedCommand};

fn prompt(color: Color) -> FlowAction {
    FlowAction::Measure {
        led: LedCommand::Blink { color, count: 10, period_ms: 500 },
        hold_ms: 10_000,
    }
}

/// Drives a whole flow and returns the calibration afterwards and the result.
fn drive(
    mut cal: Calibration,
    dry: Option<u32>,
    wet: Option<u32>,
    persisted: bool,
) -> (Calibration, Result<(), CalibrationError>, Vec<FlowAction>) {
    let (mut flow, mut action) = Calibration::run_flow();
    let mut seen = vec![action];
    let mut samples = vec![dry, wet].into_iter();
    loop {
        action = match action {
            FlowAction::Measure { .. } => flow.on_sample(samples.next().unwrap()),
            FlowAction::Persist { .. } => flow.on_persisted(&mut cal, persisted),
            FlowAction::Done { outcome } => return (cal, outcome, seen),
        };
        seen.push(action);
    }
}

#[test]
fn load_falls_back_to_defaults() {
    let cal = Calibration::load(None, None);
    assert_eq!((cal.dry_mv(), cal.wet_mv()), (1600, 900));
    let cal = Calibration::load(Some(1700), None);
    assert_eq!((cal.dry_mv(), cal.wet_mv()), (1700, 900));
    let cal = Calibration::load(None, Some(800));
    assert_eq!((cal.dry_mv(), cal.wet_mv()), (1600, 800));
    let cal = Calibration::load(Some(2000), Some(1000));
    assert_eq!((cal.dry_mv(), cal.wet_mv()), (2000, 1000));
}

#[test]
fn successful_flow_installs_new_references() {
    let (cal, outcome, actions) = drive(Calibration::load(None, None), Some(2100), Some(1000), true);
    assert_eq!(outcome, Ok(()));
    assert_eq!((cal.dry_mv(), cal.wet_mv()), (2100, 1000));
    assert_eq!(
        actions,
        vec![
            prompt(Color::Red),
            prompt(Color::Green),
            FlowAction::Persist { dry_mv: 2100, wet_mv: 1000 },
            FlowAction::Done { outcome: Ok(()) },
        ]
    );
}

#[test]
fn failed_dry_sample_stops_before_the_wet_prompt() {
    let (cal, outcome, actions) = drive(Calibration::load(None, None), None, Some(1000), true);
    assert_eq!(outcome, Err(CalibrationError::SampleFailed));
    assert_eq!((cal.dry_mv(), cal.wet_mv()), (1600, 900));
    assert_eq!(actions.len(), 2);
}

#[test]
fn failed_wet_sample_keeps_calibration() {
    let (cal, outcome, _) = drive(Calibration::load(None, None), Some(2100), None, true);
    assert_eq!(outcome, Err(CalibrationError::SampleFailed));
    assert_eq!((cal.dry_mv(), cal.wet_mv()), (1600, 900));
}

#[test]
fn too_small_span_is_refused() {
    let (cal, outcome, _) = drive(Calibration::load(None, None), Some(1199), Some(1000), true);
    assert_eq!(outcome, Err(CalibrationError::SpanTooSmall));
    assert_eq!((cal.dry_mv(), cal.wet_mv()), (1600, 900));
    // exactly the minimum span is accepted
    let (cal, outcome, _) = drive(Calibration::load(None, None), Some(1200), Some(1000), true);
    assert_eq!(outcome, Ok(()));
    assert_eq!((cal.dry_mv(), cal.wet_mv()), (1200, 1000));
    // wet above dry is refused
    let (_, outcome, _) = drive(Calibration::load(None, None), Some(900), Some(1600), true);
    assert_eq!(outcome, Err(CalibrationError::SpanTooSmall));
}

#[test]
fn failed_write_keeps_previous_calibration() {
    let (cal, outcome, _) = drive(Calibration::load(Some(1800), Some(700)), Some(2100), Some(1000), false);
    assert_eq!(outcome, Err(CalibrationError::PersistFailed));
    assert_eq!((cal.dry_mv(), cal.wet_mv()), (1800, 700));
}
