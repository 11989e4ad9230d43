use soil_sensor_core::status_led::{moisture_color, BlinkPattern, Blinker, Color, LedCommand, LedStep};

fn steps(pattern: BlinkPattern) -> Vec<LedStep> {
    let mut blinker = Blinker::new(pattern);
    let mut out = Vec::new();
    while let Some(step) = blinker.next_step() {
        out.push(step);
    }
    // once over, it stays over
    assert_eq!(blinker.next_step(), None);
    out
}

#[test]
fn moisture_classes() {
    assert_eq!(moisture_color(0), Color::Red);
    assert_eq!(moisture_color(22), Color::Red);
    assert_eq!(moisture_color(23), Color::Yellow);
    assert_eq!(moisture_color(57), Color::Yellow);
    assert_eq!(moisture_color(58), Color::Green);
    assert_eq!(moisture_color(100), Color::Green);
}

#[test]
fn classify_command_is_one_long_blink() {
    let p = LedCommand::ClassifyMoisture { moisture_percent: 40 }.pattern();
    assert_eq!(p, BlinkPattern { color: Color::Yellow, count: 1, period_ms: 1000 });
    assert_eq!(
        steps(p),
        vec![
            LedStep::AllOff,
            LedStep::Light { color: Color::Yellow, on: true, hold_ms: 1000 },
            LedStep::Light { color: Color::Yellow, on: false, hold_ms: 1000 },
        ]
    );
}

#[test]
fn blink_command_cycles_count_times() {
    let p = LedCommand::Blink { color: Color::Red, count: 10, period_ms: 500 }.pattern();
    let s = steps(p);
    assert_eq!(s.len(), 21);
    assert_eq!(s[0], LedStep::AllOff);
    let lit = s.iter().filter(|x| matches!(x, LedStep::Light { on: true, .. })).count();
    assert_eq!(lit, 10);
    assert_eq!(s[20], LedStep::Light { color: Color::Red, on: false, hold_ms: 500 });
}

#[test]
fn zero_count_only_switches_off() {
    let p = BlinkPattern { color: Color::Green, count: 0, period_ms: 10 };
    assert_eq!(steps(p), vec![LedStep::AllOff]);
}
