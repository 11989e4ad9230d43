use soil_sensor_core::button::ButtonEvent;
use soil_sensor_core::calibration::Calibration;
use soil_sensor_core::clusters::power_source::{
    BatChargeLevel, BatReplaceability, BatteryCell, BatteryReading, PowerSourceHandler,
    PowerSourceStatus,
};
use soil_sensor_core::clusters::soil_measurement::{
    AccuracyRange, MeasurementType, SoilMeasurementHandler, SoilMoistureCell,
};
use soil_sensor_core::sampling::{average_mv, average_valid_mv};
use soil_sensor_core::sensor::{
    commissioning_discriminator, eui64_from_mac, plan_request, route_button_event, ButtonRoute,
    SampleRequest, Sensor, SoilOutcome, WorkPlan,
};
use soil_sensor_core::status_led::{Color, LedCommand};

fn sensor() -> Sensor {
    Sensor::new(
        Calibration::load(None, None),
        SoilMeasurementHandler::new(1, SoilMoistureCell::new()),
        PowerSourceHandler::new(1, BatteryCell::new()),
    )
}

#[test]
fn button_events_route_to_requests() {
    assert_eq!(route_button_event(ButtonEvent::SampleNow), ButtonRoute::Sample(SampleRequest::ShowLed));
    assert_eq!(route_button_event(ButtonEvent::Calibrate), ButtonRoute::Sample(SampleRequest::Calibrate));
    let warning = LedCommand::Blink { color: Color::Red, count: 5, period_ms: 100 };
    assert_eq!(route_button_event(ButtonEvent::FactoryReset), ButtonRoute::FactoryReset { warning });
    assert_eq!(warning.shown_for_ms(), Some(1000));
    assert_eq!(LedCommand::ClassifyMoisture { moisture_percent: 3 }.shown_for_ms(), Some(2000));
    assert_eq!(
        LedCommand::Blink { color: Color::Green, count: u32::MAX, period_ms: u64::MAX }.shown_for_ms(),
        None
    );
}

#[test]
fn requests_plan_work() {
    assert_eq!(plan_request(SampleRequest::Calibrate), WorkPlan::Calibrate);
    assert_eq!(plan_request(SampleRequest::ShowLed), WorkPlan::Measure { show_led: true });
    assert_eq!(plan_request(SampleRequest::Silent), WorkPlan::Measure { show_led: false });
}

#[test]
fn soil_sample_reports_first_and_big_moves_only() {
    let mut s = sensor();
    assert_eq!(s.soil.soil_moisture_measured_value(), None);
    let out = s.record_soil(Some(1250), true);
    assert_eq!(
        out,
        SoilOutcome {
            percent: Some(50),
            notify: true,
            led: Some(LedCommand::ClassifyMoisture { moisture_percent: 50 }),
        }
    );
    // 1243 mV -> 51%: moved by 1, not reported, but the value is updated
    let out = s.record_soil(Some(1243), false);
    assert_eq!(out, SoilOutcome { percent: Some(51), notify: false, led: None });
    assert_eq!(s.soil.soil_moisture_measured_value(), Some(51));
    // 1229 mV -> 53%: moved by 2, reported
    let out = s.record_soil(Some(1229), false);
    assert_eq!(out.notify, true);
    assert_eq!(s.soil.soil_moisture_measured_value(), Some(53));
}

#[test]
fn failed_soil_sample_changes_nothing() {
    let mut s = sensor();
    s.record_soil(Some(1600), false);
    let out = s.record_soil(None, true);
    assert_eq!(out, SoilOutcome { percent: None, notify: false, led: None });
    assert_eq!(s.soil.soil_moisture_measured_value(), Some(0));
}

#[test]
fn soil_sample_uses_current_calibration() {
    let mut s = sensor();
    s.calibration = Calibration::load(Some(2000), Some(1000));
    assert_eq!(s.record_soil(Some(1500), false).percent, Some(50));
}

#[test]
fn battery_reports_on_twenty_millivolts() {
    let mut s = sensor();
    let out = s.record_battery(1250);
    assert_eq!((out.percent, out.notify), (50, true));
    assert_eq!(s.power.bat_voltage(), Some(1250));
    assert_eq!(s.power.bat_percent_remaining(), Some(100));
    let out = s.record_battery(1269);
    assert_eq!((out.percent, out.notify), (53, false));
    let out = s.record_battery(1249);
    assert_eq!(out.notify, true);
    assert_eq!(s.power.bat_voltage(), Some(1249));
}

#[test]
fn battery_attributes_before_first_reading() {
    let s = sensor();
    assert_eq!(s.power.bat_percent_remaining(), None);
    assert_eq!(s.power.bat_voltage(), None);
    assert_eq!(s.power.bat_charge_level(), BatChargeLevel::Good);
    assert_eq!(s.power.bat_replacement_needed(), false);
}

#[test]
fn power_source_constant_attributes() {
    let s = sensor();
    assert_eq!(s.power.status(), PowerSourceStatus::Active);
    assert_eq!(s.power.order(), 0);
    assert_eq!(s.power.description(), "AA Battery");
    assert_eq!(s.power.bat_replaceability(), BatReplaceability::UserReplaceable);
}

#[test]
fn charge_levels() {
    let mut p = PowerSourceHandler::new(1, BatteryCell::new());
    for (percent, level, replace) in [
        (0u8, BatChargeLevel::Critical, true),
        (4, BatChargeLevel::Critical, true),
        (5, BatChargeLevel::Warning, false),
        (19, BatChargeLevel::Warning, false),
        (20, BatChargeLevel::Good, false),
        (100, BatChargeLevel::Good, false),
    ] {
        p.report(percent, 1000);
        assert_eq!(p.bat_charge_level(), level);
        assert_eq!(p.bat_replacement_needed(), replace);
    }
    p.report(200, 1000);
    assert_eq!(p.bat_percent_remaining(), Some(255));
    assert_eq!(p.endpoint_id(), 1);
}

#[test]
fn battery_cell_holds_last_reading() {
    let mut c = BatteryCell::default();
    assert_eq!(c.get(), BatteryReading { percent: None, rest_mv: None });
    c.set(42, 1210);
    assert_eq!(c.get(), BatteryReading { percent: Some(42), rest_mv: Some(1210) });
}

#[test]
fn soil_measurement_limits() {
    let h = SoilMeasurementHandler::new(7, SoilMoistureCell::default());
    let l = h.soil_moisture_measurement_limits();
    assert_eq!(l.measurement_type, MeasurementType::SoilMoisture);
    assert!(l.measured);
    assert_eq!((l.min_measured_value, l.max_measured_value), (0, 100));
    assert_eq!(
        l.accuracy_ranges,
        vec![AccuracyRange {
            range_min: 0,
            range_max: 100,
            percent_max: Some(500),
            percent_min: None,
            percent_typical: None,
            fixed_max: None,
            fixed_min: None,
            fixed_typical: None,
        }]
    );
    assert_eq!(h.endpoint_id(), 7);
}

#[test]
fn averages() {
    assert_eq!(average_mv(&[1000, 1001, 1002, 1003, 1004]), 1002);
    assert_eq!(average_mv(&[7]), 7);
    assert_eq!(average_mv(&[u16::MAX; 5]), 65535);
    assert_eq!(average_valid_mv(&[Some(1000), None, Some(1003)]), Some(1001));
    assert_eq!(average_valid_mv(&[None, None]), None);
    assert_eq!(average_valid_mv(&[]), None);
}

#[test]
fn commissioning_identifiers() {
    assert_eq!(commissioning_discriminator(0xdead_beef), 0xeef);
    assert_eq!(commissioning_discriminator(0x1000), 0);
    assert_eq!(
        eui64_from_mac(&[0x40, 0x4c, 0xca, 0x01, 0x02, 0x03]),
        [0x40, 0x4c, 0xca, 0xff, 0xfe, 0x01, 0x02, 0x03]
    );
}
