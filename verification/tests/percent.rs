use soil_sensor_core::{battery_percent, soil_moisture_percent};

struct SoilTestCase {
    name: &'static str,
    input_mv: i32,
    input_dry_mv: i32,
    input_wet_mv: i32,
    expected: u8,
}

#[test]
fn test_soil_moisture_percent() {
    let test_cases = vec![
        SoilTestCase {
            name: "at dry reference reads 0%",
            input_mv: 1600,
            input_dry_mv: 1600,
            input_wet_mv: 900,
            expected: 0,
        },
        SoilTestCase {
            name: "at wet reference reads 100%",
            input_mv: 900,
            input_dry_mv: 1600,
            input_wet_mv: 900,
            expected: 100,
        },
        SoilTestCase {
            name: "midpoint reads 50%",
            input_mv: 1250,
            input_dry_mv: 1600,
            input_wet_mv: 900,
            expected: 50,
        },
        SoilTestCase {
            name: "wetter than wet reference clamps to 100%",
            input_mv: 500,
            input_dry_mv: 1600,
            input_wet_mv: 900,
            expected: 100,
        },
        SoilTestCase {
            name: "drier than dry reference clamps to 0%",
            input_mv: 2000,
            input_dry_mv: 1600,
            input_wet_mv: 900,
            expected: 0,
        },
        SoilTestCase {
            name: "invalid (non-positive) span reads 0%",
            input_mv: 1200,
            input_dry_mv: 900,
            input_wet_mv: 1600,
            expected: 0,
        },
    ];

    for SoilTestCase { name, input_mv, input_dry_mv, input_wet_mv, expected } in test_cases {
        let result = soil_moisture_percent(input_mv, input_dry_mv, input_wet_mv);
        assert_eq!(result, expected, "Failed case: '{name}'");
    }
}

struct BatteryTestCase {
    name: &'static str,
    input_mv: i32,
    input_empty_mv: i32,
    input_full_mv: i32,
    expected: u8,
}

#[test]
fn test_battery_percent() {
    let test_cases = vec![
        BatteryTestCase {
            name: "at empty reference reads 0%",
            input_mv: 1000,
            input_empty_mv: 1000,
            input_full_mv: 1500,
            expected: 0,
        },
        BatteryTestCase {
            name: "at full reference reads 100%",
            input_mv: 1500,
            input_empty_mv: 1000,
            input_full_mv: 1500,
            expected: 100,
        },
        BatteryTestCase {
            name: "midpoint reads 50%",
            input_mv: 1250,
            input_empty_mv: 1000,
            input_full_mv: 1500,
            expected: 50,
        },
        BatteryTestCase {
            name: "below empty clamps to 0%",
            input_mv: 800,
            input_empty_mv: 1000,
            input_full_mv: 1500,
            expected: 0,
        },
        BatteryTestCase {
            name: "above full clamps to 100%",
            input_mv: 1800,
            input_empty_mv: 1000,
            input_full_mv: 1500,
            expected: 100,
        },
        BatteryTestCase {
            name: "invalid (non-positive) span reads 0%",
            input_mv: 1200,
            input_empty_mv: 1500,
            input_full_mv: 1000,
            expected: 0,
        },
    ];

    for BatteryTestCase { name, input_mv, input_empty_mv, input_full_mv, expected } in test_cases {
        let result = battery_percent(input_mv, input_empty_mv, input_full_mv);
        assert_eq!(result, expected, "Failed case: '{name}'");
    }
}

#[test]
fn soil_percent_rounds_toward_zero() {
    // 100 * 100 / 700 = 14.28...
    assert_eq!(soil_moisture_percent(1500, 1600, 900), 14);
    // a negative quotient still clamps to 0
    assert_eq!(soil_moisture_percent(1601, 1600, 900), 0);
    assert_eq!(soil_moisture_percent(1200, 1600, 1600), 0);
}

#[test]
fn battery_percent_rounds_toward_zero() {
    // 100 * 333 / 500 = 66.6
    assert_eq!(battery_percent(1333, 1000, 1500), 66);
    assert_eq!(battery_percent(1001, 1000, 1500), 0);
    assert_eq!(battery_percent(1499, 1000, 1500), 99);
}

#[test]
fn percent_is_monotonic_on_concrete_values() {
    let mut last = 100u8;
    for mv in (800..=1700).step_by(50) {
        let p = soil_moisture_percent(mv, 1600, 900);
        assert!(p <= last);
        last = p;
    }
    let mut last = 0u8;
    for mv in (900..=1600).step_by(25) {
        let p = battery_percent(mv, 1000, 1500);
        assert!(p >= last);
        last = p;
    }
}
