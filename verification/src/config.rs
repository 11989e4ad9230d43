//! Board tunables of the XIAO ESP32-C6 soil moisture kit, as plain numbers.
//! Durations are in milliseconds.
use vstd::prelude::*;

verus! {

/// Soil-probe excitation frequency (kHz) and duty cycle (%).
pub const SOIL_EXCITATION_FREQ_KHZ: u32 = 200;
pub const SOIL_EXCITATION_DUTY_PCT: u8 = 68;
/// How long the excitation settles before the probe is read.
pub const SOIL_EXCITATION_SETTLE_MS: u64 = 300;

/// Reads averaged per soil measurement, and the gap between them.
pub const SOIL_SAMPLE_COUNT: u32 = 10;
pub const SOIL_SAMPLE_GAP_MS: u64 = 50;

/// Reads averaged per battery measurement, and the gap between them.
pub const BATTERY_SAMPLE_COUNT: u32 = 5;
pub const BATTERY_SAMPLE_GAP_MS: u64 = 20;

/// Default dry/wet calibration references (mV), in effect until a
/// calibration is persisted.
pub const SOIL_CAL_DEFAULT_DRY_MV: i32 = 1600;
pub const SOIL_CAL_DEFAULT_WET_MV: i32 = 900;

/// A calibration needs the dry reference at least this far above wet.
pub const SOIL_CAL_MIN_SPAN_MV: i32 = 200;

/// AA cell resting-voltage-to-percent endpoints (mV).
pub const BATTERY_EMPTY_MV: i32 = 1000;
pub const BATTERY_FULL_MV: i32 = 1500;

/// A new moisture or battery reading is only reported when it moved at
/// least this much, so ADC jitter does not wake the radio.
pub const SOIL_REPORT_DELTA_PERCENT: u8 = 2;
pub const BATTERY_REPORT_DELTA_MV: u32 = 20;

/// Moisture classification thresholds of the status LED.
pub const MOISTURE_DRY_BELOW_PERCENT: u8 = 23;
pub const MOISTURE_NORMAL_ABOVE_PERCENT: u8 = 58;

/// Battery charge-level thresholds (%).
pub const CHARGE_LEVEL_WARNING_BELOW_PERCENT: u8 = 20;
pub const CHARGE_LEVEL_CRITICAL_BELOW_PERCENT: u8 = 5;

/// Button gesture timing.
pub const BUTTON_TRIPLE_CLICK_WINDOW_MS: u64 = 400;
pub const BUTTON_FACTORY_RESET_HOLD_MS: u64 = 10_000;
pub const BUTTON_DEBOUNCE_MS: u64 = 20;

/// Calibration flow: how long each reference is held, and the blink
/// pattern that prompts for it.
pub const CALIBRATION_HOLD_MS: u64 = 10_000;
pub const CALIBRATION_BLINK_COUNT: u32 = 10;
pub const CALIBRATION_BLINK_PERIOD_MS: u64 = 500;

/// The fast red blink that warns of a factory reset.
pub const FACTORY_RESET_BLINK_COUNT: u32 = 5;
pub const FACTORY_RESET_BLINK_PERIOD_MS: u64 = 100;

/// Length of the single blink that shows the moisture class.
pub const CLASSIFY_BLINK_PERIOD_MS: u64 = 1_000;

/// Background sampling cadence (s).
pub const SAMPLE_PERIOD_SECS: u32 = 30;

/// Thread sleepy-end-device poll periods (ms) and timing.
pub const THREAD_SIT_POLL_PERIOD_MS: u32 = SAMPLE_PERIOD_SECS * 1_000;
pub const THREAD_LIT_POLL_PERIOD_MS: u32 = 900_000;
pub const THREAD_ACTIVE_POLL_PERIOD_MS: u32 = 5_000;
pub const THREAD_ACTIVE_HOLD_MS: u64 = 30_000;
pub const THREAD_CHILD_TIMEOUT_S: u32 = 1_800;
pub const THREAD_RX_QUEUE_SIZE: usize = 200;

/// ICD Check-In sweep period and message buffer size.
pub const CHECK_IN_PERIOD_MS: u64 = 300_000;
pub const CHECK_IN_BUF: usize = 256;

/// How long a boot must run before it counts as healthy.
pub const REBOOT_COUNT_HEALTHY_AFTER_MS: u64 = 60_000;

} // verus!
