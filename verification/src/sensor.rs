//! The node's own decisions: where button events go, what a sample request
//! does, how a measurement turns into a reading, a report and an LED
//! blink, and the commissioning identifiers derived from the hardware.
use vstd::prelude::*;
use crate::button::ButtonEvent;
use crate::calibration::Calibration;
use crate::clusters::power_source::{battery_should_report, BatteryReading, PowerSourceHandler};
use crate::clusters::soil_measurement::{soil_should_report, SoilMeasurementHandler};
use crate::config::{
    BATTERY_EMPTY_MV, BATTERY_FULL_MV, FACTORY_RESET_BLINK_COUNT, FACTORY_RESET_BLINK_PERIOD_MS,
};
use crate::percent::{
    battery_percent, percent_in_range, soil_moisture_percent, spec_battery_percent,
    spec_soil_moisture_percent,
};
use crate::status_led::{Color, LedCommand};

verus! {

/// Why the sensors are to be sampled.
#[derive(Clone, Copy, Debug, PartialEq, Eq, Structural)]
pub enum SampleRequest {
    /// Periodic background sample.
    Silent,
    /// Button press: sample and show the moisture class.
    ShowLed,
    /// Triple click: run the calibration flow.
    Calibrate,
}

/// Where a button event goes.
#[derive(Clone, Copy, Debug, PartialEq, Eq, Structural)]
pub enum ButtonRoute {
    /// To the sample worker.
    Sample(SampleRequest),
    /// To the top level, which tears the network stack down and resets,
    /// after `warning` is shown on the LEDs.
    FactoryReset { warning: LedCommand },
}

/// The red warning blink shown before a factory reset.
pub open spec fn factory_reset_warning() -> LedCommand {
    LedCommand::Blink {
        color: Color::Red,
        count: FACTORY_RESET_BLINK_COUNT,
        period_ms: FACTORY_RESET_BLINK_PERIOD_MS,
    }
}

pub open spec fn spec_route(event: ButtonEvent) -> ButtonRoute {
    match event {
        ButtonEvent::SampleNow => ButtonRoute::Sample(SampleRequest::ShowLed),
        ButtonEvent::Calibrate => ButtonRoute::Sample(SampleRequest::Calibrate),
        ButtonEvent::FactoryReset => ButtonRoute::FactoryReset { warning: factory_reset_warning() },
    }
}

/// Routes a button event: a single press asks for a sample shown on the
/// LEDs, a triple click for calibration, a long hold for a factory reset
/// announced by a red warning blink.
pub fn route_button_event(event: ButtonEvent) -> (route: ButtonRoute)
    ensures
        route == spec_route(event),
{
    match event {
        ButtonEvent::SampleNow => ButtonRoute::Sample(SampleRequest::ShowLed),
        ButtonEvent::Calibrate => ButtonRoute::Sample(SampleRequest::Calibrate),
        ButtonEvent::FactoryReset => ButtonRoute::FactoryReset {
            warning: LedCommand::Blink {
                color: Color::Red,
                count: FACTORY_RESET_BLINK_COUNT,
                period_ms: FACTORY_RESET_BLINK_PERIOD_MS,
            },
        },
    }
}

/// What the sample worker does for a request.
#[derive(Clone, Copy, Debug, PartialEq, Eq, Structural)]
pub enum WorkPlan {
    /// Run the calibration flow, and nothing else.
    Calibrate,
    /// Measure the soil and then the battery; show the moisture class on
    /// the LEDs when `show_led`.
    Measure { show_led: bool },
}

pub fn plan_request(request: SampleRequest) -> (plan: WorkPlan)
    ensures
        plan == match request {
            SampleRequest::Calibrate => WorkPlan::Calibrate,
            SampleRequest::ShowLed => WorkPlan::Measure { show_led: true },
            SampleRequest::Silent => WorkPlan::Measure { show_led: false },
        },
{
    match request {
        SampleRequest::Calibrate => WorkPlan::Calibrate,
        SampleRequest::ShowLed => WorkPlan::Measure { show_led: true },
        SampleRequest::Silent => WorkPlan::Measure { show_led: false },
    }
}

/// What a soil measurement led to.
#[derive(Clone, Copy, Debug, PartialEq, Eq, Structural)]
pub struct SoilOutcome {
    /// The moisture reading, `None` when the measurement failed.
    pub percent: Option<u8>,
    /// Whether subscribers are to be told.
    pub notify: bool,
    /// The LED command to send, if any.
    pub led: Option<LedCommand>,
}

/// What a battery measurement led to.
#[derive(Clone, Copy, Debug, PartialEq, Eq, Structural)]
pub struct BatteryOutcome {
    pub percent: u8,
    /// Whether subscribers are to be told.
    pub notify: bool,
}

/// Everything the sample worker keeps between requests.
pub struct Sensor {
    pub calibration: Calibration,
    pub soil: SoilMeasurementHandler,
    pub power: PowerSourceHandler,
}

/// Whether the moisture arithmetic stays in range for a probe measurement
/// under a calibration.
pub open spec fn soil_sample_fits(cal: Calibration, mv: u32) -> bool {
    percent_in_range(cal.dry_mv - (mv as i32), cal.dry_mv - cal.wet_mv)
}

/// Whether the battery arithmetic stays in range for a measurement.
pub open spec fn battery_sample_fits(mv: u32) -> bool {
    percent_in_range((mv as i32) - BATTERY_EMPTY_MV, BATTERY_FULL_MV - BATTERY_EMPTY_MV)
}

impl Sensor {
    pub fn new(
        calibration: Calibration,
        soil: SoilMeasurementHandler,
        power: PowerSourceHandler,
    ) -> (sensor: Sensor)
        ensures
            sensor.calibration == calibration,
            sensor.soil == soil,
            sensor.power == power,
    {
        Sensor { calibration, soil, power }
    }

    /// Takes a soil measurement (mV, `None` when it failed): converts it
    /// with the calibration in effect, records it and decides on the
    /// report, and on a shown request picks the LED command that shows its
    /// moisture class. A failed measurement changes nothing.
    pub fn record_soil(&mut self, mv: Option<u32>, show_led: bool) -> (out: SoilOutcome)
        requires
            mv matches Some(v) ==> soil_sample_fits(old(self).calibration, v),
        ensures
            final(self).calibration == old(self).calibration,
            final(self).power == old(self).power,
            final(self).soil.spec_endpoint() == old(self).soil.spec_endpoint(),
            match mv {
                None => {
                    &&& out == (SoilOutcome { percent: None, notify: false, led: None })
                    &&& final(self).soil.reading() == old(self).soil.reading()
                },
                Some(v) => {
                    let p = spec_soil_moisture_percent(
                        v as i32 as int,
                        old(self).calibration.dry_mv as int,
                        old(self).calibration.wet_mv as int,
                    );
                    &&& out.percent == Some(p)
                    &&& out.notify == soil_should_report(old(self).soil.reading(), p)
                    &&& out.led == if show_led {
                        Some(LedCommand::ClassifyMoisture { moisture_percent: p })
                    } else {
                        None
                    }
                    &&& final(self).soil.reading() == Some(p)
                },
            },
    {
        match mv {
            None => SoilOutcome { percent: None, notify: false, led: None },
            Some(v) => {
                let percent = soil_moisture_percent(
                    v as i32,
                    self.calibration.dry_mv,
                    self.calibration.wet_mv,
                );
                let notify = self.soil.report(percent);
                let led = if show_led {
                    Some(LedCommand::ClassifyMoisture { moisture_percent: percent })
                } else {
                    None
                };
                SoilOutcome { percent: Some(percent), notify, led }
            },
        }
    }

    /// Takes a resting battery measurement (mV): converts it between the
    /// empty and full references, records it and decides on the report.
    pub fn record_battery(&mut self, mv: u32) -> (out: BatteryOutcome)
        requires
            battery_sample_fits(mv),
        ensures
            final(self).calibration == old(self).calibration,
            final(self).soil == old(self).soil,
            final(self).power.spec_endpoint() == old(self).power.spec_endpoint(),
            out.percent == spec_battery_percent(
                mv as i32 as int,
                BATTERY_EMPTY_MV as int,
                BATTERY_FULL_MV as int,
            ),
            out.notify == battery_should_report(old(self).power.reading(), mv),
            final(self).power.reading() == (BatteryReading {
                percent: Some(out.percent),
                rest_mv: Some(mv),
            }),
    {
        let percent = battery_percent(mv as i32, BATTERY_EMPTY_MV, BATTERY_FULL_MV);
        let notify = self.power.report(percent, mv);
        BatteryOutcome { percent, notify }
    }
}

/// The commissioning discriminator drawn from a random word: its low 12
/// bits.
pub fn commissioning_discriminator(random: u32) -> (discriminator: u16)
    ensures
        discriminator == random % 4096,
        discriminator < 4096,
{
    let low = random & 0xfff;
    assert(random & 0xfff == random % 4096) by (bit_vector);
    low as u16
}

/// The IEEE EUI-64 of a factory MAC (EUI-48): `0xFF, 0xFE` inserted after
/// the first three bytes. It depends on the MAC alone, so it is stable for
/// the life of the chip.
pub fn eui64_from_mac(mac: &[u8; 6]) -> (eui64: [u8; 8])
    ensures
        eui64@ == seq![mac@[0], mac@[1], mac@[2], 0xFFu8, 0xFEu8, mac@[3], mac@[4], mac@[5]],
{
    let eui64 = [mac[0], mac[1], mac[2], 0xFF, 0xFE, mac[3], mac[4], mac[5]];
    assert(eui64@ =~= seq![mac@[0], mac@[1], mac@[2], 0xFFu8, 0xFEu8, mac@[3], mac@[4], mac@[5]]);
    eui64
}

} // verus!
