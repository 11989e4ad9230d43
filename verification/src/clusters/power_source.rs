//! The battery-shaped `PowerSource` cluster: the last battery reading, when
//! a new one is worth a subscription report, and the attributes derived
//! from it.
use vstd::prelude::*;
use crate::clusters::soil_measurement::abs_diff;
use crate::config::{
    BATTERY_REPORT_DELTA_MV, CHARGE_LEVEL_CRITICAL_BELOW_PERCENT,
    CHARGE_LEVEL_WARNING_BELOW_PERCENT,
};

verus! {

/// One battery reading; `None`s before the first sample.
#[derive(Clone, Copy, Debug, PartialEq, Eq, Structural)]
pub struct BatteryReading {
    pub percent: Option<u8>,
    pub rest_mv: Option<u32>,
}

/// The last battery reading.
pub struct BatteryCell {
    reading: BatteryReading,
}

impl View for BatteryCell {
    type V = BatteryReading;

    closed spec fn view(&self) -> BatteryReading {
        self.reading
    }
}

impl BatteryCell {
    pub fn new() -> (cell: BatteryCell)
        ensures
            cell@ == (BatteryReading { percent: None, rest_mv: None }),
    {
        BatteryCell { reading: BatteryReading { percent: None, rest_mv: None } }
    }

    pub fn get(&self) -> (reading: BatteryReading)
        ensures
            reading == self@,
    {
        self.reading
    }

    pub fn set(&mut self, percent: u8, rest_mv: u32)
        ensures
            final(self)@ == (BatteryReading { percent: Some(percent), rest_mv: Some(rest_mv) }),
    {
        self.reading = BatteryReading { percent: Some(percent), rest_mv: Some(rest_mv) };
    }
}

impl Default for BatteryCell {
    fn default() -> (cell: BatteryCell)
        ensures
            cell@ == (BatteryReading { percent: None, rest_mv: None }),
    {
        BatteryCell::new()
    }
}

/// The `BatChargeLevel` attribute.
#[derive(Clone, Copy, Debug, PartialEq, Eq, Structural)]
pub enum BatChargeLevel {
    Good,
    Warning,
    Critical,
}

/// The `Status` attribute.
#[derive(Clone, Copy, Debug, PartialEq, Eq, Structural)]
pub enum PowerSourceStatus {
    Active,
}

/// The `BatReplaceability` attribute.
#[derive(Clone, Copy, Debug, PartialEq, Eq, Structural)]
pub enum BatReplaceability {
    UserReplaceable,
}

/// A new reading is reported when there was none before, or when the
/// voltage moved at least `BATTERY_REPORT_DELTA_MV` from the previous one.
pub open spec fn battery_should_report(previous: BatteryReading, rest_mv: u32) -> bool {
    match previous.rest_mv {
        Some(prev) => abs_diff(prev as int, rest_mv as int) >= BATTERY_REPORT_DELTA_MV,
        None => true,
    }
}

/// A new battery reading is pushed exactly when its voltage differs from
/// the previous one by 20 mV or more, whether it rose (a fresh cell) or fell;
/// the decision ignores the previous percent, and the first reading is
/// always pushed.
pub proof fn law_battery_report_decision(prev: BatteryReading, rest_mv: u32)
    ensures
        prev.rest_mv matches Some(prev_mv) ==> (battery_should_report(prev, rest_mv) <==> (
        prev_mv as int - rest_mv as int >= 20 || rest_mv as int - prev_mv as int >= 20)),
        prev.rest_mv matches Some(prev_mv) ==> battery_should_report(prev, rest_mv)
            == battery_should_report(
            BatteryReading { percent: prev.percent, rest_mv: Some(rest_mv) },
            prev_mv,
        ),
        prev.rest_mv is None ==> battery_should_report(prev, rest_mv),
{
}

/// Critical below the critical threshold, warning below the warning
/// threshold, good otherwise and before the first reading.
pub open spec fn spec_charge_level(percent: Option<u8>) -> BatChargeLevel {
    match percent {
        Some(p) => if p < CHARGE_LEVEL_CRITICAL_BELOW_PERCENT {
            BatChargeLevel::Critical
        } else if p < CHARGE_LEVEL_WARNING_BELOW_PERCENT {
            BatChargeLevel::Warning
        } else {
            BatChargeLevel::Good
        },
        None => BatChargeLevel::Good,
    }
}

/// Twice the percent (half-percent units), saturating at `u8::MAX`.
pub open spec fn half_percent_units(percent: u8) -> u8 {
    if 2 * percent > u8::MAX {
        u8::MAX
    } else {
        (2 * percent) as u8
    }
}

/// The cluster's state: its endpoint and the last reading.
pub struct PowerSourceHandler {
    endpoint_id: u16,
    reading: BatteryCell,
}

impl PowerSourceHandler {
    pub closed spec fn spec_endpoint(self) -> u16 {
        self.endpoint_id
    }

    /// The last reading.
    pub closed spec fn reading(self) -> BatteryReading {
        self.reading@
    }

    pub fn new(endpoint_id: u16, reading: BatteryCell) -> (handler: PowerSourceHandler)
        ensures
            handler.spec_endpoint() == endpoint_id,
            handler.reading() == reading@,
    {
        PowerSourceHandler { endpoint_id, reading }
    }

    pub fn endpoint_id(&self) -> (id: u16)
        ensures
            id == self.spec_endpoint(),
    {
        self.endpoint_id
    }

    /// Records a freshly measured resting voltage and its percent, and
    /// says whether they are worth a subscription report: only when the
    /// voltage moved by at least `BATTERY_REPORT_DELTA_MV`. The reading
    /// itself is always updated.
    pub fn report(&mut self, percent: u8, rest_mv: u32) -> (notify: bool)
        ensures
            notify == battery_should_report(old(self).reading(), rest_mv),
            final(self).reading() == (BatteryReading {
                percent: Some(percent),
                rest_mv: Some(rest_mv),
            }),
            final(self).spec_endpoint() == old(self).spec_endpoint(),
    {
        let should_report = match self.reading.get().rest_mv {
            Some(previous_mv) => {
                let moved = if previous_mv >= rest_mv {
                    previous_mv - rest_mv
                } else {
                    rest_mv - previous_mv
                };
                moved >= BATTERY_REPORT_DELTA_MV
            },
            None => true,
        };
        self.reading.set(percent, rest_mv);
        should_report
    }

    /// `Status`: the cell is the source in use.
    pub fn status(&self) -> (status: PowerSourceStatus)
        ensures
            status == PowerSourceStatus::Active,
    {
        PowerSourceStatus::Active
    }

    /// `Order`: the only (highest-priority) source.
    pub fn order(&self) -> (order: u8)
        ensures
            order == 0,
    {
        0
    }

    /// `Description`.
    pub fn description(&self) -> (description: &'static str)
        ensures
            description@ == "AA Battery"@,
    {
        "AA Battery"
    }

    /// `BatReplaceability`: a user swaps the AA cell directly - no tools,
    /// no factory visit.
    pub fn bat_replaceability(&self) -> (replaceability: BatReplaceability)
        ensures
            replaceability == BatReplaceability::UserReplaceable,
    {
        BatReplaceability::UserReplaceable
    }

    /// `BatPercentRemaining`, in half-percent units (0-200 is 0-100%); null
    /// before the first reading.
    pub fn bat_percent_remaining(&self) -> (remaining: Option<u8>)
        ensures
            remaining == match self.reading().percent {
                Some(p) => Some(half_percent_units(p)),
                None => None,
            },
    {
        match self.reading.get().percent {
            Some(percent) => {
                if percent > 127 {
                    Some(u8::MAX)
                } else {
                    Some(percent * 2)
                }
            },
            None => None,
        }
    }

    /// `BatVoltage` (mV); null before the first reading.
    pub fn bat_voltage(&self) -> (mv: Option<u32>)
        ensures
            mv == self.reading().rest_mv,
    {
        self.reading.get().rest_mv
    }

    /// `BatChargeLevel`.
    pub fn bat_charge_level(&self) -> (level: BatChargeLevel)
        ensures
            level == spec_charge_level(self.reading().percent),
    {
        match self.reading.get().percent {
            Some(percent) => {
                if percent < CHARGE_LEVEL_CRITICAL_BELOW_PERCENT {
                    BatChargeLevel::Critical
                } else if percent < CHARGE_LEVEL_WARNING_BELOW_PERCENT {
                    BatChargeLevel::Warning
                } else {
                    BatChargeLevel::Good
                }
            },
            None => BatChargeLevel::Good,
        }
    }

    /// `BatReplacementNeeded`: the last percent is below the critical
    /// threshold.
    pub fn bat_replacement_needed(&self) -> (needed: bool)
        ensures
            needed == (self.reading().percent matches Some(p)
                && p < CHARGE_LEVEL_CRITICAL_BELOW_PERCENT),
    {
        match self.reading.get().percent {
            Some(percent) => percent < CHARGE_LEVEL_CRITICAL_BELOW_PERCENT,
            None => false,
        }
    }
}

/// A replacement is asked for exactly when the charge level is critical,
/// and a lower charge is never reported as a better level.
pub proof fn law_charge_level(p1: u8, p2: u8)
    ensures
        (Some(p1) matches Some(p) && p < CHARGE_LEVEL_CRITICAL_BELOW_PERCENT) <==> spec_charge_level(
            Some(p1),
        ) == BatChargeLevel::Critical,
        spec_charge_level(None) == BatChargeLevel::Good,
        p1 <= p2 && spec_charge_level(Some(p1)) == BatChargeLevel::Good ==> spec_charge_level(
            Some(p2),
        ) == BatChargeLevel::Good,
        p1 <= p2 && spec_charge_level(Some(p2)) == BatChargeLevel::Critical ==> spec_charge_level(
            Some(p1),
        ) == BatChargeLevel::Critical,
{
}

/// For any percentage a reading can hold (0-100), the remaining charge is
/// reported as exactly twice it, 0-200.
pub proof fn law_half_percent_units(percent: u8)
    requires
        percent <= 100,
    ensures
        half_percent_units(percent) == 2 * percent,
        half_percent_units(percent) <= 200,
{
}

} // verus!
