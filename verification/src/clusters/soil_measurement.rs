//! The `SoilMeasurement` cluster: the last moisture reading, when a new
//! reading is worth a subscription report, and the declared accuracy.
use vstd::prelude::*;
use crate::config::SOIL_REPORT_DELTA_PERCENT;

verus! {

/// The last measured moisture percent, or `None` if the probe has not
/// sampled yet.
pub struct SoilMoistureCell {
    value: Option<u8>,
}

impl View for SoilMoistureCell {
    type V = Option<u8>;

    closed spec fn view(&self) -> Option<u8> {
        self.value
    }
}

impl SoilMoistureCell {
    pub fn new() -> (cell: SoilMoistureCell)
        ensures
            cell@ == None::<u8>,
    {
        SoilMoistureCell { value: None }
    }

    pub fn get(&self) -> (value: Option<u8>)
        ensures
            value == self@,
    {
        self.value
    }

    pub fn set(&mut self, value: u8)
        ensures
            final(self)@ == Some(value),
    {
        self.value = Some(value);
    }
}

impl Default for SoilMoistureCell {
    fn default() -> (cell: SoilMoistureCell)
        ensures
            cell@ == None::<u8>,
    {
        SoilMoistureCell::new()
    }
}

/// `|a - b|`.
pub open spec fn abs_diff(a: int, b: int) -> int {
    if a >= b {
        a - b
    } else {
        b - a
    }
}

/// A new reading is reported when there was none before, or when it moved
/// at least `SOIL_REPORT_DELTA_PERCENT` from the previous one.
pub open spec fn soil_should_report(previous: Option<u8>, percent: u8) -> bool {
    match previous {
        Some(prev) => abs_diff(prev as int, percent as int) >= SOIL_REPORT_DELTA_PERCENT,
        None => true,
    }
}

/// A new soil reading is pushed exactly when it differs from the previous
/// one by 2 percentage points or more, in either direction (the decision is
/// symmetric in the two readings); the first reading is always pushed.
pub proof fn law_soil_report_decision(prev: u8, percent: u8)
    ensures
        soil_should_report(Some(prev), percent) <==> (prev as int - percent as int >= 2
            || percent as int - prev as int >= 2),
        soil_should_report(Some(prev), percent) == soil_should_report(Some(percent), prev),
        soil_should_report(None, percent),
{
}

/// One accuracy range of a measurement, as the Matter
/// `MeasurementAccuracyRangeStruct` has it (`percent_*` in hundredths of a
/// percent).
#[derive(Clone, Copy, Debug, PartialEq, Eq, Structural)]
pub struct AccuracyRange {
    pub range_min: i64,
    pub range_max: i64,
    pub percent_max: Option<u16>,
    pub percent_min: Option<u16>,
    pub percent_typical: Option<u16>,
    pub fixed_max: Option<u64>,
    pub fixed_min: Option<u64>,
    pub fixed_typical: Option<u64>,
}

/// The quantity a `MeasurementAccuracyStruct` describes (the Matter
/// `MeasurementTypeEnum` values this node reports).
#[derive(Clone, Copy, Debug, PartialEq, Eq, Structural)]
pub enum MeasurementType {
    SoilMoisture,
}

/// The soil-moisture `MeasurementAccuracyStruct`.
#[derive(Debug)]
pub struct MeasurementAccuracy {
    pub measurement_type: MeasurementType,
    pub measured: bool,
    pub min_measured_value: i64,
    pub max_measured_value: i64,
    pub accuracy_ranges: Vec<AccuracyRange>,
}

/// +-5% over the whole 0-100% range.
pub open spec fn soil_accuracy_range() -> AccuracyRange {
    AccuracyRange {
        range_min: 0,
        range_max: 100,
        percent_max: Some(500),
        percent_min: None,
        percent_typical: None,
        fixed_max: None,
        fixed_min: None,
        fixed_typical: None,
    }
}

/// The cluster's state: its endpoint and the last reading.
pub struct SoilMeasurementHandler {
    endpoint_id: u16,
    value: SoilMoistureCell,
}

impl SoilMeasurementHandler {
    pub closed spec fn spec_endpoint(self) -> u16 {
        self.endpoint_id
    }

    /// The last reading.
    pub closed spec fn reading(self) -> Option<u8> {
        self.value@
    }

    pub fn new(endpoint_id: u16, value: SoilMoistureCell) -> (handler: SoilMeasurementHandler)
        ensures
            handler.spec_endpoint() == endpoint_id,
            handler.reading() == value@,
    {
        SoilMeasurementHandler { endpoint_id, value }
    }

    pub fn endpoint_id(&self) -> (id: u16)
        ensures
            id == self.spec_endpoint(),
    {
        self.endpoint_id
    }

    /// Records a freshly measured percent and says whether it is worth a
    /// subscription report: only when it moved by at least
    /// `SOIL_REPORT_DELTA_PERCENT`, so ADC jitter does not wake the radio.
    /// The reading itself is always updated.
    pub fn report(&mut self, percent: u8) -> (notify: bool)
        ensures
            notify == soil_should_report(old(self).reading(), percent),
            final(self).reading() == Some(percent),
            final(self).spec_endpoint() == old(self).spec_endpoint(),
    {
        let should_report = match self.value.get() {
            Some(previous) => {
                let moved = if previous >= percent {
                    previous - percent
                } else {
                    percent - previous
                };
                moved >= SOIL_REPORT_DELTA_PERCENT
            },
            None => true,
        };
        self.value.set(percent);
        should_report
    }

    /// The `SoilMoistureMeasuredValue` attribute: the last reading, null
    /// before the first.
    pub fn soil_moisture_measured_value(&self) -> (value: Option<u8>)
        ensures
            value == self.reading(),
    {
        self.value.get()
    }

    /// The `SoilMoistureMeasurementLimits` attribute: a measured soil
    /// moisture over 0-100% with +-5% accuracy over that whole range.
    pub fn soil_moisture_measurement_limits(&self) -> (limits: MeasurementAccuracy)
        ensures
            limits.measurement_type == MeasurementType::SoilMoisture,
            limits.measured,
            limits.min_measured_value == 0,
            limits.max_measured_value == 100,
            limits.accuracy_ranges@ == seq![soil_accuracy_range()],
    {
        let range = AccuracyRange {
            range_min: 0,
            range_max: 100,
            percent_max: Some(500),
            percent_min: None,
            percent_typical: None,
            fixed_max: None,
            fixed_min: None,
            fixed_typical: None,
        };
        let mut ranges: Vec<AccuracyRange> = Vec::new();
        ranges.push(range);
        MeasurementAccuracy {
            measurement_type: MeasurementType::SoilMoisture,
            measured: true,
            min_measured_value: 0,
            max_measured_value: 100,
            accuracy_ranges: ranges,
        }
    }
}

} // verus!
