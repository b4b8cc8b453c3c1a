//! The soil-moisture probe: from raw analog samples to a percentage and a
//! status band.

use vstd::prelude::*;
use super::{Measurement, Sensor, StatusLabel};

verus! {

/// Raw value of a probe in dry air: 0 %.
pub const MAX_DRY: u16 = 2800;

/// Raw value of a probe in water: 100 %.
pub const MAX_WET: u16 = 1300;

/// Width of the calibration window.
pub const MOISTURE_RANGE: u16 = MAX_DRY - MAX_WET;

/// A mean below this is no reading at all: the probe is unplugged.
pub const MIN_PLAUSIBLE: u16 = 1000;

/// 100 % in hundredths of a percent.
pub const FULL_PRECENTAGE: i32 = 10000;

/// 0 % in hundredths of a percent.
pub const NO_PRECENTAGE: i32 = 0;

/// The four bands of soil moisture, from dry to wet.
#[derive(Debug, PartialEq, Eq, Structural, Clone, Copy)]
pub enum SoilStatus {
    Dry,
    Optimal,
    Damp,
    Wet,
}

/// Why the probe gave no value.
#[derive(Debug, PartialEq, Eq, Structural, Clone, Copy)]
pub enum MoistureError {
    /// The mean of the samples is below the plausible minimum, or there is
    /// no sample.
    SensorNotConnected,
    /// The converter failed on a sample; the driver's error code.
    EspError(i32),
}

/// What an error says of itself.
pub open spec fn moisture_message_of(e: MoistureError) -> Seq<char> {
    match e {
        MoistureError::SensorNotConnected => "Sensor not connected"@,
        MoistureError::EspError(_) => "EspError internal error"@,
    }
}

impl MoistureError {
    /// What the error says of itself.
    pub fn message(&self) -> (r: String)
        ensures
            r@ == moisture_message_of(*self),
    {
        match self {
            MoistureError::SensorNotConnected => "Sensor not connected".to_owned(),
            MoistureError::EspError(_) => "EspError internal error".to_owned(),
        }
    }
}

/// The sum of the samples.
pub open spec fn sum_of(samples: Seq<u16>) -> int
    decreases samples.len(),
{
    if samples.len() == 0 {
        0
    } else {
        sum_of(samples.drop_last()) + samples.last()
    }
}

/// The first failure among the outcomes of one poll, if any.
pub open spec fn first_failure(readings: Seq<Result<u16, i32>>) -> Option<i32>
    decreases readings.len(),
{
    if readings.len() == 0 {
        None
    } else {
        match first_failure(readings.drop_last()) {
            Some(code) => Some(code),
            None => match readings.last() {
                Err(code) => Some(code),
                Ok(_) => None,
            },
        }
    }
}

/// The samples of a poll in which nothing failed.
pub open spec fn samples_of(readings: Seq<Result<u16, i32>>) -> Seq<u16> {
    readings.map_values(
        |r: Result<u16, i32>|
            match r {
                Ok(v) => v,
                Err(_) => 0u16,
            },
    )
}

/// The mean raw value of one poll: the first failure if a sample failed,
/// no connection if there is no sample, else the sum of the samples over
/// their number, rounded down.
pub open spec fn mean_of(readings: Seq<Result<u16, i32>>) -> Result<u16, MoistureError> {
    match first_failure(readings) {
        Some(code) => Err(MoistureError::EspError(code)),
        None => if readings.len() == 0 {
            Err(MoistureError::SensorNotConnected)
        } else {
            Ok((sum_of(samples_of(readings)) / (readings.len() as int)) as u16)
        },
    }
}

/// The moisture for a plausible mean raw value, in hundredths of a percent:
/// 0 % above the dry mark, 100 % below the wet mark, and in between the
/// share of the window that lies below the dry mark, rounded down.
pub open spec fn percentage_of(raw: u16) -> int {
    if raw > MAX_DRY {
        0
    } else if raw < MAX_WET {
        10000
    } else {
        (MAX_DRY - raw) * 10000 / 1500
    }
}

/// The moisture for a mean raw value, or no connection below the plausible
/// minimum.
pub open spec fn moisture_of(raw: u16) -> Result<Measurement, MoistureError> {
    if raw < MIN_PLAUSIBLE {
        Err(MoistureError::SensorNotConnected)
    } else {
        Ok(Measurement { hundredths: percentage_of(raw) as i32 })
    }
}

/// The band of a moisture value: dry below 20 %, optimal below 40 %, damp
/// below 55 %, wet from there on.
pub open spec fn band_of(m: Measurement) -> SoilStatus {
    if m.hundredths < 2000 {
        SoilStatus::Dry
    } else if m.hundredths < 4000 {
        SoilStatus::Optimal
    } else if m.hundredths < 5500 {
        SoilStatus::Damp
    } else {
        SoilStatus::Wet
    }
}

/// The status for a mean raw value, `None` where the probe counts as
/// unplugged.
pub open spec fn status_of(raw: u16) -> Option<SoilStatus> {
    match moisture_of(raw) {
        Ok(m) => Some(band_of(m)),
        Err(_) => None,
    }
}

/// The text of a band.
pub open spec fn soil_label(s: SoilStatus) -> Seq<char> {
    match s {
        SoilStatus::Dry => "Dry🔥"@,
        SoilStatus::Optimal => "Optimal 💚"@,
        SoilStatus::Damp => "Damp ⚠️"@,
        SoilStatus::Wet => "Wet 💦"@,
    }
}

proof fn lemma_sum_bounds(samples: Seq<u16>)
    ensures
        0 <= sum_of(samples) <= samples.len() * 65535,
    decreases samples.len(),
{
    if samples.len() > 0 {
        lemma_sum_bounds(samples.drop_last());
    }
}

/// Averages the outcomes of one poll.
pub fn mean_raw(readings: &Vec<Result<u16, i32>>) -> (r: Result<u16, MoistureError>)
    ensures
        r == mean_of(readings@),
{
    let n = readings.len();
    let mut sum: u128 = 0;
    let mut i: usize = 0;
    while i < n
        invariant
            n == readings.len(),
            i <= n,
            first_failure(readings@.take(i as int)) is None,
            sum == sum_of(samples_of(readings@.take(i as int))),
            sum <= i * 65535,
        decreases n - i,
    {
        proof {
            let next = readings@.take(i + 1);
            assert(next.drop_last() == readings@.take(i as int));
            assert(samples_of(next).drop_last() == samples_of(readings@.take(i as int)));
            assert(next.last() == readings@[i as int]);
        }
        match readings[i] {
            Ok(v) => {
                sum = sum + v as u128;
            },
            Err(code) => {
                proof {
                    lemma_failure_stays(readings@, i + 1);
                }
                return Err(MoistureError::EspError(code));
            },
        }
        i = i + 1;
    }
    proof {
        assert(readings@.take(n as int) == readings@);
        lemma_sum_bounds(samples_of(readings@));
    }
    if n == 0 {
        Err(MoistureError::SensorNotConnected)
    } else {
        let mean = sum / (n as u128);
        assert(mean <= 65535) by (nonlinear_arith)
            requires
                mean == sum / (n as u128),
                sum <= n * 65535,
                n > 0,
        ;
        Ok(mean as u16)
    }
}

/// A failure among the first `k` outcomes is the first failure of the whole
/// poll.
proof fn lemma_failure_stays(readings: Seq<Result<u16, i32>>, k: int)
    requires
        0 <= k <= readings.len(),
        first_failure(readings.take(k)) is Some,
    ensures
        first_failure(readings) == first_failure(readings.take(k)),
    decreases readings.len() - k,
{
    if k < readings.len() {
        let next = readings.take(k + 1);
        assert(next.drop_last() == readings.take(k));
        lemma_failure_stays(readings, k + 1);
    } else {
        assert(readings.take(k) == readings);
    }
}

/// The moisture for a mean raw value.
pub fn moisture_percentage(raw: u16) -> (r: Result<Measurement, MoistureError>)
    ensures
        r == moisture_of(raw),
{
    if raw < MIN_PLAUSIBLE {
        return Err(MoistureError::SensorNotConnected);
    }
    if raw > MAX_DRY {
        return Ok(Measurement { hundredths: NO_PRECENTAGE });
    } else if raw < MAX_WET {
        return Ok(Measurement { hundredths: FULL_PRECENTAGE });
    }
    let value_diff: u32 = (MAX_DRY - raw) as u32;
    let hundredths: u32 = value_diff * 10000 / (MOISTURE_RANGE as u32);
    Ok(Measurement { hundredths: hundredths as i32 })
}

/// The band of a moisture value.
pub fn soil_band(m: Measurement) -> (r: SoilStatus)
    ensures
        r == band_of(m),
{
    if m.hundredths < 2000 {
        SoilStatus::Dry
    } else if m.hundredths < 4000 {
        SoilStatus::Optimal
    } else if m.hundredths < 5500 {
        SoilStatus::Damp
    } else {
        SoilStatus::Wet
    }
}

impl StatusLabel for SoilStatus {
    open spec fn label_spec(&self) -> Seq<char> {
        soil_label(*self)
    }

    fn label(&self) -> (r: String) {
        match self {
            SoilStatus::Dry => "Dry🔥".to_owned(),
            SoilStatus::Optimal => "Optimal 💚".to_owned(),
            SoilStatus::Damp => "Damp ⚠️".to_owned(),
            SoilStatus::Wet => "Wet 💦".to_owned(),
        }
    }
}

/// The probe with the outcomes of its latest poll: one entry per analog
/// sample, in the order taken, each the raw value or the driver's error
/// code.
pub struct SoilMoisture {
    readings: Vec<Result<u16, i32>>,
}

impl SoilMoisture {
    /// The outcomes of the latest poll.
    pub closed spec fn readings(&self) -> Seq<Result<u16, i32>> {
        self.readings@
    }

    /// A probe with the outcomes of one poll.
    pub fn new(readings: Vec<Result<u16, i32>>) -> (r: Self)
        ensures
            r.readings() == readings@,
    {
        SoilMoisture { readings }
    }

    /// The mean raw value of the latest poll.
    pub fn get_raw_moisture(&self) -> (r: Result<u16, MoistureError>)
        ensures
            r == mean_of(self.readings()),
    {
        mean_raw(&self.readings)
    }

    /// The moisture of the latest poll, in hundredths of a percent.
    pub fn get_moisture_precentage(&self) -> (r: Result<Measurement, MoistureError>)
        ensures
            r == match mean_of(self.readings()) {
                Ok(raw) => moisture_of(raw),
                Err(e) => Err(e),
            },
    {
        match self.get_raw_moisture() {
            Ok(raw) => moisture_percentage(raw),
            Err(e) => Err(e),
        }
    }

    /// The band of the latest poll, `None` where it gave no moisture.
    pub fn get_soil_status(&self) -> (r: Option<SoilStatus>)
        ensures
            r == match mean_of(self.readings()) {
                Ok(raw) => status_of(raw),
                Err(_) => None,
            },
    {
        match self.get_moisture_precentage() {
            Ok(m) => Some(soil_band(m)),
            Err(_) => None,
        }
    }
}

impl Sensor for SoilMoisture {
    type Error = MoistureError;

    type Status = SoilStatus;

    open spec fn unit_spec(&self) -> Seq<char> {
        "%"@
    }

    open spec fn name_spec(&self) -> Seq<char> {
        "soil moisture"@
    }

    open spec fn measurement_spec(&self) -> Result<Measurement, MoistureError> {
        match mean_of(self.readings()) {
            Ok(raw) => moisture_of(raw),
            Err(e) => Err(e),
        }
    }

    open spec fn status_spec(&self) -> Result<SoilStatus, MoistureError> {
        match mean_of(self.readings()) {
            Ok(raw) => match status_of(raw) {
                Some(s) => Ok(s),
                None => Err(MoistureError::SensorNotConnected),
            },
            Err(_) => Err(MoistureError::SensorNotConnected),
        }
    }

    fn get_unit(&self) -> (r: &str) {
        "%"
    }

    fn get_name(&self) -> (r: &str) {
        "soil moisture"
    }

    fn get_measurment(&mut self) -> (r: Result<Measurement, MoistureError>)
        ensures
            final(self).readings() == old(self).readings(),
    {
        self.get_moisture_precentage()
    }

    fn get_status(&mut self) -> (r: Result<SoilStatus, MoistureError>)
        ensures
            final(self).readings() == old(self).readings(),
    {
        match self.get_soil_status() {
            Some(s) => Ok(s),
            None => Err(MoistureError::SensorNotConnected),
        }
    }
}

/// Below the plausible minimum there is never a band.
pub proof fn lemma_implausible_reading_has_no_status(raw: u16)
    requires
        raw < MIN_PLAUSIBLE,
    ensures
        status_of(raw) is None,
        moisture_of(raw) == Err::<Measurement, MoistureError>(MoistureError::SensorNotConnected),
{
}

/// At the dry mark the moisture is exactly 0 %, at the wet mark exactly
/// 100 %.
pub proof fn lemma_calibration_marks()
    ensures
        percentage_of(MAX_DRY) == 0,
        percentage_of(MAX_WET) == 10000,
{
}

/// Between the marks a lower raw value is a strictly higher moisture, and
/// every moisture lies between 0 % and 100 %.
pub proof fn lemma_percentage_strictly_monotonic(a: u16, b: u16)
    requires
        MAX_WET <= a < b <= MAX_DRY,
    ensures
        percentage_of(a) > percentage_of(b),
        0 <= percentage_of(b),
        percentage_of(a) <= 10000,
{
}

} // verus!
