//! The ultrasonic range finder, in whole numbers: the speed of sound from
//! the ambient temperature, the verdict on an echo, and the distance that an
//! echo stands for.

use vstd::prelude::*;
use super::Measurement;

verus! {

/// Measuring unit.
#[derive(Debug, PartialEq, Eq, Structural, Clone, Copy)]
pub enum Unit {
    Millimeters,
    Centimeters,
    Decimeters,
    Meters,
}

#[derive(Debug, PartialEq, Eq, Structural, Clone, Copy)]
pub enum MeasurementError {
    EchoError,
    TrigError,
    NoEcho,
    MissedEcho,
}

/// Speed of sound at 0 °C in hundredths of a millimetre per second.
pub const SOUND_SPEED_0C: i64 = 33130000;

/// Gain of the speed of sound per degree, in millimetres per second, and so
/// per hundredth of a degree in hundredths of a millimetre per second.
pub const SOUND_SPEED_INC_OVER_TEMP: i64 = 606;

/// Reach of the sensor in millimetres.
pub const MAX_RANGE: u64 = 4000;

/// Milliseconds to wait for the echo to begin.
pub const ECHO_START_LIMIT: u64 = 10;

/// Whole milliseconds that an echo may last.
pub const ECHO_LENGTH_LIMIT: u64 = 1;

/// Ambient temperature taken where none is given: 20 °C.
pub const DEFAULT_TEMPERATURE: i32 = 2000;

/// The speed of sound in millimetres per second at a temperature given in
/// hundredths of a degree Celsius.
pub open spec fn sound_speed_of(temp: int) -> int {
    (33130000 + 606 * temp) / 100
}

/// The time in microseconds that sound needs to the end of the reach and
/// back.
pub open spec fn timeout_of(speed: int) -> int {
    8000000000int / speed
}

/// The factor from micrometres to hundredths of a unit, as a divisor.
pub open spec fn unit_divisor(unit: Unit) -> int {
    match unit {
        Unit::Millimeters => 10,
        Unit::Centimeters => 100,
        Unit::Decimeters => 1000,
        Unit::Meters => 10000,
    }
}

/// The distance of an obstacle in micrometres: half the way that sound
/// covers while the echo lasts.
pub open spec fn distance_of(speed: int, echo_micros: int) -> int {
    speed * echo_micros / 2000
}

/// The ambient temperature that a calibration goes by, in hundredths of a
/// degree: the one given, or 20 °C.
pub open spec fn ambient(temp: Option<Measurement>) -> int {
    match temp {
        Some(t) => t.hundredths as int,
        None => 2000,
    }
}

/// Whether the formula leaves sound a speed at this temperature.
fn has_speed(temp: Measurement) -> (r: bool)
    ensures
        r == (sound_speed_of(temp.hundredths as int) > 0),
{
    SOUND_SPEED_0C + SOUND_SPEED_INC_OVER_TEMP * (temp.hundredths as i64) >= 100
}

/// The calibrated sensor: the speed of sound in millimetres per second and
/// the time-out of an echo in microseconds.
#[derive(Debug, PartialEq, Eq, Structural, Clone, Copy)]
pub struct HcSr04 {
    pub sound_speed: u64,
    pub timeout: u64,
}

impl HcSr04 {
    /// The speed of sound and the time-out at an ambient temperature.
    fn calibration_calc(temp: Measurement) -> (r: (u64, u64))
        requires
            sound_speed_of(temp.hundredths as int) > 0,
        ensures
            r.0 == sound_speed_of(temp.hundredths as int),
            r.1 == timeout_of(r.0 as int),
    {
        let speed: i64 = (SOUND_SPEED_0C + SOUND_SPEED_INC_OVER_TEMP * (temp.hundredths as i64))
            / 100;
        ((speed as u64), 2 * MAX_RANGE * 1000000 / (speed as u64))
    }

    /// The sensor calibrated for an ambient temperature, for 20 °C where
    /// none is given. There is none for a temperature at which the formula
    /// leaves sound no speed.
    pub fn new(temp: Option<Measurement>) -> (r: Option<Self>)
        ensures
            r is Some <==> sound_speed_of(ambient(temp)) > 0,
            r is Some ==> r.unwrap().sound_speed == sound_speed_of(ambient(temp))
                && r.unwrap().timeout == timeout_of(sound_speed_of(ambient(temp))),
    {
        let t = match temp {
            Some(t) => t,
            None => Measurement { hundredths: DEFAULT_TEMPERATURE },
        };
        if !has_speed(t) {
            return None;
        }
        let (sound_speed, timeout) = Self::calibration_calc(t);
        Some(HcSr04 { sound_speed, timeout })
    }

    /// Calibrates the sensor for another ambient temperature and answers
    /// `true`. For a temperature at which the formula leaves sound no speed
    /// the sensor stays as it is and the answer is `false`.
    pub fn calibrate(&mut self, temp: Measurement) -> (r: bool)
        ensures
            r == (sound_speed_of(temp.hundredths as int) > 0),
            r ==> final(self).sound_speed == sound_speed_of(temp.hundredths as int)
                && final(self).timeout == timeout_of(sound_speed_of(temp.hundredths as int)),
            !r ==> *final(self) == *old(self),
    {
        if !has_speed(temp) {
            return false;
        }
        let (sound_speed, timeout) = Self::calibration_calc(temp);
        self.sound_speed = sound_speed;
        self.timeout = timeout;
        true
    }

    /// The distance that an echo stands for, in hundredths of the unit.
    ///
    /// `silence` is the time in milliseconds until the echo began, or until
    /// the wait was given up; `started` says which. `echo_micros` is the
    /// length of the echo in microseconds, and `ended` whether its end was
    /// seen. An echo that does not begin within 10 ms is no echo. The length
    /// of an echo is judged in whole milliseconds: one whose end was not
    /// seen, or that lasts 2 ms or longer, was missed.
    pub fn measure_distance(
        &self,
        unit: Unit,
        started: bool,
        silence: u64,
        ended: bool,
        echo_micros: u64,
    ) -> (r: Result<Option<u64>, MeasurementError>)
        ensures
            r == if !started || silence > ECHO_START_LIMIT {
                Err::<Option<u64>, MeasurementError>(MeasurementError::NoEcho)
            } else if !ended || echo_micros / 1000 > ECHO_LENGTH_LIMIT {
                Err(MeasurementError::MissedEcho)
            } else {
                Ok(
                    Some(
                        (distance_of(self.sound_speed as int, echo_micros as int) / unit_divisor(
                            unit,
                        )) as u64,
                    ),
                )
            },
    {
        if !started || silence > ECHO_START_LIMIT {
            return Err(MeasurementError::NoEcho);
        }
        if !ended || echo_micros / 1000 > ECHO_LENGTH_LIMIT {
            return Err(MeasurementError::MissedEcho);
        }
        assert(self.sound_speed * echo_micros <= 0xffff_ffff_ffff_ffff * 2000) by (nonlinear_arith)
            requires
                echo_micros < 2000,
                self.sound_speed <= 0xffff_ffff_ffff_ffff,
        ;
        let micrometres: u64 = ((self.sound_speed as u128) * (echo_micros as u128) / 2000) as u64;
        let divisor: u64 = match unit {
            Unit::Millimeters => 10,
            Unit::Centimeters => 100,
            Unit::Decimeters => 1000,
            Unit::Meters => 10000,
        };
        Ok(Some(micrometres / divisor))
    }
}

} // verus!
