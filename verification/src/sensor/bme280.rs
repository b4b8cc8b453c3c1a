//! The three quantities of the barometric sensor: temperature, humidity and
//! pressure, each read and classified on its own.

use vstd::prelude::*;
use super::{Measurement, Sensor, StatusLabel};

verus! {

/// Why a quantity gave no value.
#[derive(Debug, PartialEq, Eq, Structural, Clone, Copy)]
pub enum Bme280Error {
    /// The bus driver did not come up; the driver's error code.
    I2cDriver(i32),
    /// A transfer on the bus failed; the driver's error code.
    SensorInit(i32),
    /// There is no sensor, or it has no value for the quantity.
    SensorNotConnected,
}

/// What the bus handed back for one quantity: a value, nothing, or the
/// driver's error code.
#[derive(Debug, PartialEq, Eq, Structural, Clone, Copy)]
pub enum BusReading {
    Value(Measurement),
    Nothing,
    Failed(i32),
}

#[derive(Debug, PartialEq, Eq, Structural, Clone, Copy)]
pub enum TempStatus {
    Freezing,
    Cold,
    Optimal,
    Hot,
}

#[derive(Debug, PartialEq, Eq, Structural, Clone, Copy)]
pub enum HumidityStatus {
    Dry,
    Optimal,
    Moist,
    Wet,
}

#[derive(Debug, PartialEq, Eq, Structural, Clone, Copy)]
pub enum PressureStatus {
    Low,
    Optimal,
    High,
}

/// Freezing below 0 °C, cold below 18 °C, optimal below 25 °C, hot from
/// there on.
pub open spec fn temp_band(m: Measurement) -> TempStatus {
    if m.hundredths < 0 {
        TempStatus::Freezing
    } else if m.hundredths < 1800 {
        TempStatus::Cold
    } else if m.hundredths < 2500 {
        TempStatus::Optimal
    } else {
        TempStatus::Hot
    }
}

/// Dry below 30 %, optimal below 50 %, moist below 70 %, wet from there on.
pub open spec fn humidity_band(m: Measurement) -> HumidityStatus {
    if m.hundredths < 3000 {
        HumidityStatus::Dry
    } else if m.hundredths < 5000 {
        HumidityStatus::Optimal
    } else if m.hundredths < 7000 {
        HumidityStatus::Moist
    } else {
        HumidityStatus::Wet
    }
}

/// Low below 1000 hPa, optimal below 1013 hPa, high from there on.
pub open spec fn pressure_band(m: Measurement) -> PressureStatus {
    if m.hundredths < 100000 {
        PressureStatus::Low
    } else if m.hundredths < 101300 {
        PressureStatus::Optimal
    } else {
        PressureStatus::High
    }
}

/// The value of a quantity: none without a sensor, the bus failure if the
/// transfer failed, none if the sensor had nothing, else the value.
pub open spec fn quantity_of(connected: bool, latest: BusReading) -> Result<
    Measurement,
    Bme280Error,
> {
    if !connected {
        Err(Bme280Error::SensorNotConnected)
    } else {
        match latest {
            BusReading::Value(m) => Ok(m),
            BusReading::Nothing => Err(Bme280Error::SensorNotConnected),
            BusReading::Failed(code) => Err(Bme280Error::SensorInit(code)),
        }
    }
}

fn read_quantity(connected: bool, latest: BusReading) -> (r: Result<Measurement, Bme280Error>)
    ensures
        r == quantity_of(connected, latest),
{
    if !connected {
        return Err(Bme280Error::SensorNotConnected);
    }
    match latest {
        BusReading::Value(m) => Ok(m),
        BusReading::Nothing => Err(Bme280Error::SensorNotConnected),
        BusReading::Failed(code) => Err(Bme280Error::SensorInit(code)),
    }
}

impl TempStatus {
    /// The band of a temperature.
    pub fn of(m: Measurement) -> (r: TempStatus)
        ensures
            r == temp_band(m),
    {
        if m.hundredths < 0 {
            TempStatus::Freezing
        } else if m.hundredths < 1800 {
            TempStatus::Cold
        } else if m.hundredths < 2500 {
            TempStatus::Optimal
        } else {
            TempStatus::Hot
        }
    }
}

impl HumidityStatus {
    /// The band of a relative humidity.
    pub fn of(m: Measurement) -> (r: HumidityStatus)
        ensures
            r == humidity_band(m),
    {
        if m.hundredths < 3000 {
            HumidityStatus::Dry
        } else if m.hundredths < 5000 {
            HumidityStatus::Optimal
        } else if m.hundredths < 7000 {
            HumidityStatus::Moist
        } else {
            HumidityStatus::Wet
        }
    }
}

impl PressureStatus {
    /// The band of a pressure.
    pub fn of(m: Measurement) -> (r: PressureStatus)
        ensures
            r == pressure_band(m),
    {
        if m.hundredths < 100000 {
            PressureStatus::Low
        } else if m.hundredths < 101300 {
            PressureStatus::Optimal
        } else {
            PressureStatus::High
        }
    }
}

impl StatusLabel for TempStatus {
    open spec fn label_spec(&self) -> Seq<char> {
        match self {
            TempStatus::Freezing => "Freezing"@,
            TempStatus::Cold => "Cold"@,
            TempStatus::Optimal => "Optimal"@,
            TempStatus::Hot => "Hot"@,
        }
    }

    fn label(&self) -> (r: String) {
        match self {
            TempStatus::Freezing => "Freezing".to_owned(),
            TempStatus::Cold => "Cold".to_owned(),
            TempStatus::Optimal => "Optimal".to_owned(),
            TempStatus::Hot => "Hot".to_owned(),
        }
    }
}

impl StatusLabel for HumidityStatus {
    open spec fn label_spec(&self) -> Seq<char> {
        match self {
            HumidityStatus::Dry => "Dry"@,
            HumidityStatus::Optimal => "Optimal"@,
            HumidityStatus::Moist => "Moist"@,
            HumidityStatus::Wet => "Wet"@,
        }
    }

    fn label(&self) -> (r: String) {
        match self {
            HumidityStatus::Dry => "Dry".to_owned(),
            HumidityStatus::Optimal => "Optimal".to_owned(),
            HumidityStatus::Moist => "Moist".to_owned(),
            HumidityStatus::Wet => "Wet".to_owned(),
        }
    }
}

impl StatusLabel for PressureStatus {
    open spec fn label_spec(&self) -> Seq<char> {
        match self {
            PressureStatus::Low => "Low"@,
            PressureStatus::Optimal => "Optimal"@,
            PressureStatus::High => "High"@,
        }
    }

    fn label(&self) -> (r: String) {
        match self {
            PressureStatus::Low => "Low".to_owned(),
            PressureStatus::Optimal => "Optimal".to_owned(),
            PressureStatus::High => "High".to_owned(),
        }
    }
}

/// The temperature of the sensor, with what the bus last handed back.
pub struct Bme280TempSensor {
    pub connected: bool,
    pub latest: BusReading,
}

/// The humidity of the sensor, with what the bus last handed back.
pub struct Bme280HumiditySensor {
    pub connected: bool,
    pub latest: BusReading,
}

/// The pressure of the sensor, with what the bus last handed back.
pub struct Bme280PressureSensor {
    pub connected: bool,
    pub latest: BusReading,
}

impl Default for Bme280TempSensor {
    fn default() -> (r: Self)
        ensures
            !r.connected,
            r.latest == BusReading::Nothing,
    {
        Bme280TempSensor { connected: false, latest: BusReading::Nothing }
    }
}

impl Default for Bme280HumiditySensor {
    fn default() -> (r: Self)
        ensures
            !r.connected,
            r.latest == BusReading::Nothing,
    {
        Bme280HumiditySensor { connected: false, latest: BusReading::Nothing }
    }
}

impl Default for Bme280PressureSensor {
    fn default() -> (r: Self)
        ensures
            !r.connected,
            r.latest == BusReading::Nothing,
    {
        Bme280PressureSensor { connected: false, latest: BusReading::Nothing }
    }
}

impl Bme280TempSensor {
    /// Takes in what the bus handed back.
    pub fn record(&mut self, reading: BusReading)
        ensures
            final(self).connected == old(self).connected,
            final(self).latest == reading,
    {
        self.latest = reading;
    }

    /// The temperature in hundredths of a degree Celsius.
    pub fn temperature(&self) -> (r: Result<Measurement, Bme280Error>)
        ensures
            r == quantity_of(self.connected, self.latest),
    {
        read_quantity(self.connected, self.latest)
    }

    /// The band of the temperature, or why there is none.
    pub fn status(&self) -> (r: Result<TempStatus, Bme280Error>)
        ensures
            r == match quantity_of(self.connected, self.latest) {
                Ok(m) => Ok(temp_band(m)),
                Err(e) => Err(e),
            },
    {
        match self.temperature() {
            Ok(m) => Ok(TempStatus::of(m)),
            Err(e) => Err(e),
        }
    }
}

impl Bme280HumiditySensor {
    /// Takes in what the bus handed back.
    pub fn record(&mut self, reading: BusReading)
        ensures
            final(self).connected == old(self).connected,
            final(self).latest == reading,
    {
        self.latest = reading;
    }

    /// The relative humidity in hundredths of a percent.
    pub fn humidity(&self) -> (r: Result<Measurement, Bme280Error>)
        ensures
            r == quantity_of(self.connected, self.latest),
    {
        read_quantity(self.connected, self.latest)
    }

    /// The band of the humidity, or why there is none.
    pub fn status(&self) -> (r: Result<HumidityStatus, Bme280Error>)
        ensures
            r == match quantity_of(self.connected, self.latest) {
                Ok(m) => Ok(humidity_band(m)),
                Err(e) => Err(e),
            },
    {
        match self.humidity() {
            Ok(m) => Ok(HumidityStatus::of(m)),
            Err(e) => Err(e),
        }
    }
}

impl Bme280PressureSensor {
    /// Takes in what the bus handed back.
    pub fn record(&mut self, reading: BusReading)
        ensures
            final(self).connected == old(self).connected,
            final(self).latest == reading,
    {
        self.latest = reading;
    }

    /// The pressure in hundredths of a hectopascal.
    pub fn pressure(&self) -> (r: Result<Measurement, Bme280Error>)
        ensures
            r == quantity_of(self.connected, self.latest),
    {
        read_quantity(self.connected, self.latest)
    }

    /// The band of the pressure, or why there is none.
    pub fn status(&self) -> (r: Result<PressureStatus, Bme280Error>)
        ensures
            r == match quantity_of(self.connected, self.latest) {
                Ok(m) => Ok(pressure_band(m)),
                Err(e) => Err(e),
            },
    {
        match self.pressure() {
            Ok(m) => Ok(PressureStatus::of(m)),
            Err(e) => Err(e),
        }
    }
}

impl Sensor for Bme280TempSensor {
    type Error = Bme280Error;

    type Status = TempStatus;

    open spec fn unit_spec(&self) -> Seq<char> {
        "°C"@
    }

    open spec fn name_spec(&self) -> Seq<char> {
        "temperature"@
    }

    open spec fn measurement_spec(&self) -> Result<Measurement, Bme280Error> {
        quantity_of(self.connected, self.latest)
    }

    open spec fn status_spec(&self) -> Result<TempStatus, Bme280Error> {
        match quantity_of(self.connected, self.latest) {
            Ok(m) => Ok(temp_band(m)),
            Err(e) => Err(e),
        }
    }

    fn get_unit(&self) -> (r: &str) {
        "°C"
    }

    fn get_name(&self) -> (r: &str) {
        "temperature"
    }

    fn get_measurment(&mut self) -> (r: Result<Measurement, Bme280Error>)
        ensures
            *final(self) == *old(self),
    {
        self.temperature()
    }

    fn get_status(&mut self) -> (r: Result<TempStatus, Bme280Error>)
        ensures
            *final(self) == *old(self),
    {
        self.status()
    }
}

impl Sensor for Bme280HumiditySensor {
    type Error = Bme280Error;

    type Status = HumidityStatus;

    open spec fn unit_spec(&self) -> Seq<char> {
        "%"@
    }

    open spec fn name_spec(&self) -> Seq<char> {
        "humidity"@
    }

    open spec fn measurement_spec(&self) -> Result<Measurement, Bme280Error> {
        quantity_of(self.connected, self.latest)
    }

    open spec fn status_spec(&self) -> Result<HumidityStatus, Bme280Error> {
        match quantity_of(self.connected, self.latest) {
            Ok(m) => Ok(humidity_band(m)),
            Err(e) => Err(e),
        }
    }

    fn get_unit(&self) -> (r: &str) {
        "%"
    }

    fn get_name(&self) -> (r: &str) {
        "humidity"
    }

    fn get_measurment(&mut self) -> (r: Result<Measurement, Bme280Error>)
        ensures
            *final(self) == *old(self),
    {
        self.humidity()
    }

    fn get_status(&mut self) -> (r: Result<HumidityStatus, Bme280Error>)
        ensures
            *final(self) == *old(self),
    {
        self.status()
    }
}

impl Sensor for Bme280PressureSensor {
    type Error = Bme280Error;

    type Status = PressureStatus;

    open spec fn unit_spec(&self) -> Seq<char> {
        "hPa"@
    }

    open spec fn name_spec(&self) -> Seq<char> {
        "pressure"@
    }

    open spec fn measurement_spec(&self) -> Result<Measurement, Bme280Error> {
        quantity_of(self.connected, self.latest)
    }

    open spec fn status_spec(&self) -> Result<PressureStatus, Bme280Error> {
        match quantity_of(self.connected, self.latest) {
            Ok(m) => Ok(pressure_band(m)),
            Err(e) => Err(e),
        }
    }

    fn get_unit(&self) -> (r: &str) {
        "hPa"
    }

    fn get_name(&self) -> (r: &str) {
        "pressure"
    }

    fn get_measurment(&mut self) -> (r: Result<Measurement, Bme280Error>)
        ensures
            *final(self) == *old(self),
    {
        self.pressure()
    }

    fn get_status(&mut self) -> (r: Result<PressureStatus, Bme280Error>)
        ensures
            *final(self) == *old(self),
    {
        self.status()
    }
}

/// The three quantities of one sensor: all connected where the driver came
/// up, all without a sensor where it did not. None has a value yet.
pub fn get_bme280_sensors(driver: Result<(), Bme280Error>) -> (r: (
    Bme280TempSensor,
    Bme280HumiditySensor,
    Bme280PressureSensor,
))
    ensures
        r.0.connected == driver.is_ok(),
        r.1.connected == driver.is_ok(),
        r.2.connected == driver.is_ok(),
        r.0.latest == BusReading::Nothing,
        r.1.latest == BusReading::Nothing,
        r.2.latest == BusReading::Nothing,
{
    let connected = driver.is_ok();
    (
        Bme280TempSensor { connected, latest: BusReading::Nothing },
        Bme280HumiditySensor { connected, latest: BusReading::Nothing },
        Bme280PressureSensor { connected, latest: BusReading::Nothing },
    )
}

} // verus!
