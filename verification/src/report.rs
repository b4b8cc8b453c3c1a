//! What the station sends out: the JSON report of its sensors, the daily
//! message, and the body and header of the webhook request.

use vstd::prelude::*;
use vstd::string::StringExecFns;
use crate::decimal::{number_string, number_text, rounded_string, rounded_text};
use crate::json::{
    json_model, json_text, member, models, object_insert, object_new, value_array, value_text,
    JsonModel,
};
use crate::sensor::bme280::{
    humidity_band, pressure_band, quantity_of, temp_band, Bme280HumiditySensor,
    Bme280PressureSensor, Bme280TempSensor,
};
use crate::sensor::soil::{
    band_of, mean_of, moisture_of, soil_label, status_of, MoistureError, SoilMoisture,
};
use crate::sensor::{reading_json, reading_model, Measurement, StatusLabel};

verus! {

/// One reading of one sensor: what it is called, its unit, and the value
/// and the status as far as the sensor gave them.
pub struct SensorReading {
    pub name: String,
    pub unit: String,
    pub value: Option<Measurement>,
    pub status: Option<String>,
}

impl SensorReading {
    /// The entry of the reading in a report.
    pub open spec fn entry(&self) -> JsonModel {
        reading_model(
            self.name@,
            self.unit@,
            self.value,
            match self.status {
                Some(s) => Some(s@),
                None => None,
            },
        )
    }

    /// A reading is valid when it has both a value and a status.
    pub fn valid(&self) -> (r: bool)
        ensures
            r == (self.value is Some && self.status is Some),
    {
        self.value.is_some() && self.status.is_some()
    }

    /// The entry of the reading in a report.
    pub fn to_json(&self) -> (r: serde_json::Value)
        ensures
            json_model(r) == self.entry(),
    {
        match &self.status {
            Some(s) => reading_json(
                self.name.as_str(),
                self.unit.as_str(),
                self.value,
                Some(s.as_str()),
            ),
            None => reading_json(self.name.as_str(), self.unit.as_str(), self.value, None),
        }
    }
}

/// The reading of a quantity by content: with a value it has the text of
/// the value's band as its status, without one it has neither.
pub open spec fn reading_of(
    name: Seq<char>,
    unit: Seq<char>,
    value: Option<Measurement>,
    label: Seq<char>,
) -> (Seq<char>, Seq<char>, Option<Measurement>, Option<Seq<char>>) {
    (
        name,
        unit,
        value,
        if value is Some {
            Some(label)
        } else {
            None
        },
    )
}

impl SensorReading {
    /// The reading by content: name, unit, value and status.
    pub open spec fn content(&self) -> (
        Seq<char>,
        Seq<char>,
        Option<Measurement>,
        Option<Seq<char>>,
    ) {
        (
            self.name@,
            self.unit@,
            self.value,
            match self.status {
                Some(s) => Some(s@),
                None => None,
            },
        )
    }
}

/// The value of a quantity, if it has one.
pub open spec fn value_of<E>(quantity: Result<Measurement, E>) -> Option<Measurement> {
    match quantity {
        Ok(m) => Some(m),
        Err(_) => None,
    }
}

/// The readings of the barometric sensor: temperature, humidity and
/// pressure, each with its value and status or without both.
pub fn bme280_measurment_vec(
    temp_sensor: &Bme280TempSensor,
    hum_sensor: &Bme280HumiditySensor,
    pressure_sensor: &Bme280PressureSensor,
) -> (r: Vec<SensorReading>)
    ensures
        r.len() == 3,
        r@[0].content() == ({
            let v = value_of(quantity_of(temp_sensor.connected, temp_sensor.latest));
            reading_of(
                "temperature"@,
                "°C"@,
                v,
                temp_band(v->0).label_spec(),
            )
        }),
        r@[1].content() == ({
            let v = value_of(quantity_of(hum_sensor.connected, hum_sensor.latest));
            reading_of(
                "humidity"@,
                "%"@,
                v,
                humidity_band(v->0).label_spec(),
            )
        }),
        r@[2].content() == ({
            let v = value_of(quantity_of(pressure_sensor.connected, pressure_sensor.latest));
            reading_of(
                "pressure"@,
                "hPa"@,
                v,
                pressure_band(v->0).label_spec(),
            )
        }),
{
    let mut out: Vec<SensorReading> = Vec::new();
    let temp = match temp_sensor.status() {
        Ok(s) => (temp_sensor.temperature().ok(), Some(s.label())),
        Err(_) => (None, None),
    };
    out.push(
        SensorReading {
            name: "temperature".to_owned(),
            unit: "°C".to_owned(),
            value: temp.0,
            status: temp.1,
        },
    );
    let hum = match hum_sensor.status() {
        Ok(s) => (hum_sensor.humidity().ok(), Some(s.label())),
        Err(_) => (None, None),
    };
    out.push(
        SensorReading {
            name: "humidity".to_owned(),
            unit: "%".to_owned(),
            value: hum.0,
            status: hum.1,
        },
    );
    let pressure = match pressure_sensor.status() {
        Ok(s) => (pressure_sensor.pressure().ok(), Some(s.label())),
        Err(_) => (None, None),
    };
    out.push(
        SensorReading {
            name: "pressure".to_owned(),
            unit: "hPa".to_owned(),
            value: pressure.0,
            status: pressure.1,
        },
    );
    out
}

/// The one reading of the soil probe.
pub fn soil_measurment_vec(soil_sensor: &SoilMoisture) -> (r: Vec<SensorReading>)
    ensures
        r.len() == 1,
        r@[0].content() == ({
            let v = value_of(soil_moisture_of(soil_sensor.readings()));
            reading_of(
                "soil-moisture"@,
                "%"@,
                v,
                soil_label(band_of(v->0)),
            )
        }),
{
    let mut out: Vec<SensorReading> = Vec::new();
    let soil = match soil_sensor.get_soil_status() {
        Some(s) => (soil_sensor.get_moisture_precentage().ok(), Some(s.label())),
        None => (None, None),
    };
    out.push(
        SensorReading {
            name: "soil-moisture".to_owned(),
            unit: "%".to_owned(),
            value: soil.0,
            status: soil.1,
        },
    );
    out
}

/// The entries of some readings, in their order.
pub open spec fn entries_of(readings: Seq<SensorReading>) -> Seq<JsonModel> {
    readings.map_values(|r: SensorReading| r.entry())
}

/// The report: an object whose one member `measurements` is the array of
/// the entries.
pub open spec fn report_model(entries: Seq<JsonModel>) -> JsonModel {
    JsonModel::Object(
        Map::<Seq<char>, JsonModel>::empty().insert("measurements"@, JsonModel::Array(entries)),
    )
}

/// Wraps the entries into a report.
pub fn report_json(entries: Vec<serde_json::Value>) -> (r: serde_json::Value)
    ensures
        json_model(r) == report_model(models(entries@)),
{
    let mut report = object_new();
    object_insert(&mut report, "measurements", value_array(entries));
    report
}

/// The report of some readings.
pub fn sensor_report(readings: &Vec<SensorReading>) -> (r: serde_json::Value)
    ensures
        json_model(r) == report_model(entries_of(readings@)),
{
    let mut entries: Vec<serde_json::Value> = Vec::new();
    let n = readings.len();
    let mut i: usize = 0;
    while i < n
        invariant
            n == readings.len(),
            i <= n,
            entries.len() == i,
            forall|k: int| 0 <= k < i ==> json_model(#[trigger] entries@[k]) == readings@[k].entry(),
        decreases n - i,
    {
        entries.push(readings[i].to_json());
        i = i + 1;
    }
    assert(models(entries@) =~= entries_of(readings@));
    report_json(entries)
}

/// The text of the report of some readings, as `serde_json` prints it.
pub fn sensor_report_text(readings: &Vec<SensorReading>) -> (r: String)
    ensures
        r@ == json_text(report_model(entries_of(readings@))),
{
    let report = sensor_report(readings);
    value_text(&report)
}

/// A report always has the member `measurements`, and it is the array of
/// its entries: also without any entry, and also where every entry is a
/// diagnostic one.
pub proof fn lemma_report_has_measurements(entries: Seq<JsonModel>)
    ensures
        report_model(entries) is Object,
        member(report_model(entries), "measurements"@) == Some(JsonModel::Array(entries)),
{
}

/// What the daily message says in place of a value that is missing.
pub open spec fn missing_text() -> Seq<char> {
    "Sensor not connected"@
}

/// The text of a reading in the daily message: one decimal, or the notice
/// that the sensor is missing.
pub open spec fn shown<E>(measurement: Result<Measurement, E>) -> Seq<char> {
    match measurement {
        Ok(m) => rounded_text(m.hundredths as int),
        Err(_) => missing_text(),
    }
}

/// The daily message. Line breaks are written out as a backslash and an
/// `n`, as the webhook wants them.
pub open spec fn message_text(
    soil: Seq<char>,
    soil_unit: Seq<char>,
    status: Seq<char>,
    temp: Seq<char>,
    temp_unit: Seq<char>,
    hum: Seq<char>,
    hum_unit: Seq<char>,
) -> Seq<char> {
    "\\nGood morning! :sun_with_face:\\nHere is the daily report:\\n> Soil moisture: "@ + soil
        + soil_unit + "\\n> Soil moisture status: **"@ + status + "**\\n> Temperature: **"@ + temp
        + temp_unit + "**\\n> Humidity: **"@ + hum + hum_unit + "**\\n"@
}

/// Puts the daily message together from its texts.
pub fn compose_message(
    soil: &str,
    soil_unit: &str,
    status: &str,
    temp: &str,
    temp_unit: &str,
    hum: &str,
    hum_unit: &str,
) -> (r: String)
    ensures
        r@ == message_text(soil@, soil_unit@, status@, temp@, temp_unit@, hum@, hum_unit@),
{
    let mut out = String::new();
    out.append("\\nGood morning! :sun_with_face:\\nHere is the daily report:\\n> Soil moisture: ");
    out.append(soil);
    out.append(soil_unit);
    out.append("\\n> Soil moisture status: **");
    out.append(status);
    out.append("**\\n> Temperature: **");
    out.append(temp);
    out.append(temp_unit);
    out.append("**\\n> Humidity: **");
    out.append(hum);
    out.append(hum_unit);
    out.append("**\\n");
    assert(out@ =~= message_text(
        soil@,
        soil_unit@,
        status@,
        temp@,
        temp_unit@,
        hum@,
        hum_unit@,
    ));
    out
}

fn show<E>(measurement: Result<Measurement, E>) -> (r: String)
    ensures
        r@ == shown(measurement),
{
    match measurement {
        Ok(m) => rounded_string(m.hundredths),
        Err(_) => "Sensor not connected".to_owned(),
    }
}

/// The moisture of a probe, from the outcomes of its latest poll.
pub open spec fn soil_moisture_of(readings: Seq<Result<u16, i32>>) -> Result<
    Measurement,
    MoistureError,
> {
    match mean_of(readings) {
        Ok(raw) => moisture_of(raw),
        Err(e) => Err(e),
    }
}

/// The status line of a probe in the daily message.
pub open spec fn soil_status_text(readings: Seq<Result<u16, i32>>) -> Seq<char> {
    match mean_of(readings) {
        Ok(raw) => match status_of(raw) {
            Some(s) => soil_label(s),
            None => missing_text(),
        },
        Err(_) => missing_text(),
    }
}

/// The daily message for the soil probe, the humidity and the temperature.
pub fn get_message(
    soil_sensor: &SoilMoisture,
    hum_sensor: &Bme280HumiditySensor,
    temp_sensor: &Bme280TempSensor,
) -> (r: String)
    ensures
        r@ == message_text(
            shown(soil_moisture_of(soil_sensor.readings())),
            "%"@,
            soil_status_text(soil_sensor.readings()),
            shown(quantity_of(temp_sensor.connected, temp_sensor.latest)),
            "°C"@,
            shown(quantity_of(hum_sensor.connected, hum_sensor.latest)),
            "%"@,
        ),
{
    let status = match soil_sensor.get_soil_status() {
        Some(s) => s.label(),
        None => "Sensor not connected".to_owned(),
    };
    let soil = show(soil_sensor.get_moisture_precentage());
    let hum = show(hum_sensor.humidity());
    let temp = show(temp_sensor.temperature());
    compose_message(
        soil.as_str(),
        "%",
        status.as_str(),
        temp.as_str(),
        "°C",
        hum.as_str(),
        "%",
    )
}

/// The body of the webhook request: the content between the fixed opening
/// and closing of a one-member JSON object.
pub open spec fn webhook_body_text(content: Seq<char>) -> Seq<char> {
    "{\"content\": \""@ + content + "\"}"@
}

/// The body of the webhook request for a message.
pub fn webhook_body(content: &str) -> (r: String)
    ensures
        r@ == webhook_body_text(content@),
{
    let mut out = String::new();
    out.append("{\"content\": \"");
    out.append(content);
    out.append("\"}");
    assert(out@ =~= webhook_body_text(content@));
    out
}

/// The value of the `content-length` header for a body of `len` bytes.
pub fn content_length(len: usize) -> (r: String)
    ensures
        r@ == number_text(len as nat),
{
    number_string(len as u64)
}

} // verus!
