//! What every sensor of the station has in common: a fixed-point reading,
//! a textual status, and the contract by which a sensor is asked.

use vstd::prelude::*;
use crate::decimal::{decimal_string, decimal_text};
use crate::json::{
    json_model, json_parse, member, object_insert, object_new, parse_value, value_null,
    value_string, JsonModel,
};

pub mod bme280;
pub mod hc_sr04;
pub mod soil;

verus! {

/// A reading in hundredths of its unit: 23.45 is held as 2345.
#[derive(Debug, PartialEq, Eq, Structural, Clone, Copy)]
pub struct Measurement {
    pub hundredths: i32,
}

/// A status that has a text.
pub trait StatusLabel {
    /// The text of the status.
    spec fn label_spec(&self) -> Seq<char>;

    /// The text of the status.
    fn label(&self) -> (r: String)
        ensures
            r@ == self.label_spec(),
    ;
}

/// A sensor: something with a name and a unit that can be asked for a
/// reading and for a status. Both questions may fail. What a sensor answers
/// is a matter of what it holds, and asking changes none of its answers.
pub trait Sensor: Sized {
    type Error;

    type Status: StatusLabel;

    /// The unit of the readings.
    spec fn unit_spec(&self) -> Seq<char>;

    /// The name of the sensor.
    spec fn name_spec(&self) -> Seq<char>;

    /// The reading that the sensor holds, or why it has none.
    spec fn measurement_spec(&self) -> Result<Measurement, Self::Error>;

    /// The status that the sensor holds, or why it has none.
    spec fn status_spec(&self) -> Result<Self::Status, Self::Error>;

    fn get_unit(&self) -> (r: &str)
        ensures
            r@ == self.unit_spec(),
    ;

    fn get_name(&self) -> (r: &str)
        ensures
            r@ == self.name_spec(),
    ;

    fn get_measurment(&mut self) -> (r: Result<Measurement, Self::Error>)
        ensures
            r == old(self).measurement_spec(),
            final(self).unit_spec() == old(self).unit_spec(),
            final(self).name_spec() == old(self).name_spec(),
            final(self).measurement_spec() == old(self).measurement_spec(),
            final(self).status_spec() == old(self).status_spec(),
    ;

    fn get_status(&mut self) -> (r: Result<Self::Status, Self::Error>)
        ensures
            r == old(self).status_spec(),
            final(self).unit_spec() == old(self).unit_spec(),
            final(self).name_spec() == old(self).name_spec(),
            final(self).measurement_spec() == old(self).measurement_spec(),
            final(self).status_spec() == old(self).status_spec(),
    ;
}

/// Two states of a sensor that give the same four answers.
pub open spec fn same_answers<S: Sensor>(a: &S, b: &S) -> bool {
    &&& a.unit_spec() == b.unit_spec()
    &&& a.name_spec() == b.name_spec()
    &&& a.measurement_spec() == b.measurement_spec()
    &&& a.status_spec() == b.status_spec()
}

/// The entry of a sensor in a report, from what it holds: its name and
/// unit, its reading if it has one, and the text of its status if it has
/// one.
pub open spec fn entry_of<S: Sensor>(sensor: &S) -> JsonModel {
    reading_model(
        sensor.name_spec(),
        sensor.unit_spec(),
        match sensor.measurement_spec() {
            Ok(m) => Some(m),
            Err(_) => None,
        },
        match sensor.status_spec() {
            Ok(status) => Some(status.label_spec()),
            Err(_) => None,
        },
    )
}

/// The status text of an entry that stands for a failed reading.
pub open spec fn not_connected() -> Seq<char> {
    "Not connected"@
}

/// The JSON number of a reading: what the parser makes of its decimal text,
/// and `null` should the parser refuse it.
pub open spec fn number_model(m: Measurement) -> JsonModel {
    match json_parse(decimal_text(m.hundredths as int)) {
        Some(v) => v,
        None => JsonModel::Null,
    }
}

/// The member `value` of an entry: the number of the reading, `null`
/// without one.
pub open spec fn value_model(measurement: Option<Measurement>) -> JsonModel {
    match measurement {
        Some(m) => number_model(m),
        None => JsonModel::Null,
    }
}

/// The entry of one sensor in a report. With a reading and a status it has
/// the members `type`, `value`, `status` and `unit`. Without either it is a
/// diagnostic entry: `type`, `value` (the reading if there is one, else
/// `null`) and the status `Not connected`.
pub open spec fn reading_model(
    name: Seq<char>,
    unit: Seq<char>,
    measurement: Option<Measurement>,
    status: Option<Seq<char>>,
) -> JsonModel {
    let base = Map::<Seq<char>, JsonModel>::empty().insert("type"@, JsonModel::Text(name)).insert(
        "value"@,
        value_model(measurement),
    );
    if measurement is Some && status is Some {
        JsonModel::Object(
            base.insert("status"@, JsonModel::Text(status->0)).insert(
                "unit"@,
                JsonModel::Text(unit),
            ),
        )
    } else {
        JsonModel::Object(base.insert("status"@, JsonModel::Text(not_connected())))
    }
}

/// The JSON number of a reading.
pub fn measurement_json(m: Measurement) -> (r: serde_json::Value)
    ensures
        json_model(r) == number_model(m),
{
    let text = decimal_string(m.hundredths);
    match parse_value(text.as_str()) {
        Ok(v) => v,
        Err(_) => value_null(),
    }
}

/// The entry of one sensor in a report, from what the sensor answered.
pub fn reading_json(
    name: &str,
    unit: &str,
    measurement: Option<Measurement>,
    status: Option<&str>,
) -> (r: serde_json::Value)
    ensures
        json_model(r) == reading_model(
            name@,
            unit@,
            measurement,
            match status {
                Some(s) => Some(s@),
                None => None,
            },
        ),
{
    let mut entry = object_new();
    object_insert(&mut entry, "type", value_string(name));
    match (measurement, status) {
        (Some(m), Some(s)) => {
            object_insert(&mut entry, "value", measurement_json(m));
            object_insert(&mut entry, "status", value_string(s));
            object_insert(&mut entry, "unit", value_string(unit));
        },
        (Some(m), None) => {
            object_insert(&mut entry, "value", measurement_json(m));
            object_insert(&mut entry, "status", value_string("Not connected"));
        },
        (None, _) => {
            object_insert(&mut entry, "value", value_null());
            object_insert(&mut entry, "status", value_string("Not connected"));
        },
    }
    entry
}

/// Whether a JSON value is the entry of some sensor.
pub open spec fn is_reading(m: JsonModel) -> bool {
    exists|name: Seq<char>, unit: Seq<char>, measurement: Option<Measurement>, status: Option<Seq<char>>|
        m == #[trigger] reading_model(name, unit, measurement, status)
}

/// Something that can answer with a JSON value.
pub trait MessageAble {
    /// The entry of the sensor in a report. Whatever the sensor answers,
    /// and also where it fails, there is an entry.
    fn to_json(&mut self) -> (r: serde_json::Value)
        ensures
            is_reading(json_model(r)),
    ;
}

impl<S: Sensor> MessageAble for S {
    /// The entry of the sensor: `entry_of` what it holds. Asking changes
    /// none of its answers.
    fn to_json(&mut self) -> (r: serde_json::Value)
        ensures
            json_model(r) == entry_of(old(self)),
            same_answers(final(self), old(self)),
    {
        let status = match self.get_status() {
            Ok(s) => Some(s.label()),
            Err(_) => None,
        };
        let measurement = match self.get_measurment() {
            Ok(m) => Some(m),
            Err(_) => None,
        };
        let name = self.get_name().to_owned();
        let unit = self.get_unit().to_owned();
        match status {
            Some(text) => reading_json(name.as_str(), unit.as_str(), measurement, Some(text.as_str())),
            None => reading_json(name.as_str(), unit.as_str(), measurement, None),
        }
    }
}

/// Every entry names its sensor, has a value and has a status; a
/// diagnostic entry has the status `Not connected`.
pub proof fn lemma_entry_members(
    name: Seq<char>,
    unit: Seq<char>,
    measurement: Option<Measurement>,
    status: Option<Seq<char>>,
)
    ensures
        member(reading_model(name, unit, measurement, status), "type"@) == Some(
            JsonModel::Text(name),
        ),
        member(reading_model(name, unit, measurement, status), "value"@) == Some(
            value_model(measurement),
        ),
        member(reading_model(name, unit, measurement, status), "status"@) == Some(
            JsonModel::Text(
                if measurement is Some && status is Some {
                    status->0
                } else {
                    not_connected()
                },
            ),
        ),
        member(reading_model(name, unit, measurement, status), "unit"@) == if measurement is Some
            && status is Some {
            Some(JsonModel::Text(unit))
        } else {
            None
        },
{
    reveal_strlit("type");
    reveal_strlit("value");
    reveal_strlit("status");
    reveal_strlit("unit");
    assert("type"@.len() == 4 && "value"@.len() == 5 && "status"@.len() == 6 && "unit"@.len() == 4);
    assert("type"@[0] != "unit"@[0]);
}

/// The entry of a sensor names the sensor, and a sensor that fails on its
/// reading or on its status has the status `Not connected` and no unit.
pub proof fn lemma_failing_sensor_is_not_connected<S: Sensor>(sensor: &S)
    requires
        sensor.measurement_spec() is Err || sensor.status_spec() is Err,
    ensures
        member(entry_of(sensor), "type"@) == Some(JsonModel::Text(sensor.name_spec())),
        member(entry_of(sensor), "status"@) == Some(JsonModel::Text(not_connected())),
        member(entry_of(sensor), "unit"@) is None,
{
    lemma_entry_members(
        sensor.name_spec(),
        sensor.unit_spec(),
        match sensor.measurement_spec() {
            Ok(m) => Some(m),
            Err(_) => None,
        },
        match sensor.status_spec() {
            Ok(status) => Some(status.label_spec()),
            Err(_) => None,
        },
    );
}

} // verus!
