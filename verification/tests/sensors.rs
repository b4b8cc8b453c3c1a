use plant_station::relay::ota::{check_status, OtaError};
use plant_station::relay::router::{Channel, Route, Router};
use plant_station::relay::{
    action_for, error_reply, error_text, incoming, report_reply, topic_name, Action, Event, Topic,
};
use plant_station::command::{Command, SimplCommandError};
use plant_station::sensor::bme280::{
    get_bme280_sensors, Bme280Error, Bme280HumiditySensor, Bme280PressureSensor,
    Bme280TempSensor, BusReading, HumidityStatus, PressureStatus, TempStatus,
};
use plant_station::sensor::hc_sr04::{HcSr04, MeasurementError, Unit};
use plant_station::sensor::{Measurement, MessageAble, Sensor, StatusLabel};

fn m(hundredths: i32) -> Measurement {
    Measurement { hundredths }
}

#[test]
fn temperature_bands() {
    assert_eq!(TempStatus::of(m(-1)), TempStatus::Freezing);
    assert_eq!(TempStatus::of(m(i32::MIN)), TempStatus::Freezing);
    assert_eq!(TempStatus::of(m(0)), TempStatus::Cold);
    assert_eq!(TempStatus::of(m(1799)), TempStatus::Cold);
    assert_eq!(TempStatus::of(m(1800)), TempStatus::Optimal);
    assert_eq!(TempStatus::of(m(2499)), TempStatus::Optimal);
    assert_eq!(TempStatus::of(m(2500)), TempStatus::Hot);
    assert_eq!(TempStatus::of(m(i32::MAX)), TempStatus::Hot);
}

#[test]
fn humidity_bands() {
    assert_eq!(HumidityStatus::of(m(2999)), HumidityStatus::Dry);
    assert_eq!(HumidityStatus::of(m(3000)), HumidityStatus::Optimal);
    assert_eq!(HumidityStatus::of(m(4999)), HumidityStatus::Optimal);
    assert_eq!(HumidityStatus::of(m(5000)), HumidityStatus::Moist);
    assert_eq!(HumidityStatus::of(m(6999)), HumidityStatus::Moist);
    assert_eq!(HumidityStatus::of(m(7000)), HumidityStatus::Wet);
}

#[test]
fn pressure_bands() {
    assert_eq!(PressureStatus::of(m(99999)), PressureStatus::Low);
    assert_eq!(PressureStatus::of(m(100000)), PressureStatus::Optimal);
    assert_eq!(PressureStatus::of(m(101299)), PressureStatus::Optimal);
    assert_eq!(PressureStatus::of(m(101300)), PressureStatus::High);
}

#[test]
fn band_labels() {
    assert_eq!(TempStatus::Freezing.label(), "Freezing");
    assert_eq!(TempStatus::Cold.label(), "Cold");
    assert_eq!(TempStatus::Optimal.label(), "Optimal");
    assert_eq!(TempStatus::Hot.label(), "Hot");
    assert_eq!(HumidityStatus::Dry.label(), "Dry");
    assert_eq!(HumidityStatus::Optimal.label(), "Optimal");
    assert_eq!(HumidityStatus::Moist.label(), "Moist");
    assert_eq!(HumidityStatus::Wet.label(), "Wet");
    assert_eq!(PressureStatus::Low.label(), "Low");
    assert_eq!(PressureStatus::Optimal.label(), "Optimal");
    assert_eq!(PressureStatus::High.label(), "High");
}

#[test]
fn sensors_without_a_driver_are_not_connected() {
    let (mut temp, mut hum, mut pressure) = get_bme280_sensors(Err(Bme280Error::SensorInit(4)));
    temp.record(BusReading::Value(m(2000)));
    assert_eq!(temp.temperature(), Err(Bme280Error::SensorNotConnected));
    assert_eq!(temp.status(), Err(Bme280Error::SensorNotConnected));
    assert_eq!(hum.get_measurment(), Err(Bme280Error::SensorNotConnected));
    assert_eq!(pressure.get_status(), Err(Bme280Error::SensorNotConnected));
    assert!(!Bme280TempSensor::default().connected);
    assert!(!Bme280HumiditySensor::default().connected);
    assert!(!Bme280PressureSensor::default().connected);
}

#[test]
fn each_quantity_is_read_on_its_own() {
    let (mut temp, mut hum, mut pressure) = get_bme280_sensors(Ok(()));
    assert_eq!(temp.temperature(), Err(Bme280Error::SensorNotConnected));
    temp.record(BusReading::Value(m(2100)));
    hum.record(BusReading::Failed(-9));
    pressure.record(BusReading::Nothing);
    assert_eq!(temp.temperature(), Ok(m(2100)));
    assert_eq!(temp.status(), Ok(TempStatus::Optimal));
    assert_eq!(hum.humidity(), Err(Bme280Error::SensorInit(-9)));
    assert_eq!(hum.status(), Err(Bme280Error::SensorInit(-9)));
    assert_eq!(pressure.pressure(), Err(Bme280Error::SensorNotConnected));
    pressure.record(BusReading::Value(m(101325)));
    assert_eq!(pressure.status(), Ok(PressureStatus::High));
    hum.record(BusReading::Value(m(4500)));
    assert_eq!(hum.status(), Ok(HumidityStatus::Optimal));
}

#[test]
fn quantities_have_names_and_units() {
    let (temp, hum, pressure) = get_bme280_sensors(Ok(()));
    assert_eq!((temp.get_name(), temp.get_unit()), ("temperature", "°C"));
    assert_eq!((hum.get_name(), hum.get_unit()), ("humidity", "%"));
    assert_eq!((pressure.get_name(), pressure.get_unit()), ("pressure", "hPa"));
}

#[test]
fn quantities_answer_with_entries() {
    let (mut temp, mut hum, _pressure) = get_bme280_sensors(Ok(()));
    temp.record(BusReading::Value(m(-250)));
    assert_eq!(
        temp.to_json().to_string(),
        "{\"status\":\"Freezing\",\"type\":\"temperature\",\"unit\":\"°C\",\"value\":-2.5}"
    );
    assert_eq!(
        hum.to_json().to_string(),
        "{\"status\":\"Not connected\",\"type\":\"humidity\",\"value\":null}"
    );
}

#[test]
fn range_finder_is_calibrated_by_temperature() {
    let sensor = HcSr04::new(None).unwrap();
    assert_eq!(sensor.sound_speed, 343420);
    assert_eq!(sensor.timeout, 23295);
    let cold = HcSr04::new(Some(m(0))).unwrap();
    assert_eq!(cold.sound_speed, 331300);
    assert_eq!(cold.timeout, 24147);
    let mut other = HcSr04::new(Some(m(-1000))).unwrap();
    assert_eq!(other.sound_speed, 325240);
    assert!(other.calibrate(m(2000)));
    assert_eq!(other, sensor);
}

#[test]
fn range_finder_has_no_calibration_where_sound_has_no_speed() {
    assert!(HcSr04::new(Some(m(-54669))).is_some());
    assert_eq!(HcSr04::new(Some(m(-54669))).unwrap().sound_speed, 5);
    assert_eq!(HcSr04::new(Some(m(-54669))).unwrap().timeout, 1_600_000_000);
    assert!(HcSr04::new(Some(m(-54670))).is_none());
    assert!(HcSr04::new(Some(m(i32::MIN))).is_none());
    assert!(HcSr04::new(Some(m(i32::MAX))).is_some());
    let mut sensor = HcSr04::new(None).unwrap();
    let before = sensor;
    assert!(!sensor.calibrate(m(-54670)));
    assert_eq!(sensor, before);
    assert!(sensor.calibrate(m(-54669)));
    assert_eq!(sensor.sound_speed, 5);
}

#[test]
fn range_finder_turns_an_echo_into_a_distance() {
    let sensor = HcSr04::new(None).unwrap();
    assert_eq!(sensor.measure_distance(Unit::Millimeters, true, 0, true, 583), Ok(Some(10010)));
    assert_eq!(sensor.measure_distance(Unit::Centimeters, true, 0, true, 583), Ok(Some(1001)));
    assert_eq!(sensor.measure_distance(Unit::Decimeters, true, 0, true, 583), Ok(Some(100)));
    assert_eq!(sensor.measure_distance(Unit::Meters, true, 10, true, 583), Ok(Some(10)));
    assert_eq!(sensor.measure_distance(Unit::Meters, true, 0, true, 0), Ok(Some(0)));
}

#[test]
fn range_finder_gives_up_on_a_missing_echo() {
    let sensor = HcSr04::new(None).unwrap();
    assert_eq!(
        sensor.measure_distance(Unit::Meters, false, 11, false, 0),
        Err(MeasurementError::NoEcho)
    );
    assert_eq!(
        sensor.measure_distance(Unit::Meters, true, 11, true, 10),
        Err(MeasurementError::NoEcho)
    );
    assert_eq!(
        sensor.measure_distance(Unit::Meters, true, 1, false, 1001),
        Err(MeasurementError::MissedEcho)
    );
    assert_eq!(
        sensor.measure_distance(Unit::Meters, true, 1, false, 10),
        Err(MeasurementError::MissedEcho)
    );
    assert_eq!(
        sensor.measure_distance(Unit::Meters, true, 1, true, 2000),
        Err(MeasurementError::MissedEcho)
    );
    assert_eq!(
        sensor.measure_distance(Unit::Meters, true, 1, true, u64::MAX),
        Err(MeasurementError::MissedEcho)
    );
}

#[test]
fn range_finder_judges_the_length_of_an_echo_in_whole_milliseconds() {
    let sensor = HcSr04::new(None).unwrap();
    assert_eq!(sensor.measure_distance(Unit::Meters, true, 1, true, 1000), Ok(Some(17)));
    assert_eq!(sensor.measure_distance(Unit::Meters, true, 1, true, 1001), Ok(Some(17)));
    assert_eq!(sensor.measure_distance(Unit::Meters, true, 1, true, 1500), Ok(Some(25)));
    assert_eq!(sensor.measure_distance(Unit::Meters, true, 1, true, 1999), Ok(Some(34)));
    assert_eq!(
        sensor.measure_distance(Unit::Millimeters, true, 1, true, 1999),
        Ok(Some(34324))
    );
    assert_eq!(
        sensor.measure_distance(Unit::Meters, true, 1, true, 2000),
        Err(MeasurementError::MissedEcho)
    );
}

#[test]
fn events_travel_on_the_channel_of_their_kind() {
    let mut router = Router::new();
    let a = router.subscribe(Route::Commands).unwrap();
    let b = router.subscribe(Route::Errors).unwrap();
    let c = router.subscribe(Route::Commands).unwrap();
    let command = Event::Command(Command::ReadAll);
    let error = Event::Error(SimplCommandError::WrongCommand);
    assert_eq!(Router::route(command), Route::Commands);
    assert_eq!(Router::route(error), Route::Errors);
    assert_eq!(router.publish(command), vec![a, c]);
    assert_eq!(router.publish(error), vec![b]);
    assert!(!router.unsubscribe(Route::Errors, c));
    assert!(router.unsubscribe(Route::Commands, a));
    assert_eq!(router.publish(command), vec![c]);
    assert_eq!(router.publish(error), vec![b]);
    assert!(router.unsubscribe(Route::Errors, b));
    assert!(router.publish(error).is_empty());
}

#[test]
fn an_error_is_answered_on_the_topic_of_the_diagnostics() {
    assert_eq!(
        error_reply(SimplCommandError::InvalidValue),
        (Topic::Error, "Missing or wrong value".to_string())
    );
    assert_eq!(
        error_reply(SimplCommandError::JsonParseError),
        (Topic::Error, "Invalid Json".to_string())
    );
    assert_eq!(
        error_reply(SimplCommandError::ParseError),
        (Topic::Error, "Invalid encoding ( utf8 parsing failed )".to_string())
    );
    assert_eq!(
        error_reply(SimplCommandError::WrongCommand),
        (Topic::Error, "Unknown command".to_string())
    );
}

#[test]
fn a_sensor_without_a_driver_answers_with_a_diagnostic_entry() {
    let mut temp = Bme280TempSensor::default();
    let entry = temp.to_json();
    assert_eq!(entry.get("type").unwrap().as_str(), Some("temperature"));
    assert_eq!(entry.get("status").unwrap().as_str(), Some("Not connected"));
    assert!(entry.get("value").unwrap().is_null());
    assert!(entry.get("unit").is_none());
    let mut pressure = Bme280PressureSensor::default();
    assert_eq!(
        pressure.to_json().to_string(),
        "{\"status\":\"Not connected\",\"type\":\"pressure\",\"value\":null}"
    );
}

#[test]
fn update_status_must_be_in_the_two_hundreds() {
    assert_eq!(check_status(200), Ok(()));
    assert_eq!(check_status(204), Ok(()));
    assert_eq!(check_status(299), Ok(()));
    assert_eq!(check_status(199), Err(OtaError::BadResponse(199)));
    assert_eq!(check_status(300), Err(OtaError::BadResponse(300)));
    assert_eq!(check_status(404), Err(OtaError::BadResponse(404)));
    assert_eq!(check_status(0), Err(OtaError::BadResponse(0)));
}

#[test]
fn a_whole_message_becomes_one_event() {
    assert_eq!(
        incoming(true, "{\"name\":\"lamp\",\"value\":9}".as_bytes()),
        Some(Event::Command(Command::Lamp(9)))
    );
    assert_eq!(
        incoming(true, "{\"name\":\"lamp\",\"value\":900}".as_bytes()),
        Some(Event::Error(SimplCommandError::InvalidValue))
    );
    assert_eq!(
        incoming(true, "{\"name\":\"fly\"}".as_bytes()),
        Some(Event::Error(SimplCommandError::WrongCommand))
    );
    assert_eq!(incoming(true, b"{"), Some(Event::Error(SimplCommandError::JsonParseError)));
    assert_eq!(incoming(true, &[0x80]), Some(Event::Error(SimplCommandError::ParseError)));
}

#[test]
fn a_part_of_a_message_gives_no_event() {
    assert_eq!(incoming(false, "{\"name\":\"all\"}".as_bytes()), None);
    assert_eq!(incoming(false, &[0x80]), None);
}

#[test]
fn errors_have_their_diagnostic_texts() {
    assert_eq!(error_text(SimplCommandError::InvalidValue), "Missing or wrong value");
    assert_eq!(error_text(SimplCommandError::JsonParseError), "Invalid Json");
    assert_eq!(
        error_text(SimplCommandError::ParseError),
        "Invalid encoding ( utf8 parsing failed )"
    );
    assert_eq!(error_text(SimplCommandError::WrongCommand), "Unknown command");
}

#[test]
fn commands_have_their_actions() {
    assert_eq!(action_for(Command::Water(true)), Action::Water(true));
    assert_eq!(action_for(Command::Lamp(3)), Action::Lamp(3));
    assert_eq!(action_for(Command::ReadBarometer), Action::ReportBarometer);
    assert_eq!(action_for(Command::ReadSoilMoisture), Action::ReportSoilMoisture);
    assert_eq!(action_for(Command::ReadAll), Action::ReportAll);
}

#[test]
fn a_report_goes_out_as_a_message_and_its_absence_as_a_diagnostic() {
    assert_eq!(
        report_reply(Some("{}".to_string()), "soil moisture sensor is not connected"),
        (Topic::Message, "{}".to_string())
    );
    assert_eq!(
        report_reply(None, "soil moisture sensor is not connected"),
        (Topic::Error, "soil moisture sensor is not connected".to_string())
    );
    assert_eq!(topic_name(Topic::Message), "feeds/message");
    assert_eq!(topic_name(Topic::Error), "error/message");
}

#[test]
fn an_event_goes_to_every_subscriber_in_the_order_of_subscription() {
    let mut channel = Channel::new();
    assert!(channel.publish().is_empty());
    let a = channel.subscribe().unwrap();
    let b = channel.subscribe().unwrap();
    let c = channel.subscribe().unwrap();
    assert_eq!(channel.publish(), vec![a, b, c]);
    assert_eq!(channel.publish(), vec![a, b, c]);
}

#[test]
fn a_dropped_subscription_gets_nothing_more() {
    let mut channel = Channel::new();
    let a = channel.subscribe().unwrap();
    let b = channel.subscribe().unwrap();
    let c = channel.subscribe().unwrap();
    assert!(channel.unsubscribe(b));
    assert_eq!(channel.publish(), vec![a, c]);
    assert!(!channel.unsubscribe(b));
    assert_eq!(channel.publish(), vec![a, c]);
    let d = channel.subscribe().unwrap();
    assert!(d != a && d != b && d != c);
    assert_eq!(channel.publish(), vec![a, c, d]);
    assert!(channel.unsubscribe(a));
    assert!(channel.unsubscribe(c));
    assert!(channel.unsubscribe(d));
    assert!(channel.publish().is_empty());
}
