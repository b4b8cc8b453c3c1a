use plant_station::command::{
    decode_payload, Command, CommandError, CommandJson, JsonValue, MqttCommand, SimplCommandError,
};

fn doc(name: &str, value: Option<JsonValue>) -> CommandJson {
    CommandJson { name: name.to_string(), value }
}

#[test]
fn lamp_value_out_of_range_is_invalid() {
    let r = Command::from_str("{\"name\":\"lamp\",\"value\":300}");
    assert_eq!(r, Err(CommandError::InvalidValue(JsonValue::Unsigned(300))));
}

#[test]
fn water_true_is_a_command() {
    let r = Command::from_str("{\"name\":\"water\",\"value\":true}");
    assert_eq!(r, Ok(Command::Water(true)));
}

#[test]
fn text_that_is_no_json_is_malformed() {
    assert_eq!(Command::from_str("not json"), Err(CommandError::MalformedJson));
    assert_eq!(Command::from_str(""), Err(CommandError::MalformedJson));
    assert_eq!(Command::from_str("{\"name\":\"water\""), Err(CommandError::MalformedJson));
}

#[test]
fn json_that_is_no_command_document_is_malformed() {
    assert_eq!(Command::from_str("[\"water\", true]"), Err(CommandError::MalformedJson));
    assert_eq!(Command::from_str("{\"name\":5}"), Err(CommandError::MalformedJson));
    assert_eq!(Command::from_str("{\"value\":true}"), Err(CommandError::MalformedJson));
    assert_eq!(Command::from_str("7"), Err(CommandError::MalformedJson));
    assert_eq!(Command::from_str("null"), Err(CommandError::MalformedJson));
}

#[test]
fn every_command_survives_the_round_trip_through_text() {
    let all = [
        Command::Water(true),
        Command::Water(false),
        Command::Lamp(0),
        Command::Lamp(128),
        Command::Lamp(255),
        Command::ReadBarometer,
        Command::ReadSoilMoisture,
        Command::ReadAll,
    ];
    for c in all {
        assert_eq!(Command::from_str(&c.to_text()), Ok(c));
    }
}

#[test]
fn every_command_survives_the_round_trip_through_its_document() {
    let all = [
        Command::Water(true),
        Command::Water(false),
        Command::Lamp(17),
        Command::ReadBarometer,
        Command::ReadSoilMoisture,
        Command::ReadAll,
    ];
    for c in all {
        assert_eq!(Command::from_json(c.to_json()), Ok(c));
    }
}

#[test]
fn canonical_texts_are_exact() {
    assert_eq!(Command::Water(true).to_text(), "{\"name\":\"water\",\"value\":true}");
    assert_eq!(Command::Lamp(40).to_text(), "{\"name\":\"lamp\",\"value\":40}");
    assert_eq!(Command::ReadBarometer.to_text(), "{\"name\":\"read_barometer\"}");
    assert_eq!(Command::ReadSoilMoisture.to_text(), "{\"name\":\"read_soil_moisture\"}");
    assert_eq!(Command::ReadAll.to_text(), "{\"name\":\"all\"}");
}

#[test]
fn canonical_documents_are_exact() {
    assert_eq!(Command::Water(false).to_json(), doc("water", Some(JsonValue::Bool(false))));
    assert_eq!(Command::Lamp(9).to_json(), doc("lamp", Some(JsonValue::Unsigned(9))));
    assert_eq!(Command::ReadAll.to_json(), doc("all", None));
}

#[test]
fn unknown_name_is_a_wrong_command_and_carries_the_document() {
    let r = Command::from_str("{\"name\":\"dance\",\"value\":3}");
    assert_eq!(r, Err(CommandError::WrongCommand(doc("dance", Some(JsonValue::Unsigned(3))))));
    let r = Command::from_str("{\"name\":\"Water\",\"value\":true}");
    assert_eq!(r, Err(CommandError::WrongCommand(doc("Water", Some(JsonValue::Bool(true))))));
}

#[test]
fn missing_value_is_a_wrong_command() {
    assert_eq!(
        Command::from_str("{\"name\":\"water\"}"),
        Err(CommandError::WrongCommand(doc("water", None)))
    );
    assert_eq!(
        Command::from_str("{\"name\":\"lamp\"}"),
        Err(CommandError::WrongCommand(doc("lamp", None)))
    );
}

#[test]
fn a_null_value_is_invalid_not_missing() {
    assert_eq!(
        Command::from_str("{\"name\":\"lamp\",\"value\":null}"),
        Err(CommandError::InvalidValue(JsonValue::Null))
    );
    assert_eq!(
        Command::from_str("{\"name\":\"water\",\"value\":null}"),
        Err(CommandError::InvalidValue(JsonValue::Null))
    );
    assert_eq!(
        MqttCommand::from_str("{\"name\":\"water\",\"value\":null}"),
        Err(CommandError::InvalidValue(JsonValue::Null))
    );
    assert_eq!(
        MqttCommand::from_str("{\"name\":\"lamp\",\"value\":null}"),
        Err(CommandError::InvalidValue(JsonValue::Null))
    );
    assert_eq!(
        Command::from_json(doc("water", Some(JsonValue::Null))),
        Err(CommandError::InvalidValue(JsonValue::Null))
    );
    assert_eq!(
        Command::from_str("{\"name\":\"read_barometer\",\"value\":null}"),
        Ok(Command::ReadBarometer)
    );
    assert_eq!(
        Command::from_str("{\"name\":\"dance\",\"value\":null}"),
        Err(CommandError::WrongCommand(doc("dance", Some(JsonValue::Null))))
    );
}

#[test]
fn errors_say_what_they_are() {
    assert_eq!(
        CommandError::WrongCommand(doc("dance", None)).message(),
        "Command is not recognized"
    );
    assert_eq!(
        CommandError::InvalidValue(JsonValue::Unsigned(300)).message(),
        "Command Value is invalid: 300"
    );
    assert_eq!(
        CommandError::InvalidValue(JsonValue::Bool(true)).message(),
        "Command Value is invalid: true"
    );
    assert_eq!(
        CommandError::InvalidValue(JsonValue::Bool(false)).message(),
        "Command Value is invalid: false"
    );
    assert_eq!(
        CommandError::InvalidValue(JsonValue::Null).message(),
        "Command Value is invalid: null"
    );
    assert_eq!(
        CommandError::InvalidValue(JsonValue::Other("\"yes\"".to_string())).message(),
        "Command Value is invalid: \"yes\""
    );
    assert_eq!(CommandError::MalformedJson.message(), "Command is not valid JSON");
    assert_eq!(CommandError::InvalidEncoding.message(), "Message is not valid UTF8");
    let e = Command::from_str("{\"name\":\"lamp\",\"value\":[1,{\"a\":null}]}").unwrap_err();
    assert_eq!(e.message(), "Command Value is invalid: [1,{\"a\":null}]");
}

#[test]
fn values_have_their_json_text() {
    assert_eq!(JsonValue::Null.text(), "null");
    assert_eq!(JsonValue::Bool(true).text(), "true");
    assert_eq!(JsonValue::Unsigned(0).text(), "0");
    assert_eq!(JsonValue::Unsigned(u64::MAX).text(), "18446744073709551615");
    assert_eq!(JsonValue::Other("1.5".to_string()).text(), "1.5");
}

#[test]
fn value_of_the_wrong_type_is_invalid_and_is_carried_along() {
    assert_eq!(
        Command::from_str("{\"name\":\"water\",\"value\":\"yes\"}"),
        Err(CommandError::InvalidValue(JsonValue::Other("\"yes\"".to_string())))
    );
    assert_eq!(
        Command::from_str("{\"name\":\"water\",\"value\":1}"),
        Err(CommandError::InvalidValue(JsonValue::Unsigned(1)))
    );
    assert_eq!(
        Command::from_str("{\"name\":\"lamp\",\"value\":true}"),
        Err(CommandError::InvalidValue(JsonValue::Bool(true)))
    );
    assert_eq!(
        Command::from_str("{\"name\":\"lamp\",\"value\":-1}"),
        Err(CommandError::InvalidValue(JsonValue::Other("-1".to_string())))
    );
    assert_eq!(
        Command::from_str("{\"name\":\"lamp\",\"value\":1.5}"),
        Err(CommandError::InvalidValue(JsonValue::Other("1.5".to_string())))
    );
    assert_eq!(
        Command::from_str("{\"name\":\"lamp\",\"value\":[1,2]}"),
        Err(CommandError::InvalidValue(JsonValue::Other("[1,2]".to_string())))
    );
    assert_eq!(
        Command::from_str("{\"name\":\"lamp\",\"value\":256}"),
        Err(CommandError::InvalidValue(JsonValue::Unsigned(256)))
    );
}

#[test]
fn lamp_takes_the_whole_range_of_a_byte() {
    assert_eq!(Command::from_str("{\"name\":\"lamp\",\"value\":0}"), Ok(Command::Lamp(0)));
    assert_eq!(Command::from_str("{\"name\":\"lamp\",\"value\":255}"), Ok(Command::Lamp(255)));
}

#[test]
fn read_commands_need_no_value_and_ignore_one() {
    assert_eq!(Command::from_str("{\"name\":\"read_barometer\"}"), Ok(Command::ReadBarometer));
    assert_eq!(
        Command::from_str("{\"name\":\"read_soil_moisture\",\"value\":7}"),
        Ok(Command::ReadSoilMoisture)
    );
    assert_eq!(Command::from_str("{\"name\":\"all\",\"extra\":[]}"), Ok(Command::ReadAll));
}

#[test]
fn from_json_decides_on_plain_documents() {
    assert_eq!(
        Command::from_json(doc("water", Some(JsonValue::Bool(true)))),
        Ok(Command::Water(true))
    );
    assert_eq!(
        Command::from_json(doc("lamp", Some(JsonValue::Unsigned(300)))),
        Err(CommandError::InvalidValue(JsonValue::Unsigned(300)))
    );
    assert_eq!(
        Command::from_json(doc("lamp", Some(JsonValue::Other("\"x\"".to_string())))),
        Err(CommandError::InvalidValue(JsonValue::Other("\"x\"".to_string())))
    );
    assert_eq!(
        Command::from_json(doc("", None)),
        Err(CommandError::WrongCommand(doc("", None)))
    );
}

#[test]
fn bytes_that_are_not_utf8_are_an_encoding_error() {
    assert_eq!(decode_payload(&[0xff, 0xfe, 0x00]), Err(CommandError::InvalidEncoding));
    assert_eq!(decode_payload(&[0xc3]), Err(CommandError::InvalidEncoding));
}

#[test]
fn bytes_that_spell_a_command_decode_to_it() {
    assert_eq!(
        decode_payload("{\"name\":\"water\",\"value\":false}".as_bytes()),
        Ok(Command::Water(false))
    );
    assert_eq!(decode_payload("präzise".as_bytes()), Err(CommandError::MalformedJson));
}

#[test]
fn every_error_has_its_kind() {
    assert_eq!(
        SimplCommandError::from(CommandError::WrongCommand(doc("x", None))),
        SimplCommandError::WrongCommand
    );
    assert_eq!(
        SimplCommandError::from(CommandError::InvalidValue(JsonValue::Bool(true))),
        SimplCommandError::InvalidValue
    );
    assert_eq!(
        SimplCommandError::from(CommandError::MalformedJson),
        SimplCommandError::JsonParseError
    );
    assert_eq!(
        SimplCommandError::from(CommandError::InvalidEncoding),
        SimplCommandError::ParseError
    );
}

#[test]
fn first_protocol_knows_four_commands() {
    assert_eq!(
        MqttCommand::from_str("{\"name\":\"water\",\"value\":true}"),
        Ok(MqttCommand::Water(true))
    );
    assert_eq!(
        MqttCommand::from_str("{\"name\":\"lamp\",\"value\":12}"),
        Ok(MqttCommand::Lamp(12))
    );
    assert_eq!(
        MqttCommand::from_str("{\"name\":\"read_barometer\"}"),
        Ok(MqttCommand::ReadBarometer)
    );
    assert_eq!(
        MqttCommand::from_str("{\"name\":\"read_soil_moisture\"}"),
        Ok(MqttCommand::ReadSoilMoisture)
    );
    assert_eq!(
        MqttCommand::from_str("{\"name\":\"all\"}"),
        Err(CommandError::WrongCommand(doc("all", None)))
    );
    assert_eq!(
        MqttCommand::from_str("{\"name\":\"lamp\",\"value\":300}"),
        Err(CommandError::InvalidValue(JsonValue::Unsigned(300)))
    );
    assert_eq!(MqttCommand::from_str("not json"), Err(CommandError::MalformedJson));
}
