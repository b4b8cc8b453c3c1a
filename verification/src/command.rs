//! The command codec: from the text of a bus message to a typed command or a
//! typed error, and back to the canonical document of a command.

use vstd::prelude::*;
use vstd::utf8::{decode_utf8, valid_utf8};
use vstd::std_specs::convert::FromSpecImpl;
use crate::json::{
    json_model, json_parse, json_text, member, object_insert, object_new, parse_value,
    value_as_bool, value_as_str, value_as_u64, value_bool, value_get, value_is_null,
    value_string, value_text, value_unsigned, JsonModel, NumberModel,
};
use crate::decimal::{number_string, number_text};
use crate::text::{str_eq, str_from_utf8};
use vstd::string::StringExecFns;

verus! {

/// A command for the station.
#[derive(Debug, PartialEq, Eq, Structural, Clone, Copy)]
pub enum Command {
    Water(bool),
    Lamp(u8),
    ReadBarometer,
    ReadSoilMoisture,
    ReadAll,
}

/// The value that came with a command, as far as the codec reads it:
/// `null`, a boolean, a non-negative integer, or the compact JSON text of
/// anything else.
#[derive(Debug, Clone, PartialEq, Eq)]
pub enum JsonValue {
    Null,
    Bool(bool),
    Unsigned(u64),
    Other(String),
}

/// The mathematical content of a `JsonValue`.
pub enum ValueView {
    Null,
    Bool(bool),
    Unsigned(u64),
    Other(Seq<char>),
}

impl View for JsonValue {
    type V = ValueView;

    open spec fn view(&self) -> ValueView {
        match self {
            JsonValue::Null => ValueView::Null,
            JsonValue::Bool(b) => ValueView::Bool(*b),
            JsonValue::Unsigned(n) => ValueView::Unsigned(*n),
            JsonValue::Other(s) => ValueView::Other(s@),
        }
    }
}

/// The document of a command: its name and the value that came with it.
#[derive(Debug, Clone, PartialEq, Eq)]
pub struct CommandJson {
    pub name: String,
    pub value: Option<JsonValue>,
}

/// The mathematical content of a `CommandJson`.
pub struct CommandJsonView {
    pub name: Seq<char>,
    pub value: Option<ValueView>,
}

impl View for CommandJson {
    type V = CommandJsonView;

    open spec fn view(&self) -> CommandJsonView {
        CommandJsonView {
            name: self.name@,
            value: match self.value {
                Some(v) => Some(v@),
                None => None,
            },
        }
    }
}

/// Why a message gave no command.
#[derive(Debug, Clone, PartialEq, Eq)]
pub enum CommandError {
    /// The name is unknown, or a command that needs a value came without one.
    WrongCommand(CommandJson),
    /// The value has the wrong type or is out of range; it is carried along.
    InvalidValue(JsonValue),
    /// The text is no JSON object with a textual `name`.
    MalformedJson,
    /// The bytes are not UTF-8.
    InvalidEncoding,
}

/// The mathematical content of a `CommandError`.
pub enum CommandErrorView {
    WrongCommand(CommandJsonView),
    InvalidValue(ValueView),
    MalformedJson,
    InvalidEncoding,
}

impl View for CommandError {
    type V = CommandErrorView;

    open spec fn view(&self) -> CommandErrorView {
        match self {
            CommandError::WrongCommand(j) => CommandErrorView::WrongCommand(j@),
            CommandError::InvalidValue(v) => CommandErrorView::InvalidValue(v@),
            CommandError::MalformedJson => CommandErrorView::MalformedJson,
            CommandError::InvalidEncoding => CommandErrorView::InvalidEncoding,
        }
    }
}

/// The kind of a `CommandError`, without what it carries: small enough to be
/// posted as an event.
#[derive(Debug, PartialEq, Eq, Structural, Clone, Copy)]
pub enum SimplCommandError {
    WrongCommand,
    InvalidValue,
    JsonParseError,
    ParseError,
}

/// The outcome of decoding, by content.
pub open spec fn outcome_view(r: Result<Command, CommandError>) -> Result<
    Command,
    CommandErrorView,
> {
    match r {
        Ok(c) => Ok(c),
        Err(e) => Err(e@),
    }
}

pub open spec fn water_name() -> Seq<char> {
    "water"@
}

pub open spec fn lamp_name() -> Seq<char> {
    "lamp"@
}

pub open spec fn barometer_name() -> Seq<char> {
    "read_barometer"@
}

pub open spec fn soil_name() -> Seq<char> {
    "read_soil_moisture"@
}

pub open spec fn all_name() -> Seq<char> {
    "all"@
}

/// The command that a document stands for, or the error it earns.
///
/// `water` needs a boolean and `lamp` an integer from 0 to 255; without any
/// value they are wrong commands, with another value, `null` too, the value
/// is invalid.
/// The three read commands ignore a value. Any other name is a wrong command.
pub open spec fn command_of(doc: CommandJsonView) -> Result<Command, CommandErrorView> {
    if doc.name == water_name() {
        match doc.value {
            None => Err(CommandErrorView::WrongCommand(doc)),
            Some(ValueView::Bool(b)) => Ok(Command::Water(b)),
            Some(v) => Err(CommandErrorView::InvalidValue(v)),
        }
    } else if doc.name == lamp_name() {
        match doc.value {
            None => Err(CommandErrorView::WrongCommand(doc)),
            Some(ValueView::Unsigned(n)) => if n <= 255 {
                Ok(Command::Lamp(n as u8))
            } else {
                Err(CommandErrorView::InvalidValue(ValueView::Unsigned(n)))
            },
            Some(v) => Err(CommandErrorView::InvalidValue(v)),
        }
    } else if doc.name == barometer_name() {
        Ok(Command::ReadBarometer)
    } else if doc.name == soil_name() {
        Ok(Command::ReadSoilMoisture)
    } else if doc.name == all_name() {
        Ok(Command::ReadAll)
    } else {
        Err(CommandErrorView::WrongCommand(doc))
    }
}

/// What the codec keeps of a JSON value: `null`, booleans and non-negative
/// integers as they are, anything else as its compact text.
pub open spec fn value_of_model(m: JsonModel) -> ValueView {
    match m {
        JsonModel::Null => ValueView::Null,
        JsonModel::Bool(b) => ValueView::Bool(b),
        JsonModel::Number(NumberModel::Unsigned(n)) => ValueView::Unsigned(n),
        _ => ValueView::Other(json_text(m)),
    }
}

/// The command document in a JSON value: an object whose `name` is a
/// string. Only a `value` that is missing counts as no value.
pub open spec fn document_of_model(m: JsonModel) -> Option<CommandJsonView> {
    match member(m, "name"@) {
        Some(JsonModel::Text(name)) => Some(
            CommandJsonView {
                name,
                value: match member(m, "value"@) {
                    None => None,
                    Some(v) => Some(value_of_model(v)),
                },
            },
        ),
        _ => None,
    }
}

/// The outcome of decoding a parsed text: `None` stands for a text that is
/// no JSON at all.
pub open spec fn decode_model(parsed: Option<JsonModel>) -> Result<Command, CommandErrorView> {
    match parsed {
        None => Err(CommandErrorView::MalformedJson),
        Some(m) => match document_of_model(m) {
            None => Err(CommandErrorView::MalformedJson),
            Some(doc) => command_of(doc),
        },
    }
}

impl Command {
    /// Decides which command a document stands for.
    pub fn from_json(doc: CommandJson) -> (r: Result<Command, CommandError>)
        ensures
            outcome_view(r) == command_of(doc@),
    {
        if str_eq(doc.name.as_str(), "water") {
            match doc.value {
                None => Err(CommandError::WrongCommand(doc)),
                Some(JsonValue::Bool(b)) => Ok(Command::Water(b)),
                Some(v) => Err(CommandError::InvalidValue(v)),
            }
        } else if str_eq(doc.name.as_str(), "lamp") {
            match doc.value {
                None => Err(CommandError::WrongCommand(doc)),
                Some(JsonValue::Unsigned(n)) => if n <= 255 {
                    Ok(Command::Lamp(n as u8))
                } else {
                    Err(CommandError::InvalidValue(JsonValue::Unsigned(n)))
                },
                Some(v) => Err(CommandError::InvalidValue(v)),
            }
        } else if str_eq(doc.name.as_str(), "read_barometer") {
            Ok(Command::ReadBarometer)
        } else if str_eq(doc.name.as_str(), "read_soil_moisture") {
            Ok(Command::ReadSoilMoisture)
        } else if str_eq(doc.name.as_str(), "all") {
            Ok(Command::ReadAll)
        } else {
            Err(CommandError::WrongCommand(doc))
        }
    }

    /// Decodes the text of a message. The text is parsed by `serde_json`;
    /// what the parser makes of it is named `json_parse`, and the rest is
    /// `decode_model`.
    pub fn from_str(input: &str) -> (r: Result<Command, CommandError>)
        ensures
            outcome_view(r) == decode_model(json_parse(input@)),
    {
        match parse_value(input) {
            Ok(value) => match read_document(&value) {
                Some(doc) => Command::from_json(doc),
                None => Err(CommandError::MalformedJson),
            },
            Err(_) => Err(CommandError::MalformedJson),
        }
    }
}

/// Reads what the codec keeps of a JSON value.
pub fn read_value(v: &serde_json::Value) -> (r: JsonValue)
    ensures
        r@ == value_of_model(json_model(*v)),
{
    if value_is_null(v) {
        return JsonValue::Null;
    }
    match value_as_bool(v) {
        Some(b) => JsonValue::Bool(b),
        None => match value_as_u64(v) {
            Some(n) => JsonValue::Unsigned(n),
            None => JsonValue::Other(value_text(v)),
        },
    }
}

/// Reads the command document out of a JSON value, if it is one.
pub fn read_document(v: &serde_json::Value) -> (r: Option<CommandJson>)
    ensures
        match document_of_model(json_model(*v)) {
            Some(doc) => r.is_some() && r.unwrap()@ == doc,
            None => r.is_none(),
        },
{
    let name = match value_get(v, "name") {
        Some(n) => match value_as_str(n) {
            Some(s) => s.to_owned(),
            None => { return None; },
        },
        None => { return None; },
    };
    let value = match value_get(v, "value") {
        Some(inner) => Some(read_value(inner)),
        None => None,
    };
    Some(CommandJson { name, value })
}

/// Decodes the bytes of a message: bytes that are not UTF-8 are an encoding
/// error, any others are decoded as the text that they spell.
pub fn decode_payload(data: &[u8]) -> (r: Result<Command, CommandError>)
    ensures
        outcome_view(r) == if valid_utf8(data@) {
            decode_model(json_parse(decode_utf8(data@)))
        } else {
            Err(CommandErrorView::InvalidEncoding)
        },
{
    match str_from_utf8(data) {
        Some(text) => {
            proof {
                vstd::utf8::encode_utf8_decode_utf8(text@);
            }
            Command::from_str(text)
        },
        None => Err(CommandError::InvalidEncoding),
    }
}

/// The name under which a command travels.
pub open spec fn name_of(c: Command) -> Seq<char> {
    match c {
        Command::Water(_) => water_name(),
        Command::Lamp(_) => lamp_name(),
        Command::ReadBarometer => barometer_name(),
        Command::ReadSoilMoisture => soil_name(),
        Command::ReadAll => all_name(),
    }
}

/// The canonical document of a command: its name, and a value only where
/// the command has one.
pub open spec fn document_of(c: Command) -> CommandJsonView {
    CommandJsonView {
        name: name_of(c),
        value: match c {
            Command::Water(b) => Some(ValueView::Bool(b)),
            Command::Lamp(n) => Some(ValueView::Unsigned(n as u64)),
            _ => None,
        },
    }
}

/// The canonical JSON value of a command: an object with the member `name`
/// and, where the command has a value, the member `value`.
pub open spec fn model_of(c: Command) -> JsonModel {
    let named = Map::<Seq<char>, JsonModel>::empty().insert("name"@, JsonModel::Text(name_of(c)));
    JsonModel::Object(
        match c {
            Command::Water(b) => named.insert("value"@, JsonModel::Bool(b)),
            Command::Lamp(n) => named.insert(
                "value"@,
                JsonModel::Number(NumberModel::Unsigned(n as u64)),
            ),
            _ => named,
        },
    )
}

impl Command {
    /// The canonical document of the command.
    pub fn to_json(&self) -> (r: CommandJson)
        ensures
            r@ == document_of(*self),
    {
        match self {
            Command::Water(b) => CommandJson {
                name: "water".to_owned(),
                value: Some(JsonValue::Bool(*b)),
            },
            Command::Lamp(n) => CommandJson {
                name: "lamp".to_owned(),
                value: Some(JsonValue::Unsigned(*n as u64)),
            },
            Command::ReadBarometer => CommandJson {
                name: "read_barometer".to_owned(),
                value: None,
            },
            Command::ReadSoilMoisture => CommandJson {
                name: "read_soil_moisture".to_owned(),
                value: None,
            },
            Command::ReadAll => CommandJson { name: "all".to_owned(), value: None },
        }
    }

    /// The canonical JSON text of the command, as `serde_json` prints its
    /// canonical JSON value.
    pub fn to_text(&self) -> (r: String)
        ensures
            r@ == json_text(model_of(*self)),
    {
        let mut obj = object_new();
        match self {
            Command::Water(b) => {
                object_insert(&mut obj, "name", value_string("water"));
                object_insert(&mut obj, "value", value_bool(*b));
            },
            Command::Lamp(n) => {
                object_insert(&mut obj, "name", value_string("lamp"));
                object_insert(&mut obj, "value", value_unsigned(*n as u64));
            },
            Command::ReadBarometer => {
                object_insert(&mut obj, "name", value_string("read_barometer"));
            },
            Command::ReadSoilMoisture => {
                object_insert(&mut obj, "name", value_string("read_soil_moisture"));
            },
            Command::ReadAll => {
                object_insert(&mut obj, "name", value_string("all"));
            },
        }
        value_text(&obj)
    }
}

/// The five command names are five different texts.
pub proof fn lemma_names_differ()
    ensures
        water_name() != lamp_name(),
        water_name() != barometer_name(),
        water_name() != soil_name(),
        water_name() != all_name(),
        lamp_name() != barometer_name(),
        lamp_name() != soil_name(),
        lamp_name() != all_name(),
        barometer_name() != soil_name(),
        barometer_name() != all_name(),
        soil_name() != all_name(),
{
    reveal_strlit("water");
    reveal_strlit("lamp");
    reveal_strlit("read_barometer");
    reveal_strlit("read_soil_moisture");
    reveal_strlit("all");
    assert(water_name().len() == 5);
    assert(lamp_name().len() == 4);
    assert(barometer_name().len() == 14);
    assert(soil_name().len() == 18);
    assert(all_name().len() == 3);
}

/// Round trip on documents: the canonical document of any command decodes
/// to that command.
pub proof fn lemma_document_round_trip(c: Command)
    ensures
        command_of(document_of(c)) == Ok::<Command, CommandErrorView>(c),
{
    lemma_names_differ();
}

/// Round trip on JSON values: the canonical JSON value of any command, read
/// as a parsed message, decodes to that command.
pub proof fn lemma_model_round_trip(c: Command)
    ensures
        document_of_model(model_of(c)) == Some(document_of(c)),
        decode_model(Some(model_of(c))) == Ok::<Command, CommandErrorView>(c),
{
    lemma_names_differ();
    reveal_strlit("name");
    reveal_strlit("value");
    assert("name"@.len() == 4 && "value"@.len() == 5);
}

/// A document with a name that is none of the five is a wrong command,
/// whatever its value.
pub proof fn lemma_unknown_name_is_wrong(doc: CommandJsonView)
    requires
        doc.name != water_name(),
        doc.name != lamp_name(),
        doc.name != barometer_name(),
        doc.name != soil_name(),
        doc.name != all_name(),
    ensures
        command_of(doc) == Err::<Command, CommandErrorView>(CommandErrorView::WrongCommand(doc)),
{
}

/// A command of the first protocol, which has no way to ask for every
/// sensor at once.
#[derive(Debug, PartialEq, Eq, Structural, Clone, Copy)]
pub enum MqttCommand {
    Water(bool),
    Lamp(u8),
    ReadBarometer,
    ReadSoilMoisture,
}

/// The command of the first protocol that a document stands for: as
/// `command_of`, but `all` is an unknown name.
pub open spec fn mqtt_command_of(doc: CommandJsonView) -> Result<MqttCommand, CommandErrorView> {
    match command_of(doc) {
        Ok(Command::Water(b)) => Ok(MqttCommand::Water(b)),
        Ok(Command::Lamp(n)) => Ok(MqttCommand::Lamp(n)),
        Ok(Command::ReadBarometer) => Ok(MqttCommand::ReadBarometer),
        Ok(Command::ReadSoilMoisture) => Ok(MqttCommand::ReadSoilMoisture),
        Ok(Command::ReadAll) => Err(CommandErrorView::WrongCommand(doc)),
        Err(e) => Err(e),
    }
}

/// The outcome of decoding for the first protocol, by content.
pub open spec fn mqtt_outcome_view(r: Result<MqttCommand, CommandError>) -> Result<
    MqttCommand,
    CommandErrorView,
> {
    match r {
        Ok(c) => Ok(c),
        Err(e) => Err(e@),
    }
}

/// The outcome of decoding a parsed text for the first protocol.
pub open spec fn mqtt_decode_model(parsed: Option<JsonModel>) -> Result<
    MqttCommand,
    CommandErrorView,
> {
    match parsed {
        None => Err(CommandErrorView::MalformedJson),
        Some(m) => match document_of_model(m) {
            None => Err(CommandErrorView::MalformedJson),
            Some(doc) => mqtt_command_of(doc),
        },
    }
}

impl MqttCommand {
    /// Decides which command of the first protocol a document stands for.
    pub fn from_json(doc: CommandJson) -> (r: Result<MqttCommand, CommandError>)
        ensures
            mqtt_outcome_view(r) == mqtt_command_of(doc@),
    {
        proof {
            lemma_names_differ();
        }
        if str_eq(doc.name.as_str(), "all") {
            return Err(CommandError::WrongCommand(doc));
        }
        match Command::from_json(doc) {
            Ok(Command::Water(b)) => Ok(MqttCommand::Water(b)),
            Ok(Command::Lamp(n)) => Ok(MqttCommand::Lamp(n)),
            Ok(Command::ReadBarometer) => Ok(MqttCommand::ReadBarometer),
            Ok(Command::ReadSoilMoisture) => Ok(MqttCommand::ReadSoilMoisture),
            // `all` was turned away above, so this arm is never taken.
            Ok(Command::ReadAll) => Err(CommandError::MalformedJson),
            Err(e) => Err(e),
        }
    }

    /// Decodes the text of a message of the first protocol.
    pub fn from_str(input: &str) -> (r: Result<MqttCommand, CommandError>)
        ensures
            mqtt_outcome_view(r) == mqtt_decode_model(json_parse(input@)),
    {
        match parse_value(input) {
            Ok(value) => match read_document(&value) {
                Some(doc) => MqttCommand::from_json(doc),
                None => Err(CommandError::MalformedJson),
            },
            Err(_) => Err(CommandError::MalformedJson),
        }
    }
}

/// A `value` of `null` is there, but of the wrong type: `water` and `lamp`
/// call it invalid, not missing.
pub proof fn lemma_null_value_is_invalid(doc: CommandJsonView)
    requires
        doc.name == water_name() || doc.name == lamp_name(),
        doc.value == Some(ValueView::Null),
    ensures
        command_of(doc) == Err::<Command, CommandErrorView>(
            CommandErrorView::InvalidValue(ValueView::Null),
        ),
        mqtt_command_of(doc) == Err::<MqttCommand, CommandErrorView>(
            CommandErrorView::InvalidValue(ValueView::Null),
        ),
{
    lemma_names_differ();
}

/// The text of a value as JSON writes it.
pub open spec fn value_text_of(v: ValueView) -> Seq<char> {
    match v {
        ValueView::Null => "null"@,
        ValueView::Bool(b) => if b {
            "true"@
        } else {
            "false"@
        },
        ValueView::Unsigned(n) => number_text(n as nat),
        ValueView::Other(text) => text,
    }
}

/// What an error says of itself.
pub open spec fn error_message_of(e: CommandErrorView) -> Seq<char> {
    match e {
        CommandErrorView::WrongCommand(_) => "Command is not recognized"@,
        CommandErrorView::InvalidValue(v) => "Command Value is invalid: "@ + value_text_of(v),
        CommandErrorView::MalformedJson => "Command is not valid JSON"@,
        CommandErrorView::InvalidEncoding => "Message is not valid UTF8"@,
    }
}

impl JsonValue {
    /// The text of the value as JSON writes it.
    pub fn text(&self) -> (r: String)
        ensures
            r@ == value_text_of(self@),
    {
        match self {
            JsonValue::Null => "null".to_owned(),
            JsonValue::Bool(b) => if *b {
                "true".to_owned()
            } else {
                "false".to_owned()
            },
            JsonValue::Unsigned(n) => number_string(*n),
            JsonValue::Other(text) => text.clone(),
        }
    }
}

impl CommandError {
    /// What the error says of itself.
    pub fn message(&self) -> (r: String)
        ensures
            r@ == error_message_of(self@),
    {
        match self {
            CommandError::WrongCommand(_) => "Command is not recognized".to_owned(),
            CommandError::InvalidValue(v) => {
                let mut out = "Command Value is invalid: ".to_owned();
                let text = v.text();
                out.append(text.as_str());
                out
            },
            CommandError::MalformedJson => "Command is not valid JSON".to_owned(),
            CommandError::InvalidEncoding => "Message is not valid UTF8".to_owned(),
        }
    }
}

/// The kind of an error.
pub open spec fn kind_of(e: CommandErrorView) -> SimplCommandError {
    match e {
        CommandErrorView::WrongCommand(_) => SimplCommandError::WrongCommand,
        CommandErrorView::InvalidValue(_) => SimplCommandError::InvalidValue,
        CommandErrorView::MalformedJson => SimplCommandError::JsonParseError,
        CommandErrorView::InvalidEncoding => SimplCommandError::ParseError,
    }
}

impl From<CommandError> for SimplCommandError {
    fn from(error: CommandError) -> (r: SimplCommandError) {
        match error {
            CommandError::WrongCommand(_) => SimplCommandError::WrongCommand,
            CommandError::InvalidValue(_) => SimplCommandError::InvalidValue,
            CommandError::MalformedJson => SimplCommandError::JsonParseError,
            CommandError::InvalidEncoding => SimplCommandError::ParseError,
        }
    }
}

impl FromSpecImpl<CommandError> for SimplCommandError {
    open spec fn obeys_from_spec() -> bool {
        true
    }

    open spec fn from_spec(error: CommandError) -> SimplCommandError {
        kind_of(error@)
    }
}

} // verus!
