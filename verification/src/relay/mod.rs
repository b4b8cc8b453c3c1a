//! Between the bus and the station: which event a message becomes, who gets
//! it, and what goes back out.

use vstd::prelude::*;
use vstd::utf8::{decode_utf8, valid_utf8};
use crate::command::{decode_model, decode_payload, kind_of, Command, SimplCommandError};
use crate::json::json_parse;

pub mod ota;
pub mod router;

verus! {

/// What a message turns into inside the station. Commands and errors travel
/// on channels of their own.
#[derive(Debug, PartialEq, Eq, Structural, Clone, Copy)]
pub enum Event {
    Command(Command),
    Error(SimplCommandError),
}

/// Where a text goes out.
#[derive(Debug, PartialEq, Eq, Structural, Clone, Copy)]
pub enum Topic {
    /// `feeds/message`: reports.
    Message,
    /// `error/message`: diagnostics.
    Error,
}

/// What the station does on a command.
#[derive(Debug, PartialEq, Eq, Structural, Clone, Copy)]
pub enum Action {
    /// Switch the pump.
    Water(bool),
    /// Dim the lamp.
    Lamp(u8),
    /// Send the report of the barometric sensor.
    ReportBarometer,
    /// Send the report of the soil probe.
    ReportSoilMoisture,
    /// Send the report of every sensor.
    ReportAll,
}

/// The event of the bytes of a message: the command they decode to, or the
/// kind of the error they earn.
pub open spec fn event_of(data: Seq<u8>) -> Event {
    if valid_utf8(data) {
        match decode_model(json_parse(decode_utf8(data))) {
            Ok(c) => Event::Command(c),
            Err(e) => Event::Error(kind_of(e)),
        }
    } else {
        Event::Error(SimplCommandError::ParseError)
    }
}

/// The event of what the bus delivered. Only a message that came whole is
/// decoded; a part of one gives no event.
pub fn incoming(complete: bool, data: &[u8]) -> (r: Option<Event>)
    ensures
        r == if complete {
            Some(event_of(data@))
        } else {
            None
        },
{
    if !complete {
        return None;
    }
    match decode_payload(data) {
        Ok(c) => Some(Event::Command(c)),
        Err(e) => Some(Event::Error(SimplCommandError::from(e))),
    }
}

/// The diagnostic text of an error kind.
pub open spec fn error_text_of(kind: SimplCommandError) -> Seq<char> {
    match kind {
        SimplCommandError::InvalidValue => "Missing or wrong value"@,
        SimplCommandError::JsonParseError => "Invalid Json"@,
        SimplCommandError::ParseError => "Invalid encoding ( utf8 parsing failed )"@,
        SimplCommandError::WrongCommand => "Unknown command"@,
    }
}

/// The diagnostic text that answers an error.
pub fn error_text(kind: SimplCommandError) -> (r: &'static str)
    ensures
        r@ == error_text_of(kind),
{
    match kind {
        SimplCommandError::InvalidValue => "Missing or wrong value",
        SimplCommandError::JsonParseError => "Invalid Json",
        SimplCommandError::ParseError => "Invalid encoding ( utf8 parsing failed )",
        SimplCommandError::WrongCommand => "Unknown command",
    }
}

/// What goes out for an error: its diagnostic text, on the topic of the
/// diagnostics.
pub fn error_reply(kind: SimplCommandError) -> (r: (Topic, String))
    ensures
        r.0 == Topic::Error,
        r.1@ == error_text_of(kind),
{
    (Topic::Error, error_text(kind).to_owned())
}

/// What the station does on a command.
pub fn action_for(command: Command) -> (r: Action)
    ensures
        r == match command {
            Command::Water(on) => Action::Water(on),
            Command::Lamp(level) => Action::Lamp(level),
            Command::ReadBarometer => Action::ReportBarometer,
            Command::ReadSoilMoisture => Action::ReportSoilMoisture,
            Command::ReadAll => Action::ReportAll,
        },
{
    match command {
        Command::Water(on) => Action::Water(on),
        Command::Lamp(level) => Action::Lamp(level),
        Command::ReadBarometer => Action::ReportBarometer,
        Command::ReadSoilMoisture => Action::ReportSoilMoisture,
        Command::ReadAll => Action::ReportAll,
    }
}

/// What goes out for a report that was asked for: the report as a message,
/// or, where there is none, the notice as a diagnostic.
pub fn report_reply(report: Option<String>, notice: &str) -> (r: (Topic, String))
    ensures
        r.0 == if report is Some {
            Topic::Message
        } else {
            Topic::Error
        },
        r.1@ == match report {
            Some(text) => text@,
            None => notice@,
        },
{
    match report {
        Some(text) => (Topic::Message, text),
        None => (Topic::Error, notice.to_owned()),
    }
}

/// The name of a topic on the bus.
pub fn topic_name(topic: Topic) -> (r: &'static str)
    ensures
        r@ == match topic {
            Topic::Message => "feeds/message"@,
            Topic::Error => "error/message"@,
        },
{
    match topic {
        Topic::Message => "feeds/message",
        Topic::Error => "error/message",
    }
}

/// Every whole message gives exactly one event, and it is a command exactly
/// where decoding gives that command.
pub proof fn lemma_event_is_command_or_error(data: Seq<u8>)
    ensures
        event_of(data) is Command <==> valid_utf8(data) && decode_model(
            json_parse(decode_utf8(data)),
        ) is Ok,
        event_of(data) is Command ==> event_of(data)->Command_0 == decode_model(
            json_parse(decode_utf8(data)),
        )->Ok_0,
{
}

} // verus!
