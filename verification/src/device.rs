//! The command that a payload carries, and how it is read out of the payload.
//!
//! On the wire a command is one JSON object with an `id` (a string, or a whole
//! number from 0 to `u64::MAX` written in digits alone), a `name` (a string)
//! and a `state` (a boolean). Further members are ignored. Anything else is no
//! command.

use crate::json::{as_bool, as_text, as_unsigned, json_of, json_parsed, member, parse, Json};
use crate::text::{decimal, decimal_text, utf8_text};
use vstd::prelude::*;
use vstd::utf8::*;

verus! {

/// The identifier of a command. It is reported back, never interpreted.
#[derive(Clone, Debug, PartialEq, Eq)]
pub enum DeviceId {
    Number(u64),
    Text(String),
}

/// A decoded command: drive the line high (`state`) or low.
#[derive(Clone, Debug, PartialEq, Eq)]
pub struct Device {
    pub id: DeviceId,
    pub name: String,
    pub state: bool,
}

/// The mathematical content of a [`DeviceId`].
pub enum DeviceIdView {
    Number(u64),
    Text(Seq<char>),
}

/// The mathematical content of a [`Device`].
pub struct DeviceView {
    pub id: DeviceIdView,
    pub name: Seq<char>,
    pub state: bool,
}

impl View for DeviceId {
    type V = DeviceIdView;

    open spec fn view(&self) -> DeviceIdView {
        match self {
            DeviceId::Number(n) => DeviceIdView::Number(*n),
            DeviceId::Text(text) => DeviceIdView::Text(text@),
        }
    }
}

impl View for Device {
    type V = DeviceView;

    open spec fn view(&self) -> DeviceView {
        DeviceView { id: self.id@, name: self.name@, state: self.state }
    }
}

impl DeviceIdView {
    /// The identifier as it is written in a report: a number in decimal, a
    /// text as it stands.
    pub open spec fn label(self) -> Seq<char> {
        match self {
            DeviceIdView::Number(n) => decimal(n as nat),
            DeviceIdView::Text(text) => text,
        }
    }
}

/// The identifier that a JSON value stands for: an unsigned integer or a
/// string.
pub open spec fn id_in(value: Json) -> Option<DeviceIdView> {
    match value {
        Json::Number { unsigned: Some(n) } => Some(DeviceIdView::Number(n)),
        Json::Text(text) => Some(DeviceIdView::Text(text)),
        _ => None,
    }
}

/// The command that a JSON document stands for: an object whose `id` is an
/// identifier, whose `name` is a string and whose `state` is a boolean.
pub open spec fn command_in(doc: Json) -> Option<DeviceView> {
    match (doc.member("id"@), doc.member("name"@), doc.member("state"@)) {
        (Some(id), Some(name), Some(state)) => match (id_in(id), name.as_text(), state.as_bool()) {
            (Some(id), Some(name), Some(state)) => Some(DeviceView { id, name, state }),
            _ => None,
        },
        _ => None,
    }
}

/// The command that a payload carries: the bytes are UTF-8, the text is one
/// JSON document, and the document stands for a command.
pub open spec fn decoded(payload: Seq<u8>) -> Option<DeviceView> {
    if valid_utf8(payload) {
        match json_parsed(decode_utf8(payload)) {
            Some(doc) => command_in(doc),
            None => None,
        }
    } else {
        None
    }
}

/// The content of a command that may be absent.
pub open spec fn viewed(command: Option<Device>) -> Option<DeviceView> {
    match command {
        Some(device) => Some(device@),
        None => None,
    }
}

/// The content of an identifier that may be absent.
pub open spec fn viewed_id(id: Option<DeviceId>) -> Option<DeviceIdView> {
    match id {
        Some(id) => Some(id@),
        None => None,
    }
}

impl DeviceId {
    /// Reads an identifier from a JSON value.
    pub fn from_json(value: &serde_json::Value) -> (r: Option<DeviceId>)
        ensures
            viewed_id(r) == id_in(json_of(*value)),
    {
        match as_unsigned(value) {
            Some(n) => Some(DeviceId::Number(n)),
            None => match as_text(value) {
                Some(text) => Some(DeviceId::Text(text.to_owned())),
                None => None,
            },
        }
    }

    /// The identifier as it is written in a report.
    pub fn label(&self) -> (r: String)
        ensures
            r@ == self@.label(),
    {
        match self {
            DeviceId::Number(n) => decimal_text(*n),
            DeviceId::Text(text) => text.clone(),
        }
    }
}

impl Device {
    /// Reads a command from a parsed document.
    pub fn from_json(doc: &serde_json::Value) -> (r: Option<Device>)
        ensures
            viewed(r) == command_in(json_of(*doc)),
    {
        let id = match member(doc, "id") {
            Some(value) => DeviceId::from_json(value),
            None => None,
        };
        let name = match member(doc, "name") {
            Some(value) => as_text(value),
            None => None,
        };
        let state = match member(doc, "state") {
            Some(value) => as_bool(value),
            None => None,
        };
        match (id, name, state) {
            (Some(id), Some(name), Some(state)) => Some(
                Device { id, name: name.to_owned(), state },
            ),
            _ => None,
        }
    }

    /// Reads a command from the raw payload of a message. A payload that is
    /// not UTF-8, not JSON, or not of the shape of a command gives `None`.
    pub fn decode(payload: &[u8]) -> (r: Option<Device>)
        ensures
            viewed(r) == decoded(payload@),
            !valid_utf8(payload@) ==> r is None,
    {
        match utf8_text(payload) {
            Ok(text) => match parse(text) {
                Ok(doc) => Device::from_json(&doc),
                Err(_) => None,
            },
            Err(_) => None,
        }
    }
}

} // verus!
