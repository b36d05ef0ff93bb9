//! The receive side of the controller: from an event of the channel to what
//! the worker does about it.
//!
//! The worker blocks on the channel, hands each event to
//! [`CommandRelay::handle`] and carries out the [`RelayAction`] it gets back.
//! The relay keeps no record between events.

use crate::device::{command_in, decoded, viewed, Device, DeviceId, DeviceIdView, DeviceView};
use crate::gpio::gpio::{ControlGpio, PinSpec, PinWrite};
use crate::json::json_parsed;
use crate::text::same_text;
use vstd::prelude::*;
use vstd::string::*;
use vstd::utf8::*;

verus! {

/// Level that drives the line high.
pub const LEVEL_ON: u32 = 1;

/// Level that drives the line low.
pub const LEVEL_OFF: u32 = 0;

/// What the channel reports to the worker.
#[derive(Clone, Copy, Debug, PartialEq, Eq)]
pub enum RelayEvent<'a> {
    /// A message arrived, on `topic` where the channel names one.
    Received { topic: Option<&'a str>, payload: &'a [u8] },
    /// The connection failed.
    Error,
    /// Any other report of the channel.
    Other,
}

/// What the worker does about an event.
#[derive(Clone, Debug, PartialEq, Eq)]
pub enum RelayAction {
    /// Nothing, and nothing is logged.
    Ignore,
    /// Issue `write` to the line, then report that the command `id` set it to
    /// `state`.
    Apply { write: PinWrite, id: DeviceId, state: bool },
    /// The line refused the level: log `message` and go on. The levels that
    /// the relay asks for are never refused.
    Refused { message: &'static str },
    /// Log the connection failure and go on.
    ReportError,
}

/// The mathematical content of a [`RelayEvent`].
pub enum RelayEventView {
    Received { topic: Option<Seq<char>>, payload: Seq<u8> },
    Error,
    Other,
}

/// The mathematical content of a [`RelayAction`].
pub enum RelayActionView {
    Ignore,
    Apply { write: PinWrite, id: DeviceIdView, state: bool },
    Refused { message: Seq<char> },
    ReportError,
}

/// The mathematical content of a [`CommandRelay`]: the line it drives and the
/// topic it listens on.
pub struct RelaySpec {
    pub line: PinSpec,
    pub topic: Seq<char>,
}

impl<'a> View for RelayEvent<'a> {
    type V = RelayEventView;

    open spec fn view(&self) -> RelayEventView {
        match self {
            RelayEvent::Received { topic, payload } => RelayEventView::Received {
                topic: topic_of(*topic),
                payload: payload@,
            },
            RelayEvent::Error => RelayEventView::Error,
            RelayEvent::Other => RelayEventView::Other,
        }
    }
}

impl View for RelayAction {
    type V = RelayActionView;

    open spec fn view(&self) -> RelayActionView {
        match self {
            RelayAction::Ignore => RelayActionView::Ignore,
            RelayAction::Apply { write, id, state } => RelayActionView::Apply {
                write: *write,
                id: id@,
                state: *state,
            },
            RelayAction::Refused { message } => RelayActionView::Refused { message: message@ },
            RelayAction::ReportError => RelayActionView::ReportError,
        }
    }
}

/// The text of a topic that may be absent.
pub open spec fn topic_of(topic: Option<&str>) -> Option<Seq<char>> {
    match topic {
        Some(topic) => Some(topic@),
        None => None,
    }
}

/// The level that a target state asks for.
pub open spec fn level_for(state: bool) -> u32 {
    if state {
        LEVEL_ON
    } else {
        LEVEL_OFF
    }
}

/// A state as it is written in a report.
pub open spec fn state_text(state: bool) -> Seq<char> {
    if state {
        "true"@
    } else {
        "false"@
    }
}

/// The line that reports that the command `id` set the line to `state`.
pub open spec fn applied_report(id: DeviceIdView, state: bool) -> Seq<char> {
    "Topic setted: "@ + id.label() + " -> "@ + state_text(state)
}

impl RelayActionView {
    /// The write that this action sends to the line, if any.
    pub open spec fn write(self) -> Option<PinWrite> {
        match self {
            RelayActionView::Apply { write, .. } => Some(write),
            _ => None,
        }
    }

    /// The line that this action logs by itself, if any: the report of an
    /// applied command, or the refusal of the line. A connection failure is
    /// logged with what the channel says of it.
    pub open spec fn report(self) -> Option<Seq<char>> {
        match self {
            RelayActionView::Apply { id, state, .. } => Some(applied_report(id, state)),
            RelayActionView::Refused { message } => Some(message),
            _ => None,
        }
    }
}

impl RelaySpec {
    /// What is done about a message on `topic` whose payload was decoded to
    /// `command`: a command on the topic of the relay drives the line to the
    /// level of its state, everything else is ignored.
    pub open spec fn dispatched(
        self,
        topic: Option<Seq<char>>,
        command: Option<DeviceView>,
    ) -> RelayActionView {
        match command {
            Some(device) if topic == Some(self.topic) => RelayActionView::Apply {
                write: PinWrite { pin: self.line.pin as i32, level: level_for(device.state) },
                id: device.id,
                state: device.state,
            },
            _ => RelayActionView::Ignore,
        }
    }

    /// What is done about a message on `topic` with the raw `payload`.
    pub open spec fn received(self, topic: Option<Seq<char>>, payload: Seq<u8>) -> RelayActionView {
        self.dispatched(topic, decoded(payload))
    }

    /// What is done about an event.
    pub open spec fn handled(self, event: RelayEventView) -> RelayActionView {
        match event {
            RelayEventView::Received { topic, payload } => self.received(topic, payload),
            RelayEventView::Error => RelayActionView::ReportError,
            RelayEventView::Other => RelayActionView::Ignore,
        }
    }
}

/// The relay: one line and the topic whose commands reach it.
#[derive(Debug)]
pub struct CommandRelay {
    gpio: ControlGpio,
    topic: String,
}

impl View for CommandRelay {
    type V = RelaySpec;

    closed spec fn view(&self) -> RelaySpec {
        RelaySpec { line: self.gpio@, topic: self.topic@ }
    }
}

impl CommandRelay {
    /// A relay that drives `gpio` on commands that arrive on `topic`.
    pub fn new(gpio: ControlGpio, topic: String) -> (relay: Self)
        ensures
            relay@ == (RelaySpec { line: gpio@, topic: topic@ }),
    {
        CommandRelay { gpio, topic }
    }

    /// The topic whose commands reach the line.
    pub fn topic(&self) -> (topic: &str)
        ensures
            topic@ == self@.topic,
    {
        self.topic.as_str()
    }

    /// The line that the relay drives.
    pub fn gpio(&self) -> (gpio: &ControlGpio)
        ensures
            gpio@ == self@.line,
    {
        &self.gpio
    }

    /// Decides what is done about a message on `topic` whose payload was
    /// decoded to `command`.
    pub fn dispatch(&self, topic: Option<&str>, command: Option<Device>) -> (action: RelayAction)
        ensures
            action@ == self@.dispatched(topic_of(topic), viewed(command)),
    {
        let on_topic = match topic {
            Some(topic) => same_text(topic, self.topic.as_str()),
            None => false,
        };
        match command {
            Some(device) => {
                if on_topic {
                    let level: u32 = if device.state {
                        LEVEL_ON
                    } else {
                        LEVEL_OFF
                    };
                    match self.gpio.set_value(level) {
                        Ok(write) => RelayAction::Apply { write, id: device.id, state: device.state },
                        Err(message) => RelayAction::Refused { message },
                    }
                } else {
                    RelayAction::Ignore
                }
            },
            None => RelayAction::Ignore,
        }
    }

    /// Decides what is done about a message on `topic` with the raw `payload`:
    /// the payload is decoded, then dispatched.
    pub fn receive(&self, topic: Option<&str>, payload: &[u8]) -> (action: RelayAction)
        ensures
            action@ == self@.received(topic_of(topic), payload@),
    {
        self.dispatch(topic, Device::decode(payload))
    }

    /// Decides what is done about an event of the channel.
    pub fn handle(&self, event: RelayEvent) -> (action: RelayAction)
        ensures
            action@ == self@.handled(event@),
    {
        match event {
            RelayEvent::Received { topic, payload } => self.receive(topic, payload),
            RelayEvent::Error => RelayAction::ReportError,
            RelayEvent::Other => RelayAction::Ignore,
        }
    }
}

impl RelayAction {
    /// The write that this action sends to the line, if any.
    pub fn write(&self) -> (write: Option<PinWrite>)
        ensures
            write == self@.write(),
    {
        match self {
            RelayAction::Apply { write, .. } => Some(*write),
            _ => None,
        }
    }

    /// The line that this action logs by itself, if any.
    pub fn report(&self) -> (line: Option<String>)
        ensures
            line is Some <==> self@.report() is Some,
            line matches Some(text) ==> self@.report() == Some(text@),
    {
        match self {
            RelayAction::Apply { id, state, .. } => {
                let mut line = String::from_str("Topic setted: ");
                let label = id.label();
                line.append(label.as_str());
                line.append(" -> ");
                line.append(
                    if *state {
                        "true"
                    } else {
                        "false"
                    },
                );
                Some(line)
            },
            RelayAction::Refused { message } => Some(String::from_str(message)),
            _ => None,
        }
    }
}

/// A payload that is not UTF-8, or is UTF-8 but not JSON, or is JSON but not
/// of the shape of a command, carries no command and sends nothing to the
/// line, whatever the topic.
pub proof fn lemma_undecodable_payload_is_ignored(
    relay: RelaySpec,
    topic: Option<Seq<char>>,
    payload: Seq<u8>,
)
    requires
        ({
            ||| !valid_utf8(payload)
            ||| json_parsed(decode_utf8(payload)) is None
            ||| json_parsed(decode_utf8(payload)) matches Some(doc) && command_in(doc) is None
        }),
    ensures
        decoded(payload) is None,
        relay.received(topic, payload) == RelayActionView::Ignore,
        relay.received(topic, payload).write() is None,
{
}

/// A command on another topic than that of the relay, or on none, sends
/// nothing to the line.
pub proof fn lemma_other_topic_is_ignored(
    relay: RelaySpec,
    topic: Option<Seq<char>>,
    command: Option<DeviceView>,
)
    requires
        topic != Some(relay.topic),
    ensures
        relay.dispatched(topic, command) == RelayActionView::Ignore,
        relay.dispatched(topic, command).write() is None,
{
}

/// The line is written exactly when a command arrives on the topic of the
/// relay; the write is then on the pin of the relay, at level 1 for a state of
/// `true` and at level 0 for `false`, which the line accepts.
pub proof fn lemma_write_follows_command(
    relay: RelaySpec,
    topic: Option<Seq<char>>,
    command: Option<DeviceView>,
)
    requires
        relay.line.valid(),
    ensures
        relay.dispatched(topic, command).write() is Some <==> (command is Some && topic == Some(
            relay.topic,
        )),
        relay.dispatched(topic, command).write() matches Some(write) ==> {
            &&& write.pin == relay.line.pin
            &&& write.level == level_for(command->0.state)
            &&& Ok::<PinWrite, &'static str>(write) == relay.line.write(write.level)
        },
        !(relay.dispatched(topic, command) is Refused),
        !(relay.dispatched(topic, command) is ReportError),
{
}

} // verus!
