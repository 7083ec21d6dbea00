//! What the sources of data report to the reconciler, and how the two
//! streams, lifecycle events and followed logs, are read.

use vstd::prelude::*;
use vstd::hash_map::StringHashMap;
use bollard::container::LogOutput;
use crate::container::{ContainerInfo, HealthStatus};
use crate::inventory::text_or_empty;
use crate::stats::ContainerStats;

verus! {

/// One report from a source of data.
pub enum DockerEvent {
    /// An inventory poll ended: with every container there is, or with a
    /// failure.
    ContainersUpdated(Result<Vec<ContainerInfo>, String>),
    /// A round of sampling ended, with the usage by container id.
    StatsUpdated(StringHashMap<ContainerStats>),
    /// A round of inspections ended, with the health by container id.
    HealthUpdated(StringHashMap<HealthStatus>),
    /// The log of the container with the given id went on by the given text.
    LogLine(String, String),
    /// The runtime reported a change of a container's state.
    ContainerLifecycleEvent {
        action: String,
        container_id: String,
        container_name: String,
        attributes: StringHashMap<String>,
    },
}

/// What kind of object a runtime event is about.
#[derive(Clone, Copy, Debug, PartialEq, Eq, Structural)]
pub enum EventType {
    Empty,
    Builder,
    Config,
    Container,
    Daemon,
    Image,
    Network,
    Node,
    Plugin,
    Secret,
    Service,
    Volume,
}

/// The object that a runtime event is about.
pub struct ActorRecord {
    pub id: Option<String>,
    pub attributes: Option<StringHashMap<String>>,
}

/// One event as the runtime's feed delivers it; the runtime may leave any
/// field out.
pub struct EventRecord {
    pub typ: Option<EventType>,
    pub action: Option<String>,
    pub actor: Option<ActorRecord>,
}

impl EventRecord {
    /// Whether the event is about a container.
    pub open spec fn is_container_event(self) -> bool {
        self.typ == Some(EventType::Container)
    }

    /// The id of the object, empty where the event names none.
    pub open spec fn actor_id(self) -> Seq<char> {
        match self.actor {
            Some(actor) => text_or_empty(actor.id),
            None => Seq::empty(),
        }
    }

    /// The attributes of the object, none where the event has none.
    pub open spec fn actor_attributes(self) -> Map<Seq<char>, String> {
        match self.actor {
            Some(actor) => match actor.attributes {
                Some(attributes) => attributes@,
                None => Map::empty(),
            },
            None => Map::empty(),
        }
    }

    /// The object's `name` attribute, empty where it has none.
    pub open spec fn actor_name(self) -> Seq<char> {
        if self.actor_attributes().contains_key("name"@) {
            self.actor_attributes()["name"@]@
        } else {
            Seq::empty()
        }
    }

    /// Whether `event` is the lifecycle event of this record: action, id
    /// and attributes as delivered, missing ones empty, and the name taken
    /// from the attributes.
    pub open spec fn read_as(self, event: DockerEvent) -> bool {
        match event {
            DockerEvent::ContainerLifecycleEvent {
                action,
                container_id,
                container_name,
                attributes,
            } => {
                &&& action@ == text_or_empty(self.action)
                &&& container_id@ == self.actor_id()
                &&& container_name@ == self.actor_name()
                &&& attributes@ == self.actor_attributes()
            },
            _ => false,
        }
    }
}

/// Reads one event of the runtime's feed. Only an event about a container
/// is a lifecycle event; any other is dropped.
pub fn lifecycle_event(record: EventRecord) -> (event: Option<DockerEvent>)
    ensures
        record.is_container_event() ==> event is Some && record.read_as(event->0),
        !record.is_container_event() ==> event is None,
{
    let EventRecord { typ, action, actor } = record;
    let about_container = match typ {
        Some(EventType::Container) => true,
        _ => false,
    };
    if !about_container {
        return None;
    }
    let action = match action {
        Some(action) => action,
        None => String::new(),
    };
    let (container_id, attributes) = match actor {
        Some(actor) => {
            let ActorRecord { id, attributes } = actor;
            let id = match id {
                Some(id) => id,
                None => String::new(),
            };
            let attributes = match attributes {
                Some(attributes) => attributes,
                None => StringHashMap::new(),
            };
            (id, attributes)
        },
        None => (String::new(), StringHashMap::new()),
    };
    let container_name = match attributes.get("name") {
        Some(name) => name.clone(),
        None => String::new(),
    };
    Some(
        DockerEvent::ContainerLifecycleEvent { action, container_id, container_name, attributes },
    )
}

/// Seconds to wait before connecting again when the runtime could not be
/// reached.
pub const CONNECT_RETRY_SECS: u64 = 5;

/// Seconds to wait before connecting again when the feed of events broke
/// off or ended.
pub const RECONNECT_SECS: u64 = 2;

/// What happened to the feed of lifecycle events.
pub enum FeedInput {
    /// The runtime could not be reached.
    ConnectFailed,
    /// The feed delivered an event.
    Delivered(EventRecord),
    /// Reading the feed failed.
    ReadFailed,
    /// The feed ended.
    Ended,
}

/// What to do next with the feed of lifecycle events. There is no step
/// that gives the feed up: it is followed for as long as anyone listens.
pub enum FeedStep {
    /// Hand the event on at once, then read on.
    Forward(DockerEvent),
    /// Read on; the event was not about a container.
    ReadOn,
    /// Wait for the given number of seconds, then connect again.
    Reconnect { after_secs: u64 },
}

/// Decides what to do next with the feed of lifecycle events.
pub fn event_feed_step(input: FeedInput) -> (step: FeedStep)
    ensures
        match input {
            FeedInput::ConnectFailed => step == (FeedStep::Reconnect {
                after_secs: CONNECT_RETRY_SECS,
            }),
            FeedInput::Delivered(record) => if record.is_container_event() {
                step is Forward && record.read_as(step->Forward_0)
            } else {
                step is ReadOn
            },
            FeedInput::ReadFailed => step == (FeedStep::Reconnect { after_secs: RECONNECT_SECS }),
            FeedInput::Ended => step == (FeedStep::Reconnect { after_secs: RECONNECT_SECS }),
        },
{
    match input {
        FeedInput::ConnectFailed => FeedStep::Reconnect { after_secs: CONNECT_RETRY_SECS },
        FeedInput::Delivered(record) => match lifecycle_event(record) {
            Some(event) => FeedStep::Forward(event),
            None => FeedStep::ReadOn,
        },
        FeedInput::ReadFailed => FeedStep::Reconnect { after_secs: RECONNECT_SECS },
        FeedInput::Ended => FeedStep::Reconnect { after_secs: RECONNECT_SECS },
    }
}

/// The text of a piece of log output, as the runtime client's `LogOutput`
/// displays the bytes of its message.
pub uninterp spec fn log_text_of(message: Seq<u8>) -> Seq<char>;

/// Calls `to_string` on a `bollard::container::LogOutput` that holds the
/// given bytes as its message. The client displays the message and nothing
/// else, whichever stream it came from, and what it displays depends on the
/// bytes alone; nothing else is claimed here than that the result is the
/// one named [`log_text_of`].
#[verifier::external_body]
fn log_text(message: &Vec<u8>) -> (text: String)
    ensures
        text@ == log_text_of(message@),
{
    LogOutput::StdOut { message: message.clone().into() }.to_string()
}

/// What happened to the followed log of a container.
pub enum LogInput {
    /// The runtime could not be reached.
    ConnectFailed,
    /// The log went on by a message of the given bytes.
    Delivered(Vec<u8>),
    /// Reading the log failed.
    ReadFailed,
    /// The log ended.
    Ended,
}

/// What to do next with the followed log of a container.
pub enum LogStep {
    /// Hand the text on, then read on.
    Forward(DockerEvent),
    /// Give the log up. It is not followed again by itself: whoever still
    /// wants it asks anew.
    Stop,
}

/// The report that the log of container `container_id` went on by `text`.
pub fn log_line(container_id: &String, text: String) -> (event: DockerEvent)
    ensures
        event matches DockerEvent::LogLine(id, line) && id@ == container_id@ && line@ == text@,
{
    DockerEvent::LogLine(container_id.clone(), text)
}

/// Decides what to do next with the followed log of container
/// `container_id`: a message is handed on as its text, tagged with the
/// container's id, and anything else ends the log.
pub fn log_stream_step(container_id: &String, input: LogInput) -> (step: LogStep)
    ensures
        match input {
            LogInput::Delivered(message) => step matches LogStep::Forward(
                DockerEvent::LogLine(id, line),
            ) && id@ == container_id@ && line@ == log_text_of(message@),
            _ => step is Stop,
        },
{
    match input {
        LogInput::Delivered(message) => LogStep::Forward(
            log_line(container_id, log_text(&message)),
        ),
        _ => LogStep::Stop,
    }
}

} // verus!
