//! State synchronisation and operation tracking for a container runtime
//! client: exact models of what the runtime reports, the rules that fold
//! those reports into one snapshot, and the ledger of operations in flight.
//!
//! The [`applet::DockerApplet`] is the reconciler. It is told everything as a
//! [`message::Message`] and answers each with a [`message::Command`]; it
//! never talks to the runtime itself. What the runtime says reaches it as
//! plain records (see [`inventory`], [`stats`], [`inspect`] and [`event`]),
//! and which sources of data are to run is described by
//! [`subscription::Subscription`]. The module [`laws`] states what holds of
//! the reconciler in every state.

pub mod applet;
pub mod arrange;
pub mod container;
pub mod display;
pub mod event;
pub mod executor;
pub mod inspect;
pub mod inventory;
pub mod laws;
pub mod ledger;
pub mod message;
pub mod order;
pub mod present;
pub mod search;
pub mod selection;
pub mod stats;
pub mod subscription;
pub mod text;

pub use vstd::hash_map::StringHashMap;
pub use vstd::hash_set::StringHashSet;

pub use crate::applet::DockerApplet;
pub use crate::container::{
    format_ports, parse_state, ContainerDetails, ContainerInfo, ContainerState, HealthStatus,
    PortMapping,
};
pub use crate::event::DockerEvent;
pub use crate::executor::{remove_container, restart_container, start_container, stop_container};
pub use crate::inspect::{fetch_container_details, fetch_health_statuses};
pub use crate::inventory::fetch_containers;
pub use crate::message::{Command, Message};
pub use crate::stats::{
    calculate_cpu_percent, calculate_memory, fetch_stats, ContainerStats,
};
pub use crate::subscription::{
    container_list_subscription, container_stats_subscription, docker_events_subscription,
    health_subscription, log_streaming_subscription,
};
