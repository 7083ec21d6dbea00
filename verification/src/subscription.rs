//! Which sources of data run, how often each is asked, and under which
//! name. A source is described here and run by the caller; two
//! descriptions with the same name are the same running source.

use vstd::prelude::*;
use vstd::string::*;
use crate::text::texts;

verus! {

/// Seconds between two inventory polls while the popup is open.
pub const LIST_INTERVAL_OPEN_SECS: u64 = 3;

/// Seconds between two inventory polls while the popup is closed.
pub const LIST_INTERVAL_CLOSED_SECS: u64 = 10;

/// Seconds between two rounds of sampling.
pub const STATS_INTERVAL_SECS: u64 = 3;

/// Seconds between two rounds of inspections. Health changes slowly, so it
/// is asked for less often than usage.
pub const HEALTH_INTERVAL_SECS: u64 = 10;

/// Lines of a log that are read back before it is followed.
pub const LOG_TAIL_LINES: u32 = 200;

/// What a source does.
pub enum Source {
    /// Lists the containers again and again.
    ContainerList { include_stopped: bool },
    /// Takes one sample of each of the containers, again and again. With
    /// `one_shot` a sample is a single reading, not the first of a stream.
    ContainerStats { container_ids: Vec<String>, one_shot: bool },
    /// Inspects each of the containers, again and again.
    Health { container_ids: Vec<String> },
    /// Follows the runtime's feed of events, connecting again when it
    /// breaks off.
    LifecycleEvents,
    /// Reads the last `tail` lines of the log of one container and, with
    /// `follow`, whatever is written afterwards, until the log breaks off.
    Logs { container_id: String, tail: u32, follow: bool, stdout: bool, stderr: bool },
}

/// Mathematical value of a [`Source`].
pub enum SourceView {
    ContainerList { include_stopped: bool },
    ContainerStats { container_ids: Seq<Seq<char>>, one_shot: bool },
    Health { container_ids: Seq<Seq<char>> },
    LifecycleEvents,
    Logs { container_id: Seq<char>, tail: u32, follow: bool, stdout: bool, stderr: bool },
}

impl View for Source {
    type V = SourceView;

    open spec fn view(&self) -> SourceView {
        match self {
            Source::ContainerList { include_stopped } => SourceView::ContainerList {
                include_stopped: *include_stopped,
            },
            Source::ContainerStats { container_ids, one_shot } => SourceView::ContainerStats {
                container_ids: texts(container_ids@),
                one_shot: *one_shot,
            },
            Source::Health { container_ids } => SourceView::Health {
                container_ids: texts(container_ids@),
            },
            Source::LifecycleEvents => SourceView::LifecycleEvents,
            Source::Logs { container_id, tail, follow, stdout, stderr } => SourceView::Logs {
                container_id: container_id@,
                tail: *tail,
                follow: *follow,
                stdout: *stdout,
                stderr: *stderr,
            },
        }
    }
}

/// One source of data that is to run.
pub struct Subscription {
    /// The name under which the source runs.
    pub id: String,
    /// How many reports may wait to be taken.
    pub capacity: usize,
    /// Seconds between two rounds, for a source that polls.
    pub interval_secs: Option<u64>,
    pub source: Source,
}

/// Mathematical value of a [`Subscription`].
pub struct SubscriptionView {
    pub id: Seq<char>,
    pub capacity: usize,
    pub interval_secs: Option<u64>,
    pub source: SourceView,
}

impl View for Subscription {
    type V = SubscriptionView;

    open spec fn view(&self) -> SubscriptionView {
        SubscriptionView {
            id: self.id@,
            capacity: self.capacity,
            interval_secs: self.interval_secs,
            source: self.source@,
        }
    }
}

/// The inventory poller: every container, stopped ones too, every three
/// seconds while the popup is open and every ten while it is closed.
pub open spec fn container_list_plan(popup_open: bool) -> SubscriptionView {
    SubscriptionView {
        id: if popup_open {
            "docker-list-fast"@
        } else {
            "docker-list-slow"@
        },
        capacity: 10,
        interval_secs: Some(
            if popup_open {
                LIST_INTERVAL_OPEN_SECS
            } else {
                LIST_INTERVAL_CLOSED_SECS
            },
        ),
        source: SourceView::ContainerList { include_stopped: true },
    }
}

/// The stats poller for the containers `ids`; none where there is no
/// container to sample.
pub open spec fn container_stats_plan(ids: Seq<Seq<char>>) -> Option<SubscriptionView> {
    if ids.len() == 0 {
        None
    } else {
        Some(
            SubscriptionView {
                id: "docker-stats"@,
                capacity: 10,
                interval_secs: Some(STATS_INTERVAL_SECS),
                source: SourceView::ContainerStats { container_ids: ids, one_shot: true },
            },
        )
    }
}

/// The health poller for the containers `ids`; none where there is no
/// container to inspect.
pub open spec fn health_plan(ids: Seq<Seq<char>>) -> Option<SubscriptionView> {
    if ids.len() == 0 {
        None
    } else {
        Some(
            SubscriptionView {
                id: "docker-health"@,
                capacity: 10,
                interval_secs: Some(HEALTH_INTERVAL_SECS),
                source: SourceView::Health { container_ids: ids },
            },
        )
    }
}

/// The stream of lifecycle events.
pub open spec fn docker_events_plan() -> SubscriptionView {
    SubscriptionView {
        id: "docker-events"@,
        capacity: 20,
        interval_secs: None,
        source: SourceView::LifecycleEvents,
    }
}

/// The followed log of container `id`: the last two hundred lines of both
/// its output and its error output, then whatever is written. Each
/// container's log runs under a name of its own.
pub open spec fn log_streaming_plan(id: Seq<char>) -> SubscriptionView {
    SubscriptionView {
        id: "docker-logs-"@ + id,
        capacity: 100,
        interval_secs: None,
        source: SourceView::Logs {
            container_id: id,
            tail: LOG_TAIL_LINES,
            follow: true,
            stdout: true,
            stderr: true,
        },
    }
}

/// Describes the inventory poller.
pub fn container_list_subscription(popup_open: bool) -> (plan: Subscription)
    ensures
        plan@ == container_list_plan(popup_open),
{
    let (id, interval) = if popup_open {
        ("docker-list-fast", LIST_INTERVAL_OPEN_SECS)
    } else {
        ("docker-list-slow", LIST_INTERVAL_CLOSED_SECS)
    };
    Subscription {
        id: id.to_owned(),
        capacity: 10,
        interval_secs: Some(interval),
        source: Source::ContainerList { include_stopped: true },
    }
}

/// Describes the stats poller for the given containers.
pub fn container_stats_subscription(container_ids: Vec<String>) -> (plan: Option<Subscription>)
    ensures
        plan is Some == container_stats_plan(texts(container_ids@)) is Some,
        plan is Some ==> plan->0@ == container_stats_plan(texts(container_ids@))->0,
{
    if container_ids.len() == 0 {
        None
    } else {
        Some(
            Subscription {
                id: "docker-stats".to_owned(),
                capacity: 10,
                interval_secs: Some(STATS_INTERVAL_SECS),
                source: Source::ContainerStats { container_ids, one_shot: true },
            },
        )
    }
}

/// Describes the stream of lifecycle events.
pub fn docker_events_subscription() -> (plan: Subscription)
    ensures
        plan@ == docker_events_plan(),
{
    Subscription {
        id: "docker-events".to_owned(),
        capacity: 20,
        interval_secs: None,
        source: Source::LifecycleEvents,
    }
}

/// Describes the followed log of one container.
pub fn log_streaming_subscription(container_id: String) -> (plan: Subscription)
    ensures
        plan@ == log_streaming_plan(container_id@),
{
    let id = "docker-logs-".to_owned().concat(container_id.as_str());
    Subscription {
        id,
        capacity: 100,
        interval_secs: None,
        source: Source::Logs {
            container_id,
            tail: LOG_TAIL_LINES,
            follow: true,
            stdout: true,
            stderr: true,
        },
    }
}

/// Describes the health poller for the given containers.
pub fn health_subscription(container_ids: Vec<String>) -> (plan: Option<Subscription>)
    ensures
        plan is Some == health_plan(texts(container_ids@)) is Some,
        plan is Some ==> plan->0@ == health_plan(texts(container_ids@))->0,
{
    if container_ids.len() == 0 {
        None
    } else {
        Some(
            Subscription {
                id: "docker-health".to_owned(),
                capacity: 10,
                interval_secs: Some(HEALTH_INTERVAL_SECS),
                source: Source::Health { container_ids },
            },
        )
    }
}

} // verus!
