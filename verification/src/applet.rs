//! The reconciler: the one owner of the snapshot. Every report and every
//! wish of the user reaches it as a message; it folds the message into the
//! snapshot and answers with what is to be done.

use vstd::prelude::*;
use vstd::string::*;
use vstd::hash_map::StringHashMap;
use vstd::hash_set::StringHashSet;
use crate::container::{ContainerDetails, ContainerInfo, HealthStatus};
use crate::event::DockerEvent;
use crate::executor::{
    remove_container, restart_container, start_container, stop_container, RuntimeCall,
    RuntimeCallView, STOP_TIMEOUT_SECS,
};
use crate::ledger::{LedgerView, PendingOperationLedger};
use crate::message::{Command, CommandView, Message, Notice, NoticeView, PopupView, WindowId};
use crate::selection::{group_view, select_ids, selected_ids};
use crate::stats::ContainerStats;
use crate::subscription::{
    container_list_plan, container_list_subscription, container_stats_plan,
    container_stats_subscription, docker_events_plan, docker_events_subscription, health_plan,
    health_subscription, log_streaming_plan, log_streaming_subscription, Subscription,
    SubscriptionView,
};
use crate::text::{decimal, push_decimal, same_text, texts};

verus! {

/// Mathematical value of a [`DockerApplet`]: the snapshot, the ledger, and
/// what the popup shows.
pub struct AppletView {
    /// The open popup, if there is one.
    pub popup: Option<WindowId>,
    /// Whether the last inventory poll reached the runtime.
    pub docker_available: bool,
    /// The containers of the last inventory poll, in its order.
    pub containers: Seq<ContainerInfo>,
    /// Usage by container id, from the last round of sampling.
    pub stats: Map<Seq<char>, ContainerStats>,
    /// Health by container id, from the last round of inspections. An id
    /// without an entry has unknown health.
    pub health: Map<Seq<char>, HealthStatus>,
    pub current_view: PopupView,
    pub log_container_name: Seq<char>,
    /// The container whose log is followed; empty while none is.
    pub log_container_id: Seq<char>,
    pub log_content: Seq<char>,
    pub logs_loading: bool,
    pub ledger: LedgerView,
    pub details_container_name: Seq<char>,
    pub details_data: Option<ContainerDetails>,
    pub details_loading: bool,
    pub search_query: Seq<char>,
    pub collapsed_groups: Set<Seq<char>>,
    /// The one container whose deletion waits for confirmation.
    pub confirm_delete: Option<Seq<char>>,
}

/// The calls that stop the containers `ids`, in order.
pub open spec fn stop_calls(ids: Seq<Seq<char>>) -> Seq<RuntimeCallView> {
    ids.map_values(
        |id: Seq<char>| RuntimeCallView::Stop { id, timeout_secs: STOP_TIMEOUT_SECS },
    )
}

/// The calls that start the containers `ids`, in order.
pub open spec fn start_calls(ids: Seq<Seq<char>>) -> Seq<RuntimeCallView> {
    ids.map_values(|id: Seq<char>| RuntimeCallView::Start { id })
}

/// The address under which a port published on this machine is browsed.
pub open spec fn browser_url(port: u16) -> Seq<char> {
    "http://localhost:"@ + decimal(port as nat)
}

/// How many characters of a container id are copied.
pub const SHORT_ID_CHARS: usize = 12;

/// The id as it is copied: cut to its first twelve characters where it is
/// longer.
pub open spec fn short_id(id: Seq<char>) -> Seq<char> {
    if id.len() > SHORT_ID_CHARS {
        id.take(SHORT_ID_CHARS as int)
    } else {
        id
    }
}

/// Whether the attributes of a `health_status` event say that the health
/// check fails.
pub open spec fn reports_unhealthy(attributes: Map<Seq<char>, String>) -> bool {
    attributes.contains_key("health_status"@) && attributes["health_status"@]@ == "unhealthy"@
}

impl AppletView {
    /// The state at start: an empty snapshot, nothing in flight, no popup.
    pub open spec fn initial() -> AppletView {
        AppletView {
            popup: None,
            docker_available: true,
            containers: Seq::empty(),
            stats: Map::empty(),
            health: Map::empty(),
            current_view: PopupView::ContainerList,
            log_container_name: Seq::empty(),
            log_container_id: Seq::empty(),
            log_content: Seq::empty(),
            logs_loading: false,
            ledger: LedgerView::empty(),
            details_container_name: Seq::empty(),
            details_data: None,
            details_loading: false,
            search_query: Seq::empty(),
            collapsed_groups: Set::empty(),
            confirm_delete: None,
        }
    }

    /// The state once the popup is gone: back at the list, with no log, no
    /// search, no details and no deletion waiting.
    pub open spec fn without_popup(self) -> AppletView {
        AppletView {
            popup: None,
            current_view: PopupView::ContainerList,
            log_content: Seq::empty(),
            log_container_id: Seq::empty(),
            search_query: Seq::empty(),
            confirm_delete: None,
            details_data: None,
            ..self
        }
    }

    /// The state after a report of a source of data.
    ///
    /// Each source replaces what it reported before, as a whole. A failed
    /// inventory poll leaves no container and no usage behind. A `die`
    /// event uses up the expectation of it, if there is one.
    pub open spec fn after_event(self, event: DockerEvent) -> AppletView {
        match event {
            DockerEvent::ContainersUpdated(Ok(containers)) => AppletView {
                docker_available: true,
                containers: containers@,
                ..self
            },
            DockerEvent::ContainersUpdated(Err(_)) => AppletView {
                docker_available: false,
                containers: Seq::empty(),
                stats: Map::empty(),
                ..self
            },
            DockerEvent::StatsUpdated(stats) => AppletView { stats: stats@, ..self },
            DockerEvent::HealthUpdated(health) => AppletView { health: health@, ..self },
            DockerEvent::LogLine(id, line) => if id@ == self.log_container_id {
                AppletView { logs_loading: false, log_content: self.log_content + line@, ..self }
            } else {
                self
            },
            DockerEvent::ContainerLifecycleEvent { action, container_id, .. } => if action@
                == "die"@ {
                AppletView { ledger: self.ledger.observe_die(container_id@), ..self }
            } else {
                self
            },
        }
    }

    /// What is to be done after a report of a source of data: a
    /// notification for a `die` event that is external, and for every
    /// report of failing health; nothing otherwise.
    pub open spec fn event_command(self, event: DockerEvent) -> CommandView {
        match event {
            DockerEvent::ContainerLifecycleEvent {
                action,
                container_id,
                container_name,
                attributes,
            } => if action@ == "die"@ {
                if self.ledger.die_is_external(container_id@) {
                    CommandView::Notify(NoticeView::ContainerStopped(container_name@))
                } else {
                    CommandView::Idle
                }
            } else if action@ == "health_status"@ && reports_unhealthy(attributes@) {
                CommandView::Notify(NoticeView::ContainerUnhealthy(container_name@))
            } else {
                CommandView::Idle
            },
            _ => CommandView::Idle,
        }
    }

    /// Whether the snapshot has a container with the id `id`.
    pub open spec fn knows(self, id: Seq<char>) -> bool {
        exists|i: int| 0 <= i < self.containers.len() && (#[trigger] self.containers[i]).id@ == id
    }

    /// The usage of the container `id`, as far as it can be read: the
    /// snapshot has the container, and the last round of sampling has its
    /// usage. What was sampled of a container that the snapshot does not
    /// have shows nowhere.
    pub open spec fn usage_of(self, id: Seq<char>) -> Option<ContainerStats> {
        if self.knows(id) && self.stats.contains_key(id) {
            Some(self.stats[id])
        } else {
            None
        }
    }

    /// The health of the container `id`, as far as it can be read: unknown
    /// unless the snapshot has the container and the last round of
    /// inspections has its health.
    pub open spec fn health_of(self, id: Seq<char>) -> HealthStatus {
        if self.knows(id) && self.health.contains_key(id) {
            self.health[id]
        } else {
            HealthStatus::Unknown
        }
    }

    /// Whether the popup is open.
    pub open spec fn popup_open(self) -> bool {
        self.popup is Some
    }

    /// Whether usage and health are of interest: the popup is open and
    /// shows the list.
    pub open spec fn watches_list(self) -> bool {
        self.popup_open() && self.current_view == PopupView::ContainerList
    }

    /// Whether a log is of interest: the popup is open and shows the log of
    /// a container.
    pub open spec fn watches_log(self) -> bool {
        self.popup_open() && self.current_view == PopupView::ContainerLogs
            && self.log_container_id.len() > 0
    }

    /// The sources of data that are to run in this state, in this order:
    /// the inventory poller and the stream of lifecycle events always; the
    /// stats and health pollers for the running containers while the list
    /// is watched and a container runs; the log of one container while it
    /// is watched.
    pub open spec fn subscriptions(self) -> Seq<SubscriptionView> {
        let running = selected_ids(self.containers, true, None);
        let always = seq![container_list_plan(self.popup_open()), docker_events_plan()];
        let polls = if self.watches_list() && running.len() > 0 {
            seq![container_stats_plan(running)->0, health_plan(running)->0]
        } else {
            Seq::empty()
        };
        let logs = if self.watches_log() {
            seq![log_streaming_plan(self.log_container_id)]
        } else {
            Seq::empty()
        };
        always + polls + logs
    }

    /// Whether deleting `id` has been asked for and waits for confirmation.
    pub open spec fn awaits_confirmation(self, id: Seq<char>) -> bool {
        self.confirm_delete == Some(id)
    }

    /// The state after a message. `fresh_window` names the popup, should
    /// the message open one.
    pub open spec fn after(self, message: Message, fresh_window: WindowId) -> AppletView {
        match message {
            Message::TogglePopup => if self.popup is Some {
                self.without_popup()
            } else {
                AppletView {
                    popup: Some(fresh_window),
                    current_view: PopupView::ContainerList,
                    ..self
                }
            },
            Message::PopupClosed(window) => if self.popup == Some(window) {
                self.without_popup()
            } else {
                self
            },
            Message::DockerEvent(event) => self.after_event(event),
            Message::StartContainer(id) => AppletView { ledger: self.ledger.begin(id@), ..self },
            Message::StopContainer(id) => AppletView {
                ledger: self.ledger.begin_stop(id@),
                ..self
            },
            Message::RestartContainer(id) => AppletView {
                ledger: self.ledger.begin_stop(id@),
                ..self
            },
            Message::ActionCompleted(Ok(id)) => AppletView {
                ledger: self.ledger.succeed(id@),
                ..self
            },
            Message::ActionCompleted(Err(_)) => AppletView { ledger: self.ledger.fail(), ..self },
            Message::ShowLogs(id, name) => AppletView {
                current_view: PopupView::ContainerLogs,
                log_container_name: name@,
                log_container_id: id@,
                log_content: Seq::empty(),
                logs_loading: true,
                ..self
            },
            Message::BackToList => AppletView {
                current_view: PopupView::ContainerList,
                log_content: Seq::empty(),
                log_container_id: Seq::empty(),
                details_data: None,
                ..self
            },
            Message::OpenInBrowser(_) => self,
            Message::SearchChanged(query) => AppletView { search_query: query@, ..self },
            Message::ClearSearch => AppletView { search_query: Seq::empty(), ..self },
            Message::ToggleGroup(name) => AppletView {
                collapsed_groups: if self.collapsed_groups.contains(name@) {
                    self.collapsed_groups.remove(name@)
                } else {
                    self.collapsed_groups.insert(name@)
                },
                ..self
            },
            Message::StopAll => AppletView {
                ledger: self.ledger.begin_stop_all(selected_ids(self.containers, true, None)),
                ..self
            },
            Message::StartAll => AppletView {
                ledger: self.ledger.begin_all(selected_ids(self.containers, false, None)),
                ..self
            },
            Message::StopGroup(group) => AppletView {
                ledger: self.ledger.begin_stop_all(
                    selected_ids(self.containers, true, Some(group@)),
                ),
                ..self
            },
            Message::StartGroup(group) => AppletView {
                ledger: self.ledger.begin_all(
                    selected_ids(self.containers, false, Some(group@)),
                ),
                ..self
            },
            Message::DeleteContainer(id) => AppletView { confirm_delete: Some(id@), ..self },
            Message::ConfirmDelete(id) => if self.awaits_confirmation(id@) {
                AppletView { confirm_delete: None, ledger: self.ledger.begin(id@), ..self }
            } else {
                self
            },
            Message::CancelDelete => AppletView { confirm_delete: None, ..self },
            Message::CopyContainerId(_) => self,
            Message::ShowDetails(_, name) => AppletView {
                current_view: PopupView::ContainerDetails,
                details_container_name: name@,
                details_data: None,
                details_loading: true,
                ..self
            },
            Message::DetailsReceived(Ok(answer)) => AppletView {
                details_loading: false,
                details_data: Some(answer.1),
                ..self
            },
            Message::DetailsReceived(Err(_)) => AppletView { details_loading: false, ..self },
        }
    }

    /// What is to be done after a message.
    pub open spec fn command(self, message: Message, fresh_window: WindowId) -> CommandView {
        match message {
            Message::TogglePopup => match self.popup {
                Some(window) => CommandView::ClosePopup(window),
                None => CommandView::OpenPopup(fresh_window),
            },
            Message::DockerEvent(event) => self.event_command(event),
            Message::StartContainer(id) => CommandView::Run(RuntimeCallView::Start { id: id@ }),
            Message::StopContainer(id) => CommandView::Run(
                RuntimeCallView::Stop { id: id@, timeout_secs: STOP_TIMEOUT_SECS },
            ),
            Message::RestartContainer(id) => CommandView::Run(
                RuntimeCallView::Restart { id: id@, timeout_secs: STOP_TIMEOUT_SECS },
            ),
            Message::OpenInBrowser(port) => CommandView::OpenUrl(browser_url(port)),
            Message::StopAll => CommandView::RunEach(
                stop_calls(selected_ids(self.containers, true, None)),
            ),
            Message::StartAll => CommandView::RunEach(
                start_calls(selected_ids(self.containers, false, None)),
            ),
            Message::StopGroup(group) => CommandView::RunEach(
                stop_calls(selected_ids(self.containers, true, Some(group@))),
            ),
            Message::StartGroup(group) => CommandView::RunEach(
                start_calls(selected_ids(self.containers, false, Some(group@))),
            ),
            Message::ConfirmDelete(id) => if self.awaits_confirmation(id@) {
                CommandView::Run(RuntimeCallView::Remove { id: id@, force: false, volumes: false })
            } else {
                CommandView::Idle
            },
            Message::CopyContainerId(id) => CommandView::CopyText(short_id(id@)),
            Message::ShowDetails(id, _) => CommandView::FetchDetails(id@),
            _ => CommandView::Idle,
        }
    }
}

/// The reconciler's state. Only [`DockerApplet::update`] changes it.
pub struct DockerApplet {
    popup: Option<WindowId>,
    docker_available: bool,
    containers: Vec<ContainerInfo>,
    stats: StringHashMap<ContainerStats>,
    current_view: PopupView,
    log_container_name: String,
    log_container_id: String,
    log_content: String,
    logs_loading: bool,
    ledger: PendingOperationLedger,
    health: StringHashMap<HealthStatus>,
    details_container_name: String,
    details_data: Option<ContainerDetails>,
    details_loading: bool,
    search_query: String,
    collapsed_groups: StringHashSet,
    confirm_delete: Option<String>,
}

impl View for DockerApplet {
    type V = AppletView;

    closed spec fn view(&self) -> AppletView {
        AppletView {
            popup: self.popup,
            docker_available: self.docker_available,
            containers: self.containers@,
            stats: self.stats@,
            health: self.health@,
            current_view: self.current_view,
            log_container_name: self.log_container_name@,
            log_container_id: self.log_container_id@,
            log_content: self.log_content@,
            logs_loading: self.logs_loading,
            ledger: self.ledger@,
            details_container_name: self.details_container_name@,
            details_data: self.details_data,
            details_loading: self.details_loading,
            search_query: self.search_query@,
            collapsed_groups: self.collapsed_groups@,
            confirm_delete: match self.confirm_delete {
                Some(id) => Some(id@),
                None => None,
            },
        }
    }
}

/// The calls that stop the given containers.
fn stop_each(ids: Vec<String>) -> (calls: Vec<RuntimeCall>)
    ensures
        calls@.map_values(|call: RuntimeCall| call@) == stop_calls(texts(ids@)),
{
    let ghost given = ids@;
    let mut calls: Vec<RuntimeCall> = Vec::new();
    for id in it: ids
        invariant
            it.seq() == given,
            calls@.len() == it.index(),
            forall|j: int|
                0 <= j < it.index() ==> (#[trigger] calls@[j])@ == (RuntimeCallView::Stop {
                    id: given[j]@,
                    timeout_secs: STOP_TIMEOUT_SECS,
                }),
    {
        calls.push(stop_container(id));
    }
    assert(calls@.map_values(|call: RuntimeCall| call@) =~= stop_calls(texts(given)));
    calls
}

/// The calls that start the given containers.
fn start_each(ids: Vec<String>) -> (calls: Vec<RuntimeCall>)
    ensures
        calls@.map_values(|call: RuntimeCall| call@) == start_calls(texts(ids@)),
{
    let ghost given = ids@;
    let mut calls: Vec<RuntimeCall> = Vec::new();
    for id in it: ids
        invariant
            it.seq() == given,
            calls@.len() == it.index(),
            forall|j: int|
                0 <= j < it.index() ==> (#[trigger] calls@[j])@ == (RuntimeCallView::Start {
                    id: given[j]@,
                }),
    {
        calls.push(start_container(id));
    }
    assert(calls@.map_values(|call: RuntimeCall| call@) =~= start_calls(texts(given)));
    calls
}

/// The address under which a port published on this machine is browsed.
pub fn browser_address(port: u16) -> (address: String)
    ensures
        address@ == browser_url(port),
{
    push_decimal("http://localhost:".to_owned(), port as u64)
}

/// The id as it is copied: its first twelve characters.
pub fn shorten_id(id: &str) -> (short: String)
    ensures
        short@ == short_id(id@),
{
    if id.unicode_len() > SHORT_ID_CHARS {
        id.substring_char(0, SHORT_ID_CHARS).to_owned()
    } else {
        id.to_owned()
    }
}

impl DockerApplet {
    /// The reconciler at start: an empty snapshot, nothing in flight, no
    /// popup. Until the first inventory poll says otherwise, the runtime
    /// counts as available.
    pub fn new() -> (applet: DockerApplet)
        ensures
            applet@ == AppletView::initial(),
    {
        DockerApplet {
            popup: None,
            docker_available: true,
            containers: Vec::new(),
            stats: StringHashMap::new(),
            current_view: PopupView::ContainerList,
            log_container_name: String::new(),
            log_container_id: String::new(),
            log_content: String::new(),
            logs_loading: false,
            ledger: PendingOperationLedger::new(),
            health: StringHashMap::new(),
            details_container_name: String::new(),
            details_data: None,
            details_loading: false,
            search_query: String::new(),
            collapsed_groups: StringHashSet::new(),
            confirm_delete: None,
        }
    }

    fn forget_popup(&mut self)
        ensures
            final(self)@ == old(self)@.without_popup(),
    {
        self.popup = None;
        self.current_view = PopupView::ContainerList;
        self.log_content = String::new();
        self.log_container_id = String::new();
        self.search_query = String::new();
        self.confirm_delete = None;
        self.details_data = None;
    }

    fn apply_event(&mut self, event: DockerEvent) -> (command: Command)
        ensures
            final(self)@ == old(self)@.after_event(event),
            command@ == old(self)@.event_command(event),
    {
        match event {
            DockerEvent::ContainersUpdated(Ok(containers)) => {
                self.docker_available = true;
                self.containers = containers;
                Command::Idle
            },
            DockerEvent::ContainersUpdated(Err(_)) => {
                self.docker_available = false;
                self.containers = Vec::new();
                self.stats = StringHashMap::new();
                Command::Idle
            },
            DockerEvent::StatsUpdated(stats) => {
                self.stats = stats;
                Command::Idle
            },
            DockerEvent::HealthUpdated(health) => {
                self.health = health;
                Command::Idle
            },
            DockerEvent::LogLine(id, line) => {
                if id == self.log_container_id {
                    self.logs_loading = false;
                    self.log_content.append(line.as_str());
                }
                Command::Idle
            },
            DockerEvent::ContainerLifecycleEvent {
                action,
                container_id,
                container_name,
                attributes,
            } => {
                if same_text(action.as_str(), "die") {
                    if self.ledger.observe_die(container_id.as_str()) {
                        Command::Notify(Notice::ContainerStopped(container_name))
                    } else {
                        Command::Idle
                    }
                } else if same_text(action.as_str(), "health_status") {
                    let unhealthy = match attributes.get("health_status") {
                        Some(status) => same_text(status.as_str(), "unhealthy"),
                        None => false,
                    };
                    if unhealthy {
                        Command::Notify(Notice::ContainerUnhealthy(container_name))
                    } else {
                        Command::Idle
                    }
                } else {
                    Command::Idle
                }
            },
        }
    }

    fn begin_batch(&mut self, stop: bool, group: Option<&str>) -> (command: Command)
        ensures
            final(self)@ == (AppletView {
                ledger: if stop {
                    old(self)@.ledger.begin_stop_all(
                        selected_ids(old(self)@.containers, true, group_view(group)),
                    )
                } else {
                    old(self)@.ledger.begin_all(
                        selected_ids(old(self)@.containers, false, group_view(group)),
                    )
                },
                ..old(self)@
            }),
            command@ == CommandView::RunEach(
                if stop {
                    stop_calls(selected_ids(old(self)@.containers, true, group_view(group)))
                } else {
                    start_calls(selected_ids(old(self)@.containers, false, group_view(group)))
                },
            ),
    {
        let ids = select_ids(&self.containers, stop, group);
        if stop {
            self.ledger.begin_stop_all(&ids);
            Command::RunEach(stop_each(ids))
        } else {
            self.ledger.begin_all(&ids);
            Command::RunEach(start_each(ids))
        }
    }

    /// The sources of data that are to run in the present state.
    pub fn subscription(&self) -> (plans: Vec<Subscription>)
        ensures
            plans@.map_values(|plan: Subscription| plan@) == self@.subscriptions(),
    {
        let popup_open = self.popup.is_some();
        let mut plans: Vec<Subscription> = Vec::new();
        plans.push(container_list_subscription(popup_open));
        plans.push(docker_events_subscription());
        let watches_list = popup_open && match self.current_view {
            PopupView::ContainerList => true,
            _ => false,
        };
        if watches_list {
            match container_stats_subscription(select_ids(&self.containers, true, None)) {
                Some(plan) => plans.push(plan),
                None => {},
            }
            match health_subscription(select_ids(&self.containers, true, None)) {
                Some(plan) => plans.push(plan),
                None => {},
            }
        }
        let watches_log = popup_open && match self.current_view {
            PopupView::ContainerLogs => true,
            _ => false,
        } && !self.log_container_id.as_str().is_empty();
        if watches_log {
            plans.push(log_streaming_subscription(self.log_container_id.clone()));
        }
        assert(plans@.map_values(|plan: Subscription| plan@) =~= self@.subscriptions());
        plans
    }

    /// Folds one message into the state and says what is to be done.
    ///
    /// `fresh_window` is the name to give the popup, should the message
    /// open one; otherwise it is not looked at.
    pub fn update(&mut self, message: Message, fresh_window: WindowId) -> (command: Command)
        ensures
            final(self)@ == old(self)@.after(message, fresh_window),
            command@ == old(self)@.command(message, fresh_window),
    {
        match message {
            Message::TogglePopup => {
                match self.popup {
                    Some(window) => {
                        self.forget_popup();
                        Command::ClosePopup(window)
                    },
                    None => {
                        self.popup = Some(fresh_window);
                        self.current_view = PopupView::ContainerList;
                        Command::OpenPopup(fresh_window)
                    },
                }
            },
            Message::PopupClosed(window) => {
                let ours = match self.popup {
                    Some(open) => open == window,
                    None => false,
                };
                if ours {
                    self.forget_popup();
                }
                Command::Idle
            },
            Message::DockerEvent(event) => self.apply_event(event),
            Message::StartContainer(id) => {
                self.ledger.begin(id.clone());
                Command::Run(start_container(id))
            },
            Message::StopContainer(id) => {
                self.ledger.begin_stop(id.clone());
                Command::Run(stop_container(id))
            },
            Message::RestartContainer(id) => {
                self.ledger.begin_stop(id.clone());
                Command::Run(restart_container(id))
            },
            Message::ActionCompleted(result) => {
                match result {
                    Ok(id) => self.ledger.succeed(id.as_str()),
                    Err(_) => self.ledger.fail(),
                }
                Command::Idle
            },
            Message::ShowLogs(id, name) => {
                self.current_view = PopupView::ContainerLogs;
                self.log_container_name = name;
                self.log_container_id = id;
                self.log_content = String::new();
                self.logs_loading = true;
                Command::Idle
            },
            Message::BackToList => {
                self.current_view = PopupView::ContainerList;
                self.log_content = String::new();
                self.log_container_id = String::new();
                self.details_data = None;
                Command::Idle
            },
            Message::OpenInBrowser(port) => Command::OpenUrl(browser_address(port)),
            Message::SearchChanged(query) => {
                self.search_query = query;
                Command::Idle
            },
            Message::ClearSearch => {
                self.search_query = String::new();
                Command::Idle
            },
            Message::ToggleGroup(name) => {
                if !self.collapsed_groups.remove(name.as_str()) {
                    self.collapsed_groups.insert(name);
                    assert(self.collapsed_groups@ =~= old(self).collapsed_groups@.insert(name@));
                }
                Command::Idle
            },
            Message::StopAll => self.begin_batch(true, None),
            Message::StartAll => self.begin_batch(false, None),
            Message::StopGroup(group) => self.begin_batch(true, Some(group.as_str())),
            Message::StartGroup(group) => self.begin_batch(false, Some(group.as_str())),
            Message::DeleteContainer(id) => {
                self.confirm_delete = Some(id);
                Command::Idle
            },
            Message::ConfirmDelete(id) => {
                let awaited = match &self.confirm_delete {
                    Some(waiting) => same_text(waiting.as_str(), id.as_str()),
                    None => false,
                };
                if awaited {
                    self.confirm_delete = None;
                    self.ledger.begin(id.clone());
                    Command::Run(remove_container(id))
                } else {
                    Command::Idle
                }
            },
            Message::CancelDelete => {
                self.confirm_delete = None;
                Command::Idle
            },
            Message::CopyContainerId(id) => Command::CopyText(shorten_id(id.as_str())),
            Message::ShowDetails(id, name) => {
                self.current_view = PopupView::ContainerDetails;
                self.details_container_name = name;
                self.details_data = None;
                self.details_loading = true;
                Command::FetchDetails(id)
            },
            Message::DetailsReceived(result) => {
                self.details_loading = false;
                match result {
                    Ok(answer) => {
                        self.details_data = Some(answer.1);
                    },
                    Err(_) => {},
                }
                Command::Idle
            },
        }
    }
}

impl DockerApplet {
    /// The open popup, if there is one.
    pub fn popup(&self) -> (popup: Option<WindowId>)
        ensures
            popup == self@.popup,
    {
        self.popup
    }

    /// Whether the last inventory poll reached the runtime. While it did
    /// not, the snapshot is empty: no stale container is shown.
    pub fn docker_available(&self) -> (available: bool)
        ensures
            available == self@.docker_available,
    {
        self.docker_available
    }

    /// The containers of the last inventory poll, in its order.
    pub fn containers(&self) -> (containers: &Vec<ContainerInfo>)
        ensures
            containers@ == self@.containers,
    {
        &self.containers
    }

    /// Whether the snapshot has a container with the id `id`.
    pub fn has_container(&self, id: &str) -> (known: bool)
        ensures
            known == self@.knows(id@),
    {
        let mut i: usize = 0;
        while i < self.containers.len()
            invariant
                i <= self.containers.len(),
                forall|j: int| 0 <= j < i ==> (#[trigger] self.containers@[j]).id@ != id@,
            decreases self.containers.len() - i,
        {
            if same_text(self.containers[i].id.as_str(), id) {
                return true;
            }
            i += 1;
        }
        false
    }

    /// The usage of the container `id`: what the last round of sampling
    /// has for it, if the snapshot has the container.
    pub fn stats_of(&self, id: &str) -> (stats: Option<&ContainerStats>)
        ensures
            match stats {
                Some(stats) => self@.usage_of(id@) == Some(*stats),
                None => self@.usage_of(id@) is None,
            },
    {
        if self.has_container(id) {
            self.stats.get(id)
        } else {
            None
        }
    }

    /// The health of the container `id`: what the last round of inspections
    /// has for it, if the snapshot has the container, and unknown otherwise.
    pub fn health_of(&self, id: &str) -> (health: HealthStatus)
        ensures
            health == self@.health_of(id@),
    {
        if !self.has_container(id) {
            return HealthStatus::Unknown;
        }
        match self.health.get(id) {
            Some(health) => *health,
            None => HealthStatus::Unknown,
        }
    }

    /// What the popup shows.
    pub fn current_view(&self) -> (shown: PopupView)
        ensures
            shown == self@.current_view,
    {
        self.current_view
    }

    /// The name of the container whose log was asked for last.
    pub fn log_container_name(&self) -> (name: &String)
        ensures
            name@ == self@.log_container_name,
    {
        &self.log_container_name
    }

    /// The id of the container whose log is followed; empty while none is.
    pub fn log_container_id(&self) -> (id: &String)
        ensures
            id@ == self@.log_container_id,
    {
        &self.log_container_id
    }

    /// The log read so far.
    pub fn log_content(&self) -> (content: &String)
        ensures
            content@ == self@.log_content,
    {
        &self.log_content
    }

    /// Whether a log was asked for and nothing of it has come yet.
    pub fn logs_loading(&self) -> (loading: bool)
        ensures
            loading == self@.logs_loading,
    {
        self.logs_loading
    }

    /// Whether a command for the container `id` is in flight.
    pub fn is_pending(&self, id: &str) -> (pending: bool)
        ensures
            pending == self@.ledger.pending_ops.contains(id@),
    {
        self.ledger.is_pending(id)
    }

    /// Whether the next `die` event for the container `id` is expected.
    pub fn expects_die(&self, id: &str) -> (expected: bool)
        ensures
            expected == self@.ledger.user_initiated_stops.contains(id@),
    {
        self.ledger.expects_die(id)
    }

    /// The ledger of operations in flight.
    pub fn ledger(&self) -> (ledger: &PendingOperationLedger)
        ensures
            ledger@ == self@.ledger,
    {
        &self.ledger
    }

    /// The name of the container whose details were asked for last.
    pub fn details_container_name(&self) -> (name: &String)
        ensures
            name@ == self@.details_container_name,
    {
        &self.details_container_name
    }

    /// The details received last, unless they were dismissed since.
    pub fn details_data(&self) -> (details: &Option<ContainerDetails>)
        ensures
            *details == self@.details_data,
    {
        &self.details_data
    }

    /// Whether details were asked for and have not come yet.
    pub fn details_loading(&self) -> (loading: bool)
        ensures
            loading == self@.details_loading,
    {
        self.details_loading
    }

    /// What the user searches for.
    pub fn search_query(&self) -> (query: &String)
        ensures
            query@ == self@.search_query,
    {
        &self.search_query
    }

    /// Whether the group `name` is shown collapsed.
    pub fn is_collapsed(&self, name: &str) -> (collapsed: bool)
        ensures
            collapsed == self@.collapsed_groups.contains(name@),
    {
        self.collapsed_groups.contains(name)
    }

    /// The groups that are shown collapsed.
    pub fn collapsed_groups(&self) -> (groups: &StringHashSet)
        ensures
            groups@ == self@.collapsed_groups,
    {
        &self.collapsed_groups
    }

    /// The container whose deletion waits for confirmation, if one does.
    pub fn confirm_delete(&self) -> (waiting: Option<&String>)
        ensures
            match waiting {
                Some(id) => self@.confirm_delete == Some(id@),
                None => self@.confirm_delete is None,
            },
    {
        self.confirm_delete.as_ref()
    }
}

} // verus!
