//! What holds of the reconciler in every state, stated over its model and
//! proved from the transition it makes on each message.

use vstd::prelude::*;
use crate::applet::AppletView;
use vstd::hash_map::StringHashMap;
use crate::container::{ContainerInfo, HealthStatus};
use crate::event::DockerEvent;
use crate::executor::RuntimeCallView;
use crate::message::{CommandView, Message, NoticeView, WindowId};
use crate::selection::{ids_of, running_ids, selected_ids};
use crate::stats::ContainerStats;
use crate::subscription::{container_list_plan, docker_events_plan, log_streaming_plan, SourceView};

verus! {

/// The state after a run of messages, each with the window name that came
/// with it.
pub open spec fn after_all(state: AppletView, messages: Seq<(Message, WindowId)>) -> AppletView
    decreases messages.len(),
{
    if messages.len() == 0 {
        state
    } else {
        after_all(state, messages.drop_last()).after(messages.last().0, messages.last().1)
    }
}

/// What a message says about the inventory, if it is the result of an
/// inventory poll: the containers listed, none after a failed poll.
pub open spec fn inventory_of(message: Message) -> Option<Seq<ContainerInfo>> {
    match message {
        Message::DockerEvent(DockerEvent::ContainersUpdated(Ok(containers))) => Some(
            containers@,
        ),
        Message::DockerEvent(DockerEvent::ContainersUpdated(Err(_))) => Some(Seq::empty()),
        _ => None,
    }
}

/// The inventory that the last inventory poll among the messages reported,
/// and `before` where there was no poll among them.
pub open spec fn last_inventory(
    before: Seq<ContainerInfo>,
    messages: Seq<(Message, WindowId)>,
) -> Seq<ContainerInfo>
    decreases messages.len(),
{
    if messages.len() == 0 {
        before
    } else {
        match inventory_of(messages.last().0) {
            Some(containers) => containers,
            None => last_inventory(before, messages.drop_last()),
        }
    }
}

/// Whether a message is a `die` event for the container `id`.
pub open spec fn is_die_of(message: Message, id: Seq<char>) -> bool {
    match message {
        Message::DockerEvent(DockerEvent::ContainerLifecycleEvent { action, container_id, .. }) => {
            action@ == "die"@ && container_id@ == id
        },
        _ => false,
    }
}

/// The name that a lifecycle event gives its container.
pub open spec fn named_in(message: Message) -> Seq<char> {
    match message {
        Message::DockerEvent(DockerEvent::ContainerLifecycleEvent { container_name, .. }) => {
            container_name@
        },
        _ => Seq::empty(),
    }
}

/// Only an inventory poll changes which containers there are.
pub proof fn lemma_only_inventory_changes_containers(
    state: AppletView,
    message: Message,
    fresh_window: WindowId,
)
    ensures
        state.after(message, fresh_window).containers == match inventory_of(message) {
            Some(containers) => containers,
            None => state.containers,
        },
{
}

/// The snapshot holds exactly the containers of the last inventory poll.
///
/// Whatever the state was and whatever else was reported or asked for in
/// between, after a run of messages the containers are those that the last
/// inventory poll among them listed, in its order: none of an earlier poll
/// is left, and none is missing.
pub proof fn lemma_snapshot_is_last_inventory(
    state: AppletView,
    messages: Seq<(Message, WindowId)>,
)
    ensures
        after_all(state, messages).containers == last_inventory(state.containers, messages),
        ids_of(after_all(state, messages).containers) == ids_of(
            last_inventory(state.containers, messages),
        ),
    decreases messages.len(),
{
    if messages.len() > 0 {
        lemma_snapshot_is_last_inventory(state, messages.drop_last());
        lemma_only_inventory_changes_containers(
            after_all(state, messages.drop_last()),
            messages.last().0,
            messages.last().1,
        );
    }
}

/// After a listing, an id is in the snapshot exactly when the listing has
/// it.
pub proof fn lemma_snapshot_ids_are_listed_ids(
    state: AppletView,
    listing: Vec<ContainerInfo>,
    fresh_window: WindowId,
    id: Seq<char>,
)
    ensures
        ids_of(
            state.after(
                Message::DockerEvent(DockerEvent::ContainersUpdated(Ok(listing))),
                fresh_window,
            ).containers,
        ).contains(id) <==> ids_of(listing@).contains(id),
{
}

/// While the runtime cannot be reached nothing stale is kept: a failed
/// inventory poll empties the snapshot and the usage, and the next
/// successful one fills the snapshot again.
pub proof fn lemma_unavailable_keeps_nothing(
    state: AppletView,
    failure: String,
    listing: Vec<ContainerInfo>,
    fresh_window: WindowId,
)
    ensures
        ({
            let down = state.after(
                Message::DockerEvent(DockerEvent::ContainersUpdated(Err(failure))),
                fresh_window,
            );
            let up = down.after(
                Message::DockerEvent(DockerEvent::ContainersUpdated(Ok(listing))),
                fresh_window,
            );
            &&& !down.docker_available
            &&& down.containers == Seq::<ContainerInfo>::empty()
            &&& down.stats == Map::<Seq<char>, ContainerStats>::empty()
            &&& up.docker_available
            &&& up.containers == listing@
        }),
{
}

/// Whether two mappings by container id say the same of every container
/// that the snapshot has.
pub open spec fn agree_where_known<V>(
    state: AppletView,
    first: Map<Seq<char>, V>,
    second: Map<Seq<char>, V>,
) -> bool {
    forall|id: Seq<char>| #[trigger]
        state.knows(id) ==> first.contains_key(id) == second.contains_key(id) && (
        first.contains_key(id) ==> first[id] == second[id])
}

/// What is sampled of a container that the snapshot does not have shows
/// nowhere: two rounds of sampling that agree on the containers of the
/// snapshot leave the same usage to be read of every id, and none of an id
/// that the snapshot does not have.
pub proof fn lemma_usage_shows_for_known_containers_only(
    state: AppletView,
    first: StringHashMap<ContainerStats>,
    second: StringHashMap<ContainerStats>,
    fresh_window: WindowId,
    id: Seq<char>,
)
    requires
        agree_where_known(state, first@, second@),
    ensures
        state.after(Message::DockerEvent(DockerEvent::StatsUpdated(first)), fresh_window).usage_of(
            id,
        ) == state.after(
            Message::DockerEvent(DockerEvent::StatsUpdated(second)),
            fresh_window,
        ).usage_of(id),
        !state.knows(id) ==> state.after(
            Message::DockerEvent(DockerEvent::StatsUpdated(first)),
            fresh_window,
        ).usage_of(id) is None,
{
    let one = state.after(Message::DockerEvent(DockerEvent::StatsUpdated(first)), fresh_window);
    let other = state.after(Message::DockerEvent(DockerEvent::StatsUpdated(second)), fresh_window);
    assert(one.containers == state.containers && other.containers == state.containers);
    assert(one.knows(id) == state.knows(id));
    assert(other.knows(id) == state.knows(id));
}

/// What an inspection tells of a container that the snapshot does not have
/// shows nowhere: two rounds of inspections that agree on the containers
/// of the snapshot leave the same health to be read of every id, and
/// unknown health of an id that the snapshot does not have.
pub proof fn lemma_health_shows_for_known_containers_only(
    state: AppletView,
    first: StringHashMap<HealthStatus>,
    second: StringHashMap<HealthStatus>,
    fresh_window: WindowId,
    id: Seq<char>,
)
    requires
        agree_where_known(state, first@, second@),
    ensures
        state.after(
            Message::DockerEvent(DockerEvent::HealthUpdated(first)),
            fresh_window,
        ).health_of(id) == state.after(
            Message::DockerEvent(DockerEvent::HealthUpdated(second)),
            fresh_window,
        ).health_of(id),
        !state.knows(id) ==> state.after(
            Message::DockerEvent(DockerEvent::HealthUpdated(first)),
            fresh_window,
        ).health_of(id) == HealthStatus::Unknown,
{
    let one = state.after(Message::DockerEvent(DockerEvent::HealthUpdated(first)), fresh_window);
    let other = state.after(Message::DockerEvent(DockerEvent::HealthUpdated(second)), fresh_window);
    assert(one.containers == state.containers && other.containers == state.containers);
    assert(one.knows(id) == state.knows(id));
    assert(other.knows(id) == state.knows(id));
}

/// While the runtime cannot be reached, nothing can be read of any
/// container: neither usage nor health.
pub proof fn lemma_unavailable_shows_nothing(
    state: AppletView,
    failure: String,
    fresh_window: WindowId,
    id: Seq<char>,
)
    ensures
        state.after(
            Message::DockerEvent(DockerEvent::ContainersUpdated(Err(failure))),
            fresh_window,
        ).usage_of(id) is None,
        state.after(
            Message::DockerEvent(DockerEvent::ContainersUpdated(Err(failure))),
            fresh_window,
        ).health_of(id) == HealthStatus::Unknown,
{
}

/// A `die` event that nobody here asked for raises a notification that
/// names the container, and changes nothing.
pub proof fn lemma_external_die_notifies(
    state: AppletView,
    die: Message,
    id: Seq<char>,
    fresh_window: WindowId,
)
    requires
        is_die_of(die, id),
        !state.ledger.user_initiated_stops.contains(id),
    ensures
        state.command(die, fresh_window) == CommandView::Notify(
            NoticeView::ContainerStopped(named_in(die)),
        ),
        state.after(die, fresh_window) == state,
{
    assert(state.ledger.user_initiated_stops.remove(id) =~= state.ledger.user_initiated_stops);
}

/// A `die` event that was asked for here raises no notification and uses
/// the expectation up: the next `die` event for the same container raises
/// one, unless a stop or restart was issued in between.
pub proof fn lemma_expected_die_is_silent_once(
    state: AppletView,
    die: Message,
    again: Message,
    id: Seq<char>,
    fresh_window: WindowId,
)
    requires
        is_die_of(die, id),
        is_die_of(again, id),
        state.ledger.user_initiated_stops.contains(id),
    ensures
        state.command(die, fresh_window) == CommandView::Idle,
        !state.after(die, fresh_window).ledger.user_initiated_stops.contains(id),
        state.after(die, fresh_window).command(again, fresh_window) == CommandView::Notify(
            NoticeView::ContainerStopped(named_in(again)),
        ),
{
}

/// Whether a message asks to stop or to restart the container `id`.
pub open spec fn stops(message: Message, id: Seq<char>) -> bool {
    match message {
        Message::StopContainer(stopped) => stopped@ == id,
        Message::RestartContainer(stopped) => stopped@ == id,
        _ => false,
    }
}

/// A stop keeps its `die` event silent whichever comes first, the event or
/// the command's completion.
///
/// After a stop or restart of `id`, take the `die` event for `id` and the
/// completion of any command, in either order. The event raises no
/// notification in either order, both orders end in the same state, and in
/// that state a further `die` event for `id` raises a notification: the
/// event was kept silent exactly once.
pub proof fn lemma_stop_silences_die_in_either_order(
    state: AppletView,
    stop: Message,
    die: Message,
    again: Message,
    completion: Result<String, String>,
    id: Seq<char>,
    fresh_window: WindowId,
)
    requires
        stops(stop, id),
        is_die_of(die, id),
        is_die_of(again, id),
    ensures
        ({
            let stopping = state.after(stop, fresh_window);
            let completed = Message::ActionCompleted(completion);
            let event_first = stopping.after(die, fresh_window).after(completed, fresh_window);
            let completion_first = stopping.after(completed, fresh_window).after(
                die,
                fresh_window,
            );
            &&& stopping.command(die, fresh_window) == CommandView::Idle
            &&& stopping.after(completed, fresh_window).command(die, fresh_window)
                == CommandView::Idle
            &&& event_first == completion_first
            &&& event_first.command(again, fresh_window) == CommandView::Notify(
                NoticeView::ContainerStopped(named_in(again)),
            )
        }),
{
}

/// A stop marks its container as pending and its `die` event as expected
/// before the call is made: both hold in the state in which the call is
/// handed out.
pub proof fn lemma_stop_registers_before_the_call(
    state: AppletView,
    stop: Message,
    id: Seq<char>,
    fresh_window: WindowId,
)
    requires
        stops(stop, id),
    ensures
        state.after(stop, fresh_window).ledger.pending_ops.contains(id),
        state.after(stop, fresh_window).ledger.user_initiated_stops.contains(id),
        state.command(stop, fresh_window) matches CommandView::Run(call) && call.id() == id
            && call.stops(),
{
}

/// One failure leaves nothing pending, however many commands were in
/// flight and whichever of them failed.
pub proof fn lemma_failure_clears_every_pending(
    state: AppletView,
    failure: String,
    fresh_window: WindowId,
)
    ensures
        state.after(Message::ActionCompleted(Err(failure)), fresh_window).ledger.pending_ops
            == Set::<Seq<char>>::empty(),
        state.after(
            Message::ActionCompleted(Err(failure)),
            fresh_window,
        ).ledger.user_initiated_stops == state.ledger.user_initiated_stops,
        state.command(Message::ActionCompleted(Err(failure)), fresh_window) == CommandView::Idle,
{
}

/// A success ends the wait for the container it names and for no other.
pub proof fn lemma_success_clears_one_pending(
    state: AppletView,
    id: String,
    other: Seq<char>,
    fresh_window: WindowId,
)
    requires
        other != id@,
    ensures
        !state.after(Message::ActionCompleted(Ok(id)), fresh_window).ledger.pending_ops.contains(
            id@,
        ),
        state.after(Message::ActionCompleted(Ok(id)), fresh_window).ledger.pending_ops.contains(
            other,
        ) == state.ledger.pending_ops.contains(other),
{
}

/// Failing health is always worth a notification: whether or not a stop or
/// restart of the container was asked for here.
pub proof fn lemma_unhealthy_always_notifies(
    state: AppletView,
    event: DockerEvent,
    fresh_window: WindowId,
)
    requires
        event matches DockerEvent::ContainerLifecycleEvent { action, attributes, .. }
            && action@ == "health_status"@ && crate::applet::reports_unhealthy(attributes@),
    ensures
        state.command(Message::DockerEvent(event), fresh_window) == CommandView::Notify(
            NoticeView::ContainerUnhealthy(named_in(Message::DockerEvent(event))),
        ),
        state.after(Message::DockerEvent(event), fresh_window) == state,
{
    reveal_strlit("health_status");
    reveal_strlit("die");
    assert("health_status"@.len() != "die"@.len());
}

/// A container is deleted only on confirmation: the call that removes one
/// is handed out only for the message that confirms the deletion of the
/// very container whose deletion was asked for last and not cancelled.
pub proof fn lemma_delete_needs_confirmation(
    state: AppletView,
    message: Message,
    fresh_window: WindowId,
)
    requires
        state.command(message, fresh_window) matches CommandView::Run(call) && call is Remove,
    ensures
        message matches Message::ConfirmDelete(id) && state.confirm_delete == Some(id@),
        state.command(message, fresh_window) == CommandView::Run(
            RuntimeCallView::Remove {
                id: state.confirm_delete->0,
                force: false,
                volumes: false,
            },
        ),
        state.after(message, fresh_window).confirm_delete is None,
{
}

/// At most one deletion waits for confirmation: asking for a second one
/// replaces the first, which can then no longer be confirmed.
pub proof fn lemma_one_deletion_waits(
    state: AppletView,
    first: String,
    second: String,
    fresh_window: WindowId,
)
    requires
        first@ != second@,
    ensures
        ({
            let asked = state.after(Message::DeleteContainer(first), fresh_window).after(
                Message::DeleteContainer(second),
                fresh_window,
            );
            &&& asked.confirm_delete == Some(second@)
            &&& asked.command(Message::ConfirmDelete(first), fresh_window) == CommandView::Idle
            &&& asked.after(Message::ConfirmDelete(first), fresh_window) == asked
        }),
{
}

/// Whether a message asks for a batch of stops.
pub open spec fn stops_many(message: Message) -> bool {
    message is StopAll || message is StopGroup
}

/// Whether a message asks for a batch of starts.
pub open spec fn starts_many(message: Message) -> bool {
    message is StartAll || message is StartGroup
}

/// A batch registers every container it is about before its first call is
/// made: each call of the batch finds its container pending, and each stop
/// finds its `die` event expected.
pub proof fn lemma_batch_registers_every_call(
    state: AppletView,
    message: Message,
    fresh_window: WindowId,
    k: int,
)
    requires
        stops_many(message) || starts_many(message),
        state.command(message, fresh_window) matches CommandView::RunEach(calls) && 0 <= k
            < calls.len(),
    ensures
        ({
            let calls = state.command(message, fresh_window)->RunEach_0;
            let registered = state.after(message, fresh_window).ledger;
            &&& registered.pending_ops.contains(calls[k].id())
            &&& stops_many(message) ==> calls[k] is Stop
                && registered.user_initiated_stops.contains(calls[k].id())
            &&& starts_many(message) ==> calls[k] is Start && registered.user_initiated_stops
                == state.ledger.user_initiated_stops
        }),
{
    let group = match message {
        Message::StopGroup(name) => Some(name@),
        Message::StartGroup(name) => Some(name@),
        _ => None,
    };
    let ids = selected_ids(state.containers, stops_many(message), group);
    assert(ids.to_set().contains(ids[k]));
}

/// The inventory poller and the stream of lifecycle events run in every
/// state; whatever else runs, runs only while the popup is open.
pub proof fn lemma_background_sources_always_run(state: AppletView)
    ensures
        state.subscriptions().len() >= 2,
        state.subscriptions()[0] == container_list_plan(state.popup_open()),
        state.subscriptions()[1] == docker_events_plan(),
        !state.popup_open() ==> state.subscriptions().len() == 2,
{
}

/// A log is followed only while it is watched, and then it is the log of
/// the watched container and no other.
pub proof fn lemma_log_runs_only_while_watched(state: AppletView, k: int)
    requires
        0 <= k < state.subscriptions().len(),
        state.subscriptions()[k].source is Logs,
    ensures
        state.watches_log(),
        state.subscriptions()[k] == log_streaming_plan(state.log_container_id),
        k == state.subscriptions().len() - 1,
        forall|other: int|
            0 <= other < state.subscriptions().len() && other != k ==> !(
            state.subscriptions()[other].source is Logs),
{
}

/// Usage and health are polled only while the list is watched, and then
/// for the running containers of the snapshot.
pub proof fn lemma_pollers_run_only_while_list_is_watched(state: AppletView, k: int)
    requires
        0 <= k < state.subscriptions().len(),
        state.subscriptions()[k].source is ContainerStats || state.subscriptions()[k].source
            is Health,
    ensures
        state.watches_list(),
        state.subscriptions()[k].source matches SourceView::ContainerStats { container_ids, .. }
            ==> container_ids == running_ids(state.containers),
        state.subscriptions()[k].source matches SourceView::Health { container_ids }
            ==> container_ids == running_ids(state.containers),
{
}

/// Once the popup is gone, only the inventory poller and the stream of
/// lifecycle events are left running.
pub proof fn lemma_closing_the_popup_stops_the_rest(
    state: AppletView,
    message: Message,
    fresh_window: WindowId,
)
    requires
        state.popup_open(),
        message is TogglePopup || message == Message::PopupClosed(state.popup->0),
    ensures
        !state.after(message, fresh_window).popup_open(),
        state.after(message, fresh_window).subscriptions() == seq![
            container_list_plan(false),
            docker_events_plan(),
        ],
{
    assert(state.after(message, fresh_window).subscriptions() =~= seq![
        container_list_plan(false),
        docker_events_plan(),
    ]);
}

} // verus!
