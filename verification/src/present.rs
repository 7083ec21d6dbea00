//! What the reconciler's state shows: the body of the list, the controls
//! of each row, and what stands in the log and details views.

use vstd::prelude::*;
use vstd::string::*;
use crate::applet::{AppletView, DockerApplet};
use crate::arrange::{arrange, lemma_empty_arrangement, nothing_found, Arrangement};
use crate::container::{ContainerInfo, PortMapping};
use crate::display::{
    first_public_port, first_published, log_body, port_line, port_line_of, LogBody,
};
use crate::message::WindowId;
use crate::text::{same_text, texts};

verus! {

/// One control of a container's row. Each stands for the message of the
/// same meaning about the row's container.
#[derive(Clone, Copy, Debug, PartialEq, Eq, Structural)]
pub enum RowAction {
    Start,
    Stop,
    Restart,
    /// Browse the given port of this machine.
    Browse(u16),
    Delete,
    CopyId,
    Details,
    Logs,
}

/// What a container's row offers.
pub enum RowControls {
    /// A command for the container is in flight: nothing is offered.
    Loading,
    /// The container's deletion waits: to confirm it or to cancel.
    ConfirmDelete,
    /// The controls, in the order in which they are shown.
    Offered(Vec<RowAction>),
}

/// The controls of a container that no command is pending for and whose
/// deletion does not wait: a running one can be stopped, restarted and,
/// where a port is published, browsed; another one can be started and
/// deleted; every one has its id, its details and its log on offer.
pub open spec fn offered_controls(container: ContainerInfo) -> Seq<RowAction> {
    if container.state is Running {
        let browse = match first_published(container.ports@) {
            Some(port) => seq![RowAction::Browse(port)],
            None => Seq::empty(),
        };
        seq![RowAction::Stop, RowAction::Restart] + browse + seq![
            RowAction::CopyId,
            RowAction::Details,
            RowAction::Logs,
        ]
    } else {
        seq![
            RowAction::Start,
            RowAction::Delete,
            RowAction::CopyId,
            RowAction::Details,
            RowAction::Logs,
        ]
    }
}

/// The body of the list of containers.
pub enum ListBody {
    /// The runtime cannot be reached: there is nothing to show.
    Unavailable,
    /// There is no container, or none that the search finds.
    NoContainers,
    /// The containers that the search finds, arranged.
    Listed(Arrangement),
}

/// The first container of the snapshot with the given name, if there is
/// one.
pub open spec fn named(containers: Seq<ContainerInfo>, name: Seq<char>) -> Option<ContainerInfo>
    decreases containers.len(),
{
    if containers.len() == 0 {
        None
    } else if containers[0].name@ == name {
        Some(containers[0])
    } else {
        named(containers.drop_first(), name)
    }
}

/// The lines that describe the given ports.
pub open spec fn port_lines_of(ports: Seq<PortMapping>) -> Seq<Seq<char>> {
    ports.map_values(|port: PortMapping| port_line_of(port))
}

/// Writes the lines that describe the given ports.
pub fn port_lines(ports: &Vec<PortMapping>) -> (lines: Vec<String>)
    ensures
        texts(lines@) == port_lines_of(ports@),
{
    let mut lines: Vec<String> = Vec::new();
    let mut k: usize = 0;
    while k < ports.len()
        invariant
            k <= ports.len(),
            lines@.len() == k,
            forall|j: int| 0 <= j < k ==> (#[trigger] lines@[j])@ == port_line_of(ports@[j]),
        decreases ports.len() - k,
    {
        lines.push(port_line(&ports[k]));
        k += 1;
    }
    assert(texts(lines@) =~= port_lines_of(ports@));
    lines
}

impl AppletView {
    /// Whether a command for the container `id` is in flight, so that its
    /// row offers nothing.
    pub open spec fn row_loading(self, id: Seq<char>) -> bool {
        self.ledger.pending_ops.contains(id)
    }

    /// The lines that describe the ports of the container whose details
    /// are shown; none where the snapshot has no container of that name.
    pub open spec fn details_port_lines(self) -> Seq<Seq<char>> {
        match named(self.containers, self.details_container_name) {
            Some(container) => port_lines_of(container.ports@),
            None => Seq::empty(),
        }
    }
}

impl DockerApplet {
    /// Whether `window` is the open popup.
    pub fn shows_popup(&self, window: WindowId) -> (shown: bool)
        ensures
            shown == (self@.popup == Some(window)),
    {
        match self.popup() {
            Some(open) => open == window,
            None => false,
        }
    }

    /// Whether the deletion of the container `id` waits for confirmation.
    pub fn is_confirming_delete(&self, id: &str) -> (waiting: bool)
        ensures
            waiting == self@.awaits_confirmation(id@),
    {
        match self.confirm_delete() {
            Some(waiting) => same_text(waiting.as_str(), id),
            None => false,
        }
    }

    /// What the row of a container offers. A running container's deletion
    /// is never offered, so it never waits either.
    pub fn row_controls(&self, container: &ContainerInfo) -> (controls: RowControls)
        ensures
            match controls {
                RowControls::Loading => self@.row_loading(container.id@),
                RowControls::ConfirmDelete => !self@.row_loading(container.id@) && !(
                container.state is Running) && self@.awaits_confirmation(container.id@),
                RowControls::Offered(offered) => !self@.row_loading(container.id@) && (
                container.state is Running || !self@.awaits_confirmation(container.id@))
                    && offered@ == offered_controls(*container),
            },
    {
        if self.is_pending(container.id.as_str()) {
            return RowControls::Loading;
        }
        let mut offered: Vec<RowAction> = Vec::new();
        if container.state.is_running() {
            offered.push(RowAction::Stop);
            offered.push(RowAction::Restart);
            match first_public_port(container.ports.as_slice()) {
                Some(port) => offered.push(RowAction::Browse(port)),
                None => {},
            }
            offered.push(RowAction::CopyId);
            offered.push(RowAction::Details);
            offered.push(RowAction::Logs);
        } else {
            if self.is_confirming_delete(container.id.as_str()) {
                return RowControls::ConfirmDelete;
            }
            offered.push(RowAction::Start);
            offered.push(RowAction::Delete);
            offered.push(RowAction::CopyId);
            offered.push(RowAction::Details);
            offered.push(RowAction::Logs);
        }
        assert(offered@ =~= offered_controls(*container));
        RowControls::Offered(offered)
    }

    /// The body of the list: nothing while the runtime cannot be reached,
    /// and otherwise the arrangement of what the search finds.
    pub fn list_body(&self) -> (body: ListBody)
        ensures
            match body {
                ListBody::Unavailable => !self@.docker_available,
                ListBody::NoContainers => self@.docker_available && nothing_found(
                    self@.containers,
                    self@.search_query,
                ),
                ListBody::Listed(arrangement) => self@.docker_available && !nothing_found(
                    self@.containers,
                    self@.search_query,
                ) && arrangement.arranges(
                    self@.containers,
                    self@.search_query,
                    self@.collapsed_groups,
                ),
            },
    {
        if !self.docker_available() {
            return ListBody::Unavailable;
        }
        if self.containers().len() == 0 {
            return ListBody::NoContainers;
        }
        let arrangement = arrange(
            self.containers(),
            self.search_query().as_str(),
            self.collapsed_groups(),
        );
        proof {
            lemma_empty_arrangement(
                arrangement,
                self@.containers,
                self@.search_query,
                self@.collapsed_groups,
            );
        }
        if arrangement.is_empty() {
            ListBody::NoContainers
        } else {
            ListBody::Listed(arrangement)
        }
    }

    /// What stands in place of the log.
    pub fn log_view(&self) -> (body: LogBody)
        ensures
            body == if self@.log_content.len() > 0 {
                LogBody::Content
            } else if self@.logs_loading {
                LogBody::Loading
            } else {
                LogBody::NoOutput
            },
    {
        log_body(self.logs_loading(), self.log_content().as_str())
    }

    /// The lines that describe the ports of the container whose details
    /// are shown.
    pub fn details_ports(&self) -> (lines: Vec<String>)
        ensures
            texts(lines@) == self@.details_port_lines(),
    {
        let containers = self.containers();
        let name = self.details_container_name();
        let mut i: usize = 0;
        assert(containers@.skip(0) =~= containers@);
        while i < containers.len()
            invariant
                i <= containers.len(),
                containers@ == self@.containers,
                name@ == self@.details_container_name,
                named(containers@, name@) == named(containers@.skip(i as int), name@),
            decreases containers.len() - i,
        {
            assert(containers@.skip(i as int).drop_first() =~= containers@.skip(i + 1));
            if same_text(containers[i].name.as_str(), name.as_str()) {
                assert(containers@.skip(i as int)[0] == containers@[i as int]);
                return port_lines(&containers[i].ports);
            }
            i += 1;
        }
        let lines: Vec<String> = Vec::new();
        assert(texts(lines@) =~= Seq::<Seq<char>>::empty());
        lines
    }
}

} // verus!
