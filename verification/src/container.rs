//! The snapshot entry kept for each container, and how an entry is read from
//! one record of an inventory listing.

use vstd::prelude::*;
use vstd::string::*;
use vstd::hash_map::StringHashMap;
use crate::text::{decimal, joined, lemma_joined_push, push_decimal, same_text};

verus! {

/// Run state of a container.
pub enum ContainerState {
    Running,
    Stopped,
    Restarting,
    Paused,
    /// A state the runtime reported that has no variant above, as reported.
    Other(String),
}

/// Mathematical value of a [`ContainerState`].
pub enum ContainerStateView {
    Running,
    Stopped,
    Restarting,
    Paused,
    Other(Seq<char>),
}

impl View for ContainerState {
    type V = ContainerStateView;

    open spec fn view(&self) -> ContainerStateView {
        match self {
            ContainerState::Running => ContainerStateView::Running,
            ContainerState::Stopped => ContainerStateView::Stopped,
            ContainerState::Restarting => ContainerStateView::Restarting,
            ContainerState::Paused => ContainerStateView::Paused,
            ContainerState::Other(raw) => ContainerStateView::Other(raw@),
        }
    }
}

impl ContainerState {
    /// Whether the container is running.
    pub fn is_running(&self) -> (running: bool)
        ensures
            running == (self is Running),
    {
        match self {
            ContainerState::Running => true,
            _ => false,
        }
    }
}

/// The state that the runtime's word `raw` stands for: `exited` and `dead`
/// both mean stopped, and an unknown word is kept as it is.
pub open spec fn state_of(raw: Seq<char>) -> ContainerStateView {
    if raw == "running"@ {
        ContainerStateView::Running
    } else if raw == "exited"@ || raw == "dead"@ {
        ContainerStateView::Stopped
    } else if raw == "restarting"@ {
        ContainerStateView::Restarting
    } else if raw == "paused"@ {
        ContainerStateView::Paused
    } else {
        ContainerStateView::Other(raw)
    }
}

/// Reads the runtime's state word.
pub fn parse_state(state: &str) -> (parsed: ContainerState)
    ensures
        parsed@ == state_of(state@),
{
    if same_text(state, "running") {
        ContainerState::Running
    } else if same_text(state, "exited") || same_text(state, "dead") {
        ContainerState::Stopped
    } else if same_text(state, "restarting") {
        ContainerState::Restarting
    } else if same_text(state, "paused") {
        ContainerState::Paused
    } else {
        ContainerState::Other(state.to_owned())
    }
}

/// One port of a container, and the host port it is published on, if any.
pub struct PortMapping {
    pub public_port: Option<u16>,
    pub private_port: u16,
    pub protocol: String,
}

impl PortMapping {
    /// How a published port is written: `public:private/protocol`.
    pub open spec fn mapping_text(self) -> Seq<char>
        recommends
            self.public_port is Some,
    {
        decimal(self.public_port->0 as nat) + seq![':'] + decimal(self.private_port as nat)
            + seq!['/'] + self.protocol@
    }
}

/// The ports that are published on the host, in their order.
pub open spec fn published(ports: Seq<PortMapping>) -> Seq<PortMapping> {
    ports.filter(|p: PortMapping| p.public_port is Some)
}

/// The published ports written one after another, separated by `, `; empty
/// where none is published.
pub open spec fn ports_text(ports: Seq<PortMapping>) -> Seq<char> {
    joined(published(ports).map_values(|p: PortMapping| p.mapping_text()), ", "@)
}

/// Writes the published ports of a container on one line.
pub fn format_ports(ports: &[PortMapping]) -> (text: String)
    ensures
        text@ == ports_text(ports@),
{
    let mut text = String::new();
    let mut first = true;
    let mut i: usize = 0;
    proof {
        reveal_strlit(", ");
        reveal_strlit(":");
        reveal_strlit("/");
        assert(ports@.take(0) =~= Seq::<PortMapping>::empty());
        assert(published(ports@.take(0)) =~= Seq::<PortMapping>::empty());
    }
    while i < ports.len()
        invariant
            i <= ports.len(),
            text@ == ports_text(ports@.take(i as int)),
            first == (published(ports@.take(i as int)).len() == 0),
            ":"@ == seq![':'],
            "/"@ == seq!['/'],
        decreases ports.len() - i,
    {
        let p = &ports[i];
        proof {
            let before = ports@.take(i as int);
            let texts = published(before).map_values(|p: PortMapping| p.mapping_text());
            assert(ports@.take(i + 1) =~= before.push(*p));
            Seq::lemma_filter_push(before, *p, |p: PortMapping| p.public_port is Some);
            if p.public_port is Some {
                assert(published(before.push(*p)).map_values(|p: PortMapping| p.mapping_text())
                    =~= texts.push(p.mapping_text()));
                lemma_joined_push(texts, ", "@, p.mapping_text());
            }
        }
        match p.public_port {
            Some(public) => {
                if !first {
                    text = text.concat(", ");
                }
                let ghost lead = text@;
                text = push_decimal(text, public as u64);
                text = text.concat(":");
                text = push_decimal(text, p.private_port as u64);
                text = text.concat("/");
                text = text.concat(p.protocol.as_str());
                first = false;
                assert(text@ =~= lead + p.mapping_text());
            },
            None => {},
        }
        i += 1;
    }
    assert(ports@.take(i as int) =~= ports@);
    text
}

/// What an inspection tells about a container beyond its snapshot entry.
pub struct ContainerDetails {
    /// Environment variables, each as `NAME=value`.
    pub env_vars: Vec<String>,
    /// Mounts, each as source and destination.
    pub volumes: Vec<(String, String)>,
    /// Networks, each as its name and the container's address on it.
    pub networks: Vec<(String, String)>,
}

/// The snapshot entry of one container. `id` joins it with every other
/// source of data about the container.
pub struct ContainerInfo {
    pub id: String,
    pub name: String,
    pub image: String,
    pub state: ContainerState,
    pub status: String,
    pub ports: Vec<PortMapping>,
    pub labels: StringHashMap<String>,
    pub created: Option<i64>,
}

/// Health reported for a container.
#[derive(Clone, Copy, Debug, PartialEq, Eq, Structural)]
pub enum HealthStatus {
    /// Nothing is known: no health check is configured, or none was reported.
    Unknown,
    Starting,
    Healthy,
    Unhealthy,
}

} // verus!
