//! What an inspection of a container yields: its health, and the details
//! shown on request.

use vstd::prelude::*;
use vstd::hash_map::StringHashMap;
use crate::container::{ContainerDetails, HealthStatus};
use crate::inventory::text_or_empty;

verus! {

/// The health word of an inspection.
#[derive(Clone, Copy, Debug, PartialEq, Eq, Structural)]
pub enum HealthCode {
    Empty,
    /// The container has no health check.
    NoCheck,
    Starting,
    Healthy,
    Unhealthy,
}

/// Health section of a container's state.
#[derive(Clone, Copy, Debug, PartialEq, Eq, Structural)]
pub struct HealthRecord {
    pub status: Option<HealthCode>,
}

/// State section of an inspection.
#[derive(Clone, Copy, Debug, PartialEq, Eq, Structural)]
pub struct StateRecord {
    pub health: Option<HealthRecord>,
}

/// Configuration section of an inspection.
pub struct ConfigRecord {
    pub env: Option<Vec<String>>,
}

/// One mount of an inspection.
pub struct MountRecord {
    pub source: Option<String>,
    pub destination: Option<String>,
}

/// How a container is attached to one network.
pub struct EndpointRecord {
    pub ip_address: Option<String>,
}

/// Network section of an inspection. The networks come in the order in
/// which the caller walked them.
pub struct NetworkSettingsRecord {
    pub networks: Option<Vec<(String, EndpointRecord)>>,
}

/// One container as the runtime describes it on inspection; the runtime may
/// leave any section out.
pub struct InspectRecord {
    pub state: Option<StateRecord>,
    pub config: Option<ConfigRecord>,
    pub mounts: Option<Vec<MountRecord>>,
    pub network_settings: Option<NetworkSettingsRecord>,
}

/// The health that a health word stands for.
pub open spec fn health_of_code(code: HealthCode) -> HealthStatus {
    match code {
        HealthCode::Healthy => HealthStatus::Healthy,
        HealthCode::Unhealthy => HealthStatus::Unhealthy,
        HealthCode::Starting => HealthStatus::Starting,
        _ => HealthStatus::Unknown,
    }
}

impl InspectRecord {
    /// The health word, where state, health section and word are all there.
    pub open spec fn health_code(self) -> Option<HealthCode> {
        match self.state {
            Some(state) => match state.health {
                Some(health) => health.status,
                None => None,
            },
            None => None,
        }
    }

    /// The health that the inspection reports; unknown where it reports none.
    pub open spec fn health(self) -> HealthStatus {
        match self.health_code() {
            Some(code) => health_of_code(code),
            None => HealthStatus::Unknown,
        }
    }

    /// The listed environment variables, none where the section is missing.
    pub open spec fn env(self) -> Seq<String> {
        match self.config {
            Some(config) => match config.env {
                Some(env) => env@,
                None => Seq::empty(),
            },
            None => Seq::empty(),
        }
    }

    /// The listed mounts, none where the section is missing.
    pub open spec fn mount_records(self) -> Seq<MountRecord> {
        match self.mounts {
            Some(mounts) => mounts@,
            None => Seq::empty(),
        }
    }

    /// The listed networks, none where the section is missing.
    pub open spec fn network_records(self) -> Seq<(String, EndpointRecord)> {
        match self.network_settings {
            Some(settings) => match settings.networks {
                Some(networks) => networks@,
                None => Seq::empty(),
            },
            None => Seq::empty(),
        }
    }

    /// Whether `details` are the details of this inspection: the
    /// environment as listed, every mount as source and destination, every
    /// network as name and address, in the listed order, with missing texts
    /// empty.
    pub open spec fn read_as(self, details: ContainerDetails) -> bool {
        &&& details.env_vars@ == self.env()
        &&& details.volumes@.len() == self.mount_records().len()
        &&& forall|i: int|
            0 <= i < details.volumes@.len() ==> {
                &&& (#[trigger] details.volumes@[i]).0@ == text_or_empty(
                    self.mount_records()[i].source,
                )
                &&& details.volumes@[i].1@ == text_or_empty(self.mount_records()[i].destination)
            }
        &&& details.networks@.len() == self.network_records().len()
        &&& forall|i: int|
            0 <= i < details.networks@.len() ==> {
                &&& (#[trigger] details.networks@[i]).0@ == self.network_records()[i].0@
                &&& details.networks@[i].1@ == text_or_empty(
                    self.network_records()[i].1.ip_address,
                )
            }
    }
}

/// The health that an inspection reports.
pub fn health_from_record(record: &InspectRecord) -> (health: HealthStatus)
    ensures
        health == record.health(),
{
    let code = match &record.state {
        Some(state) => match &state.health {
            Some(health) => health.status,
            None => None,
        },
        None => None,
    };
    match code {
        Some(HealthCode::Healthy) => HealthStatus::Healthy,
        Some(HealthCode::Unhealthy) => HealthStatus::Unhealthy,
        Some(HealthCode::Starting) => HealthStatus::Starting,
        _ => HealthStatus::Unknown,
    }
}

/// The health that one attempt to inspect a container shows; a failed
/// inspection shows none.
pub open spec fn health_seen(outcome: Result<InspectRecord, String>) -> HealthStatus {
    match outcome {
        Ok(record) => record.health(),
        Err(_) => HealthStatus::Unknown,
    }
}

/// The mapping from container id to health that a round of inspections
/// yields. Every inspected id has an entry, and where an id occurs twice
/// the later outcome decides.
pub open spec fn health_by_id(outcomes: Seq<(String, Result<InspectRecord, String>)>) -> Map<
    Seq<char>,
    HealthStatus,
>
    decreases outcomes.len(),
{
    if outcomes.len() == 0 {
        Map::empty()
    } else {
        let (id, outcome) = outcomes.last();
        health_by_id(outcomes.drop_last()).insert(id@, health_seen(outcome))
    }
}

/// An id has an entry exactly when it was inspected.
pub proof fn lemma_health_by_id_domain(
    outcomes: Seq<(String, Result<InspectRecord, String>)>,
    id: Seq<char>,
)
    ensures
        health_by_id(outcomes).contains_key(id) <==> exists|i: int|
            0 <= i < outcomes.len() && (#[trigger] outcomes[i]).0@ == id,
    decreases outcomes.len(),
{
    if outcomes.len() > 0 {
        let earlier = outcomes.drop_last();
        lemma_health_by_id_domain(earlier, id);
        let last = outcomes.len() - 1;
        if health_by_id(outcomes).contains_key(id) {
            if health_by_id(earlier).contains_key(id) {
                let i = choose|i: int| 0 <= i < earlier.len() && (#[trigger] earlier[i]).0@ == id;
                assert(outcomes[i] == earlier[i]);
            } else {
                assert(outcomes[last].0@ == id);
            }
        }
        if exists|i: int| 0 <= i < outcomes.len() && (#[trigger] outcomes[i]).0@ == id {
            let i = choose|i: int| 0 <= i < outcomes.len() && (#[trigger] outcomes[i]).0@ == id;
            if i < last {
                assert(earlier[i] == outcomes[i]);
            }
        }
    }
}

/// Folds a round of inspections into the mapping from container id to
/// health that replaces the one before. A container whose inspection failed
/// is entered with unknown health; that is no failure of the round.
pub fn fetch_health_statuses(outcomes: &[(String, Result<InspectRecord, String>)]) -> (statuses:
    StringHashMap<HealthStatus>)
    ensures
        statuses@ == health_by_id(outcomes@),
{
    let mut statuses: StringHashMap<HealthStatus> = StringHashMap::new();
    let mut i: usize = 0;
    assert(outcomes@.take(0) =~= Seq::empty());
    while i < outcomes.len()
        invariant
            i <= outcomes.len(),
            statuses@ == health_by_id(outcomes@.take(i as int)),
        decreases outcomes.len() - i,
    {
        assert(outcomes@.take(i + 1).drop_last() =~= outcomes@.take(i as int));
        assert(outcomes@.take(i + 1).last() == outcomes@[i as int]);
        let outcome = &outcomes[i];
        let status = match &outcome.1 {
            Ok(record) => health_from_record(record),
            Err(_) => HealthStatus::Unknown,
        };
        statuses.insert(outcome.0.clone(), status);
        i += 1;
    }
    assert(outcomes@.take(i as int) =~= outcomes@);
    statuses
}

fn owned_or_empty(field: Option<String>) -> (text: String)
    ensures
        text@ == text_or_empty(field),
{
    match field {
        Some(text) => text,
        None => String::new(),
    }
}

/// The details that an inspection shows.
pub fn details_from_record(record: InspectRecord) -> (details: ContainerDetails)
    ensures
        record.read_as(details),
{
    let InspectRecord { state: _, config, mounts, network_settings } = record;
    let env_vars = match config {
        Some(config) => match config.env {
            Some(env) => env,
            None => Vec::new(),
        },
        None => Vec::new(),
    };
    let mut volumes: Vec<(String, String)> = Vec::new();
    match mounts {
        Some(mounts) => {
            let ghost listed = mounts@;
            for mount in it: mounts
                invariant
                    it.seq() == listed,
                    volumes@.len() == it.index(),
                    forall|j: int|
                        0 <= j < it.index() ==> {
                            &&& (#[trigger] volumes@[j]).0@ == text_or_empty(listed[j].source)
                            &&& volumes@[j].1@ == text_or_empty(listed[j].destination)
                        },
            {
                let MountRecord { source, destination } = mount;
                volumes.push((owned_or_empty(source), owned_or_empty(destination)));
            }
        },
        None => {},
    }
    let mut networks: Vec<(String, String)> = Vec::new();
    let attached = match network_settings {
        Some(settings) => settings.networks,
        None => None,
    };
    match attached {
        Some(attached) => {
            let ghost listed = attached@;
            for network in it: attached
                invariant
                    it.seq() == listed,
                    networks@.len() == it.index(),
                    forall|j: int|
                        0 <= j < it.index() ==> {
                            &&& (#[trigger] networks@[j]).0@ == listed[j].0@
                            &&& networks@[j].1@ == text_or_empty(listed[j].1.ip_address)
                        },
            {
                let (name, endpoint) = network;
                networks.push((name, owned_or_empty(endpoint.ip_address)));
            }
        },
        None => {},
    }
    ContainerDetails { env_vars, volumes, networks }
}

/// Turns the outcome of inspecting container `id` into the answer to a
/// request for its details: the id with the details of the inspection, or
/// the failure with its message.
pub fn fetch_container_details(id: String, inspection: Result<InspectRecord, String>) -> (answer:
    Result<(String, ContainerDetails), String>)
    ensures
        match inspection {
            Ok(record) => answer is Ok && answer->Ok_0.0 == id && record.read_as(answer->Ok_0.1),
            Err(message) => answer == Err::<(String, ContainerDetails), String>(message),
        },
{
    match inspection {
        Ok(record) => Ok((id, details_from_record(record))),
        Err(message) => Err(message),
    }
}

} // verus!
