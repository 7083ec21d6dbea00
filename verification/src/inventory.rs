//! Reading an inventory listing: every record of the listing becomes one
//! snapshot entry, in the order of the listing.

use vstd::prelude::*;
use vstd::string::*;
use vstd::hash_map::StringHashMap;
use crate::container::{parse_state, state_of, ContainerInfo, PortMapping};
use crate::text::{trim_leading, trim_start};

verus! {

/// Transport protocol named in a port record.
#[derive(Clone, Copy, Debug, PartialEq, Eq, Structural)]
pub enum PortType {
    Empty,
    Tcp,
    Udp,
    Sctp,
}

/// One port as the runtime lists it.
pub struct PortRecord {
    pub private_port: u16,
    pub public_port: Option<u16>,
    pub typ: Option<PortType>,
}

/// One container as the runtime lists it; the runtime may leave any field out.
pub struct ContainerRecord {
    pub id: Option<String>,
    pub names: Option<Vec<String>>,
    pub image: Option<String>,
    pub state: Option<String>,
    pub status: Option<String>,
    pub ports: Option<Vec<PortRecord>>,
    pub labels: Option<StringHashMap<String>>,
    pub created: Option<i64>,
}

/// The protocol's name; a port without a known protocol counts as TCP.
pub open spec fn protocol_name(typ: Option<PortType>) -> Seq<char> {
    match typ {
        Some(PortType::Udp) => "udp"@,
        Some(PortType::Sctp) => "sctp"@,
        _ => "tcp"@,
    }
}

/// The text of a field, empty where the field is missing.
pub open spec fn text_or_empty(field: Option<String>) -> Seq<char> {
    match field {
        Some(text) => text@,
        None => Seq::empty(),
    }
}

/// The first of the listed names, empty where there is none.
pub open spec fn first_name(names: Option<Vec<String>>) -> Seq<char> {
    match names {
        Some(names) => if names@.len() > 0 {
            names@[0]@
        } else {
            Seq::empty()
        },
        None => Seq::empty(),
    }
}

/// The listed ports, none where the field is missing.
pub open spec fn ports_or_empty(ports: Option<Vec<PortRecord>>) -> Seq<PortRecord> {
    match ports {
        Some(ports) => ports@,
        None => Seq::empty(),
    }
}

/// The listed labels, none where the field is missing.
pub open spec fn labels_or_empty(labels: Option<StringHashMap<String>>) -> Map<Seq<char>, String> {
    match labels {
        Some(labels) => labels@,
        None => Map::empty(),
    }
}

impl PortRecord {
    /// Whether `mapping` is this record's port: the same numbers, and the
    /// protocol by its name.
    pub open spec fn read_as(self, mapping: PortMapping) -> bool {
        &&& mapping.public_port == self.public_port
        &&& mapping.private_port == self.private_port
        &&& mapping.protocol@ == protocol_name(self.typ)
    }
}

impl ContainerRecord {
    /// Whether `info` is the snapshot entry of this record: missing fields
    /// are empty, the name is the first listed name without its leading
    /// slashes, and the state word is read by [`state_of`].
    pub open spec fn read_as(self, info: ContainerInfo) -> bool {
        &&& info.id@ == text_or_empty(self.id)
        &&& info.name@ == trim_start(first_name(self.names), '/')
        &&& info.image@ == text_or_empty(self.image)
        &&& info.state@ == state_of(text_or_empty(self.state))
        &&& info.status@ == text_or_empty(self.status)
        &&& info.ports@.len() == ports_or_empty(self.ports).len()
        &&& forall|i: int|
            0 <= i < info.ports@.len() ==> ports_or_empty(self.ports)[i].read_as(
                #[trigger] info.ports@[i],
            )
        &&& info.labels@ == labels_or_empty(self.labels)
        &&& info.created == self.created
    }
}

/// Reads one listed port.
pub fn port_from_record(record: &PortRecord) -> (mapping: PortMapping)
    ensures
        record.read_as(mapping),
{
    let protocol = match record.typ {
        Some(PortType::Udp) => "udp",
        Some(PortType::Sctp) => "sctp",
        _ => "tcp",
    };
    PortMapping {
        public_port: record.public_port,
        private_port: record.private_port,
        protocol: protocol.to_owned(),
    }
}

fn owned_or_empty(field: Option<String>) -> (text: String)
    ensures
        text@ == text_or_empty(field),
{
    match field {
        Some(text) => text,
        None => String::new(),
    }
}

/// Reads one listed container.
pub fn container_from_record(record: ContainerRecord) -> (info: ContainerInfo)
    ensures
        record.read_as(info),
{
    let ContainerRecord { id, names, image, state, status, ports, labels, created } = record;
    let name = match &names {
        Some(names) => if names.len() > 0 {
            trim_leading(names[0].as_str(), '/')
        } else {
            String::new()
        },
        None => String::new(),
    };
    let state_word = owned_or_empty(state);
    let mut mappings: Vec<PortMapping> = Vec::new();
    match &ports {
        Some(listed) => {
            let mut i: usize = 0;
            while i < listed.len()
                invariant
                    i <= listed.len(),
                    mappings@.len() == i,
                    forall|j: int| 0 <= j < i ==> listed@[j].read_as(#[trigger] mappings@[j]),
                decreases listed.len() - i,
            {
                mappings.push(port_from_record(&listed[i]));
                i += 1;
            }
        },
        None => {},
    }
    let labels = match labels {
        Some(labels) => labels,
        None => StringHashMap::new(),
    };
    ContainerInfo {
        id: owned_or_empty(id),
        name,
        image: owned_or_empty(image),
        state: parse_state(state_word.as_str()),
        status: owned_or_empty(status),
        ports: mappings,
        labels,
        created,
    }
}

/// Whether `entries` are the snapshot entries of `records`, one for one.
pub open spec fn listing_read_as(
    records: Seq<ContainerRecord>,
    entries: Seq<ContainerInfo>,
) -> bool {
    &&& entries.len() == records.len()
    &&& forall|i: int| 0 <= i < records.len() ==> records[i].read_as(#[trigger] entries[i])
}

/// Turns the outcome of an inventory listing into the poll's result: a
/// listing becomes the snapshot entries of its records, in order, and a
/// failure is passed on with its message.
pub fn fetch_containers(listing: Result<Vec<ContainerRecord>, String>) -> (polled: Result<
    Vec<ContainerInfo>,
    String,
>)
    ensures
        match listing {
            Ok(records) => polled is Ok && listing_read_as(records@, polled->Ok_0@),
            Err(message) => polled == Err::<Vec<ContainerInfo>, String>(message),
        },
{
    match listing {
        Ok(records) => {
            let ghost listed = records@;
            let mut entries: Vec<ContainerInfo> = Vec::new();
            for record in it: records
                invariant
                    it.seq() == listed,
                    entries@.len() == it.index(),
                    forall|j: int|
                        0 <= j < it.index() ==> listed[j].read_as(#[trigger] entries@[j]),
            {
                entries.push(container_from_record(record));
            }
            Ok(entries)
        },
        Err(message) => Err(message),
    }
}

} // verus!
