//! What a presentation of the snapshot needs decided for it: counts, the
//! lines of text that describe a container, and which icon stands for a
//! health. Drawing is left to the caller.

use vstd::prelude::*;
use vstd::string::*;
use crate::container::{ContainerInfo, HealthStatus, PortMapping};
use crate::selection::selected;
use crate::stats::Exact;
use crate::text::{decimal, push_decimal};

verus! {

/// How many of the containers run.
pub fn running_count(containers: &Vec<ContainerInfo>) -> (count: usize)
    ensures
        count == selected(containers@, true, None).len(),
{
    let mut count: usize = 0;
    let mut i: usize = 0;
    proof {
        assert(containers@.take(0) =~= Seq::<ContainerInfo>::empty());
        assert(selected(containers@.take(0), true, None) =~= Seq::<ContainerInfo>::empty());
    }
    while i < containers.len()
        invariant
            i <= containers.len(),
            count <= i,
            count == selected(containers@.take(i as int), true, None).len(),
        decreases containers.len() - i,
    {
        proof {
            assert(containers@.take(i + 1) =~= containers@.take(i as int).push(
                containers@[i as int],
            ));
            Seq::lemma_filter_push(
                containers@.take(i as int),
                containers@[i as int],
                crate::selection::selector(true, None),
            );
        }
        if containers[i].state.is_running() {
            count += 1;
        }
        i += 1;
    }
    assert(containers@.take(i as int) =~= containers@);
    count
}

/// The icon that stands for a health; none for unknown health.
pub open spec fn health_icon_of(status: HealthStatus) -> Option<Seq<char>> {
    match status {
        HealthStatus::Healthy => Some("emblem-ok-symbolic"@),
        HealthStatus::Unhealthy => Some("emblem-important-symbolic"@),
        HealthStatus::Starting => Some("emblem-synchronizing-symbolic"@),
        HealthStatus::Unknown => None,
    }
}

/// The name of the icon that stands for a health.
pub fn health_icon(status: HealthStatus) -> (icon: Option<&'static str>)
    ensures
        icon is Some == health_icon_of(status) is Some,
        icon is Some ==> icon->0@ == health_icon_of(status)->0,
{
    match status {
        HealthStatus::Healthy => Some("emblem-ok-symbolic"),
        HealthStatus::Unhealthy => Some("emblem-important-symbolic"),
        HealthStatus::Starting => Some("emblem-synchronizing-symbolic"),
        HealthStatus::Unknown => None,
    }
}

/// The first port that is published on the host, if any is.
pub open spec fn first_published(ports: Seq<PortMapping>) -> Option<u16>
    decreases ports.len(),
{
    if ports.len() == 0 {
        None
    } else if ports[0].public_port is Some {
        ports[0].public_port
    } else {
        first_published(ports.drop_first())
    }
}

/// The host port under which a container can be browsed: the first one
/// that is published.
pub fn first_public_port(ports: &[PortMapping]) -> (port: Option<u16>)
    ensures
        port == first_published(ports@),
{
    let mut i: usize = 0;
    assert(ports@.skip(0) =~= ports@);
    while i < ports.len()
        invariant
            i <= ports.len(),
            first_published(ports@) == first_published(ports@.skip(i as int)),
        decreases ports.len() - i,
    {
        assert(ports@.skip(i as int).drop_first() =~= ports@.skip(i + 1));
        match ports[i].public_port {
            Some(port) => {
                return Some(port);
            },
            None => {},
        }
        i += 1;
    }
    None
}

/// How a port is written among a container's details:
/// `public:private/protocol` where it is published, `private/protocol`
/// where it is not.
pub open spec fn port_line_of(port: PortMapping) -> Seq<char> {
    match port.public_port {
        Some(_) => port.mapping_text(),
        None => decimal(port.private_port as nat) + seq!['/'] + port.protocol@,
    }
}

/// Writes a port as it is shown among a container's details.
pub fn port_line(port: &PortMapping) -> (line: String)
    ensures
        line@ == port_line_of(*port),
{
    proof {
        reveal_strlit(":");
        reveal_strlit("/");
    }
    let mut line = String::new();
    match port.public_port {
        Some(public) => {
            line = push_decimal(line, public as u64);
            line = line.concat(":");
        },
        None => {},
    }
    line = push_decimal(line, port.private_port as u64);
    line = line.concat("/");
    line = line.concat(port.protocol.as_str());
    assert(line@ =~= port_line_of(*port));
    line
}

/// How a mount is written: source, an arrow, destination.
pub open spec fn volume_line_of(source: Seq<char>, destination: Seq<char>) -> Seq<char> {
    source + " \u{2192} "@ + destination
}

/// Writes a mount as it is shown among a container's details.
pub fn volume_line(source: &str, destination: &str) -> (line: String)
    ensures
        line@ == volume_line_of(source@, destination@),
{
    source.to_owned().concat(" \u{2192} ").concat(destination)
}

/// How a network is written: its name, followed by the container's
/// address in brackets where it has one.
pub open spec fn network_line_of(name: Seq<char>, address: Seq<char>) -> Seq<char> {
    if address.len() == 0 {
        name
    } else {
        name + " ("@ + address + ")"@
    }
}

/// Writes a network as it is shown among a container's details.
pub fn network_line(name: &str, address: &str) -> (line: String)
    ensures
        line@ == network_line_of(name@, address@),
{
    if address.is_empty() {
        name.to_owned()
    } else {
        name.to_owned().concat(" (").concat(address).concat(")")
    }
}

/// What stands in place of a log.
#[derive(Clone, Copy, Debug, PartialEq, Eq, Structural)]
pub enum LogBody {
    /// The log was asked for and nothing of it has come yet.
    Loading,
    /// Nothing is awaited and the log is empty.
    NoOutput,
    /// The log as far as it was read.
    Content,
}

/// Decides what stands in place of a log.
pub fn log_body(loading: bool, content: &str) -> (body: LogBody)
    ensures
        body == if content@.len() > 0 {
            LogBody::Content
        } else if loading {
            LogBody::Loading
        } else {
            LogBody::NoOutput
        },
{
    if !content.is_empty() {
        LogBody::Content
    } else if loading {
        LogBody::Loading
    } else {
        LogBody::NoOutput
    }
}

/// The unit in which an amount of memory is written.
#[derive(Clone, Copy, Debug, PartialEq, Eq, Structural)]
pub enum MemoryUnit {
    Megabytes,
    Gigabytes,
}

/// Mebibytes in one gibibyte.
pub const MB_PER_GB: u64 = 1024;

/// The unit in which an amount of mebibytes is written: gibibytes from
/// 1024 on.
pub fn memory_unit(mb: &Exact) -> (unit: MemoryUnit)
    ensures
        unit == if mb.scaled() >= MB_PER_GB * mb.denominator {
            MemoryUnit::Gigabytes
        } else {
            MemoryUnit::Megabytes
        },
{
    if mb.at_least(MB_PER_GB) {
        MemoryUnit::Gigabytes
    } else {
        MemoryUnit::Megabytes
    }
}

} // verus!
