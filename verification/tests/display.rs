use cosmic_applet_docker::container::{ContainerInfo, ContainerState, HealthStatus, PortMapping};
use cosmic_applet_docker::display::{
    first_public_port, health_icon, log_body, memory_unit, network_line, port_line, running_count,
    volume_line, LogBody, MemoryUnit,
};
use cosmic_applet_docker::stats::Exact;
use cosmic_applet_docker::StringHashMap;

fn in_state(state: ContainerState) -> ContainerInfo {
    ContainerInfo {
        id: String::new(),
        name: String::new(),
        image: String::new(),
        state,
        status: String::new(),
        ports: Vec::new(),
        labels: StringHashMap::new(),
        created: None,
    }
}

fn port(public_port: Option<u16>, private_port: u16, protocol: &str) -> PortMapping {
    PortMapping { public_port, private_port, protocol: protocol.to_string() }
}

fn mb(numerator: i128, denominator: u64) -> Exact {
    Exact { numerator, multiplier: 1, denominator }
}

#[test]
fn running_count_counts_running_only() {
    let containers = vec![
        in_state(ContainerState::Running),
        in_state(ContainerState::Stopped),
        in_state(ContainerState::Restarting),
        in_state(ContainerState::Running),
        in_state(ContainerState::Paused),
        in_state(ContainerState::Other("running".to_string())),
    ];
    assert_eq!(running_count(&containers), 2);
    assert_eq!(running_count(&Vec::new()), 0);
}

#[test]
fn health_icon_stands_for_known_health() {
    assert_eq!(health_icon(HealthStatus::Healthy), Some("emblem-ok-symbolic"));
    assert_eq!(health_icon(HealthStatus::Unhealthy), Some("emblem-important-symbolic"));
    assert_eq!(health_icon(HealthStatus::Starting), Some("emblem-synchronizing-symbolic"));
    assert_eq!(health_icon(HealthStatus::Unknown), None);
}

#[test]
fn first_public_port_skips_unpublished_ports() {
    let ports = vec![port(None, 80, "tcp"), port(Some(8443), 443, "tcp"), port(Some(53), 53, "udp")];
    assert_eq!(first_public_port(&ports), Some(8443));
    assert_eq!(first_public_port(&[port(None, 80, "tcp")]), None);
    assert_eq!(first_public_port(&[]), None);
}

#[test]
fn port_line_shows_the_public_port_where_there_is_one() {
    assert_eq!(port_line(&port(Some(8080), 80, "tcp")), "8080:80/tcp");
    assert_eq!(port_line(&port(None, 53, "udp")), "53/udp");
}

#[test]
fn volume_line_points_from_source_to_destination() {
    assert_eq!(volume_line("/host", "/data"), "/host \u{2192} /data");
    assert_eq!(volume_line("", "/tmp"), " \u{2192} /tmp");
}

#[test]
fn network_line_shows_the_address_where_there_is_one() {
    assert_eq!(network_line("bridge", "172.17.0.2"), "bridge (172.17.0.2)");
    assert_eq!(network_line("host", ""), "host");
}

#[test]
fn log_body_prefers_content() {
    assert_eq!(log_body(true, ""), LogBody::Loading);
    assert_eq!(log_body(false, ""), LogBody::NoOutput);
    assert_eq!(log_body(true, "x"), LogBody::Content);
    assert_eq!(log_body(false, "x"), LogBody::Content);
}

#[test]
fn memory_is_written_in_gigabytes_from_1024_on() {
    assert_eq!(memory_unit(&mb(1023, 1)), MemoryUnit::Megabytes);
    assert_eq!(memory_unit(&mb(1024, 1)), MemoryUnit::Gigabytes);
    assert_eq!(memory_unit(&mb(1_073_741_823, 1_048_576)), MemoryUnit::Megabytes);
    assert_eq!(memory_unit(&mb(1_073_741_824, 1_048_576)), MemoryUnit::Gigabytes);
    assert_eq!(memory_unit(&mb(0, 1_048_576)), MemoryUnit::Megabytes);
    assert_eq!(memory_unit(&mb(-5, 1)), MemoryUnit::Megabytes);
}

#[test]
fn at_least_compares_exactly() {
    let value = Exact { numerator: 7, multiplier: 3, denominator: 2 };
    assert!(value.at_least(10));
    assert!(!value.at_least(11));
    assert!(value.at_least(0));
    let zero = Exact { numerator: 5, multiplier: 0, denominator: 1 };
    assert!(zero.at_least(0));
    assert!(!zero.at_least(1));
    let negative = Exact { numerator: -1, multiplier: 1, denominator: 1 };
    assert!(!negative.at_least(0));
    let huge = Exact { numerator: i128::MAX, multiplier: u64::MAX, denominator: u64::MAX };
    assert!(huge.at_least(u64::MAX));
    let one = Exact { numerator: 1, multiplier: 1, denominator: u64::MAX };
    assert!(!one.at_least(1));
}
