use cosmic_applet_docker::container::ContainerState;
use cosmic_applet_docker::inventory::{
    container_from_record, fetch_containers, port_from_record, ContainerRecord, PortRecord,
    PortType,
};
use cosmic_applet_docker::StringHashMap;

fn empty_record() -> ContainerRecord {
    ContainerRecord {
        id: None,
        names: None,
        image: None,
        state: None,
        status: None,
        ports: None,
        labels: None,
        created: None,
    }
}

fn record(id: &str, name: &str, state: &str) -> ContainerRecord {
    ContainerRecord {
        id: Some(id.to_string()),
        names: Some(vec![name.to_string()]),
        image: Some("nginx:latest".to_string()),
        state: Some(state.to_string()),
        status: Some("Up 2 hours".to_string()),
        ports: None,
        labels: None,
        created: Some(1_700_000_000),
    }
}

#[test]
fn record_without_fields_reads_as_empty_entry() {
    let info = container_from_record(empty_record());
    assert_eq!(info.id, "");
    assert_eq!(info.name, "");
    assert_eq!(info.image, "");
    assert_eq!(info.status, "");
    assert!(info.ports.is_empty());
    assert!(info.labels.is_empty());
    assert_eq!(info.created, None);
    match info.state {
        ContainerState::Other(raw) => assert_eq!(raw, ""),
        _ => panic!("a missing state word is kept as the empty word"),
    }
}

#[test]
fn record_reads_with_first_name_trimmed() {
    let mut listed = record("abc123", "/web", "running");
    listed.names = Some(vec!["/web".to_string(), "/alias".to_string()]);
    let info = container_from_record(listed);
    assert_eq!(info.id, "abc123");
    assert_eq!(info.name, "web");
    assert_eq!(info.image, "nginx:latest");
    assert_eq!(info.status, "Up 2 hours");
    assert_eq!(info.created, Some(1_700_000_000));
    assert!(matches!(info.state, ContainerState::Running));
}

#[test]
fn record_with_no_names_has_empty_name() {
    let mut listed = record("abc", "/x", "exited");
    listed.names = Some(Vec::new());
    let info = container_from_record(listed);
    assert_eq!(info.name, "");
    assert!(matches!(info.state, ContainerState::Stopped));
}

#[test]
fn record_keeps_labels() {
    let mut labels = StringHashMap::new();
    labels.insert("com.docker.compose.project".to_string(), "shop".to_string());
    labels.insert("tier".to_string(), "front".to_string());
    let mut listed = record("abc", "/web", "running");
    listed.labels = Some(labels);
    let info = container_from_record(listed);
    assert_eq!(info.labels.len(), 2);
    assert_eq!(info.labels.get("com.docker.compose.project"), Some(&"shop".to_string()));
    assert_eq!(info.labels.get("tier"), Some(&"front".to_string()));
    assert_eq!(info.labels.get("other"), None);
}

#[test]
fn port_protocol_defaults_to_tcp() {
    let named = |typ: Option<PortType>| {
        port_from_record(&PortRecord { private_port: 80, public_port: Some(8080), typ }).protocol
    };
    assert_eq!(named(Some(PortType::Tcp)), "tcp");
    assert_eq!(named(Some(PortType::Udp)), "udp");
    assert_eq!(named(Some(PortType::Sctp)), "sctp");
    assert_eq!(named(Some(PortType::Empty)), "tcp");
    assert_eq!(named(None), "tcp");
}

#[test]
fn record_reads_ports_in_order() {
    let mut listed = record("abc", "/web", "running");
    listed.ports = Some(vec![
        PortRecord { private_port: 80, public_port: Some(8080), typ: Some(PortType::Tcp) },
        PortRecord { private_port: 53, public_port: None, typ: Some(PortType::Udp) },
    ]);
    let info = container_from_record(listed);
    assert_eq!(info.ports.len(), 2);
    assert_eq!(info.ports[0].public_port, Some(8080));
    assert_eq!(info.ports[0].private_port, 80);
    assert_eq!(info.ports[0].protocol, "tcp");
    assert_eq!(info.ports[1].public_port, None);
    assert_eq!(info.ports[1].private_port, 53);
    assert_eq!(info.ports[1].protocol, "udp");
}

#[test]
fn listing_becomes_entries_in_order() {
    let listing = Ok(vec![
        record("a", "/first", "running"),
        record("b", "/second", "exited"),
        record("c", "/third", "created"),
    ]);
    let polled = fetch_containers(listing).expect("a listing is passed on");
    let ids: Vec<&str> = polled.iter().map(|c| c.id.as_str()).collect();
    assert_eq!(ids, vec!["a", "b", "c"]);
    let names: Vec<&str> = polled.iter().map(|c| c.name.as_str()).collect();
    assert_eq!(names, vec!["first", "second", "third"]);
}

#[test]
fn empty_listing_becomes_no_entries() {
    let polled = fetch_containers(Ok(Vec::new())).expect("a listing is passed on");
    assert!(polled.is_empty());
}

#[test]
fn failed_listing_is_passed_on() {
    match fetch_containers(Err("socket not found".to_string())) {
        Err(message) => assert_eq!(message, "socket not found"),
        Ok(_) => panic!("a failure stays a failure"),
    }
}
