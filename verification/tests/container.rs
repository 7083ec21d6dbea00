use cosmic_applet_docker::container::{format_ports, parse_state, ContainerState, PortMapping};

fn mapping(public_port: Option<u16>, private_port: u16, protocol: &str) -> PortMapping {
    PortMapping { public_port, private_port, protocol: protocol.to_string() }
}

#[test]
fn parse_state_reads_known_words() {
    assert!(matches!(parse_state("running"), ContainerState::Running));
    assert!(matches!(parse_state("exited"), ContainerState::Stopped));
    assert!(matches!(parse_state("dead"), ContainerState::Stopped));
    assert!(matches!(parse_state("restarting"), ContainerState::Restarting));
    assert!(matches!(parse_state("paused"), ContainerState::Paused));
}

#[test]
fn parse_state_keeps_unknown_words() {
    match parse_state("created") {
        ContainerState::Other(raw) => assert_eq!(raw, "created"),
        _ => panic!("an unknown word must be kept"),
    }
    match parse_state("") {
        ContainerState::Other(raw) => assert_eq!(raw, ""),
        _ => panic!("the empty word must be kept"),
    }
    match parse_state("Running") {
        ContainerState::Other(raw) => assert_eq!(raw, "Running"),
        _ => panic!("state words are case sensitive"),
    }
}

#[test]
fn format_ports_writes_published_ports_only() {
    let ports = vec![
        mapping(Some(8080), 80, "tcp"),
        mapping(None, 443, "tcp"),
        mapping(Some(53), 53, "udp"),
    ];
    assert_eq!(format_ports(&ports), "8080:80/tcp, 53:53/udp");
}

#[test]
fn format_ports_is_empty_without_published_ports() {
    assert_eq!(format_ports(&[]), "");
    assert_eq!(format_ports(&[mapping(None, 80, "tcp")]), "");
}

#[test]
fn format_ports_writes_extreme_numbers() {
    assert_eq!(format_ports(&[mapping(Some(0), 65535, "sctp")]), "0:65535/sctp");
}
