use cosmic_applet_docker::container::{ContainerInfo, ContainerState};
use cosmic_applet_docker::selection::{in_compose_project, select_ids};
use cosmic_applet_docker::StringHashMap;

fn entry(id: &str, state: ContainerState, project: Option<&str>) -> ContainerInfo {
    let mut labels = StringHashMap::new();
    labels.insert("other".to_string(), "shop".to_string());
    if let Some(project) = project {
        labels.insert("com.docker.compose.project".to_string(), project.to_string());
    }
    ContainerInfo {
        id: id.to_string(),
        name: id.to_string(),
        image: String::new(),
        state,
        status: String::new(),
        ports: Vec::new(),
        labels,
        created: None,
    }
}

fn snapshot() -> Vec<ContainerInfo> {
    vec![
        entry("a", ContainerState::Running, Some("shop")),
        entry("b", ContainerState::Stopped, Some("shop")),
        entry("c", ContainerState::Running, None),
        entry("d", ContainerState::Restarting, Some("blog")),
        entry("e", ContainerState::Running, Some("blog")),
    ]
}

#[test]
fn membership_goes_by_the_compose_label() {
    assert!(in_compose_project(&entry("a", ContainerState::Running, Some("shop")), "shop"));
    assert!(!in_compose_project(&entry("a", ContainerState::Running, Some("shop")), "sho"));
    assert!(!in_compose_project(&entry("a", ContainerState::Running, None), "shop"));
    assert!(!in_compose_project(&entry("a", ContainerState::Running, None), ""));
}

#[test]
fn selection_keeps_snapshot_order() {
    assert_eq!(select_ids(&snapshot(), true, None), vec!["a", "c", "e"]);
    assert_eq!(select_ids(&snapshot(), false, None), vec!["b", "d"]);
}

#[test]
fn selection_by_group() {
    assert_eq!(select_ids(&snapshot(), true, Some("shop")), vec!["a"]);
    assert_eq!(select_ids(&snapshot(), false, Some("shop")), vec!["b"]);
    assert_eq!(select_ids(&snapshot(), true, Some("blog")), vec!["e"]);
    assert_eq!(select_ids(&snapshot(), false, Some("blog")), vec!["d"]);
    assert!(select_ids(&snapshot(), true, Some("none")).is_empty());
}

#[test]
fn selection_from_nothing_is_empty() {
    assert!(select_ids(&Vec::new(), true, None).is_empty());
    assert!(select_ids(&Vec::new(), false, Some("shop")).is_empty());
}
