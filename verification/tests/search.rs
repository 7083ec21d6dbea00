use cosmic_applet_docker::container::{ContainerInfo, ContainerState};
use cosmic_applet_docker::order::comes_before;
use cosmic_applet_docker::search::{chars_of, contains_chars, matches_lowered, matches_search};
use cosmic_applet_docker::StringHashMap;

fn named(name: &str, image: &str) -> ContainerInfo {
    ContainerInfo {
        id: String::new(),
        name: name.to_string(),
        image: image.to_string(),
        state: ContainerState::Running,
        status: String::new(),
        ports: Vec::new(),
        labels: StringHashMap::new(),
        created: None,
    }
}

fn chars(text: &str) -> Vec<char> {
    text.chars().collect()
}

#[test]
fn chars_of_lists_the_characters() {
    assert_eq!(chars_of("héllo"), vec!['h', 'é', 'l', 'l', 'o']);
    assert!(chars_of("").is_empty());
}

#[test]
fn contains_chars_finds_every_place() {
    assert!(contains_chars(&chars("database"), &chars("data")));
    assert!(contains_chars(&chars("database"), &chars("base")));
    assert!(contains_chars(&chars("database"), &chars("tab")));
    assert!(contains_chars(&chars("database"), &chars("database")));
    assert!(contains_chars(&chars("database"), &chars("")));
    assert!(contains_chars(&chars(""), &chars("")));
    assert!(!contains_chars(&chars("database"), &chars("databases")));
    assert!(!contains_chars(&chars("database"), &chars("bat")));
    assert!(!contains_chars(&chars(""), &chars("a")));
    assert!(contains_chars(&chars("aab"), &chars("ab")));
}

#[test]
fn lowered_search_looks_at_name_and_image() {
    assert!(matches_lowered("web", "nginx:latest", ""));
    assert!(matches_lowered("web", "nginx:latest", "we"));
    assert!(matches_lowered("web", "nginx:latest", "ngi"));
    assert!(!matches_lowered("web", "nginx:latest", "redis"));
    assert!(!matches_lowered("web", "nginx:latest", "WE"));
}

#[test]
fn search_ignores_case() {
    let container = named("Web-Frontend", "Nginx:Latest");
    assert!(matches_search(&container, "WEB"));
    assert!(matches_search(&container, "web-front"));
    assert!(matches_search(&container, "nGiNx"));
    assert!(matches_search(&container, ""));
    assert!(!matches_search(&container, "redis"));
}

#[test]
fn names_are_ordered_by_code_point() {
    let before = |a: &str, b: &str| comes_before(&chars(a), &chars(b));
    assert!(before("a", "b"));
    assert!(!before("b", "a"));
    assert!(!before("a", "a"));
    assert!(before("", "a"));
    assert!(!before("a", ""));
    assert!(!before("", ""));
    assert!(before("ab", "abc"));
    assert!(!before("abc", "ab"));
    assert!(before("Z", "a"));
    assert!(before("abc", "abd"));
    assert!(before("z", "é"));
}
