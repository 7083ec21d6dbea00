//! Picking the containers that a command for many containers is about: by
//! whether they run, and by the compose project they belong to.

use vstd::prelude::*;
use vstd::string::*;
use crate::container::ContainerInfo;
use crate::text::{same_text, texts};

verus! {

/// The label by which a container names the compose project it belongs to.
pub open spec fn compose_project_label() -> Seq<char> {
    "com.docker.compose.project"@
}

/// The compose project of a container, if it names one. Grouping is read
/// off the snapshot each time; nothing about it is stored.
pub open spec fn compose_project(container: ContainerInfo) -> Option<Seq<char>> {
    if container.labels@.contains_key(compose_project_label()) {
        Some(container.labels@[compose_project_label()]@)
    } else {
        None
    }
}

/// The test for "runs, or does not run, and belongs to the group, if one is
/// asked for".
pub open spec fn selector(running: bool, group: Option<Seq<char>>) -> spec_fn(
    ContainerInfo,
) -> bool {
    |container: ContainerInfo|
        (container.state is Running) == running && (group is None || compose_project(container)
            == group)
}

/// The containers that pass the test, in the order of the snapshot.
pub open spec fn selected(
    containers: Seq<ContainerInfo>,
    running: bool,
    group: Option<Seq<char>>,
) -> Seq<ContainerInfo> {
    containers.filter(selector(running, group))
}

/// The ids of the given containers.
pub open spec fn ids_of(containers: Seq<ContainerInfo>) -> Seq<Seq<char>> {
    containers.map_values(|container: ContainerInfo| container.id@)
}

/// The ids of the containers that pass the test, in the order of the
/// snapshot.
pub open spec fn selected_ids(
    containers: Seq<ContainerInfo>,
    running: bool,
    group: Option<Seq<char>>,
) -> Seq<Seq<char>> {
    ids_of(selected(containers, running, group))
}

/// The ids of the running containers.
pub open spec fn running_ids(containers: Seq<ContainerInfo>) -> Seq<Seq<char>> {
    selected_ids(containers, true, None)
}

/// The view of a group that may be asked for.
pub open spec fn group_view(group: Option<&str>) -> Option<Seq<char>> {
    match group {
        Some(name) => Some(name@),
        None => None,
    }
}

/// Taking one more container into account: its id follows the selected
/// ones if it passes the test, and nothing changes if it does not.
pub proof fn lemma_selected_ids_next(
    containers: Seq<ContainerInfo>,
    i: int,
    running: bool,
    group: Option<Seq<char>>,
)
    requires
        0 <= i < containers.len(),
    ensures
        selected_ids(containers.take(i + 1), running, group) == if selector(running, group)(
            containers[i],
        ) {
            selected_ids(containers.take(i), running, group).push(containers[i].id@)
        } else {
            selected_ids(containers.take(i), running, group)
        },
{
    let before = containers.take(i);
    let next = containers[i];
    assert(containers.take(i + 1) =~= before.push(next));
    Seq::lemma_filter_push(before, next, selector(running, group));
    if selector(running, group)(next) {
        assert(ids_of(selected(before, running, group).push(next)) =~= ids_of(
            selected(before, running, group),
        ).push(next.id@));
    }
}

/// Whether a container belongs to the compose project `group`.
pub fn in_compose_project(container: &ContainerInfo, group: &str) -> (member: bool)
    ensures
        member == (compose_project(*container) == Some(group@)),
{
    match container.labels.get("com.docker.compose.project") {
        Some(project) => same_text(project.as_str(), group),
        None => false,
    }
}

/// The ids of the containers that run (or, with `running` false, do not
/// run) and, where a group is given, belong to it.
pub fn select_ids(containers: &Vec<ContainerInfo>, running: bool, group: Option<&str>) -> (ids:
    Vec<String>)
    ensures
        texts(ids@) == selected_ids(containers@, running, group_view(group)),
{
    let mut ids: Vec<String> = Vec::new();
    let mut i: usize = 0;
    proof {
        assert(containers@.take(0) =~= Seq::<ContainerInfo>::empty());
        assert(selected(containers@.take(0), running, group_view(group))
            =~= Seq::<ContainerInfo>::empty());
        assert(texts(ids@) =~= selected_ids(containers@.take(0), running, group_view(group)));
    }
    while i < containers.len()
        invariant
            i <= containers.len(),
            texts(ids@) == selected_ids(containers@.take(i as int), running, group_view(group)),
        decreases containers.len() - i,
    {
        let container = &containers[i];
        proof {
            lemma_selected_ids_next(containers@, i as int, running, group_view(group));
        }
        let in_group = match group {
            Some(name) => in_compose_project(container, name),
            None => true,
        };
        if container.state.is_running() == running && in_group {
            let ghost before = ids@;
            ids.push(container.id.clone());
            assert(texts(ids@) =~= texts(before).push(container.id@));
        }
        i += 1;
    }
    assert(containers@.take(i as int) =~= containers@);
    ids
}

} // verus!
