//! Arranging the snapshot for a list: the containers that a search finds,
//! grouped by compose project, the groups in the order of their names, and
//! within each group the running containers first.

use vstd::prelude::*;
use vstd::string::*;
use vstd::hash_set::StringHashSet;
use crate::container::ContainerInfo;
use crate::order::{in_order, insert_in_order};
use crate::search::{matches_search, search_finds};
use crate::selection::{compose_project, group_view, in_compose_project};
use crate::text::texts;

verus! {

/// The test for a row: the search finds the container, it belongs to the
/// given project (or to none), and it runs (or does not).
pub open spec fn row_test(
    containers: Seq<ContainerInfo>,
    query: Seq<char>,
    project: Option<Seq<char>>,
    running: bool,
) -> spec_fn(int) -> bool {
    |i: int|
        0 <= i < containers.len() && search_finds(containers[i], query) && compose_project(
            containers[i],
        ) == project && (containers[i].state is Running) == running
}

/// The positions in the snapshot, in order.
pub open spec fn positions(count: nat) -> Seq<int> {
    Seq::new(count, |i: int| i)
}

/// The positions of the containers that pass the test, in the order of the
/// snapshot.
pub open spec fn rows_of(
    containers: Seq<ContainerInfo>,
    query: Seq<char>,
    project: Option<Seq<char>>,
    running: bool,
) -> Seq<int> {
    positions(containers.len()).filter(row_test(containers, query, project, running))
}

/// The compose projects of the containers that the search finds among the
/// first `upto` of the snapshot.
pub open spec fn found_projects(
    containers: Seq<ContainerInfo>,
    query: Seq<char>,
    upto: int,
) -> Set<Seq<char>> {
    Set::new(
        |project: Seq<char>|
            exists|i: int|
                0 <= i < upto && i < containers.len() && search_finds(
                    #[trigger] containers[i],
                    query,
                ) && compose_project(containers[i]) == Some(project),
    )
}

/// Positions as mathematical integers.
pub open spec fn as_ints(rows: Seq<usize>) -> Seq<int> {
    rows.map_values(|row: usize| row as int)
}

/// The containers of one compose project that a search finds.
pub struct Group {
    /// The project's name.
    pub name: String,
    /// The positions of the group's containers in the snapshot: the running
    /// ones, then the others, each in the order of the snapshot.
    pub rows: Vec<usize>,
    /// How many of them run.
    pub running: usize,
    /// Whether the group is shown collapsed.
    pub collapsed: bool,
}

impl Group {
    /// Whether this is the group of the project `self.name`.
    pub open spec fn describes(
        self,
        containers: Seq<ContainerInfo>,
        query: Seq<char>,
        collapsed: Set<Seq<char>>,
    ) -> bool {
        &&& as_ints(self.rows@) == rows_of(containers, query, Some(self.name@), true) + rows_of(
            containers,
            query,
            Some(self.name@),
            false,
        )
        &&& self.running == rows_of(containers, query, Some(self.name@), true).len()
        &&& self.collapsed == collapsed.contains(self.name@)
    }
}

/// The list of containers as it is shown.
pub struct Arrangement {
    /// The groups, in the order of their names.
    pub groups: Vec<Group>,
    /// The positions of the running containers that belong to no project.
    pub running: Vec<usize>,
    /// The positions of the other containers that belong to no project.
    pub stopped: Vec<usize>,
}

/// The names of the groups.
pub open spec fn group_names(groups: Seq<Group>) -> Seq<Seq<char>> {
    groups.map_values(|group: Group| group.name@)
}

impl Arrangement {
    /// Whether this is the arrangement of the snapshot under the query:
    /// one group for each project of a found container, the groups in
    /// order, and the found containers without a project apart.
    pub open spec fn arranges(
        self,
        containers: Seq<ContainerInfo>,
        query: Seq<char>,
        collapsed: Set<Seq<char>>,
    ) -> bool {
        &&& in_order(group_names(self.groups@))
        &&& group_names(self.groups@).to_set() == found_projects(
            containers,
            query,
            containers.len() as int,
        )
        &&& forall|g: int|
            0 <= g < self.groups@.len() ==> (#[trigger] self.groups@[g]).describes(
                containers,
                query,
                collapsed,
            )
        &&& as_ints(self.running@) == rows_of(containers, query, None, true)
        &&& as_ints(self.stopped@) == rows_of(containers, query, None, false)
    }

    /// Whether the search found nothing.
    pub fn is_empty(&self) -> (empty: bool)
        ensures
            empty == (self.groups@.len() == 0 && self.running@.len() == 0 && self.stopped@.len()
                == 0),
    {
        self.groups.len() == 0 && self.running.len() == 0 && self.stopped.len() == 0
    }

    /// Whether the containers without a project get a heading of their
    /// own: they do when there are groups beside them.
    pub fn shows_other_heading(&self) -> (shown: bool)
        ensures
            shown == (self.groups@.len() > 0 && (self.running@.len() > 0 || self.stopped@.len()
                > 0)),
    {
        self.groups.len() > 0 && (self.running.len() > 0 || self.stopped.len() > 0)
    }

    /// Whether the stopped containers get a heading of their own: they do
    /// when there are no groups.
    pub fn shows_stopped_heading(&self) -> (shown: bool)
        ensures
            shown == (self.groups@.len() == 0 && self.stopped@.len() > 0),
    {
        self.groups.len() == 0 && self.stopped.len() > 0
    }
}

/// Whether the search finds none of the containers.
pub open spec fn nothing_found(containers: Seq<ContainerInfo>, query: Seq<char>) -> bool {
    forall|i: int| 0 <= i < containers.len() ==> !search_finds(#[trigger] containers[i], query)
}

/// Whether an arrangement has no row at all.
pub open spec fn no_rows(arrangement: Arrangement) -> bool {
    arrangement.groups@.len() == 0 && arrangement.running@.len() == 0
        && arrangement.stopped@.len() == 0
}

/// An arrangement is empty exactly when the search finds nothing: every
/// found container has its row, in a group or apart.
pub proof fn lemma_empty_arrangement(
    arrangement: Arrangement,
    containers: Seq<ContainerInfo>,
    query: Seq<char>,
    collapsed: Set<Seq<char>>,
)
    requires
        arrangement.arranges(containers, query, collapsed),
    ensures
        no_rows(arrangement) <==> nothing_found(containers, query),
{
    let names = group_names(arrangement.groups@);
    let all = positions(containers.len());
    if no_rows(arrangement) {
        assert forall|i: int| 0 <= i < containers.len() implies !search_finds(
            #[trigger] containers[i],
            query,
        ) by {
            if search_finds(containers[i], query) {
                match compose_project(containers[i]) {
                    Some(project) => {
                        assert(found_projects(containers, query, containers.len() as int).contains(
                            project,
                        ));
                        assert(names.to_set().contains(project));
                    },
                    None => {
                        let running = containers[i].state is Running;
                        let test = row_test(containers, query, None, running);
                        assert(all[i] == i);
                        assert(all.contains(i));
                        all.lemma_filter_contains_rev(test, i);
                        assert(rows_of(containers, query, None, running).contains(i));
                    },
                }
            }
        }
    }
    if nothing_found(containers, query) {
        if names.len() > 0 {
            assert(names.to_set().contains(names[0]));
            assert(found_projects(containers, query, containers.len() as int).contains(names[0]));
        }
        let running = rows_of(containers, query, None, true);
        if running.len() > 0 {
            all.lemma_filter_pred(row_test(containers, query, None, true), 0);
        }
        let stopped = rows_of(containers, query, None, false);
        if stopped.len() > 0 {
            all.lemma_filter_pred(row_test(containers, query, None, false), 0);
        }
        assert(as_ints(arrangement.running@).len() == arrangement.running@.len());
        assert(as_ints(arrangement.stopped@).len() == arrangement.stopped@.len());
        assert(names.len() == arrangement.groups@.len());
    }
}

/// For each container, whether the search finds it.
pub fn find_each(containers: &Vec<ContainerInfo>, query: &str) -> (found: Vec<bool>)
    ensures
        found@.len() == containers@.len(),
        forall|i: int|
            0 <= i < containers@.len() ==> found@[i] == search_finds(
                #[trigger] containers@[i],
                query@,
            ),
{
    let mut found: Vec<bool> = Vec::new();
    let mut i: usize = 0;
    while i < containers.len()
        invariant
            i <= containers.len(),
            found@.len() == i,
            forall|j: int|
                0 <= j < i ==> found@[j] == search_finds(#[trigger] containers@[j], query@),
        decreases containers.len() - i,
    {
        found.push(matches_search(&containers[i], query));
        i += 1;
    }
    found
}

/// Whether a container belongs to no compose project.
fn in_no_project(container: &ContainerInfo) -> (none: bool)
    ensures
        none == (compose_project(*container) is None),
{
    container.labels.get("com.docker.compose.project").is_none()
}

fn find_rows(
    containers: &Vec<ContainerInfo>,
    found: &Vec<bool>,
    project: Option<&str>,
    running: bool,
    Ghost(query): Ghost<Seq<char>>,
) -> (rows: Vec<usize>)
    requires
        found@.len() == containers@.len(),
        forall|i: int|
            0 <= i < containers@.len() ==> found@[i] == search_finds(
                #[trigger] containers@[i],
                query,
            ),
    ensures
        as_ints(rows@) == rows_of(containers@, query, group_view(project), running),
{
    let ghost test = row_test(containers@, query, group_view(project), running);
    let ghost all = positions(containers@.len());
    let mut rows: Vec<usize> = Vec::new();
    let mut i: usize = 0;
    proof {
        assert(all.take(0) =~= Seq::<int>::empty());
        assert(all.take(0).filter(test) =~= Seq::<int>::empty());
        assert(as_ints(rows@) =~= all.take(0).filter(test));
    }
    while i < containers.len()
        invariant
            i <= containers.len(),
            found@.len() == containers@.len(),
            forall|j: int|
                0 <= j < containers@.len() ==> found@[j] == search_finds(
                    #[trigger] containers@[j],
                    query,
                ),
            test == row_test(containers@, query, group_view(project), running),
            all == positions(containers@.len()),
            as_ints(rows@) == all.take(i as int).filter(test),
        decreases containers.len() - i,
    {
        let container = &containers[i];
        proof {
            assert(all.take(i + 1) =~= all.take(i as int).push(i as int));
            Seq::lemma_filter_push(all.take(i as int), i as int, test);
        }
        let in_project = match project {
            Some(name) => in_compose_project(container, name),
            None => in_no_project(container),
        };
        if found[i] && in_project && container.state.is_running() == running {
            let ghost before = rows@;
            rows.push(i);
            assert(as_ints(rows@) =~= as_ints(before).push(i as int));
        }
        i += 1;
    }
    assert(all.take(i as int) =~= all);
    rows
}

fn found_names(
    containers: &Vec<ContainerInfo>,
    found: &Vec<bool>,
    Ghost(query): Ghost<Seq<char>>,
) -> (names: Vec<String>)
    requires
        found@.len() == containers@.len(),
        forall|i: int|
            0 <= i < containers@.len() ==> found@[i] == search_finds(
                #[trigger] containers@[i],
                query,
            ),
    ensures
        in_order(texts(names@)),
        texts(names@).to_set() == found_projects(containers@, query, containers@.len() as int),
{
    let mut names: Vec<String> = Vec::new();
    let mut i: usize = 0;
    assert(texts(names@).to_set() =~= found_projects(containers@, query, 0));
    while i < containers.len()
        invariant
            i <= containers.len(),
            found@.len() == containers@.len(),
            forall|j: int|
                0 <= j < containers@.len() ==> found@[j] == search_finds(
                    #[trigger] containers@[j],
                    query,
                ),
            in_order(texts(names@)),
            texts(names@).to_set() == found_projects(containers@, query, i as int),
        decreases containers.len() - i,
    {
        let container = &containers[i];
        let ghost before = found_projects(containers@, query, i as int);
        let ghost after = found_projects(containers@, query, i + 1);
        let named = if found[i] {
            container.labels.get("com.docker.compose.project")
        } else {
            None
        };
        match named {
            Some(project) => {
                proof {
                    assert(after =~= before.insert(project@)) by {
                        assert(search_finds(containers@[i as int], query) && compose_project(
                            containers@[i as int],
                        ) == Some(project@));
                    }
                }
                insert_in_order(&mut names, project.clone());
            },
            None => {
                assert(after =~= before);
            },
        }
        i += 1;
    }
    names
}

/// Arranges the snapshot for the list under a search.
pub fn arrange(
    containers: &Vec<ContainerInfo>,
    query: &str,
    collapsed: &StringHashSet,
) -> (arrangement: Arrangement)
    ensures
        arrangement.arranges(containers@, query@, collapsed@),
{
    let found = find_each(containers, query);
    let names = found_names(containers, &found, Ghost(query@));
    let mut groups: Vec<Group> = Vec::new();
    let mut g: usize = 0;
    while g < names.len()
        invariant
            g <= names.len(),
            found@.len() == containers@.len(),
            forall|i: int|
                0 <= i < containers@.len() ==> found@[i] == search_finds(
                    #[trigger] containers@[i],
                    query@,
                ),
            groups@.len() == g,
            forall|k: int|
                0 <= k < g ==> (#[trigger] groups@[k]).name@ == names@[k]@ && groups@[k].describes(
                    containers@,
                    query@,
                    collapsed@,
                ),
        decreases names.len() - g,
    {
        let name = names[g].clone();
        let mut rows = find_rows(containers, &found, Some(name.as_str()), true, Ghost(query@));
        let mut others = find_rows(containers, &found, Some(name.as_str()), false, Ghost(query@));
        let running = rows.len();
        let ghost first = rows@;
        let ghost second = others@;
        rows.append(&mut others);
        assert(as_ints(rows@) =~= as_ints(first) + as_ints(second));
        let collapsed_now = collapsed.contains(name.as_str());
        groups.push(Group { name, rows, running, collapsed: collapsed_now });
        g += 1;
    }
    assert(group_names(groups@) =~= texts(names@));
    let running = find_rows(containers, &found, None, true, Ghost(query@));
    let stopped = find_rows(containers, &found, None, false, Ghost(query@));
    Arrangement { groups, running, stopped }
}

} // verus!
