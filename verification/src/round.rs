//! A round of collection: list the containers, read the usage of those that
//! run, and put both together.

use vstd::prelude::*;

use crate::container::{
    build_container_info_list, get_container_state, ContainerInfo, ContainerStats,
    ContainerSummary, StatsMap,
};
use crate::text::is_text;
#[allow(unused_imports)]
use crate::container::{
    container_state, filter_push, info_list, info_of, info_views, no_stats, ContainerInfoView,
    StatsView,
};

verus! {

/// How long the daemon may take to list the containers.
pub const LIST_TIMEOUT_MILLIS: u64 = 3000;

/// How long the readings of all containers together may take.
pub const STATS_TIMEOUT_MILLIS: u64 = 2000;

/// The answer to a request for the list of containers.
#[derive(Clone, Debug)]
pub enum ListReply {
    /// No answer came in time.
    TimedOut,
    /// The request failed, with the reason.
    Failed(String),
    /// The containers.
    Received(Vec<ContainerSummary>),
}

/// What came of reading one container: its id and usage, or nothing.
pub type StatsResult = Option<(String, ContainerStats)>;

/// Whether a container has an id and runs.
pub open spec fn runs(container: ContainerSummary) -> bool {
    container.id is Some && container_state(container) == "running"@
}

/// The ids of the running containers, in their order.
pub open spec fn running_ids(containers: Seq<ContainerSummary>) -> Seq<Seq<char>> {
    containers.filter(|c: ContainerSummary| runs(c)).map_values(|c: ContainerSummary| c.id->0@)
}

/// The usage by container id, the last result of an id counting.
pub open spec fn collected(results: Seq<StatsResult>) -> Map<Seq<char>, StatsView>
    decreases results.len(),
{
    if results.len() == 0 {
        Map::empty()
    } else {
        let before = collected(results.drop_last());
        match results.last() {
            Some((id, stats)) => before.insert(id@, stats@),
            None => before,
        }
    }
}

/// The usage that a round found; none where it ran out of time.
pub open spec fn found(results: Option<Vec<StatsResult>>) -> Map<Seq<char>, StatsView> {
    match results {
        Some(r) => collected(r@),
        None => Map::empty(),
    }
}

/// The views of a list of texts.
pub open spec fn texts(list: Seq<String>) -> Seq<Seq<char>> {
    list.map_values(|s: String| s@)
}

/// The id that a result names.
pub open spec fn result_id(result: StatsResult) -> Seq<char> {
    match result {
        Some((id, _)) => id@,
        None => Seq::empty(),
    }
}

/// Whether the results name the id.
pub open spec fn names_id(results: Seq<StatsResult>, id: Seq<char>) -> bool {
    exists|i: int| 0 <= i < results.len() && (#[trigger] results[i]) is Some && result_id(results[i]) == id
}

proof fn running_ids_push(containers: Seq<ContainerSummary>, c: ContainerSummary)
    ensures
        running_ids(containers.push(c)) == if runs(c) {
            running_ids(containers).push(c.id->0@)
        } else {
            running_ids(containers)
        },
{
    filter_push(containers, |c: ContainerSummary| runs(c), c);
    if runs(c) {
        assert(running_ids(containers.push(c)) =~= running_ids(containers).push(c.id->0@));
    }
}

/// The list of containers that a round goes on with. The error says why there
/// is none.
pub fn accept_listing(reply: ListReply) -> (r: Result<Vec<ContainerSummary>, String>)
    ensures
        match reply {
            ListReply::TimedOut => r matches Err(reason) && reason@ == "Container list timeout"@,
            ListReply::Failed(reason) => r == Err::<Vec<ContainerSummary>, String>(reason),
            ListReply::Received(containers) => r == Ok::<Vec<ContainerSummary>, String>(containers),
        },
{
    match reply {
        ListReply::TimedOut => Err("Container list timeout".to_owned()),
        ListReply::Failed(reason) => Err(reason),
        ListReply::Received(containers) => Ok(containers),
    }
}

/// The ids of the running containers, in their order.
pub fn running_container_ids(containers: &Vec<ContainerSummary>) -> (r: Vec<String>)
    ensures
        texts(r@) == running_ids(containers@),
{
    let mut ids: Vec<String> = Vec::new();
    let mut i: usize = 0;
    proof {
        reveal(Seq::filter);
        assert(containers@.take(0) =~= Seq::empty());
        assert(running_ids(containers@.take(0)) =~= Seq::empty());
        assert(texts(ids@) =~= Seq::empty());
    }
    while i < containers.len()
        invariant
            i <= containers.len(),
            texts(ids@) == running_ids(containers@.take(i as int)),
        decreases containers.len() - i,
    {
        proof {
            assert(containers@.take(i as int + 1) =~= containers@.take(i as int).push(
                containers@[i as int],
            ));
            running_ids_push(containers@.take(i as int), containers@[i as int]);
        }
        let container = &containers[i];
        if let Some(id) = &container.id {
            if is_text(&get_container_state(container), "running") {
                let ghost before = ids@;
                ids.push(id.clone());
                assert(texts(ids@) =~= texts(before).push(id@));
            }
        }
        i = i + 1;
    }
    assert(containers@.take(containers.len() as int) =~= containers@);
    ids
}

/// Gathers the usage that was read, by container id.
pub fn collect_stats(results: &Vec<StatsResult>) -> (r: StatsMap)
    ensures
        r@ == collected(results@),
{
    let mut stats_map = StatsMap::new();
    let mut i: usize = 0;
    while i < results.len()
        invariant
            i <= results.len(),
            stats_map@ == collected(results@.take(i as int)),
        decreases results.len() - i,
    {
        proof {
            assert(results@.take(i as int + 1).drop_last() =~= results@.take(i as int));
        }
        if let Some((id, stats)) = &results[i] {
            stats_map.insert(id.clone(), stats.clone());
        }
        i = i + 1;
    }
    assert(results@.take(results.len() as int) =~= results@);
    stats_map
}

/// Puts the listed containers and what was read of them together. Without
/// results the containers are listed without usage. It always succeeds.
pub fn finish_round(containers: Vec<ContainerSummary>, results: Option<Vec<StatsResult>>) -> (r:
    Result<Vec<ContainerInfo>, String>)
    ensures
        r is Ok,
        info_views(r->Ok_0@) == info_list(containers@, found(results)),
{
    match results {
        Some(results) => build_container_info_list(containers, collect_stats(&results)),
        None => build_container_info_list(containers, StatsMap::new()),
    }
}

/// An id has usage exactly when some result names it.
pub proof fn collected_covers_the_results(results: Seq<StatsResult>, id: Seq<char>)
    ensures
        collected(results).contains_key(id) <==> names_id(results, id),
    decreases results.len(),
{
    if results.len() > 0 {
        let before = results.drop_last();
        collected_covers_the_results(before, id);
        if names_id(before, id) {
            let i = choose|i: int|
                0 <= i < before.len() && (#[trigger] before[i]) is Some && result_id(before[i]) == id;
            assert(results[i] == before[i]);
        }
        if names_id(results, id) {
            let i = choose|i: int|
                0 <= i < results.len() && (#[trigger] results[i]) is Some && result_id(results[i]) == id;
            if i < before.len() {
                assert(before[i] == results[i]);
            }
        }
        if results.last() is Some && result_id(results.last()) == id {
            assert(results[results.len() - 1] is Some);
        }
    }
}

/// A container whose id no result names is listed without usage: in particular
/// one that does not run, when only running containers are read.
pub proof fn unread_containers_show_no_usage(
    container: ContainerSummary,
    containers: Seq<ContainerSummary>,
    results: Seq<StatsResult>,
)
    requires
        container.id is Some,
        !running_ids(containers).contains(container.id->0@),
        forall|i: int|
            0 <= i < results.len() && (#[trigger] results[i]) is Some ==> running_ids(
                containers,
            ).contains(result_id(results[i])),
    ensures
        ({
            let line = info_of(container, collected(results));
            &&& line.cpu_percent == no_stats().cpu_percent
            &&& line.memory_usage == no_stats().memory_usage
            &&& line.memory_percent == no_stats().memory_percent
        }),
{
    collected_covers_the_results(results, container.id->0@);
}

/// Running out of time lists the same containers, all without usage.
pub proof fn timeout_keeps_the_containers(
    containers: Seq<ContainerSummary>,
    results: Option<Vec<StatsResult>>,
)
    ensures
        info_list(containers, found(None)).len() == info_list(containers, found(results)).len(),
        forall|i: int|
            0 <= i < info_list(containers, found(None)).len() ==> {
                let bare = #[trigger] info_list(containers, found(None))[i];
                let full = info_list(containers, found(results))[i];
                &&& bare == (ContainerInfoView {
                    cpu_percent: no_stats().cpu_percent,
                    memory_usage: no_stats().memory_usage,
                    memory_percent: no_stats().memory_percent,
                    ..full
                })
            },
{
}

/// Whether a line stems from one of the containers with an id.
pub open spec fn stems_from(
    line: ContainerInfoView,
    containers: Seq<ContainerSummary>,
    stats: Map<Seq<char>, StatsView>,
) -> bool {
    exists|i: int|
        0 <= i < containers.len() && (#[trigger] containers[i]).id is Some && line == info_of(
            containers[i],
            stats,
        )
}

/// Whether an id is that of one of the containers that run.
pub open spec fn is_id_of_running(id: Seq<char>, containers: Seq<ContainerSummary>) -> bool {
    exists|i: int|
        0 <= i < containers.len() && runs(#[trigger] containers[i]) && containers[i].id->0@ == id
}

/// Every listed container with an id has a line, and every line stems from
/// one.
pub proof fn lines_are_the_containers_with_an_id(
    containers: Seq<ContainerSummary>,
    stats: Map<Seq<char>, StatsView>,
)
    ensures
        forall|i: int|
            0 <= i < containers.len() && (#[trigger] containers[i]).id is Some ==> info_list(
                containers,
                stats,
            ).contains(info_of(containers[i], stats)),
        forall|j: int|
            0 <= j < info_list(containers, stats).len() ==> stems_from(
                #[trigger] info_list(containers, stats)[j],
                containers,
                stats,
            ),
{
    let has_id = |c: ContainerSummary| c.id is Some;
    let kept = containers.filter(has_id);
    let list = info_list(containers, stats);
    assert forall|i: int|
        0 <= i < containers.len() && (#[trigger] containers[i]).id is Some implies list.contains(
        info_of(containers[i], stats),
    ) by {
        containers.lemma_filter_contains(has_id, i);
        let j = choose|j: int| 0 <= j < kept.len() && kept[j] == containers[i];
        assert(list[j] == info_of(containers[i], stats));
    }
    assert forall|j: int| 0 <= j < list.len() implies stems_from(
        #[trigger] list[j],
        containers,
        stats,
    ) by {
        containers.lemma_filter_pred(has_id, j);
        assert(kept.contains(kept[j]));
        containers.lemma_filter_contains_rev(has_id, kept[j]);
        let i = choose|i: int| 0 <= i < containers.len() && containers[i] == kept[j];
        assert(containers[i].id is Some);
    }
}

/// The ids that are read are those of the running containers, and no others.
pub proof fn only_running_containers_are_read(containers: Seq<ContainerSummary>, id: Seq<char>)
    ensures
        running_ids(containers).contains(id) <==> is_id_of_running(id, containers),
{
    let running = |c: ContainerSummary| runs(c);
    let live = containers.filter(running);
    let ids = running_ids(containers);
    if ids.contains(id) {
        let j = choose|j: int| 0 <= j < ids.len() && ids[j] == id;
        containers.lemma_filter_pred(running, j);
        assert(live.contains(live[j]));
        containers.lemma_filter_contains_rev(running, live[j]);
        let i = choose|i: int| 0 <= i < containers.len() && containers[i] == live[j];
        assert(runs(containers[i]));
    }
    if is_id_of_running(id, containers) {
        let i = choose|i: int|
            0 <= i < containers.len() && runs(#[trigger] containers[i]) && containers[i].id->0@
                == id;
        containers.lemma_filter_contains(running, i);
        let j = choose|j: int| 0 <= j < live.len() && live[j] == containers[i];
        assert(ids[j] == id);
    }
}

/// The usage that is gathered of an id is that of the last result which names
/// it, every figure unchanged.
pub proof fn the_last_result_of_an_id_is_its_usage(
    results: Seq<StatsResult>,
    i: int,
    id: String,
    stats: ContainerStats,
)
    requires
        0 <= i < results.len(),
        results[i] == Some((id, stats)),
        forall|j: int|
            i < j < results.len() ==> ((#[trigger] results[j]) matches Some(later) ==> later.0@
                != id@),
    ensures
        collected(results).contains_key(id@),
        collected(results)[id@].cpu_percent == stats.cpu_percent,
        collected(results)[id@].memory_usage == stats.memory_usage@,
        collected(results)[id@].memory_percent == stats.memory_percent,
    decreases results.len(),
{
    let rest = results.drop_last();
    if i < rest.len() {
        assert forall|j: int| i < j < rest.len() implies ((#[trigger] rest[j]) matches Some(later)
            ==> later.0@ != id@) by {
            assert(rest[j] == results[j]);
        }
        assert(rest[i] == results[i]);
        the_last_result_of_an_id_is_its_usage(rest, i, id, stats);
        assert(results[results.len() - 1] == results.last());
    }
}

/// An id that no result names has no usage, and neither has any where the round
/// ran out of time.
pub proof fn an_unnamed_id_has_no_usage(results: Seq<StatsResult>, id: Seq<char>)
    requires
        forall|j: int|
            0 <= j < results.len() ==> ((#[trigger] results[j]) matches Some(result) ==> result.0@
                != id),
    ensures
        !collected(results).contains_key(id),
        !found(None).contains_key(id),
    decreases results.len(),
{
    if results.len() > 0 {
        let rest = results.drop_last();
        assert forall|j: int| 0 <= j < rest.len() implies ((#[trigger] rest[j]) matches Some(result)
            ==> result.0@ != id) by {
            assert(rest[j] == results[j]);
        }
        an_unnamed_id_has_no_usage(rest, id);
        assert(results[results.len() - 1] == results.last());
    }
}

/// A round gives the line of a container the figures that were read of it: its
/// own CPU percentage, memory text and memory percentage.
pub proof fn a_round_gives_each_line_its_own_usage(
    container: ContainerSummary,
    results: Vec<StatsResult>,
    i: int,
    id: String,
    stats: ContainerStats,
)
    requires
        container.id matches Some(own) && own@ == id@,
        0 <= i < results@.len(),
        results@[i] == Some((id, stats)),
        forall|j: int|
            i < j < results@.len() ==> ((#[trigger] results@[j]) matches Some(later) ==> later.0@
                != id@),
    ensures
        info_of(container, found(Some(results))).cpu_percent == stats.cpu_percent,
        info_of(container, found(Some(results))).memory_usage == stats.memory_usage@,
        info_of(container, found(Some(results))).memory_percent == stats.memory_percent,
        info_of(container, found(None)).cpu_percent.bits == 0,
        info_of(container, found(None)).memory_usage == "N/A"@,
        info_of(container, found(None)).memory_percent.bits == 0,
{
    the_last_result_of_an_id_is_its_usage(results@, i, id, stats);
}

/// The ids to be read of a list are those of its parts one after the other; a
/// single container is read exactly where it has an id and the daemon says that
/// it is running.
pub proof fn ids_follow_the_containers(
    first: Seq<ContainerSummary>,
    second: Seq<ContainerSummary>,
    container: ContainerSummary,
)
    ensures
        running_ids(first + second) == running_ids(first) + running_ids(second),
        container.id matches Some(id) ==> (container.state matches Some(state) ==> (state@
            == "running"@ ==> running_ids(seq![container]) == seq![id@])),
        container.id is None || container.state is None ==> running_ids(seq![container]) == Seq::<
            Seq<char>,
        >::empty(),
        container.state matches Some(state) ==> (state@ != "running"@ ==> running_ids(
            seq![container],
        ) == Seq::<Seq<char>>::empty()),
        runs(container) <==> running_ids(seq![container]).len() == 1,
{
    let keep = |c: ContainerSummary| runs(c);
    Seq::filter_distributes_over_add(first, second, keep);
    assert(running_ids(first + second) =~= running_ids(first) + running_ids(second));
    reveal(Seq::filter);
    let none = Seq::<ContainerSummary>::empty();
    assert(none.push(container) =~= seq![container]);
    running_ids_push(none, container);
    assert(running_ids(none) =~= Seq::<Seq<char>>::empty());
    assert(running_ids(none).push(container.id->0@) =~= seq![container.id->0@]);
    reveal_strlit("unknown");
    reveal_strlit("running");
    assert("unknown"@[0] != "running"@[0]);
}

/// A list of texts is viewed text by text, and the round has three seconds for
/// the list and two for the readings.
pub proof fn texts_are_viewed_in_order(list: Seq<String>)
    ensures
        texts(list).len() == list.len(),
        forall|i: int| 0 <= i < list.len() ==> texts(list)[i] == (#[trigger] list[i])@,
        LIST_TIMEOUT_MILLIS == 3000,
        STATS_TIMEOUT_MILLIS == 2000,
{
}

/// A round that ended in time knows exactly what its results say, of every id.
pub proof fn a_round_knows_its_results_and_no_more(results: Vec<StatsResult>, id: Seq<char>)
    ensures
        found(Some(results)).contains_key(id) == collected(results@).contains_key(id),
        collected(results@).contains_key(id) ==> {
            &&& found(Some(results))[id].cpu_percent == collected(results@)[id].cpu_percent
            &&& found(Some(results))[id].memory_usage == collected(results@)[id].memory_usage
            &&& found(Some(results))[id].memory_percent == collected(results@)[id].memory_percent
        },
{
}

} // verus!
