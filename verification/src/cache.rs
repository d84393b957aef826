//! Caches that spare the daemon: the list of containers, the states in which
//! containers were last seen, and the usage that was last read of them.

use vstd::hash_map::StringHashMap;
use vstd::prelude::*;

use crate::clock::{Moment, HEAD_START, SECOND};
use crate::container::{
    build_container_info_list, get_container_state, ContainerInfo, ContainerStats,
    ContainerSummary, StatsMap,
};
use crate::round::{accept_listing, ListReply, StatsResult};
use crate::text::is_text;
#[allow(unused_imports)]
use crate::container::{container_state, info_list, info_of, info_views, StatsView};
#[allow(unused_imports)]
use crate::round::{
    a_round_gives_each_line_its_own_usage, collected, found, runs, texts,
    the_last_result_of_an_id_is_its_usage,
};

verus! {

/// How long the daemon may take to list the containers.
pub const LIST_TIMEOUT_MILLIS: u64 = 2000;

/// How long the readings of all containers together may take.
pub const STATS_TIMEOUT_MILLIS: u64 = 1500;

/// How long a list of containers stays good, in nanoseconds.
pub const LIST_LIFETIME: u128 = 5_000_000_000;

/// How long a running container goes unread after its usage was asked for, in
/// nanoseconds.
pub const CHECK_INTERVAL: u128 = 2_000_000_000;

/// How long usage stays good, in nanoseconds.
pub const STATS_LIFETIME: u128 = 5_000_000_000;

/// The containers that the daemon last listed.
#[derive(Clone, Debug)]
pub struct ContainerCache {
    pub containers: Vec<ContainerSummary>,
    pub last_updated: Moment,
    /// How long the list stays good, in nanoseconds.
    pub cache_duration: u128,
}

impl ContainerCache {
    /// An empty cache that has already expired.
    pub fn new(now: Moment) -> (r: Self)
        requires
            now.nanos >= HEAD_START,
        ensures
            r.containers@ == Seq::<ContainerSummary>::empty(),
            r.last_updated.nanos == now.nanos - 60 * SECOND,
            r.cache_duration == LIST_LIFETIME,
    {
        ContainerCache {
            containers: Vec::new(),
            last_updated: Moment { nanos: now.nanos - HEAD_START },
            cache_duration: LIST_LIFETIME,
        }
    }

    /// Whether the list has outlived its time.
    pub open spec fn expired(self, now: Moment) -> bool {
        now.since(self.last_updated) > self.cache_duration
    }

    /// Whether the list has outlived its time.
    pub fn is_expired(&self, now: Moment) -> (r: bool)
        ensures
            r == self.expired(now),
    {
        now.elapsed_since(self.last_updated) > self.cache_duration
    }

    /// The list, as long as it has not outlived its time. Where there is none
    /// the daemon is to be asked for a new one.
    pub fn good_listing(&self, now: Moment) -> (r: Option<&Vec<ContainerSummary>>)
        ensures
            r is None <==> self.expired(now),
            r matches Some(list) ==> *list == self.containers,
    {
        if self.is_expired(now) {
            None
        } else {
            Some(&self.containers)
        }
    }

    /// Takes a new list of containers.
    pub fn update(&mut self, containers: Vec<ContainerSummary>, now: Moment)
        ensures
            *final(self) == (ContainerCache { containers, last_updated: now, ..*old(self) }),
    {
        self.containers = containers;
        self.last_updated = now;
    }
}

/// Settles which containers a cached round works on. Without a reply, because
/// the list had not expired and none was asked for, the cached list serves. A
/// list that was received is kept and serves. Where it did not come, the error
/// says why, and the cache stays as it is.
pub fn current_listing<'a>(
    cache: &'a mut ContainerCache,
    reply: Option<ListReply>,
    now: Moment,
) -> (r: Result<&'a Vec<ContainerSummary>, String>)
    ensures
        match reply {
            None => {
                &&& r matches Ok(list) && *list == old(cache).containers
                &&& *final(cache) == *old(cache)
            },
            Some(ListReply::Received(listed)) => {
                &&& r matches Ok(list) && *list == listed
                &&& *final(cache) == (ContainerCache {
                    containers: listed,
                    last_updated: now,
                    ..*old(cache)
                })
            },
            Some(ListReply::TimedOut) => {
                &&& r matches Err(reason) && reason@ == "Container list timeout"@
                &&& *final(cache) == *old(cache)
            },
            Some(ListReply::Failed(why)) => {
                &&& r matches Err(reason) && reason@ == why@
                &&& *final(cache) == *old(cache)
            },
        },
{
    if let Some(reply) = reply {
        match accept_listing(reply) {
            Ok(listed) => {
                cache.update(listed, now);
            },
            Err(reason) => {
                return Err(reason);
            },
        }
    }
    Ok(&cache.containers)
}

/// A new cache is expired at once, and stays so until it is updated.
pub proof fn new_cache_is_expired(cache: ContainerCache, created: Moment, now: Moment)
    requires
        created.nanos >= HEAD_START,
        cache.last_updated.nanos == created.nanos - 60 * SECOND,
        cache.cache_duration == LIST_LIFETIME,
        now.nanos >= created.nanos,
    ensures
        cache.expired(now),
{
}

/// An updated list is good for exactly the cache's duration.
pub proof fn updated_cache_expires_after_its_duration(
    cache: ContainerCache,
    containers: Vec<ContainerSummary>,
    updated: Moment,
    now: Moment,
)
    ensures
        (ContainerCache { containers, last_updated: updated, ..cache }).expired(now) <==> now.nanos
            > updated.nanos + cache.cache_duration,
{
}

/// The state in which a container was last seen.
#[derive(Debug)]
pub struct SeenState {
    pub state: String,
    /// When the usage of a container seen running was last asked for. Of one
    /// in another state it decides nothing.
    pub seen: Moment,
}

/// The value of a [`SeenState`].
pub struct SeenStateView {
    pub state: Seq<char>,
    pub seen: Moment,
}

impl View for SeenState {
    type V = SeenStateView;

    open spec fn view(&self) -> SeenStateView {
        SeenStateView { state: self.state@, seen: self.seen }
    }
}

/// The state in which each container was last seen, by container id.
pub struct StateCache {
    entries: StringHashMap<SeenState>,
}

impl View for StateCache {
    type V = Map<Seq<char>, SeenStateView>;

    closed spec fn view(&self) -> Map<Seq<char>, SeenStateView> {
        self.entries@.map_values(|s: SeenState| s@)
    }
}

/// Whether a container was last seen running, and its usage was asked for
/// within the check interval.
pub open spec fn read_lately(
    cache: Map<Seq<char>, SeenStateView>,
    id: Seq<char>,
    now: Moment,
) -> bool {
    cache.contains_key(id) && cache[id].state == "running"@ && now.since(cache[id].seen)
        <= CHECK_INTERVAL
}

/// Whether a container is to be read: it runs, and was not read lately.
pub open spec fn needs_stats(
    cache: Map<Seq<char>, SeenStateView>,
    container: ContainerSummary,
    now: Moment,
) -> bool {
    runs(container) && !read_lately(cache, container.id->0@, now)
}

/// The cache after a container was seen. While its usage was asked for lately,
/// the moment of asking stays.
pub open spec fn noted(
    cache: Map<Seq<char>, SeenStateView>,
    container: ContainerSummary,
    now: Moment,
) -> Map<Seq<char>, SeenStateView> {
    if container.id is Some {
        let id = container.id->0@;
        cache.insert(
            id,
            SeenStateView {
                state: container_state(container),
                seen: if read_lately(cache, id, now) {
                    cache[id].seen
                } else {
                    now
                },
            },
        )
    } else {
        cache
    }
}

/// The cache after the containers were seen one after the other.
pub open spec fn all_noted(
    cache: Map<Seq<char>, SeenStateView>,
    containers: Seq<ContainerSummary>,
    now: Moment,
) -> Map<Seq<char>, SeenStateView>
    decreases containers.len(),
{
    if containers.len() == 0 {
        cache
    } else {
        noted(all_noted(cache, containers.drop_last(), now), containers.last(), now)
    }
}

/// The ids of the containers to be read, each decided by what the containers
/// before it left in the cache.
pub open spec fn selected(
    cache: Map<Seq<char>, SeenStateView>,
    containers: Seq<ContainerSummary>,
    now: Moment,
) -> Seq<Seq<char>>
    decreases containers.len(),
{
    if containers.len() == 0 {
        Seq::empty()
    } else {
        let rest = containers.drop_last();
        let before = selected(cache, rest, now);
        if needs_stats(all_noted(cache, rest, now), containers.last(), now) {
            before.push(containers.last().id->0@)
        } else {
            before
        }
    }
}

impl StateCache {
    /// A cache that has seen no container.
    pub fn new() -> (r: StateCache)
        ensures
            r@ == Map::<Seq<char>, SeenStateView>::empty(),
    {
        let r = StateCache { entries: StringHashMap::new() };
        assert(r@ =~= Map::<Seq<char>, SeenStateView>::empty());
        r
    }

    fn asked_lately(&self, id: &str, now: Moment) -> (r: Option<Moment>)
        ensures
            r == if read_lately(self@, id@, now) {
                Some(self@[id@].seen)
            } else {
                None
            },
    {
        match self.entries.get(id) {
            Some(entry) => {
                assert(self@[id@] == entry@);
                if is_text(&entry.state, "running") && !(now.elapsed_since(entry.seen)
                    > CHECK_INTERVAL) {
                    Some(entry.seen)
                } else {
                    None
                }
            },
            None => None,
        }
    }

    /// Sees the containers and picks the ids of those to be read.
    pub fn select(&mut self, containers: &Vec<ContainerSummary>, now: Moment) -> (r: Vec<String>)
        ensures
            texts(r@) == selected(old(self)@, containers@, now),
            final(self)@ == all_noted(old(self)@, containers@, now),
    {
        let ghost start = self@;
        let mut ids: Vec<String> = Vec::new();
        let mut i: usize = 0;
        assert(texts(ids@) =~= Seq::empty());
        while i < containers.len()
            invariant
                i <= containers.len(),
                start == old(self)@,
                texts(ids@) == selected(start, containers@.take(i as int), now),
                self@ == all_noted(start, containers@.take(i as int), now),
            decreases containers.len() - i,
        {
            let ghost done = containers@.take(i as int);
            assert(containers@.take(i as int + 1).drop_last() =~= done);
            let container = &containers[i];
            if let Some(id) = &container.id {
                let state = get_container_state(container);
                let asked = self.asked_lately(id.as_str(), now);
                if is_text(&state, "running") && asked.is_none() {
                    let ghost before = ids@;
                    ids.push(id.clone());
                    assert(texts(ids@) =~= texts(before).push(id@));
                }
                let seen = match asked {
                    Some(moment) => moment,
                    None => now,
                };
                let ghost cache = self@;
                let ghost entry = SeenStateView { state: state@, seen };
                self.entries.insert(id.clone(), SeenState { state, seen });
                assert(self@ =~= cache.insert(id@, entry));
            }
            i = i + 1;
        }
        assert(containers@.take(containers.len() as int) =~= containers@);
        ids
    }
}

/// Usage and when it was read.
#[derive(Debug)]
pub struct CachedStats {
    pub stats: ContainerStats,
    pub read: Moment,
}

/// The value of a [`CachedStats`].
pub struct CachedStatsView {
    pub stats: StatsView,
    pub read: Moment,
}

impl View for CachedStats {
    type V = CachedStatsView;

    open spec fn view(&self) -> CachedStatsView {
        CachedStatsView { stats: self.stats@, read: self.read }
    }
}

/// The usage that was last read of each container, by container id.
pub struct StatsCache {
    entries: StringHashMap<CachedStats>,
}

impl View for StatsCache {
    type V = Map<Seq<char>, CachedStatsView>;

    closed spec fn view(&self) -> Map<Seq<char>, CachedStatsView> {
        self.entries@.map_values(|s: CachedStats| s@)
    }
}

/// Whether a container with the id is among the containers.
pub open spec fn lists_id(containers: Seq<ContainerSummary>, id: Seq<char>) -> bool {
    exists|i: int|
        0 <= i < containers.len() && (#[trigger] containers[i]).id is Some && containers[i].id->0@
            == id
}

/// Whether the cache holds usage of the id that is still good.
pub open spec fn has_recent(
    cache: Map<Seq<char>, CachedStatsView>,
    id: Seq<char>,
    now: Moment,
) -> bool {
    cache.contains_key(id) && now.since(cache[id].read) < STATS_LIFETIME
}

/// The cache after fresh usage came in.
pub open spec fn refreshed(
    cache: Map<Seq<char>, CachedStatsView>,
    fresh: Map<Seq<char>, StatsView>,
    now: Moment,
) -> Map<Seq<char>, CachedStatsView> {
    Map::new(
        |id: Seq<char>| cache.contains_key(id) || fresh.contains_key(id),
        |id: Seq<char>|
            if fresh.contains_key(id) {
                CachedStatsView { stats: fresh[id], read: now }
            } else {
                cache[id]
            },
    )
}

/// The usage to show: what is fresh, and for the other listed containers what
/// the cache holds and is still good.
pub open spec fn merged(
    cache: Map<Seq<char>, CachedStatsView>,
    containers: Seq<ContainerSummary>,
    fresh: Map<Seq<char>, StatsView>,
    now: Moment,
) -> Map<Seq<char>, StatsView> {
    Map::new(
        |id: Seq<char>|
            fresh.contains_key(id) || (lists_id(containers, id) && has_recent(cache, id, now)),
        |id: Seq<char>|
            if fresh.contains_key(id) {
                fresh[id]
            } else {
                cache[id].stats
            },
    )
}

impl StatsCache {
    /// A cache without usage.
    pub fn new() -> (r: StatsCache)
        ensures
            r@ == Map::<Seq<char>, CachedStatsView>::empty(),
    {
        let r = StatsCache { entries: StringHashMap::new() };
        assert(r@ =~= Map::<Seq<char>, CachedStatsView>::empty());
        r
    }

    fn recent(&self, id: &str, now: Moment) -> (r: Option<ContainerStats>)
        ensures
            match r {
                Some(stats) => has_recent(self@, id@, now) && stats@ == self@[id@].stats,
                None => !has_recent(self@, id@, now),
            },
    {
        match self.entries.get(id) {
            Some(cached) => {
                assert(self@[id@] == cached@);
                if now.elapsed_since(cached.read) < STATS_LIFETIME {
                    Some(cached.stats.clone())
                } else {
                    None
                }
            },
            None => None,
        }
    }

    fn remember(&mut self, results: &Vec<StatsResult>, now: Moment) -> (r: StatsMap)
        ensures
            r@ == collected(results@),
            final(self)@ == refreshed(old(self)@, collected(results@), now),
    {
        let ghost start = self@;
        let mut stats_map = StatsMap::new();
        let mut i: usize = 0;
        assert(self@ =~= refreshed(start, Map::empty(), now));
        while i < results.len()
            invariant
                i <= results.len(),
                start == old(self)@,
                stats_map@ == collected(results@.take(i as int)),
                self@ == refreshed(start, stats_map@, now),
            decreases results.len() - i,
        {
            assert(results@.take(i as int + 1).drop_last() =~= results@.take(i as int));
            if let Some((id, stats)) = &results[i] {
                let ghost fresh = stats_map@;
                let ghost cache = self@;
                let copy = CachedStats { stats: stats.clone(), read: now };
                let ghost entry = copy@;
                self.entries.insert(id.clone(), copy);
                assert(self@ =~= cache.insert(id@, entry));
                stats_map.insert(id.clone(), stats.clone());
                assert(self@ =~= refreshed(start, stats_map@, now));
            }
            i = i + 1;
        }
        assert(results@.take(results.len() as int) =~= results@);
        stats_map
    }

    /// Takes the usage that was read, if the readings came in time, and gives
    /// the usage to show.
    pub fn merge(
        &mut self,
        containers: &Vec<ContainerSummary>,
        results: Option<Vec<StatsResult>>,
        now: Moment,
    ) -> (r: StatsMap)
        ensures
            r@ == merged(old(self)@, containers@, found(results), now),
            final(self)@ == refreshed(old(self)@, found(results), now),
    {
        let ghost start = self@;
        let ghost fresh = found(results);
        let results = match results {
            Some(results) => results,
            None => Vec::new(),
        };
        assert(collected(results@) =~= fresh);
        let mut stats_map = self.remember(&results, now);
        let mut i: usize = 0;
        assert(stats_map@ =~= merged(start, containers@.take(0), fresh, now));
        while i < containers.len()
            invariant
                i <= containers.len(),
                self@ == refreshed(start, fresh, now),
                stats_map@ == merged(start, containers@.take(i as int), fresh, now),
            decreases containers.len() - i,
        {
            let ghost done = containers@.take(i as int);
            let ghost next = containers@.take(i as int + 1);
            let ghost shown = stats_map@;
            proof {
                lists_id_of_one_more(containers@, i as int);
            }
            if let Some(id) = &containers[i].id {
                if stats_map.get(id.as_str()).is_none() {
                    assert(!fresh.contains_key(id@));
                    if let Some(stats) = self.recent(id.as_str(), now) {
                        stats_map.insert(id.clone(), stats);
                    }
                }
            }
            assert(stats_map@ =~= merged(start, next, fresh, now));
            i = i + 1;
        }
        assert(containers@.take(containers.len() as int) =~= containers@);
        stats_map
    }
}

proof fn lists_id_of_one_more(containers: Seq<ContainerSummary>, i: int)
    requires
        0 <= i < containers.len(),
    ensures
        forall|id: Seq<char>|
            #[trigger] lists_id(containers.take(i + 1), id) <==> (lists_id(containers.take(i), id)
                || (containers[i].id is Some && containers[i].id->0@ == id)),
{
    let done = containers.take(i);
    let next = containers.take(i + 1);
    assert forall|id: Seq<char>| #[trigger]
        lists_id(next, id) <==> (lists_id(done, id) || (containers[i].id is Some
            && containers[i].id->0@ == id)) by {
        if lists_id(done, id) {
            let k = choose|k: int|
                0 <= k < done.len() && (#[trigger] done[k]).id is Some && done[k].id->0@ == id;
            assert(next[k] == done[k]);
        }
        if lists_id(next, id) {
            let k = choose|k: int|
                0 <= k < next.len() && (#[trigger] next[k]).id is Some && next[k].id->0@ == id;
            if k < i {
                assert(done[k] == next[k]);
            }
        }
        assert(next[i] == containers[i]);
    }
}

/// Puts the listed containers, what was read of them and what the cache still
/// holds together. It always succeeds.
pub fn finish_cached_round(
    cache: &mut StatsCache,
    containers: Vec<ContainerSummary>,
    results: Option<Vec<StatsResult>>,
    now: Moment,
) -> (r: Result<Vec<ContainerInfo>, String>)
    ensures
        r is Ok,
        info_views(r->Ok_0@) == info_list(
            containers@,
            merged(old(cache)@, containers@, found(results), now),
        ),
        final(cache)@ == refreshed(old(cache)@, found(results), now),
{
    let stats_map = cache.merge(&containers, results, now);
    build_container_info_list(containers, stats_map)
}

/// Whether no two containers have the same id.
pub open spec fn distinct_ids(containers: Seq<ContainerSummary>) -> bool {
    forall|i: int, j: int|
        0 <= i < j < containers.len() && (#[trigger] containers[i]).id is Some && (
        #[trigger] containers[j]).id is Some ==> containers[i].id->0@ != containers[j].id->0@
}

proof fn unlisted_ids_are_untouched(
    cache: Map<Seq<char>, SeenStateView>,
    containers: Seq<ContainerSummary>,
    now: Moment,
    id: Seq<char>,
)
    requires
        !lists_id(containers, id),
    ensures
        ({
            let after = all_noted(cache, containers, now);
            &&& after.contains_key(id) == cache.contains_key(id)
            &&& cache.contains_key(id) ==> after[id] == cache[id]
        }),
    decreases containers.len(),
{
    if containers.len() > 0 {
        let rest = containers.drop_last();
        if lists_id(rest, id) {
            let k = choose|k: int|
                0 <= k < rest.len() && (#[trigger] rest[k]).id is Some && rest[k].id->0@ == id;
            assert(containers[k] == rest[k]);
        }
        unlisted_ids_are_untouched(cache, rest, now, id);
        assert(containers[containers.len() - 1] == containers.last());
    }
}

/// Of containers with distinct ids, those picked are the ones that need to be
/// read by the cache as it was before.
pub proof fn selection_of_distinct_containers(
    cache: Map<Seq<char>, SeenStateView>,
    containers: Seq<ContainerSummary>,
    now: Moment,
)
    requires
        distinct_ids(containers),
    ensures
        selected(cache, containers, now) == containers.filter(
            |c: ContainerSummary| needs_stats(cache, c, now),
        ).map_values(|c: ContainerSummary| c.id->0@),
    decreases containers.len(),
{
    let needs = |c: ContainerSummary| needs_stats(cache, c, now);
    let id_of = |c: ContainerSummary| c.id->0@;
    reveal(Seq::filter);
    if containers.len() > 0 {
        let rest = containers.drop_last();
        let last = containers.last();
        assert(distinct_ids(rest)) by {
            assert forall|i: int, j: int|
                0 <= i < j < rest.len() && (#[trigger] rest[i]).id is Some && (
                #[trigger] rest[j]).id is Some implies rest[i].id->0@ != rest[j].id->0@ by {
                assert(rest[i] == containers[i] && rest[j] == containers[j]);
            }
        }
        selection_of_distinct_containers(cache, rest, now);
        if last.id is Some {
            let id = last.id->0@;
            if lists_id(rest, id) {
                let k = choose|k: int|
                    0 <= k < rest.len() && (#[trigger] rest[k]).id is Some && rest[k].id->0@ == id;
                assert(containers[k] == rest[k]);
                assert(containers[containers.len() - 1] == last);
            }
            unlisted_ids_are_untouched(cache, rest, now, id);
        }
        assert(needs_stats(all_noted(cache, rest, now), last, now) == needs(last));
        if needs(last) {
            assert(rest.filter(needs).push(last).map_values(id_of) =~= rest.filter(
                needs,
            ).map_values(id_of).push(id_of(last)));
        }
    } else {
        assert(containers.filter(needs).map_values(id_of) =~= Seq::empty());
    }
}

/// Whether every container with the id runs.
pub open spec fn lists_only_running(containers: Seq<ContainerSummary>, id: Seq<char>) -> bool {
    forall|i: int|
        0 <= i < containers.len() && (#[trigger] containers[i]).id is Some && containers[i].id->0@
            == id ==> runs(containers[i])
}

proof fn running_in_the_rest(containers: Seq<ContainerSummary>, id: Seq<char>)
    requires
        containers.len() > 0,
        lists_only_running(containers, id),
    ensures
        lists_only_running(containers.drop_last(), id),
        containers.last().id is Some && containers.last().id->0@ == id ==> runs(containers.last()),
{
    let rest = containers.drop_last();
    assert forall|i: int|
        0 <= i < rest.len() && (#[trigger] rest[i]).id is Some && rest[i].id->0@
            == id implies runs(rest[i]) by {
        assert(rest[i] == containers[i]);
    }
    assert(containers[containers.len() - 1] == containers.last());
}

/// A running container that was read lately is not read again, and the moment
/// at which its usage was asked for stays.
pub proof fn lately_read_containers_are_left_alone(
    cache: Map<Seq<char>, SeenStateView>,
    containers: Seq<ContainerSummary>,
    now: Moment,
    id: Seq<char>,
)
    requires
        read_lately(cache, id, now),
        lists_only_running(containers, id),
    ensures
        all_noted(cache, containers, now).contains_key(id),
        all_noted(cache, containers, now)[id] == cache[id],
        !selected(cache, containers, now).contains(id),
    decreases containers.len(),
{
    if containers.len() > 0 {
        let rest = containers.drop_last();
        let last = containers.last();
        running_in_the_rest(containers, id);
        lately_read_containers_are_left_alone(cache, rest, now, id);
        let before = selected(cache, rest, now);
        let after = selected(cache, containers, now);
        if after.contains(id) {
            let k = choose|k: int| 0 <= k < after.len() && after[k] == id;
            if k < before.len() {
                assert(before[k] == id);
            }
        }
    }
}

/// A listed container that runs and was not read lately is read, and the
/// moment is kept.
pub proof fn running_containers_are_read_when_due(
    cache: Map<Seq<char>, SeenStateView>,
    containers: Seq<ContainerSummary>,
    now: Moment,
    id: Seq<char>,
)
    requires
        !read_lately(cache, id, now),
        lists_only_running(containers, id),
        lists_id(containers, id),
    ensures
        selected(cache, containers, now).contains(id),
        all_noted(cache, containers, now).contains_key(id),
        all_noted(cache, containers, now)[id] == (SeenStateView {
            state: "running"@,
            seen: now,
        }),
    decreases containers.len(),
{
    let rest = containers.drop_last();
    let last = containers.last();
    let before = selected(cache, rest, now);
    let after = selected(cache, containers, now);
    let found = choose|k: int|
        0 <= k < containers.len() && (#[trigger] containers[k]).id is Some
            && containers[k].id->0@ == id;
    running_in_the_rest(containers, id);
    if lists_id(rest, id) {
        running_containers_are_read_when_due(cache, rest, now, id);
        let k = choose|k: int| 0 <= k < before.len() && before[k] == id;
        assert(after[k] == id);
    } else {
        unlisted_ids_are_untouched(cache, rest, now, id);
        if found < rest.len() {
            assert(rest[found] == containers[found]);
        }
        assert(last == containers[found]);
        assert(needs_stats(all_noted(cache, rest, now), last, now));
        assert(after[before.len() as int] == id);
    }
}

/// The cache after a number of calls, each with its containers and its moment.
pub open spec fn after_calls(
    cache: Map<Seq<char>, SeenStateView>,
    calls: Seq<(Seq<ContainerSummary>, Moment)>,
) -> Map<Seq<char>, SeenStateView>
    decreases calls.len(),
{
    if calls.len() == 0 {
        cache
    } else {
        all_noted(after_calls(cache, calls.drop_last()), calls.last().0, calls.last().1)
    }
}

proof fn calls_within_the_interval_keep_the_moment(
    cache: Map<Seq<char>, SeenStateView>,
    calls: Seq<(Seq<ContainerSummary>, Moment)>,
    id: Seq<char>,
)
    requires
        cache.contains_key(id),
        cache[id].state == "running"@,
        forall|i: int|
            0 <= i < calls.len() ==> lists_only_running((#[trigger] calls[i]).0, id)
                && calls[i].1.since(cache[id].seen) <= CHECK_INTERVAL,
    ensures
        after_calls(cache, calls).contains_key(id),
        after_calls(cache, calls)[id] == cache[id],
    decreases calls.len(),
{
    if calls.len() > 0 {
        let rest = calls.drop_last();
        assert forall|i: int| 0 <= i < rest.len() implies lists_only_running(
            (#[trigger] rest[i]).0,
            id,
        ) && rest[i].1.since(cache[id].seen) <= CHECK_INTERVAL by {
            assert(rest[i] == calls[i]);
        }
        calls_within_the_interval_keep_the_moment(cache, rest, id);
        assert(calls[calls.len() - 1] == calls.last());
        lately_read_containers_are_left_alone(
            after_calls(cache, rest),
            calls.last().0,
            calls.last().1,
            id,
        );
    }
}

/// The usage of a running container is asked for once per check interval,
/// however often its state is looked at. After it was asked for, calls within
/// the interval, any number of them, neither ask for it nor move the moment;
/// the first call after the interval asks for it again, and notes the moment.
pub proof fn usage_is_asked_for_once_per_interval(
    cache: Map<Seq<char>, SeenStateView>,
    calls: Seq<(Seq<ContainerSummary>, Moment)>,
    containers: Seq<ContainerSummary>,
    now: Moment,
    id: Seq<char>,
)
    requires
        cache.contains_key(id),
        cache[id].state == "running"@,
        forall|i: int|
            0 <= i < calls.len() ==> lists_only_running((#[trigger] calls[i]).0, id)
                && calls[i].1.since(cache[id].seen) <= CHECK_INTERVAL,
        lists_only_running(containers, id),
        lists_id(containers, id),
    ensures
        after_calls(cache, calls).contains_key(id),
        after_calls(cache, calls)[id] == cache[id],
        selected(after_calls(cache, calls), containers, now).contains(id) <==> now.since(
            cache[id].seen,
        ) > CHECK_INTERVAL,
        all_noted(after_calls(cache, calls), containers, now)[id].seen == if now.since(
            cache[id].seen,
        ) > CHECK_INTERVAL {
            now
        } else {
            cache[id].seen
        },
{
    calls_within_the_interval_keep_the_moment(cache, calls, id);
    let between = after_calls(cache, calls);
    if read_lately(between, id, now) {
        lately_read_containers_are_left_alone(between, containers, now, id);
    } else {
        running_containers_are_read_when_due(between, containers, now, id);
    }
}

/// What is shown of a container is what was just read, or else usage younger
/// than its lifetime; fresh usage always wins.
pub proof fn shown_usage_is_fresh_or_recent(
    cache: Map<Seq<char>, CachedStatsView>,
    containers: Seq<ContainerSummary>,
    fresh: Map<Seq<char>, StatsView>,
    now: Moment,
    id: Seq<char>,
)
    ensures
        fresh.contains_key(id) ==> merged(cache, containers, fresh, now).contains_key(id) && merged(
            cache,
            containers,
            fresh,
            now,
        )[id] == fresh[id],
        merged(cache, containers, fresh, now).contains_key(id) && !fresh.contains_key(id)
            ==> cache.contains_key(id) && now.since(cache[id].read) < STATS_LIFETIME && merged(
            cache,
            containers,
            fresh,
            now,
        )[id] == cache[id].stats,
{
}

/// Usage that was read is shown for a listed container until it is read again,
/// and for no longer than the lifetime.
pub proof fn read_usage_lasts_its_lifetime(
    cache: Map<Seq<char>, CachedStatsView>,
    containers: Seq<ContainerSummary>,
    first: Map<Seq<char>, StatsView>,
    second: Map<Seq<char>, StatsView>,
    first_at: Moment,
    second_at: Moment,
    id: Seq<char>,
)
    requires
        first.contains_key(id),
        !second.contains_key(id),
        lists_id(containers, id),
    ensures
        ({
            let shown = merged(refreshed(cache, first, first_at), containers, second, second_at);
            &&& shown.contains_key(id) <==> second_at.since(first_at) < STATS_LIFETIME
            &&& shown.contains_key(id) ==> shown[id] == first[id]
        }),
{
}

/// The list is good up to and at its duration after it was taken, and expired
/// from the next nanosecond on. The limits are two seconds for a list, one and a
/// half for the readings, five for a list and for usage to stay good, and two
/// between two readings of a container.
pub proof fn lists_expire_right_after_their_duration(cache: ContainerCache, now: Moment)
    ensures
        cache.expired(now) <==> now.nanos > cache.last_updated.nanos + cache.cache_duration,
        LIST_TIMEOUT_MILLIS == 2000,
        STATS_TIMEOUT_MILLIS == 1500,
        LIST_LIFETIME == 5_000_000_000,
        CHECK_INTERVAL == 2_000_000_000,
        STATS_LIFETIME == 5_000_000_000,
{
}

/// The views of what the caches hold leave nothing out.
pub proof fn cached_values_are_viewed_whole(state: SeenState, stats: CachedStats)
    ensures
        state@.state == state.state@,
        state@.seen == state.seen,
        stats@.stats.cpu_percent == stats.stats.cpu_percent,
        stats@.stats.memory_usage == stats.stats.memory_usage@,
        stats@.stats.memory_percent == stats.stats.memory_percent,
        stats@.read == stats.read,
{
}

/// A single container is read exactly where it has an id, the daemon says that it
/// is running, and it was not already seen running and read within the two
/// seconds up to now.
pub proof fn one_container_is_read_when_due(
    cache: Map<Seq<char>, SeenStateView>,
    container: ContainerSummary,
    now: Moment,
)
    ensures
        container.id is None ==> selected(cache, seq![container], now) == Seq::<Seq<char>>::empty(),
        container.state is None ==> selected(cache, seq![container], now) == Seq::<
            Seq<char>,
        >::empty(),
        container.id matches Some(id) ==> (container.state matches Some(state) ==> selected(
            cache,
            seq![container],
            now,
        ) == if state@ == "running"@ && !(cache.contains_key(id@) && cache[id@].state
            == "running"@ && now.nanos <= cache[id@].seen.nanos + 2_000_000_000) {
            seq![id@]
        } else {
            Seq::<Seq<char>>::empty()
        }),
{
    reveal_strlit("unknown");
    reveal_strlit("running");
    assert("unknown"@[0] != "running"@[0]);
    let one = seq![container];
    let none = one.drop_last();
    assert(none =~= Seq::<ContainerSummary>::empty());
    assert(one.last() == container);
    assert(all_noted(cache, none, now) == cache);
    assert(selected(cache, none, now) == Seq::<Seq<char>>::empty());
    assert(Seq::<Seq<char>>::empty().push(container.id->0@) =~= seq![container.id->0@]);
}

/// Seeing a single container notes its present state under its id, with the
/// present moment unless it was seen running and read within the last two
/// seconds, and changes no other entry; without an id nothing changes.
pub proof fn one_container_is_noted_by_its_id(
    cache: Map<Seq<char>, SeenStateView>,
    container: ContainerSummary,
    now: Moment,
    other: Seq<char>,
)
    ensures
        container.id is None ==> all_noted(cache, seq![container], now) == cache,
        container.id matches Some(id) ==> {
            let after = all_noted(cache, seq![container], now);
            let lately = cache.contains_key(id@) && cache[id@].state == "running"@ && now.nanos
                <= cache[id@].seen.nanos + 2_000_000_000;
            &&& after.contains_key(id@)
            &&& container.state matches Some(state) ==> after[id@].state == state@
            &&& container.state is None ==> after[id@].state == "unknown"@
            &&& lately ==> after[id@].seen == cache[id@].seen
            &&& !lately ==> after[id@].seen == now
            &&& other != id@ ==> after.contains_key(other) == cache.contains_key(other)
            &&& other != id@ && cache.contains_key(other) ==> after[other] == cache[other]
        },
{
    let one = seq![container];
    let none = one.drop_last();
    assert(none =~= Seq::<ContainerSummary>::empty());
    assert(one.last() == container);
    assert(all_noted(cache, none, now) == cache);
}

/// The containers are gone through in order: those of a second part are decided
/// by what the first part left in the cache, and their ids follow.
pub proof fn selection_goes_through_the_list_in_order(
    cache: Map<Seq<char>, SeenStateView>,
    first: Seq<ContainerSummary>,
    second: Seq<ContainerSummary>,
    now: Moment,
)
    ensures
        all_noted(cache, first + second, now) == all_noted(
            all_noted(cache, first, now),
            second,
            now,
        ),
        selected(cache, first + second, now) == selected(cache, first, now) + selected(
            all_noted(cache, first, now),
            second,
            now,
        ),
    decreases second.len(),
{
    let whole = first + second;
    let between = all_noted(cache, first, now);
    if second.len() == 0 {
        assert(whole =~= first);
        assert(selected(between, second, now) =~= Seq::<Seq<char>>::empty());
    } else {
        let rest = second.drop_last();
        selection_goes_through_the_list_in_order(cache, first, rest, now);
        assert(whole.drop_last() =~= first + rest);
        assert(whole.last() == second.last());
    }
}

/// Fresh usage replaces what the cache holds of an id, figure by figure and with
/// the present moment; what it says nothing of stays.
pub proof fn fresh_usage_replaces_the_cached(
    cache: Map<Seq<char>, CachedStatsView>,
    fresh: Map<Seq<char>, StatsView>,
    now: Moment,
    id: Seq<char>,
)
    ensures
        fresh.contains_key(id) ==> {
            let after = refreshed(cache, fresh, now);
            &&& after.contains_key(id)
            &&& after[id].stats.cpu_percent == fresh[id].cpu_percent
            &&& after[id].stats.memory_usage == fresh[id].memory_usage
            &&& after[id].stats.memory_percent == fresh[id].memory_percent
            &&& after[id].read == now
        },
        !fresh.contains_key(id) ==> {
            let after = refreshed(cache, fresh, now);
            &&& after.contains_key(id) == cache.contains_key(id)
            &&& cache.contains_key(id) ==> after[id] == cache[id]
        },
{
}

/// A listed container without fresh usage shows the cached usage, figure by
/// figure, exactly while this is less than five seconds old.
pub proof fn cached_usage_is_shown_for_five_seconds(
    cache: Map<Seq<char>, CachedStatsView>,
    containers: Seq<ContainerSummary>,
    fresh: Map<Seq<char>, StatsView>,
    now: Moment,
    i: int,
    id: String,
)
    requires
        0 <= i < containers.len(),
        containers[i].id == Some(id),
        !fresh.contains_key(id@),
    ensures
        ({
            let shown = merged(cache, containers, fresh, now);
            &&& shown.contains_key(id@) <==> cache.contains_key(id@) && now.nanos
                < cache[id@].read.nanos + 5_000_000_000
            &&& shown.contains_key(id@) ==> shown[id@].cpu_percent == cache[id@].stats.cpu_percent
            &&& shown.contains_key(id@) ==> shown[id@].memory_usage == cache[id@].stats.memory_usage
            &&& shown.contains_key(id@) ==> shown[id@].memory_percent
                == cache[id@].stats.memory_percent
        }),
{
    assert(containers[i].id->0@ == id@);
    assert(lists_id(containers, id@));
}

/// In a cached round the line of a container shows the figures that were read of
/// it last, whatever the cache held, and the cache holds them from then on.
pub proof fn a_cached_round_gives_each_line_its_own_usage(
    cache: Map<Seq<char>, CachedStatsView>,
    containers: Seq<ContainerSummary>,
    container: ContainerSummary,
    results: Vec<StatsResult>,
    now: Moment,
    i: int,
    id: String,
    stats: ContainerStats,
)
    requires
        container.id matches Some(own) && own@ == id@,
        0 <= i < results@.len(),
        results@[i] == Some((id, stats)),
        forall|j: int|
            i < j < results@.len() ==> ((#[trigger] results@[j]) matches Some(later) ==> later.0@
                != id@),
    ensures
        ({
            let line = info_of(container, merged(cache, containers, found(Some(results)), now));
            &&& line.cpu_percent == stats.cpu_percent
            &&& line.memory_usage == stats.memory_usage@
            &&& line.memory_percent == stats.memory_percent
        }),
        ({
            let after = refreshed(cache, found(Some(results)), now);
            &&& after.contains_key(id@)
            &&& after[id@].stats.cpu_percent == stats.cpu_percent
            &&& after[id@].stats.memory_usage == stats.memory_usage@
            &&& after[id@].stats.memory_percent == stats.memory_percent
            &&& after[id@].read == now
        }),
{
    the_last_result_of_an_id_is_its_usage(results@, i, id, stats);
    a_round_gives_each_line_its_own_usage(container, results, i, id, stats);
}

} // verus!
