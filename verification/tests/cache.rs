use docker_monitor::cache::{
    current_listing, finish_cached_round, ContainerCache, StateCache, StatsCache,
};
use docker_monitor::clock::{Clock, Moment, SECOND};
use docker_monitor::container::{ContainerStats, ContainerSummary, Percent};
use docker_monitor::round::ListReply;

fn container(id: Option<&str>, state: &str) -> ContainerSummary {
    ContainerSummary {
        id: id.map(|id| id.to_string()),
        names: None,
        image: None,
        ports: None,
        state: Some(state.to_string()),
        status: None,
    }
}

fn stats(memory_usage: &str) -> ContainerStats {
    ContainerStats {
        cpu_percent: Percent::zero(),
        memory_usage: memory_usage.to_string(),
        memory_percent: Percent::zero(),
    }
}

fn at(nanos: u128) -> Moment {
    Moment { nanos }
}

#[test]
fn a_new_cache_has_expired() {
    let now = Clock::start().now();
    let cache = ContainerCache::new(now);
    assert!(cache.containers.is_empty());
    assert_eq!(cache.last_updated.nanos, now.nanos - 60 * SECOND);
    assert_eq!(cache.cache_duration, 5 * SECOND);
    assert!(cache.is_expired(now));
}

#[test]
fn an_updated_cache_is_good_for_five_seconds() {
    let mut cache = ContainerCache::new(at(100 * SECOND));
    cache.update(vec![container(Some("a"), "running")], at(200 * SECOND));
    assert_eq!(cache.containers.len(), 1);
    assert_eq!(cache.cache_duration, 5 * SECOND);
    assert!(!cache.is_expired(at(200 * SECOND)));
    assert!(!cache.is_expired(at(205 * SECOND)));
    assert!(cache.is_expired(at(205 * SECOND + 1)));
    assert!(!cache.is_expired(at(100 * SECOND)));
}

#[test]
fn running_containers_are_read_again_after_two_seconds() {
    let mut cache = StateCache::new();
    let containers = vec![
        container(Some("a"), "running"),
        container(Some("b"), "exited"),
        container(None, "running"),
    ];
    assert_eq!(cache.select(&containers, at(10 * SECOND)), vec!["a"]);
    assert!(cache.select(&containers, at(12 * SECOND)).is_empty());
    assert_eq!(cache.select(&containers, at(14 * SECOND + 1)), vec!["a"]);
}

#[test]
fn containers_that_start_are_read_at_once() {
    let mut cache = StateCache::new();
    assert!(cache.select(&vec![container(Some("a"), "exited")], at(1)).is_empty());
    let running = vec![container(Some("a"), "running")];
    assert_eq!(cache.select(&running, at(2)), vec!["a"]);
    assert!(cache.select(&running, at(3)).is_empty());
}

#[test]
fn a_repeated_id_is_read_once() {
    let mut cache = StateCache::new();
    let twice = vec![container(Some("a"), "running"), container(Some("a"), "running")];
    assert_eq!(cache.select(&twice, at(1)), vec!["a"]);
}

#[test]
fn cached_usage_is_shown_for_less_than_five_seconds() {
    let mut cache = StatsCache::new();
    let containers = vec![container(Some("a"), "running"), container(Some("b"), "running")];
    let results = Some(vec![Some(("a".to_string(), stats("first"))), None]);
    let map = cache.merge(&containers, results, at(10 * SECOND));
    assert_eq!(map.get("a").unwrap().memory_usage, "first");
    assert!(map.get("b").is_none());

    let map = cache.merge(&containers, None, at(15 * SECOND - 1));
    assert_eq!(map.get("a").unwrap().memory_usage, "first");
    let map = cache.merge(&containers, None, at(15 * SECOND));
    assert!(map.get("a").is_none());
}

#[test]
fn fresh_usage_wins_and_unlisted_usage_is_left_out() {
    let mut cache = StatsCache::new();
    let a = vec![container(Some("a"), "running")];
    let b = vec![container(Some("b"), "running")];
    cache.merge(&a, Some(vec![Some(("a".to_string(), stats("first")))]), at(1));
    assert!(cache.merge(&b, None, at(2)).get("a").is_none());
    let map = cache.merge(&a, Some(vec![Some(("a".to_string(), stats("second")))]), at(3));
    assert_eq!(map.get("a").unwrap().memory_usage, "second");
    let map = cache.merge(&a, None, at(4));
    assert_eq!(map.get("a").unwrap().memory_usage, "second");
}

#[test]
fn a_cached_round_lists_fresh_and_cached_usage() {
    let mut cache = StatsCache::new();
    let list = |states: [&str; 2]| {
        vec![container(Some("a"), states[0]), container(Some("b"), states[1])]
    };
    let results = Some(vec![Some(("a".to_string(), stats("first")))]);
    finish_cached_round(&mut cache, list(["running", "exited"]), results, at(1)).unwrap();
    let results = Some(vec![Some(("b".to_string(), stats("other")))]);
    let lines =
        finish_cached_round(&mut cache, list(["running", "running"]), results, at(2)).unwrap();
    assert_eq!(lines[0].memory_usage, "first");
    assert_eq!(lines[1].memory_usage, "other");
}

#[test]
fn frequent_calls_do_not_put_a_reading_off() {
    let mut cache = StateCache::new();
    let containers = vec![container(Some("a"), "running")];
    let half = SECOND / 2;
    assert_eq!(cache.select(&containers, at(20 * half)), vec!["a"]);
    assert!(cache.select(&containers, at(23 * half)).is_empty());
    assert_eq!(cache.select(&containers, at(26 * half)), vec!["a"]);
    for step in 1..=20 {
        let asked = cache.select(&containers, at(26 * half + step * SECOND / 10));
        assert!(asked.is_empty());
    }
    assert_eq!(cache.select(&containers, at(30 * half + 1)), vec!["a"]);
}

#[test]
fn unlisted_calls_leave_the_moment_of_reading() {
    let mut cache = StateCache::new();
    let a = vec![container(Some("a"), "running")];
    let b = vec![container(Some("b"), "running")];
    assert_eq!(cache.select(&a, at(10 * SECOND)), vec!["a"]);
    assert_eq!(cache.select(&b, at(11 * SECOND)), vec!["b"]);
    assert!(cache.select(&a, at(12 * SECOND)).is_empty());
    assert_eq!(cache.select(&a, at(12 * SECOND + 1)), vec!["a"]);
}

#[test]
fn a_restarted_container_is_read_at_once() {
    let mut cache = StateCache::new();
    let running = vec![container(Some("a"), "running")];
    let exited = vec![container(Some("a"), "exited")];
    assert_eq!(cache.select(&running, at(10 * SECOND)), vec!["a"]);
    assert!(cache.select(&exited, at(10 * SECOND + 1)).is_empty());
    assert_eq!(cache.select(&running, at(10 * SECOND + 2)), vec!["a"]);
    assert!(cache.select(&running, at(12 * SECOND + 2)).is_empty());
}

#[test]
fn the_listing_in_use() {
    let mut cache = ContainerCache::new(at(100 * SECOND));
    let listed = vec![container(Some("a"), "running")];
    let reply = Some(ListReply::Received(listed));
    assert_eq!(current_listing(&mut cache, reply, at(101)).unwrap().len(), 1);
    assert_eq!(cache.last_updated, at(101));

    let list = current_listing(&mut cache, None, at(102)).unwrap();
    assert_eq!(list[0].id.as_deref(), Some("a"));
    assert_eq!(cache.last_updated, at(101));

    let error = current_listing(&mut cache, Some(ListReply::TimedOut), at(103)).unwrap_err();
    assert_eq!(error, "Container list timeout");
    let reply = Some(ListReply::Failed("no socket".to_string()));
    assert_eq!(current_listing(&mut cache, reply, at(104)).unwrap_err(), "no socket");
    assert_eq!(cache.containers.len(), 1);
    assert_eq!(cache.last_updated, at(101));
}

#[test]
fn a_listing_is_good_until_it_expires() {
    let mut cache = ContainerCache::new(at(100 * SECOND));
    assert!(cache.good_listing(at(100 * SECOND)).is_none());
    cache.update(vec![container(Some("a"), "running")], at(200 * SECOND));
    let list = cache.good_listing(at(205 * SECOND)).unwrap();
    assert_eq!(list[0].id.as_deref(), Some("a"));
    assert!(cache.good_listing(at(205 * SECOND + 1)).is_none());
}
