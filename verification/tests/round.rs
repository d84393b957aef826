use docker_monitor::container::{ContainerStats, ContainerSummary, Percent};
use docker_monitor::round::{
    accept_listing, collect_stats, finish_round, running_container_ids, ListReply,
};

fn container(id: Option<&str>, state: &str) -> ContainerSummary {
    ContainerSummary {
        id: id.map(|id| id.to_string()),
        names: None,
        image: None,
        ports: None,
        state: Some(state.to_string()),
        status: None,
    }
}

fn stats(memory_usage: &str) -> ContainerStats {
    ContainerStats {
        cpu_percent: Percent { bits: 1 },
        memory_usage: memory_usage.to_string(),
        memory_percent: Percent { bits: 2 },
    }
}

#[test]
fn listing_replies() {
    assert_eq!(
        accept_listing(ListReply::TimedOut).unwrap_err(),
        "Container list timeout"
    );
    assert_eq!(
        accept_listing(ListReply::Failed("no socket".to_string())).unwrap_err(),
        "no socket"
    );
    let listed = accept_listing(ListReply::Received(vec![container(Some("a"), "running")]));
    assert_eq!(listed.unwrap().len(), 1);
}

#[test]
fn only_running_containers_with_an_id_are_read() {
    let containers = vec![
        container(Some("a"), "running"),
        container(Some("b"), "exited"),
        container(None, "running"),
        container(Some("c"), "running"),
        container(Some("d"), "Running"),
    ];
    assert_eq!(running_container_ids(&containers), vec!["a", "c"]);
}

#[test]
fn the_last_result_of_an_id_counts() {
    let results = vec![
        Some(("a".to_string(), stats("old"))),
        None,
        Some(("a".to_string(), stats("new"))),
    ];
    let map = collect_stats(&results);
    assert_eq!(map.get("a").unwrap().memory_usage, "new");
    assert!(map.get("b").is_none());
}

#[test]
fn a_round_lists_containers_with_their_usage() {
    let containers = vec![
        container(Some("a"), "running"),
        container(None, "running"),
        container(Some("b"), "exited"),
    ];
    let results = Some(vec![Some(("a".to_string(), stats("1.0 / 2.0")))]);
    let list = finish_round(containers, results).unwrap();
    assert_eq!(list.len(), 2);
    assert_eq!(list[0].memory_usage, "1.0 / 2.0");
    assert_eq!(list[0].cpu_percent, Percent { bits: 1 });
    assert_eq!(list[1].memory_usage, "N/A");
    assert_eq!(list[1].cpu_percent, Percent::zero());
}

#[test]
fn a_round_out_of_time_lists_containers_without_usage() {
    let containers = vec![container(Some("a"), "running"), container(Some("b"), "exited")];
    let list = finish_round(containers, None).unwrap();
    assert_eq!(list.len(), 2);
    assert!(list.iter().all(|line| line.memory_usage == "N/A"));
}
