use docker_monitor::clock::{Moment, SECOND};
use docker_monitor::collector::{Action, Collector, Event, Phase};
use docker_monitor::monitor::{AppMessage, BackgroundCommand};

fn at(nanos: u128) -> Moment {
    Moment { nanos }
}

fn sent(delivered: bool, nanos: u128) -> Event {
    Event::Sent {
        delivered,
        at: at(nanos),
    }
}

fn waiting(last_refresh: u128) -> Collector {
    Collector {
        phase: Phase::Waiting,
        auto_refresh: true,
        last_refresh: at(last_refresh),
    }
}

#[test]
fn a_failed_connection_is_reported() {
    let mut collector = Collector::new(at(0));
    match collector.step(Event::ConnectFailed("no socket".to_string())) {
        Action::Send(AppMessage::Error(text)) => {
            assert_eq!(text, "Failed to connect to Docker: no socket")
        }
        other => panic!("{:?}", other),
    }
    assert!(matches!(collector.step(sent(true, 1)), Action::Stop));
    assert_eq!(collector.phase, Phase::Stopped);
}

#[test]
fn the_first_round_follows_the_connection() {
    let mut collector = Collector::new(at(0));
    assert!(collector.auto_refresh);
    assert!(matches!(collector.step(Event::Connected), Action::Fetch));
    assert!(matches!(
        collector.step(Event::Fetched(Ok(vec![]))),
        Action::Send(AppMessage::ContainerData(list)) if list.is_empty()
    ));
    assert!(matches!(collector.step(sent(false, 5)), Action::Wait));
    assert_eq!(collector, waiting(5));
}

#[test]
fn failed_rounds_are_reported() {
    let mut collector = waiting(0);
    collector.step(Event::Command(Some(BackgroundCommand::ForceRefresh)));
    match collector.step(Event::Fetched(Err("timeout".to_string()))) {
        Action::Send(AppMessage::Error(text)) => assert_eq!(text, "Error: timeout"),
        other => panic!("{:?}", other),
    }
    assert!(matches!(collector.step(sent(true, 9)), Action::Wait));
    assert_eq!(collector, waiting(9));
}

#[test]
fn a_lost_report_stops_the_collector() {
    let mut collector = waiting(0);
    assert!(matches!(
        collector.step(Event::Command(Some(BackgroundCommand::ForceRefresh))),
        Action::Fetch
    ));
    collector.step(Event::Fetched(Ok(vec![])));
    assert!(matches!(collector.step(sent(false, 9)), Action::Stop));
    assert_eq!(collector.phase, Phase::Stopped);
    assert_eq!(collector.last_refresh, at(0));
    assert!(matches!(collector.step(Event::Connected), Action::Wait));
    assert!(matches!(collector.step(Event::ShutdownSignal), Action::Wait));
    assert_eq!(collector.phase, Phase::Stopped);
}

#[test]
fn ticks_refresh_once_a_second() {
    let mut collector = waiting(10 * SECOND);
    assert!(matches!(collector.step(Event::Tick(at(11 * SECOND - 1))), Action::Wait));
    assert!(matches!(collector.step(Event::Tick(at(9 * SECOND))), Action::Wait));
    assert_eq!(collector, waiting(10 * SECOND));
    assert!(matches!(collector.step(Event::Tick(at(11 * SECOND))), Action::Fetch));
    assert_eq!(collector.phase, Phase::Fetching { first: false });
}

#[test]
fn ticks_do_nothing_while_auto_refresh_is_off() {
    let mut collector = waiting(0);
    let off = Event::Command(Some(BackgroundCommand::SetAutoRefresh(false)));
    assert!(matches!(collector.step(off), Action::Wait));
    assert!(!collector.auto_refresh);
    assert!(matches!(collector.step(Event::Tick(at(100 * SECOND))), Action::Wait));
    let force = Event::Command(Some(BackgroundCommand::ForceRefresh));
    assert!(matches!(collector.step(force), Action::Fetch));
}

#[test]
fn shutting_down_sends_a_last_message() {
    let endings = vec![
        Event::ShutdownSignal,
        Event::Command(Some(BackgroundCommand::Shutdown)),
        Event::Command(None),
    ];
    for ending in endings {
        let mut collector = waiting(0);
        assert!(matches!(
            collector.step(ending),
            Action::Send(AppMessage::Shutdown)
        ));
        assert!(matches!(collector.step(Event::Tick(at(100 * SECOND))), Action::Wait));
        assert!(matches!(collector.step(sent(false, 1)), Action::Stop));
        assert_eq!(collector.phase, Phase::Stopped);
    }
}

#[test]
fn unexpected_events_change_nothing() {
    let mut collector = Collector::new(at(3));
    assert!(matches!(collector.step(Event::Tick(at(100 * SECOND))), Action::Wait));
    assert!(matches!(collector.step(sent(true, 5)), Action::Wait));
    assert!(matches!(collector.step(Event::Fetched(Ok(vec![]))), Action::Wait));
    assert_eq!(collector, Collector::new(at(3)));
}
