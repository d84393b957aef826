use std::collections::VecDeque;

use docker_monitor::clock::Moment;
use docker_monitor::container::{ContainerInfo, Percent};
use docker_monitor::monitor::{App, AppMessage, BackgroundCommand, Key, KeyAction};

fn line(id: &str, state: &str) -> ContainerInfo {
    ContainerInfo {
        id: id.to_string(),
        name: String::new(),
        status: String::new(),
        cpu_percent: Percent::zero(),
        memory_usage: String::new(),
        memory_percent: Percent::zero(),
        image: String::new(),
        ports: String::new(),
        state: state.to_string(),
    }
}

fn at(nanos: u128) -> Moment {
    Moment { nanos }
}

fn app_with(lines: Vec<ContainerInfo>) -> App {
    let mut app = App::new(at(1));
    assert!(app.handle_message(AppMessage::ContainerData(lines), at(2)));
    app
}

fn three() -> Vec<ContainerInfo> {
    vec![line("a", "running"), line("b", "exited"), line("c", "paused")]
}

#[test]
fn a_new_monitor_is_empty() {
    let app = App::new(at(7));
    assert!(app.containers().is_empty());
    assert_eq!(app.selected_index(), 0);
    assert_eq!(app.last_update(), at(7));
    assert!(app.error_message().is_none());
    assert!(app.auto_refresh());
}

#[test]
fn navigation_goes_round() {
    let mut app = app_with(three());
    app.next();
    assert_eq!(app.selected_index(), 1);
    app.next();
    app.next();
    assert_eq!(app.selected_index(), 0);
    app.previous();
    assert_eq!(app.selected_index(), 2);
    app.previous();
    assert_eq!(app.selected_index(), 1);
}

#[test]
fn navigation_without_lines_does_nothing() {
    let mut app = App::new(at(1));
    app.next();
    app.previous();
    assert_eq!(app.selected_index(), 0);
}

#[test]
fn going_back_undoes_going_on() {
    for start in 0..3 {
        let mut app = app_with(three());
        for _ in 0..start {
            app.next();
        }
        app.next();
        app.previous();
        assert_eq!(app.selected_index(), start);
        app.previous();
        app.next();
        assert_eq!(app.selected_index(), start);
    }
}

#[test]
fn new_lines_pull_the_selection_back() {
    let mut app = app_with(three());
    app.previous();
    assert_eq!(app.selected_index(), 2);
    app.handle_message(AppMessage::ContainerData(vec![line("a", "running")]), at(3));
    assert_eq!(app.selected_index(), 0);
    app.handle_message(AppMessage::ContainerData(three()), at(4));
    app.next();
    app.handle_message(AppMessage::ContainerData(vec![]), at(5));
    assert_eq!(app.selected_index(), 1);
    app.next();
    assert_eq!(app.selected_index(), 1);
    app.handle_message(AppMessage::ContainerData(three()), at(6));
    assert_eq!(app.selected_index(), 1);
}

#[test]
fn errors_keep_the_lines_and_lines_clear_the_error() {
    let mut app = app_with(three());
    assert!(app.handle_message(AppMessage::Error("oops".to_string()), at(3)));
    assert_eq!(app.error_message().as_deref(), Some("oops"));
    assert_eq!(app.containers().len(), 3);
    assert_eq!(app.last_update(), at(3));
    assert!(app.handle_message(AppMessage::ContainerData(vec![]), at(4)));
    assert!(app.error_message().is_none());
    assert_eq!(app.last_update(), at(4));
}

#[test]
fn a_shutdown_message_ends_the_reading_of_messages() {
    let mut app = app_with(three());
    assert!(!app.handle_message(AppMessage::Shutdown, at(9)));
    assert_eq!(app.last_update(), at(2));
    assert_eq!(app.containers().len(), 3);
}

#[test]
fn toggling_tells_the_collector() {
    let mut app = App::new(at(1));
    assert_eq!(app.toggle_auto_refresh(), BackgroundCommand::SetAutoRefresh(false));
    assert!(!app.auto_refresh());
    assert_eq!(app.toggle_auto_refresh(), BackgroundCommand::SetAutoRefresh(true));
    assert!(app.auto_refresh());
    assert_eq!(app.force_refresh(), BackgroundCommand::ForceRefresh);
    assert_eq!(app.shutdown(), BackgroundCommand::Shutdown);
}

#[test]
fn keys_for_leaving_and_commands() {
    let mut app = app_with(three());
    assert!(matches!(app.handle_key(Key::Char('q')), KeyAction::Quit));
    assert!(matches!(app.handle_key(Key::Esc), KeyAction::Quit));
    assert!(matches!(
        app.handle_key(Key::Char('r')),
        KeyAction::Send(BackgroundCommand::ForceRefresh)
    ));
    assert!(matches!(
        app.handle_key(Key::Char(' ')),
        KeyAction::Send(BackgroundCommand::SetAutoRefresh(false))
    ));
    assert!(matches!(app.handle_key(Key::Char('Q')), KeyAction::Draw));
    assert!(matches!(app.handle_key(Key::Other), KeyAction::Draw));
    assert_eq!(app.selected_index(), 0);
}

#[test]
fn keys_for_navigation() {
    let mut app = app_with(three());
    assert!(matches!(app.handle_key(Key::Down), KeyAction::Draw));
    assert!(matches!(app.handle_key(Key::Char('j')), KeyAction::Draw));
    assert_eq!(app.selected_index(), 2);
    assert!(matches!(app.handle_key(Key::Up), KeyAction::Draw));
    assert!(matches!(app.handle_key(Key::Char('k')), KeyAction::Draw));
    assert_eq!(app.selected_index(), 0);
}

#[test]
fn keys_for_the_selected_container() {
    let mut app = app_with(three());
    assert!(matches!(app.handle_key(Key::Char('s')), KeyAction::Stop(id) if id == "a"));
    assert!(matches!(app.handle_key(Key::Char('x')), KeyAction::Draw));
    app.next();
    assert!(matches!(app.handle_key(Key::Char('s')), KeyAction::Start(id) if id == "b"));
    assert!(matches!(app.handle_key(Key::Char('x')), KeyAction::Remove(id) if id == "b"));
    let mut empty = App::new(at(1));
    assert!(matches!(empty.handle_key(Key::Char('s')), KeyAction::Draw));
    assert!(matches!(empty.handle_key(Key::Char('x')), KeyAction::Draw));
}

#[test]
fn a_queue_is_read_up_to_the_shutdown() {
    let mut app = App::new(at(1));
    let mut queue = VecDeque::from(vec![
        AppMessage::Error("first".to_string()),
        AppMessage::ContainerData(three()),
        AppMessage::Shutdown,
        AppMessage::Error("second".to_string()),
        AppMessage::ContainerData(vec![]),
    ]);
    assert!(!app.handle_messages(&mut queue, at(5)));
    assert_eq!(app.containers().len(), 3);
    assert!(app.error_message().is_none());
    assert_eq!(app.last_update(), at(5));
    assert_eq!(queue.len(), 2);
    assert!(matches!(&queue[0], AppMessage::Error(reason) if reason == "second"));

    queue.pop_back();
    assert!(app.handle_messages(&mut queue, at(6)));
    assert_eq!(app.containers().len(), 3);
    assert_eq!(app.error_message().as_deref(), Some("second"));
    assert!(queue.is_empty());
    assert!(app.handle_messages(&mut queue, at(7)));
    assert_eq!(app.last_update(), at(6));
}

#[test]
fn a_queue_never_moves_the_selection_down() {
    let mut app = app_with(three());
    app.previous();
    let mut queue = VecDeque::from(vec![
        AppMessage::ContainerData(vec![line("a", "running"), line("b", "running")]),
        AppMessage::ContainerData(vec![]),
        AppMessage::ContainerData(three()),
    ]);
    assert!(app.handle_messages(&mut queue, at(3)));
    assert_eq!(app.selected_index(), 1);
}

#[test]
fn every_line_is_reached() {
    for start in 0..3 {
        for goal in 0..3 {
            let mut app = app_with(three());
            for _ in 0..start {
                app.next();
            }
            let mut steps = 0;
            while app.selected_index() != goal {
                app.next();
                steps += 1;
            }
            assert!(steps < 3);
        }
    }
}
