use docker_monitor::clock::{Moment, SECOND};
use docker_monitor::container::{ContainerInfo, Percent};
use docker_monitor::monitor::{App, AppMessage};
use docker_monitor::screen::{can_show, level_color, ui, Color, EARLIEST_SECOND, LATEST_SECOND};

fn percent(value: f64) -> Percent {
    Percent {
        bits: f64::to_bits(value),
    }
}

fn at(nanos: u128) -> Moment {
    Moment { nanos }
}

fn line(id: &str, state: &str, cpu: f64, memory: f64) -> ContainerInfo {
    ContainerInfo {
        id: id.to_string(),
        name: format!("name of {}", id),
        status: format!("status of {}", id),
        cpu_percent: percent(cpu),
        memory_usage: "1.0 / 2.0".to_string(),
        memory_percent: percent(memory),
        image: format!("image of {}", id),
        ports: format!("ports of {}", id),
        state: state.to_string(),
    }
}

fn time_shown(wall_nanos: i128) -> String {
    let app = App::new(at(0));
    assert!(can_show(&app, at(0), wall_nanos));
    ui(&app, at(0), wall_nanos).help[13..21].to_string()
}

#[test]
fn colors_of_percentages() {
    let by_number = |value: f64| {
        if value > 80.0 {
            Color::Red
        } else if value > 50.0 {
            Color::Yellow
        } else {
            Color::Green
        }
    };
    for value in [
        0.0,
        -0.0,
        -90.0,
        1e-310,
        49.9,
        50.0,
        50.00000000000001,
        50.1,
        79.99999999999999,
        80.0,
        80.00000000000001,
        100.0,
        400.0,
        f64::MAX,
        f64::MIN,
        f64::INFINITY,
        f64::NEG_INFINITY,
        f64::NAN,
        -f64::NAN,
    ] {
        assert_eq!(level_color(percent(value)), by_number(value));
    }
    assert_eq!(level_color(percent(50.0)), Color::Green);
    assert_eq!(level_color(percent(80.0)), Color::Yellow);
    assert_eq!(level_color(percent(80.1)), Color::Red);
}

#[test]
fn rows_and_details_of_the_screen() {
    let mut app = App::new(at(0));
    let lines = vec![
        line("0123456789abcdef", "running", 90.0, 60.0),
        line("short", "exited", 0.0, 81.0),
    ];
    app.handle_message(AppMessage::ContainerData(lines), at(SECOND));
    app.next();
    let screen = ui(&app, at(SECOND), 0);
    assert_eq!(screen.rows.len(), 2);
    let first = &screen.rows[0];
    assert_eq!(first.id, "0123456789ab");
    assert_eq!(first.name, "name of 0123456789abcdef");
    assert_eq!(first.status, "status of 0123456789abcdef");
    assert_eq!(first.status_color, Color::Green);
    assert_eq!(first.cpu_percent, percent(90.0));
    assert_eq!(first.cpu_color, Color::Red);
    assert_eq!(first.memory_usage, "1.0 / 2.0");
    assert_eq!(first.memory_percent, percent(60.0));
    assert_eq!(first.memory_color, Color::Yellow);
    assert_eq!(first.image, "image of 0123456789abcdef");
    let second = &screen.rows[1];
    assert_eq!(second.id, "short");
    assert_eq!(second.status_color, Color::Red);
    assert_eq!(second.cpu_color, Color::Green);
    assert_eq!(second.memory_color, Color::Red);
    assert_eq!(screen.selected, 1);
    let details = screen.details.unwrap();
    assert_eq!(details.id, "short");
    assert_eq!(details.image, "image of short");
    assert_eq!(details.ports, "ports of short");
    assert!(screen.error.is_none());
}

#[test]
fn the_screen_without_containers() {
    let mut app = App::new(at(0));
    app.handle_message(AppMessage::Error("oops".to_string()), at(0));
    let screen = ui(&app, at(0), 0);
    assert!(screen.rows.is_empty());
    assert!(screen.details.is_none());
    assert_eq!(screen.error.as_deref(), Some("oops"));
}

#[test]
fn the_help_line() {
    let mut app = App::new(at(0));
    let wall_nanos = 1_700_000_000_999_999_999;
    assert_eq!(
        ui(&app, at(0), wall_nanos).help,
        "Last Update: 22:13:20 | Auto-refresh: ON  || q/ESC: Quit | ↑↓/jk: Navigate | r: Refresh | Space: Toggle auto-refresh | s: Start/Stop | x: Remove stopped"
    );
    app.toggle_auto_refresh();
    assert!(ui(&app, at(21 * SECOND), wall_nanos)
        .help
        .starts_with("Last Update: 22:12:59 | Auto-refresh: OFF || q/ESC"));
}

#[test]
fn times_of_day() {
    assert_eq!(time_shown(0), "00:00:00");
    assert_eq!(time_shown(86_399 * SECOND as i128), "23:59:59");
    assert_eq!(time_shown(86_400 * SECOND as i128), "00:00:00");
    assert_eq!(time_shown(3_661 * SECOND as i128), "01:01:01");
    assert_eq!(time_shown(-1), "23:59:59");
    assert_eq!(time_shown(-(SECOND as i128)), "23:59:59");
    assert_eq!(time_shown(-(SECOND as i128) - 1), "23:59:58");
    for step in 0..2000i64 {
        let second = step * 997 - 900_000;
        let expected = chrono::DateTime::<chrono::Utc>::from(if second >= 0 {
            std::time::UNIX_EPOCH + std::time::Duration::from_secs(second as u64)
        } else {
            std::time::UNIX_EPOCH - std::time::Duration::from_secs(-second as u64)
        });
        assert_eq!(
            time_shown(second as i128 * SECOND as i128),
            expected.format("%H:%M:%S").to_string()
        );
    }
}

#[test]
fn the_calendar_has_ends() {
    let app = App::new(at(0));
    let first = EARLIEST_SECOND as i128 * SECOND as i128;
    let end = (LATEST_SECOND as i128 + 1) * SECOND as i128;
    assert_eq!(time_shown(first), "00:00:00");
    assert_eq!(time_shown(end - 1), "23:59:59");
    assert!(!can_show(&app, at(0), first - 1));
    assert!(!can_show(&app, at(0), end));
    assert!(!can_show(&app, at(0), i128::MIN));
    assert!(!can_show(&app, at(0), i128::MAX));
    assert!(can_show(&app, at(1), end));
    assert!(!can_show(&app, at(1), first));
    assert!(!can_show(&app, at(u128::MAX), i128::MAX));
    assert!(chrono::DateTime::<chrono::Utc>::from_timestamp(EARLIEST_SECOND, 0).is_some());
    assert!(chrono::DateTime::<chrono::Utc>::from_timestamp(EARLIEST_SECOND - 1, 0).is_none());
    assert!(chrono::DateTime::<chrono::Utc>::from_timestamp(LATEST_SECOND, 0).is_some());
    assert!(chrono::DateTime::<chrono::Utc>::from_timestamp(LATEST_SECOND + 1, 0).is_none());
}
