//! What the monitor shows.

use vstd::prelude::*;

use crate::clock::{Moment, SECOND};
use crate::container::{ContainerInfo, Percent};
use crate::monitor::App;
use crate::text::{is_text, shorten};
#[allow(unused_imports)]
use crate::container::{info_views, ContainerInfoView};
#[allow(unused_imports)]
use crate::monitor::AppView;
#[allow(unused_imports)]
use crate::text::{digit, shortened};

verus! {

/// How many characters of an id a line shows.
pub const SHORT_ID_CHARS: usize = 12;

/// The bit pattern of fifty as a double precision number.
pub const FIFTY_BITS: u64 = 0x4049_0000_0000_0000;

/// The bit pattern of eighty as a double precision number.
pub const EIGHTY_BITS: u64 = 0x4054_0000_0000_0000;

/// The bit pattern of infinity as a double precision number.
pub const INFINITY_BITS: u64 = 0x7FF0_0000_0000_0000;

/// The first second that the time of the last update can be shown for.
pub const EARLIEST_SECOND: i64 = -8_334_601_228_800;

/// The last second that the time of the last update can be shown for.
pub const LATEST_SECOND: i64 = 8_210_266_876_799;

/// The color of a cell.
#[derive(Clone, Copy, Debug, PartialEq, Eq, Structural)]
pub enum Color {
    Red,
    Yellow,
    Green,
}

/// A line of the table.
#[derive(Clone, Debug)]
pub struct Row {
    pub id: String,
    pub name: String,
    pub status: String,
    pub status_color: Color,
    pub cpu_percent: Percent,
    pub cpu_color: Color,
    pub memory_usage: String,
    pub memory_percent: Percent,
    pub memory_color: Color,
    pub image: String,
}

/// The value of a [`Row`].
pub struct RowView {
    pub id: Seq<char>,
    pub name: Seq<char>,
    pub status: Seq<char>,
    pub status_color: Color,
    pub cpu_percent: Percent,
    pub cpu_color: Color,
    pub memory_usage: Seq<char>,
    pub memory_percent: Percent,
    pub memory_color: Color,
    pub image: Seq<char>,
}

impl View for Row {
    type V = RowView;

    open spec fn view(&self) -> RowView {
        RowView {
            id: self.id@,
            name: self.name@,
            status: self.status@,
            status_color: self.status_color,
            cpu_percent: self.cpu_percent,
            cpu_color: self.cpu_color,
            memory_usage: self.memory_usage@,
            memory_percent: self.memory_percent,
            memory_color: self.memory_color,
            image: self.image@,
        }
    }
}

/// What is shown of the selected container.
#[derive(Clone, Debug)]
pub struct Details {
    pub id: String,
    pub image: String,
    pub ports: String,
}

/// The value of a [`Details`].
pub struct DetailsView {
    pub id: Seq<char>,
    pub image: Seq<char>,
    pub ports: Seq<char>,
}

impl View for Details {
    type V = DetailsView;

    open spec fn view(&self) -> DetailsView {
        DetailsView { id: self.id@, image: self.image@, ports: self.ports@ }
    }
}

/// The whole screen.
#[derive(Clone, Debug)]
pub struct Screen {
    pub rows: Vec<Row>,
    pub selected: usize,
    pub details: Option<Details>,
    pub help: String,
    pub error: Option<String>,
}

/// The value of a [`Screen`].
pub struct ScreenView {
    pub rows: Seq<RowView>,
    pub selected: nat,
    pub details: Option<DetailsView>,
    pub help: Seq<char>,
    pub error: Option<Seq<char>>,
}

impl View for Screen {
    type V = ScreenView;

    open spec fn view(&self) -> ScreenView {
        ScreenView {
            rows: self.rows@.map_values(|r: Row| r@),
            selected: self.selected as nat,
            details: match self.details {
                Some(d) => Some(d@),
                None => None,
            },
            help: self.help@,
            error: match self.error {
                Some(e) => Some(e@),
                None => None,
            },
        }
    }
}

/// Whether a percentage is above a positive limit. The bit patterns of
/// positive numbers are ordered as the numbers are, up to infinity; behind it
/// come what is not a number and the negative numbers, and none of these is
/// above a limit.
pub open spec fn above(percent: Percent, limit_bits: u64) -> bool {
    limit_bits < percent.bits <= INFINITY_BITS
}

/// The color of a percentage: red above eighty, yellow above fifty, and green
/// otherwise.
pub open spec fn level(percent: Percent) -> Color {
    if above(percent, EIGHTY_BITS) {
        Color::Red
    } else if above(percent, FIFTY_BITS) {
        Color::Yellow
    } else {
        Color::Green
    }
}

/// The line for a container.
pub open spec fn row_of(container: ContainerInfoView) -> RowView {
    RowView {
        id: shortened(container.id, SHORT_ID_CHARS as nat),
        name: container.name,
        status: container.status,
        status_color: if container.state == "running"@ {
            Color::Green
        } else {
            Color::Red
        },
        cpu_percent: container.cpu_percent,
        cpu_color: level(container.cpu_percent),
        memory_usage: container.memory_usage,
        memory_percent: container.memory_percent,
        memory_color: level(container.memory_percent),
        image: container.image,
    }
}

/// A number below a hundred with two digits.
pub open spec fn two_digits(n: nat) -> Seq<char> {
    seq![digit(n / 10), digit(n % 10)]
}

/// The time of day of a second since the Unix epoch, in UTC.
pub open spec fn time_text(second: int) -> Seq<char> {
    let of_day = (second % 86400) as nat;
    two_digits(of_day / 3600) + ":"@ + two_digits(of_day / 60 % 60) + ":"@ + two_digits(
        of_day % 60,
    )
}

/// The second, since the Unix epoch, in which the last update came.
pub open spec fn update_second(last_update: Moment, now: Moment, wall_nanos: int) -> int {
    (wall_nanos - now.since(last_update)) / 1_000_000_000
}

/// The line at the bottom.
pub open spec fn help_text(second: int, auto_refresh: bool) -> Seq<char> {
    "Last Update: "@ + time_text(second) + " | Auto-refresh: "@ + (if auto_refresh {
        "ON "@
    } else {
        "OFF"@
    })
        + " || q/ESC: Quit | ↑↓/jk: Navigate | r: Refresh | Space: Toggle auto-refresh | s: Start/Stop | x: Remove stopped"@
}

/// The screen of a monitor.
pub open spec fn screen_of(app: AppView, now: Moment, wall_nanos: int) -> ScreenView {
    ScreenView {
        rows: app.containers.map_values(|c: ContainerInfoView| row_of(c)),
        selected: app.selected_index,
        details: match app.selected() {
            Some(c) => Some(DetailsView { id: c.id, image: c.image, ports: c.ports }),
            None => None,
        },
        help: help_text(update_second(app.last_update, now, wall_nanos), app.auto_refresh),
        error: app.error_message,
    }
}

/// `DateTime::from_timestamp` and `DateTime::format` of chrono: for a second
/// that chrono can represent, `%H:%M:%S` writes the hour, minute and second of
/// its day with two digits each.
#[verifier::external_body]
fn write_utc_time(second: i64) -> (r: String)
    requires
        EARLIEST_SECOND <= second <= LATEST_SECOND,
    ensures
        r@ == time_text(second as int),
{
    let time = chrono::DateTime::<chrono::Utc>::from_timestamp(second, 0).unwrap();
    time.format("%H:%M:%S").to_string()
}

fn is_above(percent: Percent, limit_bits: u64) -> (r: bool)
    ensures
        r == above(percent, limit_bits),
{
    limit_bits < percent.bits && percent.bits <= INFINITY_BITS
}

/// The color of a percentage.
pub fn level_color(percent: Percent) -> (r: Color)
    ensures
        r == level(percent),
{
    if is_above(percent, EIGHTY_BITS) {
        Color::Red
    } else if is_above(percent, FIFTY_BITS) {
        Color::Yellow
    } else {
        Color::Green
    }
}

fn build_row(container: &ContainerInfo) -> (r: Row)
    ensures
        r@ == row_of(container@),
{
    Row {
        id: shorten(container.id.as_str(), SHORT_ID_CHARS),
        name: container.name.clone(),
        status: container.status.clone(),
        status_color: if is_text(&container.state, "running") {
            Color::Green
        } else {
            Color::Red
        },
        cpu_percent: container.cpu_percent,
        cpu_color: level_color(container.cpu_percent),
        memory_usage: container.memory_usage.clone(),
        memory_percent: container.memory_percent,
        memory_color: level_color(container.memory_percent),
        image: container.image.clone(),
    }
}

/// Whether the last update of a monitor lies within the years that the calendar
/// covers.
pub open spec fn showable(app: AppView, now: Moment, wall_nanos: int) -> bool {
    EARLIEST_SECOND <= update_second(app.last_update, now, wall_nanos) <= LATEST_SECOND
}

/// Whether the screen of a monitor can be shown.
pub fn can_show(app: &App, now: Moment, wall_nanos: i128) -> (r: bool)
    ensures
        r == showable(app@, now, wall_nanos as int),
{
    let since = now.elapsed_since(app.last_update());
    let first: u128 = 8_334_601_228_800 * SECOND;
    let last: u128 = 8_210_266_876_800 * SECOND;
    if wall_nanos >= 0 {
        let wall = wall_nanos as u128;
        since <= wall + first && (wall < last || wall - last < since)
    } else {
        let before = (-(wall_nanos + 1)) as u128 + 1;
        before <= first && since <= first - before
    }
}

fn last_update_second(last_update: Moment, now: Moment, wall_nanos: i128) -> (r: i64)
    requires
        EARLIEST_SECOND <= update_second(last_update, now, wall_nanos as int) <= LATEST_SECOND,
    ensures
        r == update_second(last_update, now, wall_nanos as int),
{
    let since = now.elapsed_since(last_update);
    if wall_nanos >= 0 && wall_nanos as u128 >= since {
        ((wall_nanos as u128 - since) / 1_000_000_000) as i64
    } else {
        let before = if wall_nanos >= 0 {
            since - wall_nanos as u128
        } else {
            since + (-wall_nanos) as u128
        };
        -(((before + 999_999_999) / 1_000_000_000) as i64)
    }
}

fn build_help(second: i64, auto_refresh: bool) -> (r: String)
    requires
        EARLIEST_SECOND <= second <= LATEST_SECOND,
    ensures
        r@ == help_text(second as int, auto_refresh),
{
    let mut help = "Last Update: ".to_owned();
    let time = write_utc_time(second);
    help.append(time.as_str());
    help.append(" | Auto-refresh: ");
    if auto_refresh {
        help.append("ON ");
    } else {
        help.append("OFF");
    }
    help.append(
        " || q/ESC: Quit | ↑↓/jk: Navigate | r: Refresh | Space: Toggle auto-refresh | s: Start/Stop | x: Remove stopped",
    );
    help
}

/// The screen of a monitor, at a moment and with the wall clock at that moment
/// in nanoseconds since the Unix epoch. The last update must lie within the
/// years that the calendar covers.
pub fn ui(app: &App, now: Moment, wall_nanos: i128) -> (r: Screen)
    requires
        showable(app@, now, wall_nanos as int),
    ensures
        r@ == screen_of(app@, now, wall_nanos as int),
{
    let containers = app.containers();
    let selected = app.selected_index();
    let mut rows: Vec<Row> = Vec::new();
    let mut i: usize = 0;
    while i < containers.len()
        invariant
            i <= containers.len(),
            rows.len() == i,
            forall|j: int| 0 <= j < i ==> (#[trigger] rows[j])@ == row_of(containers[j]@),
        decreases containers.len() - i,
    {
        rows.push(build_row(&containers[i]));
        i = i + 1;
    }
    let details = if selected < containers.len() {
        let container = &containers[selected];
        assert(app@.containers[selected as int] == container@);
        Some(
            Details {
                id: container.id.clone(),
                image: container.image.clone(),
                ports: container.ports.clone(),
            },
        )
    } else {
        None
    };
    let help = build_help(
        last_update_second(app.last_update(), now, wall_nanos),
        app.auto_refresh(),
    );
    let error = match app.error_message() {
        Some(reason) => Some(reason.clone()),
        None => None,
    };
    let screen = Screen { rows, selected, details, help, error };
    assert(screen@.rows =~= screen_of(app@, now, wall_nanos as int).rows);
    screen
}

/// The table has a line for each container, in order, with at most the first
/// characters of its id; the details are those of the selected container, and
/// are missing only where there is no container.
pub proof fn screen_shows_every_container(app: AppView, now: Moment, wall_nanos: int)
    requires
        app.valid(),
    ensures
        ({
            let screen = screen_of(app, now, wall_nanos);
            &&& screen.rows.len() == app.containers.len()
            &&& forall|i: int|
                0 <= i < screen.rows.len() ==> {
                    &&& (#[trigger] screen.rows[i]).id.len() <= SHORT_ID_CHARS
                    &&& screen.rows[i].id.is_prefix_of(app.containers[i].id)
                    &&& screen.rows[i].name == app.containers[i].name
                }
            &&& screen.details is Some <==> app.containers.len() > 0
            &&& screen.details matches Some(d) ==> screen.selected < app.containers.len() && d.id
                == app.containers[screen.selected as int].id
        }),
{
}

/// How alarming a color is.
pub open spec fn alarm(color: Color) -> int {
    match color {
        Color::Green => 0,
        Color::Yellow => 1,
        Color::Red => 2,
    }
}

/// A higher percentage never has a less alarming color.
pub proof fn colors_rise_with_usage(low: Percent, high: Percent)
    requires
        low.bits <= high.bits <= INFINITY_BITS,
    ensures
        alarm(level(low)) <= alarm(level(high)),
{
}

/// The views of what is shown leave nothing out.
pub proof fn shown_values_are_viewed_whole(row: Row, details: Details, screen: Screen)
    ensures
        row@.id == row.id@,
        row@.name == row.name@,
        row@.status == row.status@,
        row@.status_color == row.status_color,
        row@.cpu_percent == row.cpu_percent,
        row@.cpu_color == row.cpu_color,
        row@.memory_usage == row.memory_usage@,
        row@.memory_percent == row.memory_percent,
        row@.memory_color == row.memory_color,
        row@.image == row.image@,
        details@.id == details.id@,
        details@.image == details.image@,
        details@.ports == details.ports@,
        screen@.rows.len() == screen.rows@.len(),
        forall|i: int|
            0 <= i < screen.rows@.len() ==> screen@.rows[i] == (#[trigger] screen.rows@[i])@,
        screen@.selected == screen.selected,
        screen.details matches Some(d) ==> screen@.details == Some(d@),
        screen.details is None ==> screen@.details is None,
        screen@.help == screen.help@,
        screen.error matches Some(reason) ==> screen@.error == Some(reason@),
        screen.error is None ==> screen@.error is None,
{
}

/// The screen shows the error of the monitor, whatever else it shows, and shows
/// one only where the monitor has one.
pub proof fn the_error_is_always_shown(app: AppView, now: Moment, wall_nanos: int)
    ensures
        screen_of(app, now, wall_nanos).error == app.error_message,
{
}

/// Every container has its line at its place, with its own name, status, figures
/// and image, the first twelve characters of its id at most, and a green status
/// exactly where it runs.
pub proof fn lines_show_their_containers(app: AppView, now: Moment, wall_nanos: int, i: int)
    requires
        0 <= i < app.containers.len(),
    ensures
        ({
            let rows = screen_of(app, now, wall_nanos).rows;
            let row = rows[i];
            let container = app.containers[i];
            &&& rows.len() == app.containers.len()
            &&& container.id.len() <= 12 ==> row.id == container.id
            &&& container.id.len() > 12 ==> row.id.len() == 12 && row.id.is_prefix_of(container.id)
            &&& row.name == container.name
            &&& row.status == container.status
            &&& row.status_color == Color::Green <==> container.state == "running"@
            &&& row.status_color == Color::Green || row.status_color == Color::Red
            &&& row.cpu_percent == container.cpu_percent
            &&& row.cpu_color == level(container.cpu_percent)
            &&& row.memory_usage == container.memory_usage
            &&& row.memory_percent == container.memory_percent
            &&& row.memory_color == level(container.memory_percent)
            &&& row.image == container.image
        }),
{
}

/// The line that is marked is the selected one. The details are the whole id, the
/// image and the ports of the selected container, and missing only without lines.
pub proof fn details_show_the_selected_container(app: AppView, now: Moment, wall_nanos: int)
    requires
        app.valid(),
    ensures
        ({
            let screen = screen_of(app, now, wall_nanos);
            &&& screen.rows.len() == app.containers.len()
            &&& screen.selected == app.selected_index
            &&& app.containers.len() == 0 ==> screen.details is None
            &&& app.containers.len() > 0 ==> {
                let container = app.containers[app.selected_index as int];
                screen.details matches Some(d) && d.id == container.id && d.image == container.image
                    && d.ports == container.ports
            }
        }),
{
}

/// The color of a percentage goes by the value of the double, taken apart into its
/// sign and exponent and its fraction: red above eighty and at infinity, yellow
/// above fifty and up to eighty, green up to fifty, for negative values and for
/// what is not a number.
pub proof fn colors_go_by_the_value(percent: Percent, exponent: nat, fraction: nat)
    requires
        fraction < 0x10_0000_0000_0000,
        percent.bits == exponent * 0x10_0000_0000_0000 + fraction,
    ensures
        exponent < 1028 ==> level(percent) == Color::Green,
        exponent == 1028 && 0x10_0000_0000_0000 + fraction <= 50 * 0x8000_0000_0000 ==> level(
            percent,
        ) == Color::Green,
        exponent == 1028 && 0x10_0000_0000_0000 + fraction > 50 * 0x8000_0000_0000 ==> level(
            percent,
        ) == Color::Yellow,
        exponent == 1029 && 0x10_0000_0000_0000 + fraction <= 80 * 0x4000_0000_0000 ==> level(
            percent,
        ) == Color::Yellow,
        exponent == 1029 && 0x10_0000_0000_0000 + fraction > 80 * 0x4000_0000_0000 ==> level(
            percent,
        ) == Color::Red,
        1029 < exponent < 2047 ==> level(percent) == Color::Red,
        exponent == 2047 && fraction == 0 ==> level(percent) == Color::Red,
        exponent == 2047 && fraction > 0 ==> level(percent) == Color::Green,
        exponent > 2047 ==> level(percent) == Color::Green,
{
}

/// The time is shown as two digits each for an hour, a minute and a second, with
/// colons between, and the three add up to the second of the day.
pub proof fn times_are_hours_minutes_and_seconds(second: int)
    ensures
        time_text(second).len() == 8,
        time_text(second)[2] == ':',
        time_text(second)[5] == ':',
        forall|i: int|
            0 <= i < 8 && i != 2 && i != 5 ==> 48 <= (#[trigger] time_text(second)[i]) as int <= 57,
        ({
            let text = time_text(second);
            let hour = 10 * (text[0] as int - 48) + (text[1] as int - 48);
            let minute = 10 * (text[3] as int - 48) + (text[4] as int - 48);
            let rest = 10 * (text[6] as int - 48) + (text[7] as int - 48);
            &&& 0 <= hour < 24
            &&& 0 <= minute < 60
            &&& 0 <= rest < 60
            &&& hour * 3600 + minute * 60 + rest == second % 86400
        }),
{
    reveal_strlit(":");
    let of_day = (second % 86400) as nat;
    let hour = of_day / 3600;
    let minute = of_day / 60 % 60;
    let rest = of_day % 60;
    let text = time_text(second);
    assert(hour < 24);
    assert(of_day / 60 / 60 == hour);
    assert(hour * 3600 + minute * 60 + rest == of_day);
    assert(text[0] == digit(hour / 10) && text[1] == digit(hour % 10));
    assert(text[3] == digit(minute / 10) && text[4] == digit(minute % 10));
    assert(text[6] == digit(rest / 10) && text[7] == digit(rest % 10));
}

/// The last update came in the second that contains the wall clock's reading less
/// the time that has passed since. It can be shown exactly where that instant lies
/// within the calendar.
pub proof fn the_update_lies_in_its_second(app: AppView, now: Moment, wall_nanos: int)
    ensures
        ({
            let passed = if now.nanos >= app.last_update.nanos {
                now.nanos - app.last_update.nanos
            } else {
                0
            };
            let second = update_second(app.last_update, now, wall_nanos);
            &&& second * 1_000_000_000 <= wall_nanos - passed < (second + 1) * 1_000_000_000
            &&& showable(app, now, wall_nanos) <==> -8_334_601_228_800 * 1_000_000_000
                <= wall_nanos - passed < 8_210_266_876_800 * 1_000_000_000
        }),
{
}

/// The line at the bottom names the time, then the setting in words of one length,
/// then the keys.
pub proof fn the_help_names_time_setting_and_keys(second: int, auto_refresh: bool)
    ensures
        ({
            let help = help_text(second, auto_refresh);
            &&& help.len() > 41
            &&& help.subrange(0, 13) == "Last Update: "@
            &&& help.subrange(13, 21) == time_text(second)
            &&& help.subrange(21, 38) == " | Auto-refresh: "@
            &&& auto_refresh ==> help.subrange(38, 41) == "ON "@
            &&& !auto_refresh ==> help.subrange(38, 41) == "OFF"@
            &&& help.skip(41)
                == " || q/ESC: Quit | ↑↓/jk: Navigate | r: Refresh | Space: Toggle auto-refresh | s: Start/Stop | x: Remove stopped"@
        }),
{
    reveal_strlit("Last Update: ");
    reveal_strlit(" | Auto-refresh: ");
    reveal_strlit("ON ");
    reveal_strlit("OFF");
    reveal_strlit(
        " || q/ESC: Quit | ↑↓/jk: Navigate | r: Refresh | Space: Toggle auto-refresh | s: Start/Stop | x: Remove stopped",
    );
    times_are_hours_minutes_and_seconds(second);
    let help = help_text(second, auto_refresh);
    assert(help.subrange(0, 13) =~= "Last Update: "@);
    assert(help.subrange(13, 21) =~= time_text(second));
    assert(help.subrange(21, 38) =~= " | Auto-refresh: "@);
    if auto_refresh {
        assert(help.subrange(38, 41) =~= "ON "@);
    } else {
        assert(help.subrange(38, 41) =~= "OFF"@);
    }
    assert(help.skip(41)
        =~= " || q/ESC: Quit | ↑↓/jk: Navigate | r: Refresh | Space: Toggle auto-refresh | s: Start/Stop | x: Remove stopped"@);
}

/// The help on the screen is that of the monitor's last update and its setting.
pub proof fn the_help_is_that_of_the_monitor(
    app: AppView,
    now: Moment,
    wall_nanos: int,
    second: int,
)
    requires
        now.nanos >= app.last_update.nanos,
        second * 1_000_000_000 <= wall_nanos - (now.nanos - app.last_update.nanos) < (second + 1)
            * 1_000_000_000,
    ensures
        screen_of(app, now, wall_nanos).help == help_text(second, app.auto_refresh),
{
    the_update_lies_in_its_second(app, now, wall_nanos);
}

} // verus!
