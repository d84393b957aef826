//! The collector in the background, as a state machine: it is told what
//! happened, and says what to do next.

use vstd::prelude::*;

use crate::clock::Moment;
use crate::container::ContainerInfo;
use crate::monitor::{AppMessage, BackgroundCommand};
#[allow(unused_imports)]
use crate::container::{info_views, ContainerInfoView};
#[allow(unused_imports)]
use crate::monitor::MessageView;

verus! {

/// The time between two looks at the clock, in milliseconds.
pub const TICK_MILLIS: u64 = 100;

/// The least time between two refreshes that the collector starts on its own,
/// in nanoseconds.
pub const REFRESH_INTERVAL: u128 = 1_000_000_000;

/// What the collector is busy with.
#[derive(Clone, Copy, Debug, PartialEq, Eq, Structural)]
pub enum Phase {
    /// It connects to the daemon.
    Connecting,
    /// It gathers the containers, for the first time or again.
    Fetching { first: bool },
    /// It sends what it gathered.
    Reporting { first: bool },
    /// It waits for a command, the signal to shut down, or the next tick.
    Waiting,
    /// It sends its last message.
    Closing,
    /// It is done.
    Stopped,
}

/// The state of the collector.
#[derive(Clone, Copy, Debug, PartialEq, Eq, Structural)]
pub struct Collector {
    pub phase: Phase,
    pub auto_refresh: bool,
    pub last_refresh: Moment,
}

/// What happened.
#[derive(Debug)]
pub enum Event {
    /// The daemon is there.
    Connected,
    /// The daemon cannot be reached, with the reason.
    ConnectFailed(String),
    /// The containers were gathered, or the reason why not is known.
    Fetched(Result<Vec<ContainerInfo>, String>),
    /// A message was sent, and reached the monitor or did not.
    Sent { delivered: bool, at: Moment },
    /// The signal to shut down came.
    ShutdownSignal,
    /// A command came, or no further one can come.
    Command(Option<BackgroundCommand>),
    /// The clock was looked at.
    Tick(Moment),
}

/// The value of an [`Event`].
pub enum EventView {
    Connected,
    ConnectFailed(Seq<char>),
    Fetched(Result<Seq<ContainerInfoView>, Seq<char>>),
    Sent { delivered: bool, at: Moment },
    ShutdownSignal,
    Command(Option<BackgroundCommand>),
    Tick(Moment),
}

impl View for Event {
    type V = EventView;

    open spec fn view(&self) -> EventView {
        match self {
            Event::Connected => EventView::Connected,
            Event::ConnectFailed(reason) => EventView::ConnectFailed(reason@),
            Event::Fetched(Ok(list)) => EventView::Fetched(Ok(info_views(list@))),
            Event::Fetched(Err(reason)) => EventView::Fetched(Err(reason@)),
            Event::Sent { delivered, at } => EventView::Sent { delivered: *delivered, at: *at },
            Event::ShutdownSignal => EventView::ShutdownSignal,
            Event::Command(command) => EventView::Command(*command),
            Event::Tick(now) => EventView::Tick(*now),
        }
    }
}

/// What to do next.
#[derive(Debug)]
pub enum Action {
    /// Gather the containers.
    Fetch,
    /// Send a message to the monitor.
    Send(AppMessage),
    /// Nothing until something happens.
    Wait,
    /// Leave the task.
    Stop,
}

/// The value of an [`Action`].
pub enum ActionView {
    Fetch,
    Send(MessageView),
    Wait,
    Stop,
}

impl View for Action {
    type V = ActionView;

    open spec fn view(&self) -> ActionView {
        match self {
            Action::Fetch => ActionView::Fetch,
            Action::Send(message) => ActionView::Send(message@),
            Action::Wait => ActionView::Wait,
            Action::Stop => ActionView::Stop,
        }
    }
}

/// The message about what was gathered.
pub open spec fn report(result: Result<Seq<ContainerInfoView>, Seq<char>>) -> MessageView {
    match result {
        Ok(list) => MessageView::ContainerData(list),
        Err(reason) => MessageView::Error("Error: "@ + reason),
    }
}

impl Collector {
    /// Whether a refresh is due at a tick.
    pub open spec fn due(self, now: Moment) -> bool {
        self.auto_refresh && now.since(self.last_refresh) >= REFRESH_INTERVAL
    }

    /// Whether what happened is something that the phase waits for.
    pub open spec fn expects(self, event: EventView) -> bool {
        match self.phase {
            Phase::Connecting => event is Connected || event is ConnectFailed,
            Phase::Fetching { .. } => event is Fetched,
            Phase::Reporting { .. } => event is Sent,
            Phase::Waiting => event is ShutdownSignal || event is Command || event is Tick,
            Phase::Closing => event is Sent,
            Phase::Stopped => false,
        }
    }

    /// The collector in another phase.
    pub open spec fn into_phase(self, phase: Phase) -> Collector {
        Collector { phase, ..self }
    }

    /// The collector after what happened. What the phase does not wait for
    /// changes nothing.
    pub open spec fn after(self, event: EventView) -> Collector {
        if !self.expects(event) {
            self
        } else {
            match event {
                EventView::Connected => self.into_phase(Phase::Fetching { first: true }),
                EventView::ConnectFailed(_) => self.into_phase(Phase::Closing),
                EventView::Fetched(_) => self.into_phase(
                    Phase::Reporting { first: self.phase->Fetching_first },
                ),
                EventView::Sent { delivered, at } => match self.phase {
                    Phase::Reporting { first } => if first || delivered {
                        Collector { phase: Phase::Waiting, last_refresh: at, ..self }
                    } else {
                        self.into_phase(Phase::Stopped)
                    },
                    _ => self.into_phase(Phase::Stopped),
                },
                EventView::ShutdownSignal => self.into_phase(Phase::Closing),
                EventView::Command(Some(BackgroundCommand::SetAutoRefresh(enabled))) => Collector {
                    auto_refresh: enabled,
                    ..self
                },
                EventView::Command(Some(BackgroundCommand::ForceRefresh)) => self.into_phase(
                    Phase::Fetching { first: false },
                ),
                EventView::Command(_) => self.into_phase(Phase::Closing),
                EventView::Tick(now) => if self.due(now) {
                    self.into_phase(Phase::Fetching { first: false })
                } else {
                    self
                },
            }
        }
    }

    /// What the collector asks for after what happened.
    pub open spec fn asks(self, event: EventView) -> ActionView {
        if !self.expects(event) {
            ActionView::Wait
        } else {
            match event {
                EventView::Connected => ActionView::Fetch,
                EventView::ConnectFailed(reason) => ActionView::Send(
                    MessageView::Error("Failed to connect to Docker: "@ + reason),
                ),
                EventView::Fetched(result) => ActionView::Send(report(result)),
                EventView::Sent { .. } => if self.after(event).phase is Stopped {
                    ActionView::Stop
                } else {
                    ActionView::Wait
                },
                EventView::ShutdownSignal => ActionView::Send(MessageView::Shutdown),
                EventView::Command(Some(BackgroundCommand::SetAutoRefresh(_))) => ActionView::Wait,
                EventView::Command(Some(BackgroundCommand::ForceRefresh)) => ActionView::Fetch,
                EventView::Command(_) => ActionView::Send(MessageView::Shutdown),
                EventView::Tick(now) => if self.due(now) {
                    ActionView::Fetch
                } else {
                    ActionView::Wait
                },
            }
        }
    }

    /// A collector that is about to connect, with auto-refresh on.
    pub fn new(now: Moment) -> (r: Collector)
        ensures
            r == (Collector { phase: Phase::Connecting, auto_refresh: true, last_refresh: now }),
    {
        Collector { phase: Phase::Connecting, auto_refresh: true, last_refresh: now }
    }

    /// Takes what happened, and says what to do next.
    pub fn step(&mut self, event: Event) -> (r: Action)
        ensures
            *final(self) == old(self).after(event@),
            r@ == old(self).asks(event@),
    {
        match (self.phase, event) {
            (Phase::Connecting, Event::Connected) => {
                self.phase = Phase::Fetching { first: true };
                Action::Fetch
            },
            (Phase::Connecting, Event::ConnectFailed(reason)) => {
                self.phase = Phase::Closing;
                let mut text = "Failed to connect to Docker: ".to_owned();
                text.append(reason.as_str());
                Action::Send(AppMessage::Error(text))
            },
            (Phase::Fetching { first }, Event::Fetched(result)) => {
                self.phase = Phase::Reporting { first };
                match result {
                    Ok(containers) => Action::Send(AppMessage::ContainerData(containers)),
                    Err(reason) => {
                        let mut text = "Error: ".to_owned();
                        text.append(reason.as_str());
                        Action::Send(AppMessage::Error(text))
                    },
                }
            },
            (Phase::Reporting { first }, Event::Sent { delivered, at }) => {
                if first || delivered {
                    self.phase = Phase::Waiting;
                    self.last_refresh = at;
                    Action::Wait
                } else {
                    self.phase = Phase::Stopped;
                    Action::Stop
                }
            },
            (Phase::Waiting, Event::ShutdownSignal) => {
                self.phase = Phase::Closing;
                Action::Send(AppMessage::Shutdown)
            },
            (Phase::Waiting, Event::Command(command)) => match command {
                Some(BackgroundCommand::SetAutoRefresh(enabled)) => {
                    self.auto_refresh = enabled;
                    Action::Wait
                },
                Some(BackgroundCommand::ForceRefresh) => {
                    self.phase = Phase::Fetching { first: false };
                    Action::Fetch
                },
                Some(BackgroundCommand::Shutdown) | None => {
                    self.phase = Phase::Closing;
                    Action::Send(AppMessage::Shutdown)
                },
            },
            (Phase::Waiting, Event::Tick(now)) => {
                if self.auto_refresh && now.elapsed_since(self.last_refresh) >= REFRESH_INTERVAL {
                    self.phase = Phase::Fetching { first: false };
                    Action::Fetch
                } else {
                    Action::Wait
                }
            },
            (Phase::Closing, Event::Sent { .. }) => {
                self.phase = Phase::Stopped;
                Action::Stop
            },
            _ => Action::Wait,
        }
    }
}

/// The collector after a number of events.
pub open spec fn after_all(collector: Collector, events: Seq<EventView>) -> Collector
    decreases events.len(),
{
    if events.len() == 0 {
        collector
    } else {
        after_all(collector, events.drop_last()).after(events.last())
    }
}

/// A collector that has stopped stays as it is and asks for nothing, whatever
/// happens.
pub proof fn stopped_is_final(collector: Collector, events: Seq<EventView>, event: EventView)
    requires
        collector.phase is Stopped,
    ensures
        after_all(collector, events) == collector,
        after_all(collector, events).asks(event) is Wait,
    decreases events.len(),
{
    if events.len() > 0 {
        stopped_is_final(collector, events.drop_last(), events.last());
    }
}

/// A refresh, once begun, sends exactly one message about what was gathered.
/// If the message arrives the collector waits again, with its settings and the
/// time of the refresh; if it does not, the collector stops.
pub proof fn a_refresh_reports_once(
    collector: Collector,
    result: Result<Seq<ContainerInfoView>, Seq<char>>,
    at: Moment,
)
    requires
        collector.phase == (Phase::Fetching { first: false }),
    ensures
        ({
            let fetched = EventView::Fetched(result);
            let reporting = collector.after(fetched);
            let arrived = EventView::Sent { delivered: true, at };
            let lost = EventView::Sent { delivered: false, at };
            &&& collector.asks(fetched) == ActionView::Send(report(result))
            &&& reporting.asks(arrived) is Wait
            &&& reporting.after(arrived) == (Collector {
                phase: Phase::Waiting,
                last_refresh: at,
                ..collector
            })
            &&& reporting.asks(lost) is Stop
            &&& reporting.after(lost).phase is Stopped
        }),
{
}

/// The first report is followed by waiting whether or not it arrives.
pub proof fn the_first_report_may_be_lost(
    collector: Collector,
    result: Result<Seq<ContainerInfoView>, Seq<char>>,
    delivered: bool,
    at: Moment,
)
    requires
        collector.phase == (Phase::Fetching { first: true }),
    ensures
        collector.asks(EventView::Fetched(result)) == ActionView::Send(report(result)),
        collector.after(EventView::Fetched(result)).after(EventView::Sent { delivered, at }) == (
        Collector { phase: Phase::Waiting, last_refresh: at, ..collector }),
{
}

/// A waiting collector refreshes on its own only while auto-refresh is on and
/// at least the refresh interval after the last refresh; told to refresh, it
/// does so in any case.
pub proof fn refreshes_are_commanded_or_due(collector: Collector, event: EventView)
    requires
        collector.phase is Waiting,
    ensures
        collector.asks(event) is Fetch <==> (event == EventView::Command(
            Some(BackgroundCommand::ForceRefresh),
        ) || (event matches EventView::Tick(now) && collector.auto_refresh && now.nanos
            >= collector.last_refresh.nanos + REFRESH_INTERVAL)),
{
}

/// The signal, the command and the end of commands all end a waiting collector
/// in the same way: one last message, and then it stops, whether or not the
/// message arrives.
pub proof fn shutdown_says_goodbye(
    collector: Collector,
    event: EventView,
    delivered: bool,
    at: Moment,
)
    requires
        collector.phase is Waiting,
        event is ShutdownSignal || event == EventView::Command(None) || event
            == EventView::Command(Some(BackgroundCommand::Shutdown)),
    ensures
        collector.asks(event) == ActionView::Send(MessageView::Shutdown),
        collector.after(event).asks(EventView::Sent { delivered, at }) is Stop,
        collector.after(event).after(EventView::Sent { delivered, at }).phase is Stopped,
{
}

/// A daemon that cannot be reached is reported, and the collector stops without
/// gathering anything.
pub proof fn failed_connection_is_reported(
    collector: Collector,
    reason: Seq<char>,
    delivered: bool,
    at: Moment,
)
    requires
        collector.phase is Connecting,
    ensures
        ({
            let failed = EventView::ConnectFailed(reason);
            let sent = EventView::Sent { delivered, at };
            &&& collector.asks(failed) == ActionView::Send(
                MessageView::Error("Failed to connect to Docker: "@ + reason),
            )
            &&& collector.after(failed).asks(sent) is Stop
            &&& collector.after(failed).after(sent).phase is Stopped
        }),
{
}

/// Only the command to do so changes the auto-refresh setting.
pub proof fn only_commands_switch_auto_refresh(collector: Collector, event: EventView)
    ensures
        collector.after(event).auto_refresh != collector.auto_refresh ==> event
            == EventView::Command(
            Some(BackgroundCommand::SetAutoRefresh(!collector.auto_refresh)),
        ),
{
}

/// Once the collector sends its last message it gathers and sends nothing more,
/// whatever happens.
pub proof fn nothing_follows_the_last_message(
    collector: Collector,
    events: Seq<EventView>,
    event: EventView,
)
    requires
        collector.phase is Closing,
    ensures
        after_all(collector, events).phase is Closing || after_all(collector, events).phase is Stopped,
        after_all(collector, events).asks(event) is Wait || after_all(collector, events).asks(
            event,
        ) is Stop,
    decreases events.len(),
{
    if events.len() > 0 {
        nothing_follows_the_last_message(collector, events.drop_last(), events.last());
    }
}

/// What happened and what to do are viewed with all that they carry. The clock is
/// looked at every tenth of a second, and refreshes are a second apart.
pub proof fn events_and_actions_are_viewed_whole(event: Event, action: Action)
    ensures
        event is Connected ==> event@ is Connected,
        event matches Event::ConnectFailed(reason) ==> event@ == EventView::ConnectFailed(reason@),
        event matches Event::Fetched(Ok(list)) ==> event@ == EventView::Fetched(
            Ok(info_views(list@)),
        ),
        event matches Event::Fetched(Err(reason)) ==> event@ == EventView::Fetched(Err(reason@)),
        event matches Event::Sent { delivered, at } ==> event@ == (EventView::Sent {
            delivered,
            at,
        }),
        event is ShutdownSignal ==> event@ is ShutdownSignal,
        event matches Event::Command(command) ==> event@ == EventView::Command(command),
        event matches Event::Tick(now) ==> event@ == EventView::Tick(now),
        action is Fetch ==> action@ is Fetch,
        action matches Action::Send(message) ==> action@ == ActionView::Send(message@),
        action is Wait ==> action@ is Wait,
        action is Stop ==> action@ is Stop,
        TICK_MILLIS == 100,
        REFRESH_INTERVAL == 1_000_000_000,
{
}

/// A gathering collector sends the very lines that were gathered, all of them, or
/// the reason why there are none behind a fixed beginning; then it reports, with
/// its settings unchanged.
pub proof fn gathered_lines_are_sent_as_they_are(
    collector: Collector,
    list: Seq<ContainerInfoView>,
    reason: Seq<char>,
)
    requires
        collector.phase is Fetching,
    ensures
        collector.asks(EventView::Fetched(Ok(list))) == ActionView::Send(
            MessageView::ContainerData(list),
        ),
        collector.asks(EventView::Fetched(Err(reason))) == ActionView::Send(
            MessageView::Error("Error: "@ + reason),
        ),
        ({
            let reporting = collector.after(EventView::Fetched(Ok(list)));
            &&& reporting == collector.after(EventView::Fetched(Err(reason)))
            &&& reporting.phase is Reporting
            &&& reporting.phase->Reporting_first == collector.phase->Fetching_first
            &&& reporting.auto_refresh == collector.auto_refresh
            &&& reporting.last_refresh == collector.last_refresh
        }),
{
}

/// The lines that the collector got from the daemon are, value by value, those
/// of the message that it sends.
pub proof fn the_message_holds_every_gathered_line(
    collector: Collector,
    list: Vec<ContainerInfo>,
    i: int,
)
    requires
        collector.phase is Fetching,
        0 <= i < list@.len(),
    ensures
        collector.asks(Event::Fetched(Ok(list))@) matches ActionView::Send(
            MessageView::ContainerData(sent),
        ) && sent.len() == list@.len() && sent[i] == list@[i]@,
{
}

/// A connecting collector gathers as soon as the daemon is there, for the first
/// time; where the daemon cannot be reached it sends the reason and closes.
pub proof fn connecting_leads_to_gathering(collector: Collector, reason: Seq<char>)
    requires
        collector.phase is Connecting,
    ensures
        collector.asks(EventView::Connected) is Fetch,
        collector.after(EventView::Connected) == (Collector {
            phase: Phase::Fetching { first: true },
            auto_refresh: collector.auto_refresh,
            last_refresh: collector.last_refresh,
        }),
        collector.asks(EventView::ConnectFailed(reason)) == ActionView::Send(
            MessageView::Error("Failed to connect to Docker: "@ + reason),
        ),
        collector.after(EventView::ConnectFailed(reason)) == (Collector {
            phase: Phase::Closing,
            auto_refresh: collector.auto_refresh,
            last_refresh: collector.last_refresh,
        }),
{
}

/// After a report the collector waits, and counts the next interval from the
/// moment of sending. Only a report that is not the first and did not arrive
/// stops it. After the last message it stops in any case.
pub proof fn sending_leads_to_waiting(collector: Collector, first: bool, delivered: bool, at: Moment)
    ensures
        ({
            let sent = EventView::Sent { delivered, at };
            &&& collector.phase == (Phase::Reporting { first }) && (first || delivered) ==> {
                &&& collector.asks(sent) is Wait
                &&& collector.after(sent).phase is Waiting
                &&& collector.after(sent).last_refresh == at
                &&& collector.after(sent).auto_refresh == collector.auto_refresh
            }
            &&& collector.phase == (Phase::Reporting { first }) && !first && !delivered ==> {
                &&& collector.asks(sent) is Stop
                &&& collector.after(sent).phase is Stopped
            }
            &&& collector.phase is Closing ==> {
                &&& collector.asks(sent) is Stop
                &&& collector.after(sent).phase is Stopped
            }
        }),
{
}

/// A waiting collector keeps each new setting, gathers when it is told to, and at
/// a tick exactly where auto-refresh is on and at least a second has passed since
/// the last refresh; otherwise the tick changes nothing.
pub proof fn waiting_follows_commands_and_ticks(collector: Collector, enabled: bool, now: Moment)
    requires
        collector.phase is Waiting,
    ensures
        ({
            let set = EventView::Command(Some(BackgroundCommand::SetAutoRefresh(enabled)));
            &&& collector.asks(set) is Wait
            &&& collector.after(set).phase is Waiting
            &&& collector.after(set).auto_refresh == enabled
            &&& collector.after(set).last_refresh == collector.last_refresh
        }),
        ({
            let force = EventView::Command(Some(BackgroundCommand::ForceRefresh));
            &&& collector.asks(force) is Fetch
            &&& collector.after(force).phase == (Phase::Fetching { first: false })
            &&& collector.after(force).auto_refresh == collector.auto_refresh
        }),
        ({
            let tick = EventView::Tick(now);
            if collector.auto_refresh && now.nanos >= collector.last_refresh.nanos + 1_000_000_000 {
                &&& collector.asks(tick) is Fetch
                &&& collector.after(tick).phase == (Phase::Fetching { first: false })
                &&& collector.after(tick).auto_refresh
            } else {
                &&& collector.asks(tick) is Wait
                &&& collector.after(tick) == collector
            }
        }),
{
}

/// The signal, the command and the end of commands close a waiting collector,
/// each with the one message that says so.
pub proof fn waiting_ends_with_a_shutdown(collector: Collector)
    requires
        collector.phase is Waiting,
    ensures
        collector.asks(EventView::ShutdownSignal) == ActionView::Send(MessageView::Shutdown),
        collector.after(EventView::ShutdownSignal).phase is Closing,
        collector.asks(EventView::Command(None)) == ActionView::Send(MessageView::Shutdown),
        collector.after(EventView::Command(None)).phase is Closing,
        ({
            let told = EventView::Command(Some(BackgroundCommand::Shutdown));
            &&& collector.asks(told) == ActionView::Send(MessageView::Shutdown)
            &&& collector.after(told).phase is Closing
        }),
{
}

/// What a phase does not wait for changes nothing and asks for nothing.
pub proof fn what_is_not_awaited_changes_nothing(collector: Collector, event: EventView)
    requires
        event is Connected || event is ConnectFailed ==> !(collector.phase is Connecting),
        event is Fetched ==> !(collector.phase is Fetching),
        event is Sent ==> !(collector.phase is Reporting) && !(collector.phase is Closing),
        event is ShutdownSignal || event is Command || event is Tick ==> !(
        collector.phase is Waiting),
    ensures
        collector.after(event) == collector,
        collector.asks(event) is Wait,
{
}

} // verus!
