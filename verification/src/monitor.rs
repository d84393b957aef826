//! The monitor itself: what it knows, which line is selected, and what keys
//! and messages do to it.

use std::collections::VecDeque;

use vstd::prelude::*;

use crate::clock::Moment;
use crate::container::ContainerInfo;
use crate::text::is_text;
#[allow(unused_imports)]
use crate::container::{info_views, ContainerInfoView};

verus! {

/// How long a look at the keyboard waits, in milliseconds.
pub const POLL_MILLIS: u64 = 32;

/// Whether a container that runs may be removed.
pub const REMOVE_FORCED: bool = false;

/// Whether the anonymous volumes of a container are removed with it.
pub const REMOVE_VOLUMES: bool = true;

/// Whether only the link is removed.
pub const REMOVE_LINK: bool = false;

/// A message to the monitor.
#[derive(Clone, Debug)]
pub enum AppMessage {
    ContainerData(Vec<ContainerInfo>),
    Error(String),
    Shutdown,
}

/// The value of an [`AppMessage`].
pub enum MessageView {
    ContainerData(Seq<ContainerInfoView>),
    Error(Seq<char>),
    Shutdown,
}

impl View for AppMessage {
    type V = MessageView;

    open spec fn view(&self) -> MessageView {
        match self {
            AppMessage::ContainerData(list) => MessageView::ContainerData(info_views(list@)),
            AppMessage::Error(reason) => MessageView::Error(reason@),
            AppMessage::Shutdown => MessageView::Shutdown,
        }
    }
}

/// A command to the collector in the background.
#[derive(Clone, Copy, Debug, PartialEq, Eq, Structural)]
pub enum BackgroundCommand {
    SetAutoRefresh(bool),
    ForceRefresh,
    Shutdown,
}

/// A key that was pressed.
#[derive(Clone, Copy, Debug, PartialEq, Eq, Structural)]
pub enum Key {
    Char(char),
    Esc,
    Up,
    Down,
    Other,
}

/// What is to be done after a key.
#[derive(Clone, Debug)]
pub enum KeyAction {
    /// Leave the monitor.
    Quit,
    /// Nothing beyond drawing.
    Draw,
    /// Send a command to the collector.
    Send(BackgroundCommand),
    /// Start the container with this id.
    Start(String),
    /// Stop the container with this id.
    Stop(String),
    /// Remove the container with this id.
    Remove(String),
}

/// The value of a [`KeyAction`].
pub enum KeyActionView {
    Quit,
    Draw,
    Send(BackgroundCommand),
    Start(Seq<char>),
    Stop(Seq<char>),
    Remove(Seq<char>),
}

impl View for KeyAction {
    type V = KeyActionView;

    open spec fn view(&self) -> KeyActionView {
        match self {
            KeyAction::Quit => KeyActionView::Quit,
            KeyAction::Draw => KeyActionView::Draw,
            KeyAction::Send(command) => KeyActionView::Send(*command),
            KeyAction::Start(id) => KeyActionView::Start(id@),
            KeyAction::Stop(id) => KeyActionView::Stop(id@),
            KeyAction::Remove(id) => KeyActionView::Remove(id@),
        }
    }
}

/// The state of the monitor.
pub struct App {
    containers: Vec<ContainerInfo>,
    selected_index: usize,
    last_update: Moment,
    error_message: Option<String>,
    auto_refresh: bool,
}

/// The value of an [`App`].
pub struct AppView {
    pub containers: Seq<ContainerInfoView>,
    pub selected_index: nat,
    pub last_update: Moment,
    pub error_message: Option<Seq<char>>,
    pub auto_refresh: bool,
}

impl View for App {
    type V = AppView;

    closed spec fn view(&self) -> AppView {
        AppView {
            containers: info_views(self.containers@),
            selected_index: self.selected_index as nat,
            last_update: self.last_update,
            error_message: match self.error_message {
                Some(reason) => Some(reason@),
                None => None,
            },
            auto_refresh: self.auto_refresh,
        }
    }
}

impl AppView {
    /// The selection is one of the lines, unless there is none.
    pub open spec fn valid(self) -> bool {
        self.containers.len() > 0 ==> self.selected_index < self.containers.len()
    }

    /// A monitor that was just opened.
    pub open spec fn opened(now: Moment) -> AppView {
        AppView {
            containers: Seq::empty(),
            selected_index: 0,
            last_update: now,
            error_message: None,
            auto_refresh: true,
        }
    }

    /// The selected line, where there is one.
    pub open spec fn selected(self) -> Option<ContainerInfoView> {
        if self.selected_index < self.containers.len() {
            Some(self.containers[self.selected_index as int])
        } else {
            None
        }
    }

    /// The selection one line down, from the last line to the first.
    pub open spec fn moved_down(self) -> AppView {
        if self.containers.len() > 0 {
            AppView {
                selected_index: (self.selected_index + 1) % self.containers.len(),
                ..self
            }
        } else {
            self
        }
    }

    /// The selection one line up, from the first line to the last.
    pub open spec fn moved_up(self) -> AppView {
        if self.containers.len() > 0 {
            AppView {
                selected_index: (if self.selected_index > 0 {
                    self.selected_index - 1
                } else {
                    self.containers.len() - 1
                }) as nat,
                ..self
            }
        } else {
            self
        }
    }

    /// Auto-refresh switched over.
    pub open spec fn toggled(self) -> AppView {
        AppView { auto_refresh: !self.auto_refresh, ..self }
    }

    /// The monitor after a message. New lines clear the error, and pull the
    /// selection back to the last line where it would lie behind it; an error
    /// leaves the lines as they are.
    pub open spec fn told(self, message: MessageView, now: Moment) -> AppView {
        match message {
            MessageView::ContainerData(list) => AppView {
                containers: list,
                selected_index: if self.selected_index >= list.len() && list.len() > 0 {
                    (list.len() - 1) as nat
                } else {
                    self.selected_index
                },
                last_update: now,
                error_message: None,
                auto_refresh: self.auto_refresh,
            },
            MessageView::Error(reason) => AppView {
                last_update: now,
                error_message: Some(reason),
                ..self
            },
            MessageView::Shutdown => self,
        }
    }

    /// The monitor after a key.
    pub open spec fn keyed(self, key: Key) -> AppView {
        match key {
            Key::Down => self.moved_down(),
            Key::Char('j') => self.moved_down(),
            Key::Up => self.moved_up(),
            Key::Char('k') => self.moved_up(),
            Key::Char(' ') => self.toggled(),
            _ => self,
        }
    }

    /// What a key asks for. A container is stopped where it runs and started
    /// where it does not; it is removed only where it does not run.
    pub open spec fn asked(self, key: Key) -> KeyActionView {
        match key {
            Key::Esc => KeyActionView::Quit,
            Key::Char('q') => KeyActionView::Quit,
            Key::Char('r') => KeyActionView::Send(BackgroundCommand::ForceRefresh),
            Key::Char(' ') => KeyActionView::Send(
                BackgroundCommand::SetAutoRefresh(!self.auto_refresh),
            ),
            Key::Char('s') => match self.selected() {
                Some(line) => if line.state == "running"@ {
                    KeyActionView::Stop(line.id)
                } else {
                    KeyActionView::Start(line.id)
                },
                None => KeyActionView::Draw,
            },
            Key::Char('x') => match self.selected() {
                Some(line) => if line.state != "running"@ {
                    KeyActionView::Remove(line.id)
                } else {
                    KeyActionView::Draw
                },
                None => KeyActionView::Draw,
            },
            _ => KeyActionView::Draw,
        }
    }
}

/// The values of a queue of messages.
pub open spec fn message_views(queue: Seq<AppMessage>) -> Seq<MessageView> {
    queue.map_values(|m: AppMessage| m@)
}

/// How many messages wait before the first shutdown; all of them where there
/// is none.
pub open spec fn before_shutdown(queue: Seq<MessageView>) -> nat
    decreases queue.len(),
{
    if queue.len() == 0 || queue[0] is Shutdown {
        0
    } else {
        1 + before_shutdown(queue.drop_first())
    }
}

/// The monitor after all of the messages, one after the other.
pub open spec fn told_each(app: AppView, queue: Seq<MessageView>, now: Moment) -> AppView
    decreases queue.len(),
{
    if queue.len() == 0 {
        app
    } else {
        told_each(app, queue.drop_last(), now).told(queue.last(), now)
    }
}

/// The monitor after it took the waiting messages: those before the first
/// shutdown have their effect.
pub open spec fn told_queue(app: AppView, queue: Seq<MessageView>, now: Moment) -> AppView {
    told_each(app, queue.take(before_shutdown(queue) as int), now)
}

/// How many of the waiting messages are taken: those before the first shutdown
/// and the shutdown itself.
pub open spec fn taken(queue: Seq<MessageView>) -> nat {
    if before_shutdown(queue) < queue.len() {
        before_shutdown(queue) + 1
    } else {
        queue.len()
    }
}

/// Whether no message is a shutdown.
pub open spec fn without_shutdown(queue: Seq<MessageView>) -> bool {
    forall|i: int| 0 <= i < queue.len() ==> !((#[trigger] queue[i]) is Shutdown)
}

proof fn before_shutdown_counts(queue: Seq<MessageView>, k: int)
    requires
        0 <= k <= queue.len(),
        without_shutdown(queue.take(k)),
    ensures
        before_shutdown(queue) >= k,
        k < queue.len() && queue[k] is Shutdown ==> before_shutdown(queue) == k,
        k == queue.len() ==> before_shutdown(queue) == k,
    decreases queue.len(),
{
    if queue.len() > 0 && k > 0 {
        let rest = queue.drop_first();
        assert(queue.take(k)[0] == queue[0]);
        assert forall|i: int| 0 <= i < k - 1 implies !((#[trigger] rest.take(k - 1)[i]) is Shutdown) by {
            assert(queue.take(k)[i + 1] == rest.take(k - 1)[i]);
        }
        before_shutdown_counts(rest, k - 1);
        if k < queue.len() {
            assert(rest[k - 1] == queue[k]);
        }
    }
    before_shutdown_is_within(queue);
}

proof fn before_shutdown_is_within(queue: Seq<MessageView>)
    ensures
        before_shutdown(queue) <= queue.len(),
    decreases queue.len(),
{
    if queue.len() > 0 && !(queue[0] is Shutdown) {
        before_shutdown_is_within(queue.drop_first());
    }
}

impl App {
    #[verifier::type_invariant]
    spec fn selection_in_range(self) -> bool {
        self.containers@.len() > 0 ==> self.selected_index < self.containers@.len()
    }

    /// A monitor without lines, with auto-refresh on.
    pub fn new(now: Moment) -> (r: App)
        ensures
            r@ == AppView::opened(now),
            r@.valid(),
    {
        let r = App {
            containers: Vec::new(),
            selected_index: 0,
            last_update: now,
            error_message: None,
            auto_refresh: true,
        };
        assert(r@.containers =~= Seq::empty());
        r
    }

    /// The lines.
    pub fn containers(&self) -> (r: &Vec<ContainerInfo>)
        ensures
            info_views(r@) == self@.containers,
    {
        &self.containers
    }

    /// The index of the selected line.
    pub fn selected_index(&self) -> (r: usize)
        ensures
            r == self@.selected_index,
            self@.valid(),
    {
        proof {
            use_type_invariant(self);
        }
        self.selected_index
    }

    /// When the last message came.
    pub fn last_update(&self) -> (r: Moment)
        ensures
            r == self@.last_update,
    {
        self.last_update
    }

    /// The last error, unless lines came after it.
    pub fn error_message(&self) -> (r: &Option<String>)
        ensures
            match *r {
                Some(reason) => self@.error_message == Some(reason@),
                None => self@.error_message is None,
            },
    {
        &self.error_message
    }

    /// Whether the collector refreshes on its own.
    pub fn auto_refresh(&self) -> (r: bool)
        ensures
            r == self@.auto_refresh,
    {
        self.auto_refresh
    }

    /// Selects the next line.
    pub fn next(&mut self)
        ensures
            final(self)@ == old(self)@.moved_down(),
            final(self)@.valid(),
    {
        proof {
            use_type_invariant(&*self);
        }
        if self.containers.len() > 0 {
            self.selected_index = (self.selected_index + 1) % self.containers.len();
        }
    }

    /// Selects the previous line.
    pub fn previous(&mut self)
        ensures
            final(self)@ == old(self)@.moved_up(),
            final(self)@.valid(),
    {
        proof {
            use_type_invariant(&*self);
        }
        if self.containers.len() > 0 {
            if self.selected_index > 0 {
                self.selected_index = self.selected_index - 1;
            } else {
                self.selected_index = self.containers.len() - 1;
            }
        }
    }

    /// Switches auto-refresh over, and gives the command that tells the
    /// collector.
    pub fn toggle_auto_refresh(&mut self) -> (r: BackgroundCommand)
        ensures
            final(self)@ == old(self)@.toggled(),
            final(self)@.valid(),
            r == BackgroundCommand::SetAutoRefresh(final(self)@.auto_refresh),
    {
        proof {
            use_type_invariant(&*self);
        }
        self.auto_refresh = !self.auto_refresh;
        BackgroundCommand::SetAutoRefresh(self.auto_refresh)
    }

    /// Gives the command for a refresh at once.
    pub fn force_refresh(&mut self) -> (r: BackgroundCommand)
        ensures
            *final(self) == *old(self),
            r == BackgroundCommand::ForceRefresh,
    {
        BackgroundCommand::ForceRefresh
    }

    /// Takes a message. The answer is whether further waiting messages are to
    /// be taken now.
    pub fn handle_message(&mut self, message: AppMessage, now: Moment) -> (r: bool)
        ensures
            final(self)@ == old(self)@.told(message@, now),
            final(self)@.valid(),
            r == !(message is Shutdown),
    {
        proof {
            use_type_invariant(&*self);
        }
        match message {
            AppMessage::ContainerData(containers) => {
                let selected_index = if self.selected_index >= containers.len()
                    && containers.len() > 0 {
                    containers.len() - 1
                } else {
                    self.selected_index
                };
                self.selected_index = 0;
                self.containers = containers;
                self.selected_index = selected_index;
                self.error_message = None;
                self.last_update = now;
                true
            },
            AppMessage::Error(error) => {
                self.error_message = Some(error);
                self.last_update = now;
                true
            },
            AppMessage::Shutdown => false,
        }
    }

    /// Takes the waiting messages up to and including the first shutdown, and
    /// leaves those behind it waiting. The answer is whether there was none.
    pub fn handle_messages(&mut self, queue: &mut VecDeque<AppMessage>, now: Moment) -> (r: bool)
        ensures
            final(self)@ == told_queue(old(self)@, message_views(old(queue)@), now),
            final(self)@.valid(),
            final(queue)@ == old(queue)@.skip(taken(message_views(old(queue)@)) as int),
            r == without_shutdown(message_views(old(queue)@)),
    {
        let ghost start = self@;
        let ghost waiting = queue@;
        let ghost views = message_views(waiting);
        let ghost mut done: int = 0;
        proof {
            use_type_invariant(&*self);
            assert(waiting.skip(0) =~= waiting);
            assert(views.take(0) =~= Seq::empty());
        }
        loop
            invariant
                start == old(self)@,
                waiting == old(queue)@,
                views == message_views(waiting),
                0 <= done <= waiting.len(),
                queue@ == waiting.skip(done),
                without_shutdown(views.take(done)),
                self@ == told_each(start, views.take(done), now),
                self@.valid(),
            decreases waiting.len() - done,
        {
            match queue.pop_front() {
                Some(message) => {
                    proof {
                        assert(queue@ =~= waiting.skip(done + 1));
                        assert(message == waiting[done]);
                        assert(views[done] == message@);
                        assert(views.take(done + 1).drop_last() =~= views.take(done));
                    }
                    if !self.handle_message(message, now) {
                        proof {
                            before_shutdown_counts(views, done);
                        }
                        return false;
                    }
                    proof {
                        assert forall|i: int| 0 <= i < done + 1 implies !((
                        #[trigger] views.take(done + 1)[i]) is Shutdown) by {
                            if i < done {
                                assert(views.take(done)[i] == views.take(done + 1)[i]);
                            }
                        }
                        done = done + 1;
                    }
                },
                None => {
                    proof {
                        before_shutdown_counts(views, done);
                        assert(views.take(done) =~= views);
                        assert(queue@ =~= waiting.skip(waiting.len() as int));
                    }
                    return true;
                },
            }
        }
    }

    /// Takes a key, and says what is to be done.
    pub fn handle_key(&mut self, key: Key) -> (r: KeyAction)
        ensures
            final(self)@ == old(self)@.keyed(key),
            final(self)@.valid(),
            r@ == old(self)@.asked(key),
    {
        proof {
            use_type_invariant(&*self);
        }
        match key {
            Key::Esc | Key::Char('q') => KeyAction::Quit,
            Key::Down | Key::Char('j') => {
                self.next();
                KeyAction::Draw
            },
            Key::Up | Key::Char('k') => {
                self.previous();
                KeyAction::Draw
            },
            Key::Char('r') => KeyAction::Send(self.force_refresh()),
            Key::Char(' ') => KeyAction::Send(self.toggle_auto_refresh()),
            Key::Char('s') => {
                if self.selected_index < self.containers.len() {
                    let container = &self.containers[self.selected_index];
                    assert(self@.selected() == Some(container@));
                    if is_text(&container.state, "running") {
                        KeyAction::Stop(container.id.clone())
                    } else {
                        KeyAction::Start(container.id.clone())
                    }
                } else {
                    KeyAction::Draw
                }
            },
            Key::Char('x') => {
                if self.selected_index < self.containers.len() {
                    let container = &self.containers[self.selected_index];
                    assert(self@.selected() == Some(container@));
                    if !is_text(&container.state, "running") {
                        KeyAction::Remove(container.id.clone())
                    } else {
                        KeyAction::Draw
                    }
                } else {
                    KeyAction::Draw
                }
            },
            _ => KeyAction::Draw,
        }
    }

    /// Closes the monitor, and gives the command that tells the collector.
    pub fn shutdown(self) -> (r: BackgroundCommand)
        ensures
            r == BackgroundCommand::Shutdown,
    {
        BackgroundCommand::Shutdown
    }
}

/// Messages and keys keep the selection within the lines.
pub proof fn selection_stays_in_range(app: AppView, message: MessageView, key: Key, now: Moment)
    requires
        app.valid(),
    ensures
        app.told(message, now).valid(),
        app.keyed(key).valid(),
{
}

/// Going down and then up, or up and then down, changes nothing.
pub proof fn up_undoes_down(app: AppView)
    requires
        app.valid(),
    ensures
        app.moved_down().moved_up() == app,
        app.moved_up().moved_down() == app,
{
    let len = app.containers.len();
    if len > 0 {
        let index = app.selected_index;
        if index + 1 < len {
            assert((index + 1) % len == index + 1) by (nonlinear_arith)
                requires
                    index + 1 < len,
            ;
        } else {
            assert((index + 1) % len == 0) by (nonlinear_arith)
                requires
                    index + 1 == len,
            ;
        }
        if index > 0 {
            assert((index - 1 + 1) % len as int == index) by (nonlinear_arith)
                requires
                    0 < index < len,
            ;
        } else {
            assert((len - 1 + 1) % len as int == 0) by (nonlinear_arith)
                requires
                    0 < len,
            ;
        }
    }
}

/// Going down a number of times.
pub open spec fn moved_down_times(app: AppView, times: nat) -> AppView
    decreases times,
{
    if times == 0 {
        app
    } else {
        moved_down_times(app, (times - 1) as nat).moved_down()
    }
}

/// Going down moves the selection round the lines, and as many steps as there
/// are lines lead back to the start.
pub proof fn going_down_goes_round(app: AppView, times: nat)
    requires
        app.valid(),
        app.containers.len() > 0,
    ensures
        moved_down_times(app, times) == (AppView {
            selected_index: (app.selected_index + times) % app.containers.len(),
            ..app
        }),
        times == app.containers.len() ==> moved_down_times(app, times) == app,
    decreases times,
{
    let len = app.containers.len() as int;
    let index = app.selected_index as int;
    if times == 0 {
        vstd::arithmetic::div_mod::lemma_small_mod(app.selected_index, app.containers.len());
    } else {
        going_down_goes_round(app, (times - 1) as nat);
        vstd::arithmetic::div_mod::lemma_add_mod_noop_right(1, index + times - 1, len);
        let before = moved_down_times(app, (times - 1) as nat);
        assert(before.selected_index == (index + times - 1) % len);
        assert((1 + before.selected_index as int) % len == (index + times) % len);
    }
    if times == len {
        vstd::arithmetic::div_mod::lemma_mod_add_multiples_vanish(index, len);
        vstd::arithmetic::div_mod::lemma_small_mod(app.selected_index, app.containers.len());
    }
}

/// Going down reaches every line, in fewer steps than there are lines.
pub proof fn going_down_reaches_every_line(app: AppView, line: nat)
    requires
        app.valid(),
        line < app.containers.len(),
    ensures
        exists|times: nat|
            times < app.containers.len() && (#[trigger] moved_down_times(
                app,
                times,
            )).selected_index == line,
{
    let len = app.containers.len();
    let index = app.selected_index;
    let times = if line >= index {
        (line - index) as nat
    } else {
        (line + len - index) as nat
    };
    going_down_goes_round(app, times);
    if line < index {
        vstd::arithmetic::div_mod::lemma_mod_add_multiples_vanish(line as int, len as int);
    }
    vstd::arithmetic::div_mod::lemma_small_mod(line, len);
    assert(moved_down_times(app, times).selected_index == line);
}

/// Switching auto-refresh twice changes nothing.
pub proof fn toggling_twice_changes_nothing(app: AppView)
    ensures
        app.toggled().toggled() == app,
{
}

/// A container is stopped only while it runs, started or removed only while it
/// does not, and it is always the selected one.
pub proof fn actions_fit_the_selected_container(app: AppView, key: Key)
    ensures
        app.asked(key) matches KeyActionView::Stop(id) ==> app.selected() matches Some(line)
            && line.id == id && line.state == "running"@,
        app.asked(key) matches KeyActionView::Start(id) ==> app.selected() matches Some(line)
            && line.id == id && line.state != "running"@,
        app.asked(key) matches KeyActionView::Remove(id) ==> app.selected() matches Some(line)
            && line.id == id && line.state != "running"@,
{
}

/// Keys leave the lines, the error and the time of the last update alone; only
/// the navigation keys move the selection, only the space bar switches
/// auto-refresh, and the command that it sends carries the new setting.
pub proof fn keys_change_only_their_own(app: AppView, key: Key)
    ensures
        app.keyed(key).containers == app.containers,
        app.keyed(key).error_message == app.error_message,
        app.keyed(key).last_update == app.last_update,
        app.keyed(key).selected_index != app.selected_index ==> key == Key::Down || key == Key::Up
            || key == Key::Char('j') || key == Key::Char('k'),
        app.keyed(key).auto_refresh != app.auto_refresh <==> key == Key::Char(' '),
        app.asked(key) matches KeyActionView::Send(BackgroundCommand::SetAutoRefresh(on)) ==> on
            == app.keyed(key).auto_refresh,
{
}

/// A refresh that leaves the selected line within the list leaves the
/// selection where it is, and clears the error; an error keeps the lines and
/// the selection.
pub proof fn refresh_keeps_the_selection(
    app: AppView,
    list: Seq<ContainerInfoView>,
    reason: Seq<char>,
    now: Moment,
)
    ensures
        app.selected_index < list.len() ==> app.told(
            MessageView::ContainerData(list),
            now,
        ).selected_index == app.selected_index,
        app.told(MessageView::ContainerData(list), now).containers == list,
        app.told(MessageView::ContainerData(list), now).error_message is None,
        app.told(MessageView::Error(reason), now).error_message == Some(reason),
        app.told(MessageView::Error(reason), now).containers == app.containers,
        app.told(MessageView::Error(reason), now).selected_index == app.selected_index,
{
}

/// A queue with a shutdown in it ends as the part before the shutdown does; the
/// shutdown is taken, and what waits behind it is left in order.
pub proof fn queue_ends_at_the_shutdown(
    app: AppView,
    before: Seq<MessageView>,
    behind: Seq<MessageView>,
    now: Moment,
)
    requires
        without_shutdown(before),
    ensures
        ({
            let queue = before + seq![MessageView::Shutdown] + behind;
            &&& told_queue(app, queue, now) == told_queue(app, before, now)
            &&& queue.skip(taken(queue) as int) == behind
            &&& !without_shutdown(queue)
        }),
{
    let queue = before + seq![MessageView::Shutdown] + behind;
    let len = before.len() as int;
    assert(queue.take(len) =~= before);
    assert(queue[len] is Shutdown);
    before_shutdown_counts(queue, len);
    assert(before.take(len) =~= before);
    before_shutdown_counts(before, len);
    assert(queue.skip(len + 1) =~= behind);
}

/// A queue without a shutdown is taken whole, and every message has its
/// effect.
pub proof fn queue_without_shutdown_is_taken_whole(
    app: AppView,
    queue: Seq<MessageView>,
    now: Moment,
)
    requires
        without_shutdown(queue),
    ensures
        taken(queue) == queue.len(),
        told_queue(app, queue, now) == told_each(app, queue, now),
{
    assert(queue.take(queue.len() as int) =~= queue);
    before_shutdown_counts(queue, queue.len() as int);
}

/// Messages keep the selection within the lines, and never move it down.
pub proof fn queue_keeps_the_selection_in_range(
    app: AppView,
    queue: Seq<MessageView>,
    now: Moment,
)
    requires
        app.valid(),
    ensures
        told_queue(app, queue, now).valid(),
        told_queue(app, queue, now).selected_index <= app.selected_index,
        told_queue(app, queue, now).auto_refresh == app.auto_refresh,
{
    each_keeps_the_selection_in_range(app, queue.take(before_shutdown(queue) as int), now);
}

proof fn each_keeps_the_selection_in_range(app: AppView, queue: Seq<MessageView>, now: Moment)
    requires
        app.valid(),
    ensures
        told_each(app, queue, now).valid(),
        told_each(app, queue, now).selected_index <= app.selected_index,
        told_each(app, queue, now).auto_refresh == app.auto_refresh,
    decreases queue.len(),
{
    if queue.len() > 0 {
        each_keeps_the_selection_in_range(app, queue.drop_last(), now);
    }
}

/// After a queue without a shutdown the lines are those of its last data
/// message, or unchanged where it has none.
pub proof fn lines_come_from_the_last_data(
    app: AppView,
    before: Seq<MessageView>,
    list: Seq<ContainerInfoView>,
    behind: Seq<MessageView>,
    now: Moment,
)
    requires
        without_shutdown(before),
        without_shutdown(behind),
        forall|i: int| 0 <= i < behind.len() ==> !((#[trigger] behind[i]) is ContainerData),
    ensures
        told_queue(
            app,
            before + seq![MessageView::ContainerData(list)] + behind,
            now,
        ).containers == list,
        told_queue(app, behind, now).containers == app.containers,
{
    let head = before + seq![MessageView::ContainerData(list)];
    let queue = head + behind;
    assert(without_shutdown(queue));
    queue_without_shutdown_is_taken_whole(app, queue, now);
    queue_without_shutdown_is_taken_whole(app, behind, now);
    assert(head.drop_last() =~= before);
    assert(told_each(app, head, now).containers == list);
    without_data_the_lines_stay(app, head, behind, now);
    without_data_the_lines_stay(app, Seq::empty(), behind, now);
    assert(Seq::<MessageView>::empty() + behind =~= behind);
}

proof fn without_data_the_lines_stay(
    app: AppView,
    head: Seq<MessageView>,
    tail: Seq<MessageView>,
    now: Moment,
)
    requires
        forall|i: int| 0 <= i < tail.len() ==> !((#[trigger] tail[i]) is ContainerData),
    ensures
        told_each(app, head + tail, now).containers == told_each(app, head, now).containers,
    decreases tail.len(),
{
    if tail.len() > 0 {
        let rest = tail.drop_last();
        assert forall|i: int| 0 <= i < rest.len() implies !((#[trigger] rest[i]) is ContainerData) by {
            assert(rest[i] == tail[i]);
        }
        without_data_the_lines_stay(app, head, rest, now);
        assert((head + tail).drop_last() =~= head + rest);
        assert((head + tail).last() == tail[tail.len() - 1]);
    } else {
        assert(head + tail =~= head);
    }
}

/// After a queue without a shutdown the error is that of its last message: none
/// after data, and the reason after an error. The update is the one just taken.
pub proof fn the_error_comes_from_the_last_message(
    app: AppView,
    before: Seq<MessageView>,
    last: MessageView,
    now: Moment,
)
    requires
        without_shutdown(before),
        !(last is Shutdown),
    ensures
        ({
            let after = told_queue(app, before.push(last), now);
            &&& after.error_message == match last {
                MessageView::Error(reason) => Some(reason),
                _ => None,
            }
            &&& after.last_update == now
        }),
{
    let queue = before.push(last);
    assert(without_shutdown(queue));
    queue_without_shutdown_is_taken_whole(app, queue, now);
    assert(queue.drop_last() =~= before);
}

/// Messages are viewed with all that they carry, one by one and in order.
pub proof fn messages_are_viewed_whole(message: AppMessage, queue: Seq<AppMessage>)
    ensures
        message matches AppMessage::ContainerData(list) ==> {
            &&& message@ == MessageView::ContainerData(info_views(list@))
            &&& info_views(list@).len() == list@.len()
            &&& forall|i: int| 0 <= i < list@.len() ==> info_views(list@)[i] == (#[trigger] list@[i])@
        },
        message matches AppMessage::Error(reason) ==> message@ == MessageView::Error(reason@),
        message is Shutdown ==> message@ is Shutdown,
        message_views(queue).len() == queue.len(),
        forall|i: int| 0 <= i < queue.len() ==> message_views(queue)[i] == (#[trigger] queue[i])@,
{
}

/// What is to be done after a key is viewed with the command or the id that it
/// names. A look at the keyboard waits for 32 milliseconds. Containers are
/// removed without force and with their volumes, and not merely unlinked.
pub proof fn key_actions_are_viewed_whole(action: KeyAction)
    ensures
        action is Quit ==> action@ is Quit,
        action is Draw ==> action@ is Draw,
        action matches KeyAction::Send(command) ==> action@ == KeyActionView::Send(command),
        action matches KeyAction::Start(id) ==> action@ == KeyActionView::Start(id@),
        action matches KeyAction::Stop(id) ==> action@ == KeyActionView::Stop(id@),
        action matches KeyAction::Remove(id) ==> action@ == KeyActionView::Remove(id@),
        POLL_MILLIS == 32,
        !REMOVE_FORCED,
        REMOVE_VOLUMES,
        !REMOVE_LINK,
{
}

/// A new monitor is empty: no lines, no selected line, no error. It refreshes on
/// its own, and its last update is its opening.
pub proof fn a_new_monitor_is_empty(now: Moment)
    ensures
        AppView::opened(now).containers.len() == 0,
        AppView::opened(now).selected_index == 0,
        AppView::opened(now).last_update == now,
        AppView::opened(now).error_message is None,
        AppView::opened(now).auto_refresh,
        AppView::opened(now).selected() is None,
{
}

/// A monitor with lines has its selection on one of them, and the selected line
/// is the one at the selection.
pub proof fn the_selected_line_is_at_the_selection(app: AppView)
    requires
        app.valid(),
    ensures
        app.containers.len() > 0 ==> {
            &&& app.selected_index < app.containers.len()
            &&& app.selected() == Some(app.containers[app.selected_index as int])
        },
        app.containers.len() == 0 ==> app.selected() is None,
{
}

/// One step down leads to the next line, and from the last line to the first.
/// One step up leads to the line before, and from the first to the last. Nothing
/// else changes, and without lines nothing at all.
pub proof fn steps_lead_to_the_neighbours(app: AppView)
    requires
        app.valid(),
    ensures
        app.selected_index + 1 < app.containers.len() ==> app.moved_down().selected_index
            == app.selected_index + 1,
        app.selected_index + 1 == app.containers.len() ==> app.moved_down().selected_index == 0,
        app.containers.len() > 0 && app.selected_index > 0 ==> app.moved_up().selected_index
            == app.selected_index - 1,
        app.containers.len() > 0 && app.selected_index == 0 ==> app.moved_up().selected_index
            == app.containers.len() - 1,
        app.containers.len() == 0 ==> app.moved_down() == app && app.moved_up() == app,
        app.moved_down().containers == app.containers,
        app.moved_down().last_update == app.last_update,
        app.moved_down().error_message == app.error_message,
        app.moved_down().auto_refresh == app.auto_refresh,
        app.moved_up().containers == app.containers,
        app.moved_up().last_update == app.last_update,
        app.moved_up().error_message == app.error_message,
        app.moved_up().auto_refresh == app.auto_refresh,
{
    let len = app.containers.len();
    let index = app.selected_index;
    if index + 1 < len {
        vstd::arithmetic::div_mod::lemma_small_mod(index + 1, len);
    }
    if index + 1 == len {
        vstd::arithmetic::div_mod::lemma_mod_self_0(len as int);
    }
}

/// The arrow keys and their letters take the step that they stand for, the space
/// bar turns auto-refresh over, and no other key changes the monitor.
pub proof fn each_key_does_its_own(app: AppView, key: Key)
    ensures
        key == Key::Down || key == Key::Char('j') ==> app.keyed(key) == app.moved_down(),
        key == Key::Up || key == Key::Char('k') ==> app.keyed(key) == app.moved_up(),
        key == Key::Char(' ') ==> app.keyed(key) == (AppView {
            auto_refresh: !app.auto_refresh,
            ..app
        }),
        app.toggled().auto_refresh == !app.auto_refresh,
        app.toggled() == app.keyed(Key::Char(' ')),
        key != Key::Down && key != Key::Char('j') && key != Key::Up && key != Key::Char('k') && key
            != Key::Char(' ') ==> app.keyed(key) == app,
{
}

/// Escape and `q` quit, `r` asks for a refresh, the space bar announces the new
/// setting, `s` stops the selected container where it runs and starts it where it
/// does not, `x` removes it where it does not run. Nothing else asks for more
/// than drawing.
pub proof fn each_key_asks_for_its_own(app: AppView, key: Key)
    requires
        app.valid(),
    ensures
        key == Key::Esc || key == Key::Char('q') <==> app.asked(key) is Quit,
        key == Key::Char('r') <==> app.asked(key) == KeyActionView::Send(
            BackgroundCommand::ForceRefresh,
        ),
        key == Key::Char(' ') ==> app.asked(key) == KeyActionView::Send(
            BackgroundCommand::SetAutoRefresh(!app.auto_refresh),
        ),
        app.containers.len() > 0 ==> {
            let line = app.containers[app.selected_index as int];
            &&& key == Key::Char('s') && line.state == "running"@ ==> app.asked(key)
                == KeyActionView::Stop(line.id)
            &&& key == Key::Char('s') && line.state != "running"@ ==> app.asked(key)
                == KeyActionView::Start(line.id)
            &&& key == Key::Char('x') && line.state != "running"@ ==> app.asked(key)
                == KeyActionView::Remove(line.id)
            &&& key == Key::Char('x') && line.state == "running"@ ==> app.asked(key) is Draw
        },
        app.containers.len() == 0 && (key == Key::Char('s') || key == Key::Char('x')) ==> app.asked(
            key,
        ) is Draw,
        key != Key::Esc && key != Key::Char('q') && key != Key::Char('r') && key != Key::Char(' ')
            && key != Key::Char('s') && key != Key::Char('x') ==> app.asked(key) is Draw,
{
}

/// New lines replace the old ones whole, clear the error and keep the setting; a
/// selection behind them moves to the last line. An error is shown as it came and
/// changes neither lines nor selection nor setting. Both count as updates, and a
/// shutdown changes nothing.
pub proof fn each_message_does_its_own(
    app: AppView,
    list: Seq<ContainerInfoView>,
    reason: Seq<char>,
    now: Moment,
)
    ensures
        ({
            let after = app.told(MessageView::ContainerData(list), now);
            &&& after.containers == list
            &&& after.error_message is None
            &&& after.last_update == now
            &&& after.auto_refresh == app.auto_refresh
            &&& app.selected_index < list.len() ==> after.selected_index == app.selected_index
            &&& 0 < list.len() <= app.selected_index ==> after.selected_index == list.len() - 1
            &&& list.len() == 0 ==> after.selected_index == app.selected_index
        }),
        ({
            let after = app.told(MessageView::Error(reason), now);
            &&& after.containers == app.containers
            &&& after.error_message == Some(reason)
            &&& after.last_update == now
            &&& after.auto_refresh == app.auto_refresh
            &&& after.selected_index == app.selected_index
        }),
        app.told(MessageView::Shutdown, now) == app,
{
}

/// The waiting messages are taken in order: a single message has its own effect,
/// and after messages without a shutdown the next ones go on from there. A
/// shutdown is noticed wherever it stands.
pub proof fn queues_are_taken_in_order(
    app: AppView,
    message: MessageView,
    first: Seq<MessageView>,
    second: Seq<MessageView>,
    now: Moment,
)
    ensures
        told_queue(app, seq![message], now) == app.told(message, now),
        taken(seq![message]) == 1,
        without_shutdown(seq![message]) <==> !(message is Shutdown),
        without_shutdown(first + second) <==> without_shutdown(first) && without_shutdown(second),
        without_shutdown(first) ==> told_queue(app, first + second, now) == told_queue(
            told_queue(app, first, now),
            second,
            now,
        ),
        without_shutdown(first) ==> taken(first + second) == first.len() + taken(second),
        !without_shutdown(first) ==> told_queue(app, first + second, now) == told_queue(
            app,
            first,
            now,
        ) && taken(first + second) == taken(first),
    decreases first.len(),
{
    let one = seq![message];
    let none = Seq::<MessageView>::empty();
    assert(one.drop_first() =~= none);
    assert(one.take(0) =~= none);
    assert(one.take(1) =~= one);
    assert(one.drop_last() =~= none);
    assert(before_shutdown(none) == 0);
    assert(told_each(app, none, now) == app);
    assert(told_each(app, one.drop_last(), now) == app);
    assert(one[0] == message && one.last() == message);
    assert(told_each(app, one, now) == app.told(message, now));
    if message is Shutdown {
        assert(before_shutdown(one) == 0);
    } else {
        assert(before_shutdown(one) == 1);
    }
    let whole = first + second;
    assert(without_shutdown(whole) ==> without_shutdown(first) && without_shutdown(second)) by {
        if without_shutdown(whole) {
            assert forall|i: int| 0 <= i < first.len() implies !((#[trigger] first[i]) is Shutdown) by {
                assert(whole[i] == first[i]);
            }
            assert forall|i: int| 0 <= i < second.len() implies !((#[trigger] second[i]) is Shutdown) by {
                assert(whole[first.len() + i] == second[i]);
            }
        }
    }
    first_shutdown_of_two_parts(first, second);
    before_shutdown_is_within(first);
    before_shutdown_is_within(second);
    if without_shutdown(first) {
        assert(first.take(first.len() as int) =~= first);
        before_shutdown_counts(first, first.len() as int);
        let count = before_shutdown(second) as int;
        assert(whole.take(first.len() + count) =~= first + second.take(count));
        told_each_of_two_parts(app, first, second.take(count), now);
    } else {
        assert(whole.take(before_shutdown(first) as int) =~= first.take(
            before_shutdown(first) as int,
        ));
    }
}

proof fn first_shutdown_of_two_parts(first: Seq<MessageView>, second: Seq<MessageView>)
    ensures
        without_shutdown(first) ==> before_shutdown(first + second) == first.len()
            + before_shutdown(second),
        !without_shutdown(first) ==> before_shutdown(first + second) == before_shutdown(first)
            && before_shutdown(first) < first.len(),
    decreases first.len(),
{
    let whole = first + second;
    if first.len() == 0 {
        assert(whole =~= second);
    } else if first[0] is Shutdown {
        assert(whole[0] == first[0]);
    } else {
        let rest = first.drop_first();
        assert(whole[0] == first[0]);
        assert(whole.drop_first() =~= rest + second);
        first_shutdown_of_two_parts(rest, second);
        if without_shutdown(first) {
            assert forall|i: int| 0 <= i < rest.len() implies !((#[trigger] rest[i]) is Shutdown) by {
                assert(first[i + 1] == rest[i]);
            }
        } else {
            let k = choose|k: int| 0 <= k < first.len() && (#[trigger] first[k]) is Shutdown;
            assert(rest[k - 1] == first[k]);
        }
    }
}

proof fn told_each_of_two_parts(
    app: AppView,
    first: Seq<MessageView>,
    second: Seq<MessageView>,
    now: Moment,
)
    ensures
        told_each(app, first + second, now) == told_each(told_each(app, first, now), second, now),
    decreases second.len(),
{
    let whole = first + second;
    if second.len() == 0 {
        assert(whole =~= first);
    } else {
        told_each_of_two_parts(app, first, second.drop_last(), now);
        assert(whole.drop_last() =~= first + second.drop_last());
        assert(whole.last() == second.last());
    }
}

} // verus!
