//! The radio's shared state and the decisions taken on each button press,
//! each tick of the timer and news monitor, and each turn of the player.

use vstd::prelude::*;
use crate::news::{news_due, should_play_news, NewsWindow};
use crate::station::{next_index, next_station, prev_index, prev_station, start_index, starting_station, lemma_next_prev_inverse};
use crate::timer::{is_long_press, is_short_press, long_press, short_press, held_secs, shown_minutes, timer_cycle, valid_setting, cycle_times, lemma_cycle_period, lemma_cycle_valid, next_timer_minutes, remaining_minutes};

verus! {

/// The state of the radio, as plain values.
pub struct RadioModel {
    pub station_count: usize,
    pub current_station: usize,
    pub saved_station: usize,
    pub station_switch: bool,
    pub station_direction: isize,
    pub running: bool,
    pub timer_minutes: usize,
    pub timer_active: bool,
    pub timer_start: u64,
    pub timer_should_poweroff: bool,
    pub news_enabled: bool,
    pub news_active: bool,
    pub news_station: bool,
    pub news_window: NewsWindow,
}

impl RadioModel {
    /// What holds of the radio at all times: the current and the saved
    /// station exist, the timer is on exactly when minutes are set, the
    /// setting is one that the button produces, and the direction of the
    /// last move is forward or back.
    pub open spec fn inv(self) -> bool {
        &&& self.station_count > 0
        &&& self.current_station < self.station_count
        &&& self.saved_station < self.station_count
        &&& self.timer_active == (self.timer_minutes > 0)
        &&& valid_setting(self.timer_minutes as int)
        &&& (self.station_direction == 1 || self.station_direction == -1)
    }
}

/// The radio when it starts.
pub open spec fn initial(station_count: usize, stored_index: usize, window: NewsWindow) -> RadioModel {
    RadioModel {
        station_count,
        current_station: start_index(stored_index, station_count),
        saved_station: 0,
        station_switch: false,
        station_direction: 1,
        running: true,
        timer_minutes: 0,
        timer_active: false,
        timer_start: 0,
        timer_should_poweroff: false,
        news_enabled: false,
        news_active: false,
        news_station: false,
        news_window: window,
    }
}

/// The next button: one station forward, and the player restarts.
pub open spec fn after_next(m: RadioModel) -> RadioModel {
    RadioModel {
        current_station: next_index(m.current_station as int, m.station_count as int) as usize,
        station_direction: 1,
        station_switch: true,
        ..m
    }
}

/// The previous button: one station back, and the player restarts.
pub open spec fn after_prev(m: RadioModel) -> RadioModel {
    RadioModel {
        current_station: prev_index(m.current_station as int, m.station_count as int) as usize,
        station_direction: -1isize,
        station_switch: true,
        ..m
    }
}

/// A short press of the timer button at `now`: the next setting, counted
/// from `now`, or the timer off.
pub open spec fn after_timer_press(m: RadioModel, now: u64) -> RadioModel {
    let minutes = timer_cycle(m.timer_minutes as int);
    if minutes == 0 {
        RadioModel { timer_active: false, timer_minutes: 0, timer_start: 0, ..m }
    } else {
        RadioModel { timer_start: now, timer_minutes: minutes as usize, timer_active: true, ..m }
    }
}

/// A long press of the timer button: power off, and stop everything.
pub open spec fn after_power_off_request(m: RadioModel) -> RadioModel {
    RadioModel { timer_should_poweroff: true, running: false, ..m }
}

/// The news button: news on or off; turning it off also leaves the news.
pub open spec fn after_news_button(m: RadioModel) -> RadioModel {
    if m.news_enabled {
        RadioModel { news_enabled: false, news_active: false, news_station: false, ..m }
    } else {
        RadioModel { news_enabled: true, ..m }
    }
}

/// A new news window.
pub open spec fn with_window(m: RadioModel, w: NewsWindow) -> RadioModel {
    RadioModel { news_window: w, ..m }
}

/// The news is due at `now` under the radio's settings.
pub open spec fn news_due_at(m: RadioModel, now: u64) -> bool {
    news_due(m.news_enabled, now, m.news_window.start_minute, m.news_window.end_minute)
}

/// One tick of the news monitor at `now`: entering the window remembers the
/// station, leaving it goes back to the remembered station.
pub open spec fn after_news_tick(m: RadioModel, now: u64) -> RadioModel {
    if m.news_enabled {
        let due = news_due_at(m, now);
        if due && !m.news_station {
            RadioModel {
                news_station: true,
                news_active: true,
                saved_station: m.current_station,
                ..m
            }
        } else if !due && m.news_station {
            RadioModel {
                news_station: false,
                news_active: false,
                current_station: m.saved_station,
                ..m
            }
        } else {
            m
        }
    } else {
        m
    }
}

/// What one tick of the timer monitor decides.
#[derive(Clone, Copy, Debug, PartialEq, Eq, Structural)]
pub enum TimerTick {
    /// Keep going; the value is the minutes left as last shown.
    Continue(usize),
    /// The time is up: power off.
    Expired,
}

/// One tick of the timer monitor at `now`, with `shown` the minutes left as
/// last shown (`usize::MAX` when nothing was shown).
pub open spec fn timer_tick_model(m: RadioModel, now: u64, shown: usize) -> (RadioModel, TimerTick) {
    if m.timer_active {
        if m.timer_minutes == 0 {
            if shown != 0 {
                (RadioModel { timer_start: 0, ..m }, TimerTick::Continue(0))
            } else {
                (m, TimerTick::Continue(shown))
            }
        } else if m.timer_start == 0 {
            (RadioModel { timer_start: now, ..m }, TimerTick::Continue(m.timer_minutes))
        } else {
            let elapsed = held_secs(m.timer_start, now) / 60;
            if elapsed >= m.timer_minutes {
                (RadioModel { running: false, ..m }, TimerTick::Expired)
            } else {
                (m, TimerTick::Continue((m.timer_minutes - elapsed) as usize))
            }
        }
    } else {
        (m, TimerTick::Continue(usize::MAX))
    }
}

/// The player switches when the news is due but it is not playing the
/// news, or the other way round.
pub open spec fn after_news_check(m: RadioModel, now: u64, playing_news: bool) -> RadioModel {
    if news_due_at(m, now) != playing_news {
        RadioModel { station_switch: true, ..m }
    } else {
        m
    }
}

/// After the player stops, given the direction read when it started.
pub open spec fn after_playback(m: RadioModel, direction: isize) -> RadioModel {
    let m1 = RadioModel { station_switch: false, ..m };
    let m2 = if direction != 2 {
        RadioModel { station_direction: 1, ..m1 }
    } else {
        m1
    };
    if direction == 3 {
        RadioModel { news_station: false, news_active: false, station_direction: 1, ..m2 }
    } else {
        m2
    }
}

/// Interrupted: stop running.
pub open spec fn after_stop(m: RadioModel) -> RadioModel {
    RadioModel { running: false, ..m }
}

/// Which stream the player starts.
#[derive(Clone, Copy, Debug, PartialEq, Eq, Structural)]
pub enum StreamChoice {
    /// The news stream.
    News,
    /// The station with this index.
    Station(usize),
}

/// The news stream when the news is due and there is one, else the
/// current station.
pub open spec fn stream_at(m: RadioModel, now: u64, has_news_stream: bool) -> StreamChoice {
    if news_due_at(m, now) && has_news_stream {
        StreamChoice::News
    } else {
        StreamChoice::Station(m.current_station)
    }
}

/// Every step of the radio keeps its invariant, and the radio starts in a
/// state where it holds.
pub proof fn lemma_steps_keep_inv(
    m: RadioModel,
    now: u64,
    shown: usize,
    playing_news: bool,
    direction: isize,
    w: NewsWindow,
    count: usize,
    stored: usize,
)
    requires
        m.inv(),
    ensures
        count > 0 ==> initial(count, stored, w).inv(),
        after_next(m).inv(),
        after_prev(m).inv(),
        after_timer_press(m, now).inv(),
        after_power_off_request(m).inv(),
        after_news_button(m).inv(),
        with_window(m, w).inv(),
        after_news_tick(m, now).inv(),
        timer_tick_model(m, now, shown).0.inv(),
        after_news_check(m, now, playing_news).inv(),
        after_playback(m, direction).inv(),
        after_stop(m).inv(),
{
    lemma_next_prev_inverse(m.current_station as int, m.station_count as int);
    lemma_cycle_valid(m.timer_minutes as int);
}

/// Next then previous, or previous then next, comes back to the same
/// station.
pub proof fn lemma_next_prev_return(m: RadioModel)
    requires
        m.inv(),
    ensures
        after_prev(after_next(m)).current_station == m.current_station,
        after_next(after_prev(m)).current_station == m.current_station,
{
    lemma_next_prev_inverse(m.current_station as int, m.station_count as int);
}

/// Entering the news window remembers the station, and leaving it goes
/// back to that station.
pub proof fn lemma_news_round_trip(m: RadioModel, enter: u64, leave: u64)
    requires
        m.inv(),
        m.news_enabled,
        !m.news_station,
        news_due_at(m, enter),
        !news_due_at(m, leave),
    ensures
        after_news_tick(m, enter).news_station,
        after_news_tick(m, enter).news_active,
        after_news_tick(after_news_tick(m, enter), leave).current_station == m.current_station,
        !after_news_tick(after_news_tick(m, enter), leave).news_station,
        !after_news_tick(after_news_tick(m, enter), leave).news_active,
{
}

/// Turning the news off also leaves the news stream.
pub proof fn lemma_news_off_leaves_news(m: RadioModel)
    requires
        m.news_enabled,
    ensures
        !after_news_button(m).news_enabled,
        !after_news_button(m).news_station,
        !after_news_button(m).news_active,
        after_news_button(after_news_button(m)).news_enabled,
{
}

/// `k` short presses of the timer button at `now`.
pub open spec fn timer_presses(m: RadioModel, now: u64, k: nat) -> RadioModel
    decreases k,
{
    if k == 0 {
        m
    } else {
        after_timer_press(timer_presses(m, now, (k - 1) as nat), now)
    }
}

proof fn lemma_timer_presses_minutes(m: RadioModel, now: u64, k: nat)
    requires
        m.inv(),
    ensures
        timer_presses(m, now, k).inv(),
        timer_presses(m, now, k).timer_minutes == cycle_times(m.timer_minutes as int, k),
    decreases k,
{
    if k > 0 {
        lemma_timer_presses_minutes(m, now, (k - 1) as nat);
        lemma_cycle_valid(timer_presses(m, now, (k - 1) as nat).timer_minutes as int);
    }
}

/// Ten short presses of the timer button bring the setting back to where
/// it was; the timer is on exactly when minutes are set.
pub proof fn lemma_ten_timer_presses(m: RadioModel, now: u64)
    requires
        m.inv(),
    ensures
        timer_presses(m, now, 10).timer_minutes == m.timer_minutes,
        timer_presses(m, now, 10).timer_active == m.timer_active,
{
    lemma_timer_presses_minutes(m, now, 10);
    lemma_cycle_period(m.timer_minutes as int);
}

/// The timer powers off exactly when it is on, its countdown has started,
/// and the whole minutes since the start reach the setting.
pub proof fn lemma_timer_expiry(m: RadioModel, now: u64, shown: usize)
    requires
        m.inv(),
    ensures
        (timer_tick_model(m, now, shown).1 == TimerTick::Expired) == (m.timer_active
            && m.timer_start != 0 && held_secs(m.timer_start, now) / 60 >= m.timer_minutes),
        timer_tick_model(m, now, shown).1 == TimerTick::Expired ==> !timer_tick_model(
            m,
            now,
            shown,
        ).0.running,
{
}

/// The player plays the news stream exactly when the news is due and there
/// is a news stream; otherwise it plays the current station, the one the
/// buttons last chose.
pub proof fn lemma_stream_choice(m: RadioModel, now: u64, has_news_stream: bool)
    ensures
        !(news_due_at(m, now) && has_news_stream) ==> stream_at(m, now, has_news_stream)
            == StreamChoice::Station(m.current_station),
        news_due_at(m, now) && has_news_stream ==> stream_at(m, now, has_news_stream)
            == StreamChoice::News,
        !m.news_enabled ==> stream_at(m, now, has_news_stream) == StreamChoice::Station(
            m.current_station,
        ),
{
}

/// After next (or previous) the player, outside the news, plays the station
/// just chosen.
pub proof fn lemma_next_then_play(m: RadioModel, now: u64, has_news_stream: bool)
    requires
        m.inv(),
        !(news_due_at(m, now) && has_news_stream),
    ensures
        stream_at(after_next(m), now, has_news_stream) == StreamChoice::Station(
            ((m.current_station + 1) % (m.station_count as int)) as usize,
        ),
        stream_at(after_prev(m), now, has_news_stream) == StreamChoice::Station(
            (if m.current_station == 0 { m.station_count - 1 } else { m.current_station - 1 }) as usize,
        ),
{
}

/// A short press sets 90 minutes when the timer was off, ten minutes less
/// when it had ten or more, and otherwise turns it off; when it leaves the
/// timer on, the countdown starts again at the press, so right after the
/// press the display shows the whole new setting.
pub proof fn lemma_timer_press(m: RadioModel, now: u64)
    requires
        m.inv(),
    ensures
        after_timer_press(m, now).timer_minutes == (if m.timer_minutes == 0 {
            90
        } else if m.timer_minutes >= 10 {
            m.timer_minutes - 10
        } else {
            0
        }),
        after_timer_press(m, now).timer_minutes > 0 ==> after_timer_press(m, now).timer_start == now
            && after_timer_press(m, now).timer_active,
        after_timer_press(m, now).timer_minutes == 0 ==> !after_timer_press(m, now).timer_active
            && after_timer_press(m, now).timer_start == 0,
        now > 0 && after_timer_press(m, now).timer_minutes > 0 ==> shown_minutes(
            after_timer_press(m, now).timer_active,
            after_timer_press(m, now).timer_minutes,
            after_timer_press(m, now).timer_start,
            now,
        ) == after_timer_press(m, now).timer_minutes,
        after_timer_press(m, now).current_station == m.current_station,
{
}

/// How a button's level changed between two polls.
#[derive(Clone, Copy, Debug, PartialEq, Eq, Structural)]
pub enum ButtonEdge {
    Pressed,
    Released,
    Held,
    Idle,
}

/// The edge between the last poll (`was_down`) and this one (`down`).
pub open spec fn edge_of(down: bool, was_down: bool) -> ButtonEdge {
    if down && !was_down {
        ButtonEdge::Pressed
    } else if !down && was_down {
        ButtonEdge::Released
    } else if down {
        ButtonEdge::Held
    } else {
        ButtonEdge::Idle
    }
}

/// How a button's level changed between two polls.
pub fn button_edge(down: bool, was_down: bool) -> (e: ButtonEdge)
    ensures
        e == edge_of(down, was_down),
{
    if down && !was_down {
        ButtonEdge::Pressed
    } else if !down && was_down {
        ButtonEdge::Released
    } else if down {
        ButtonEdge::Held
    } else {
        ButtonEdge::Idle
    }
}

/// What the timer button asks for on one poll.
#[derive(Clone, Copy, Debug, PartialEq, Eq, Structural)]
pub enum TimerButtonAction {
    Nothing,
    /// Held long enough: power off.
    PowerOff,
    /// Released after a short press: step the sleep timer.
    ShortPress,
}

/// One poll of the timer button, given its edge, the time it was last
/// pressed and the time now: a new press records `now` as the press time;
/// while down, a long press powers off; on release, a short press steps
/// the timer. Returns the press time to keep and the action.
pub open spec fn timer_button_spec(edge: ButtonEdge, pressed_at: u64, now: u64) -> (u64, TimerButtonAction) {
    let start = if edge == ButtonEdge::Pressed {
        now
    } else {
        pressed_at
    };
    if (edge == ButtonEdge::Pressed || edge == ButtonEdge::Held) && long_press(start, now) {
        (start, TimerButtonAction::PowerOff)
    } else if edge == ButtonEdge::Released && short_press(start, now) {
        (start, TimerButtonAction::ShortPress)
    } else {
        (start, TimerButtonAction::Nothing)
    }
}

/// One poll of the timer button.
pub fn timer_button_step(edge: ButtonEdge, pressed_at: u64, now: u64) -> (r: (u64, TimerButtonAction))
    ensures
        r == timer_button_spec(edge, pressed_at, now),
{
    let (start, down, released) = match edge {
        ButtonEdge::Pressed => (now, true, false),
        ButtonEdge::Held => (pressed_at, true, false),
        ButtonEdge::Released => (pressed_at, false, true),
        ButtonEdge::Idle => (pressed_at, false, false),
    };
    if down && is_long_press(start, now) {
        (start, TimerButtonAction::PowerOff)
    } else if released && is_short_press(start, now) {
        (start, TimerButtonAction::ShortPress)
    } else {
        (start, TimerButtonAction::Nothing)
    }
}

/// A press followed by a release under four seconds later steps the timer;
/// holding it four seconds or more powers off; a new press never powers off
/// at once.
pub proof fn lemma_timer_button(pressed_at: u64, now: u64)
    requires
        pressed_at != 0,
    ensures
        timer_button_spec(ButtonEdge::Pressed, 0, pressed_at).1 == TimerButtonAction::Nothing,
        timer_button_spec(ButtonEdge::Pressed, 0, pressed_at).0 == pressed_at,
        now >= pressed_at && now - pressed_at < 4 ==> timer_button_spec(
            ButtonEdge::Released,
            pressed_at,
            now,
        ).1 == TimerButtonAction::ShortPress,
        now >= pressed_at && now - pressed_at >= 4 ==> timer_button_spec(
            ButtonEdge::Held,
            pressed_at,
            now,
        ).1 == TimerButtonAction::PowerOff,
{
}

/// The radio's shared state.
pub struct Radio {
    station_count: usize,
    current_station: usize,
    saved_station: usize,
    station_switch: bool,
    station_direction: isize,
    running: bool,
    timer_minutes: usize,
    timer_active: bool,
    timer_start: u64,
    timer_should_poweroff: bool,
    news_enabled: bool,
    news_active: bool,
    news_station: bool,
    news_window: NewsWindow,
}

impl View for Radio {
    type V = RadioModel;

    closed spec fn view(&self) -> RadioModel {
        RadioModel {
            station_count: self.station_count,
            current_station: self.current_station,
            saved_station: self.saved_station,
            station_switch: self.station_switch,
            station_direction: self.station_direction,
            running: self.running,
            timer_minutes: self.timer_minutes,
            timer_active: self.timer_active,
            timer_start: self.timer_start,
            timer_should_poweroff: self.timer_should_poweroff,
            news_enabled: self.news_enabled,
            news_active: self.news_active,
            news_station: self.news_station,
            news_window: self.news_window,
        }
    }
}

impl Radio {
    #[verifier::type_invariant]
    spec fn wf(self) -> bool {
        self@.inv()
    }

    /// The radio at start-up with `station_count` stations, the index read
    /// from the file and the news window; the flag tells whether the index
    /// named no station, was reset to 0, and must be written back.
    pub fn new(station_count: usize, stored_index: usize, window: NewsWindow) -> (r: (Radio, bool))
        requires
            station_count > 0,
        ensures
            r.0@ == initial(station_count, stored_index, window),
            r.1 == (stored_index >= station_count),
    {
        let (current, reset) = starting_station(stored_index, station_count);
        let radio = Radio {
            station_count,
            current_station: current,
            saved_station: 0,
            station_switch: false,
            station_direction: 1,
            running: true,
            timer_minutes: 0,
            timer_active: false,
            timer_start: 0,
            timer_should_poweroff: false,
            news_enabled: false,
            news_active: false,
            news_station: false,
            news_window: window,
        };
        (radio, reset)
    }

    /// The whole state.
    pub fn model(&self) -> (m: RadioModel)
        ensures
            m == self@,
            m.inv(),
    {
        proof { use_type_invariant(self); }
        RadioModel {
            station_count: self.station_count,
            current_station: self.current_station,
            saved_station: self.saved_station,
            station_switch: self.station_switch,
            station_direction: self.station_direction,
            running: self.running,
            timer_minutes: self.timer_minutes,
            timer_active: self.timer_active,
            timer_start: self.timer_start,
            timer_should_poweroff: self.timer_should_poweroff,
            news_enabled: self.news_enabled,
            news_active: self.news_active,
            news_station: self.news_station,
            news_window: self.news_window,
        }
    }

    pub fn current_station(&self) -> (i: usize)
        ensures
            i == self@.current_station,
            i < self@.station_count,
    {
        proof { use_type_invariant(self); }
        self.current_station
    }

    pub fn station_direction(&self) -> (d: isize)
        ensures
            d == self@.station_direction,
    {
        self.station_direction
    }

    pub fn is_running(&self) -> (b: bool)
        ensures
            b == self@.running,
    {
        self.running
    }

    /// The player keeps the current stream: running and no switch asked.
    pub fn keeps_playing(&self) -> (b: bool)
        ensures
            b == (self@.running && !self@.station_switch),
    {
        self.running && !self.station_switch
    }

    pub fn news_enabled(&self) -> (b: bool)
        ensures
            b == self@.news_enabled,
    {
        self.news_enabled
    }

    pub fn timer_minutes(&self) -> (m: usize)
        ensures
            m == self@.timer_minutes,
    {
        self.timer_minutes
    }

    pub fn timer_active(&self) -> (b: bool)
        ensures
            b == self@.timer_active,
    {
        self.timer_active
    }

    pub fn power_off_requested(&self) -> (b: bool)
        ensures
            b == self@.timer_should_poweroff,
    {
        self.timer_should_poweroff
    }

    pub fn news_window(&self) -> (w: NewsWindow)
        ensures
            w == self@.news_window,
    {
        self.news_window
    }

    /// The next button.
    pub fn press_next(&mut self)
        ensures
            final(self)@ == after_next(old(self)@),
    {
        proof { use_type_invariant(&*self); }
        let next = next_station(self.current_station, self.station_count);
        *self = Radio { current_station: next, station_direction: 1, station_switch: true, ..*self };
    }

    /// The previous button.
    pub fn press_prev(&mut self)
        ensures
            final(self)@ == after_prev(old(self)@),
    {
        proof { use_type_invariant(&*self); }
        let prev = prev_station(self.current_station, self.station_count);
        *self = Radio { current_station: prev, station_direction: -1, station_switch: true, ..*self };
    }

    /// A short press of the timer button at `now`.
    pub fn press_timer(&mut self, now: u64)
        ensures
            final(self)@ == after_timer_press(old(self)@, now),
    {
        proof {
            use_type_invariant(&*self);
            lemma_cycle_valid(self.timer_minutes as int);
        }
        let minutes = next_timer_minutes(self.timer_minutes);
        if minutes == 0 {
            *self = Radio { timer_active: false, timer_minutes: 0, timer_start: 0, ..*self };
        } else {
            *self = Radio { timer_start: now, timer_minutes: minutes, timer_active: true, ..*self };
        }
    }

    /// A long press of the timer button: power off.
    pub fn request_power_off(&mut self)
        ensures
            final(self)@ == after_power_off_request(old(self)@),
    {
        proof { use_type_invariant(&*self); }
        *self = Radio { timer_should_poweroff: true, running: false, ..*self };
    }

    /// The news button; returns whether the news is now on (the caller then
    /// reloads the news window).
    pub fn press_news(&mut self) -> (on: bool)
        ensures
            final(self)@ == after_news_button(old(self)@),
            on == final(self)@.news_enabled,
            on == !old(self)@.news_enabled,
    {
        proof { use_type_invariant(&*self); }
        if self.news_enabled {
            *self = Radio { news_enabled: false, news_active: false, news_station: false, ..*self };
            false
        } else {
            *self = Radio { news_enabled: true, ..*self };
            true
        }
    }

    /// A new news window.
    pub fn set_news_window(&mut self, w: NewsWindow)
        ensures
            final(self)@ == with_window(old(self)@, w),
    {
        proof { use_type_invariant(&*self); }
        *self = Radio { news_window: w, ..*self };
    }

    /// Whether the news is due at `now`.
    pub fn news_due(&self, now: u64) -> (b: bool)
        ensures
            b == news_due_at(self@, now),
    {
        should_play_news(
            self.news_enabled,
            now,
            self.news_window.start_minute,
            self.news_window.end_minute,
        )
    }

    /// One tick of the news monitor at `now`.
    pub fn news_tick(&mut self, now: u64)
        ensures
            final(self)@ == after_news_tick(old(self)@, now),
    {
        proof { use_type_invariant(&*self); }
        if self.news_enabled {
            let due = self.news_due(now);
            if due && !self.news_station {
                *self = Radio {
                    news_station: true,
                    news_active: true,
                    saved_station: self.current_station,
                    ..*self
                };
            } else if !due && self.news_station {
                *self = Radio {
                    news_station: false,
                    news_active: false,
                    current_station: self.saved_station,
                    ..*self
                };
            }
        }
    }

    /// One tick of the timer monitor at `now`, given the minutes left as
    /// last shown.
    pub fn timer_tick(&mut self, now: u64, shown: usize) -> (t: TimerTick)
        ensures
            (final(self)@, t) == timer_tick_model(old(self)@, now, shown),
    {
        proof { use_type_invariant(&*self); }
        if self.timer_active {
            if self.timer_minutes == 0 {
                if shown != 0 {
                    *self = Radio { timer_start: 0, ..*self };
                    TimerTick::Continue(0)
                } else {
                    TimerTick::Continue(shown)
                }
            } else if self.timer_start == 0 {
                *self = Radio { timer_start: now, ..*self };
                TimerTick::Continue(self.timer_minutes)
            } else {
                let elapsed = now.saturating_sub(self.timer_start) / 60;
                if elapsed >= self.timer_minutes as u64 {
                    *self = Radio { running: false, ..*self };
                    TimerTick::Expired
                } else {
                    TimerTick::Continue(self.timer_minutes - elapsed as usize)
                }
            }
        } else {
            TimerTick::Continue(usize::MAX)
        }
    }

    /// The minutes left that the display shows at `now`.
    pub fn shown_timer_minutes(&self, now: u64) -> (m: usize)
        ensures
            m == shown_minutes(self@.timer_active, self@.timer_minutes, self@.timer_start, now),
    {
        remaining_minutes(self.timer_active, self.timer_minutes, self.timer_start, now)
    }

    /// The stream to start at `now`.
    pub fn stream_choice(&self, now: u64, has_news_stream: bool) -> (c: StreamChoice)
        ensures
            c == stream_at(self@, now, has_news_stream),
    {
        if self.news_due(now) && has_news_stream {
            StreamChoice::News
        } else {
            StreamChoice::Station(self.current_station)
        }
    }

    /// While playing: asks for a switch when the news is due but not
    /// playing or the other way round; returns whether it did.
    pub fn check_news_switch(&mut self, now: u64, playing_news: bool) -> (switched: bool)
        ensures
            final(self)@ == after_news_check(old(self)@, now, playing_news),
            switched == (news_due_at(old(self)@, now) != playing_news),
    {
        proof { use_type_invariant(&*self); }
        if self.news_due(now) != playing_news {
            *self = Radio { station_switch: true, ..*self };
            true
        } else {
            false
        }
    }

    /// After the player stops, given the direction read when it started;
    /// returns the station to write to the file.
    pub fn finish_playback(&mut self, direction: isize) -> (index: usize)
        ensures
            final(self)@ == after_playback(old(self)@, direction),
            index == final(self)@.current_station,
    {
        proof { use_type_invariant(&*self); }
        *self = Radio { station_switch: false, ..*self };
        if direction != 2 {
            *self = Radio { station_direction: 1, ..*self };
        }
        if direction == 3 {
            *self = Radio { news_station: false, news_active: false, station_direction: 1, ..*self };
        }
        self.current_station
    }

    /// Interrupted: stop; returns the station to write to the file.
    pub fn stop(&mut self) -> (index: usize)
        ensures
            final(self)@ == after_stop(old(self)@),
            index == old(self)@.current_station,
    {
        proof { use_type_invariant(&*self); }
        *self = Radio { running: false, ..*self };
        self.current_station
    }
}

} // verus!
