//! The sleep timer: each short press of the timer button steps the time
//! left (90, 80, ... 10 minutes, then off); a long press powers off.

use vstd::prelude::*;
use vstd::arithmetic::div_mod::lemma_div_is_ordered;

verus! {

/// How long the timer button must be held to power off, in milliseconds.
pub const LONG_PRESS_MS: u64 = 4000;

/// The minutes a short press sets, given the minutes set before: off goes
/// to 90, ten or more go down by ten, anything less turns the timer off.
pub open spec fn timer_cycle(minutes: int) -> int {
    if minutes == 0 {
        90
    } else if minutes >= 10 {
        minutes - 10
    } else {
        0
    }
}

/// A setting that a run of short presses can produce.
pub open spec fn valid_setting(minutes: int) -> bool {
    0 <= minutes <= 90 && minutes % 10 == 0
}

/// `timer_cycle` applied `k` times.
pub open spec fn cycle_times(minutes: int, k: nat) -> int
    decreases k,
{
    if k == 0 {
        minutes
    } else {
        timer_cycle(cycle_times(minutes, (k - 1) as nat))
    }
}

/// `a - b`, or 0 when `b` is larger, as `saturating_sub` computes.
pub open spec fn sat_sub(a: int, b: int) -> int {
    if a >= b {
        a - b
    } else {
        0
    }
}

/// Whole seconds between a press at `pressed_at` and `now`.
pub open spec fn held_secs(pressed_at: u64, now: u64) -> int {
    sat_sub(now as int, pressed_at as int)
}

/// The timer button has been held long enough to power off.
pub open spec fn long_press(pressed_at: u64, now: u64) -> bool {
    pressed_at != 0 && held_secs(pressed_at, now) >= LONG_PRESS_MS / 1000
}

/// A release that counts as a short press.
pub open spec fn short_press(pressed_at: u64, now: u64) -> bool {
    held_secs(pressed_at, now) < LONG_PRESS_MS / 1000
}

/// The minutes left that the display shows: nothing when the timer is off,
/// the full setting until the countdown has started, and otherwise the
/// minutes left but never less than one.
pub open spec fn shown_minutes(active: bool, minutes: usize, start: u64, now: u64) -> int {
    if active && minutes > 0 {
        if start > 0 {
            let left = sat_sub(minutes as int, held_secs(start, now) / 60);
            if left == 0 {
                1
            } else {
                left
            }
        } else {
            minutes as int
        }
    } else {
        0
    }
}

/// The timer setting after a short press.
pub fn next_timer_minutes(minutes: usize) -> (next: usize)
    ensures
        next == timer_cycle(minutes as int),
{
    if minutes == 0 {
        90
    } else if minutes >= 10 {
        minutes - 10
    } else {
        0
    }
}

/// Whether the timer button, pressed at `pressed_at` and still down at
/// `now`, has been held long enough to power off.
pub fn is_long_press(pressed_at: u64, now: u64) -> (b: bool)
    ensures
        b == long_press(pressed_at, now),
{
    pressed_at != 0 && now.saturating_sub(pressed_at) >= LONG_PRESS_MS / 1000
}

/// Whether a release at `now` of a press at `pressed_at` is a short press.
pub fn is_short_press(pressed_at: u64, now: u64) -> (b: bool)
    ensures
        b == short_press(pressed_at, now),
{
    now.saturating_sub(pressed_at) < LONG_PRESS_MS / 1000
}

/// The minutes left that the display shows.
pub fn remaining_minutes(active: bool, minutes: usize, start: u64, now: u64) -> (m: usize)
    ensures
        m == shown_minutes(active, minutes, start, now),
{
    if active && minutes > 0 {
        if start > 0 {
            let elapsed = now.saturating_sub(start) / 60;
            let left: usize = if elapsed >= minutes as u64 {
                0
            } else {
                minutes - elapsed as usize
            };
            if left == 0 {
                1
            } else {
                left
            }
        } else {
            minutes
        }
    } else {
        0
    }
}

/// While the timer runs, the display shows between one minute and the
/// full setting.
pub proof fn lemma_shown_minutes_range(minutes: usize, start: u64, now: u64)
    requires
        minutes > 0,
    ensures
        1 <= shown_minutes(true, minutes, start, now) <= minutes,
{
}

/// Short presses keep the setting a multiple of ten from 0 to 90.
pub proof fn lemma_cycle_valid(minutes: int)
    requires
        valid_setting(minutes),
    ensures
        valid_setting(timer_cycle(minutes)),
{
}

/// Ten short presses bring any setting back to itself: the settings run
/// 90, 80, ... 10, off, and around again.
pub proof fn lemma_cycle_period(minutes: int)
    requires
        valid_setting(minutes),
    ensures
        cycle_times(minutes, 10) == minutes,
        forall|k: nat| 0 < k < 10 ==> #[trigger] cycle_times(minutes, k) != minutes,
{
    reveal_with_fuel(cycle_times, 11);
    let m = minutes;
    assert(m == 0 || m == 10 || m == 20 || m == 30 || m == 40 || m == 50 || m == 60 || m == 70
        || m == 80 || m == 90);
}

/// A press is either long enough to power off or short; a release after
/// a long hold is not a short press.
pub proof fn lemma_press_kinds(pressed_at: u64, now: u64)
    requires
        pressed_at != 0,
    ensures
        long_press(pressed_at, now) != short_press(pressed_at, now),
{
}


/// Once the countdown has started, the display shows the setting less the
/// whole minutes elapsed since the start, but never less than one; before
/// the start time (clock set back) it shows the full setting.
pub proof fn lemma_shown_minutes_countdown(minutes: usize, start: u64, now: u64)
    requires
        minutes > 0,
        start > 0,
    ensures
        now >= start ==> shown_minutes(true, minutes, start, now) == (if (now - start) / 60
            >= minutes {
            1
        } else {
            minutes - (now - start) / 60
        }),
        now < start ==> shown_minutes(true, minutes, start, now) == minutes,
        shown_minutes(true, minutes, start, start) == minutes,
{
}

/// The minutes shown never go up while time passes.
pub proof fn lemma_shown_minutes_never_increase(minutes: usize, start: u64, t1: u64, t2: u64)
    requires
        minutes > 0,
        start > 0,
        start <= t1 <= t2,
    ensures
        shown_minutes(true, minutes, start, t2) <= shown_minutes(true, minutes, start, t1),
{
    lemma_div_is_ordered((t1 - start) as int, (t2 - start) as int, 60);
}

/// The minutes shown are off by at most one from the exact minutes left:
/// after `60 * k` seconds exactly `k` minutes have gone.
pub proof fn lemma_shown_minutes_exact(minutes: usize, start: u64, k: u64)
    requires
        minutes > 0,
        start > 0,
        0 < k < minutes,
        start + 60 * k <= u64::MAX,
    ensures
        shown_minutes(true, minutes, start, (start + 60 * k) as u64) == minutes - k,
{
    assert((60 * k) as int / 60 == k) by (nonlinear_arith);
}

} // verus!
