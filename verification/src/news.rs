//! The news window: a range of minutes within each hour during which the
//! news stream replaces the chosen station.

use vstd::prelude::*;
use crate::playlist::line_views;
use crate::text::{chars_of, parse_decimal, parse_usize, trim, trim_chars};

verus! {

/// The minute within the current hour of a Unix time in seconds.
pub open spec fn minute_of_hour(now: u64) -> u64 {
    (now % 3600) / 60
}

/// Whether `minute` falls in the window from `start` (included) to `end`
/// (excluded); a window whose start is after its end wraps past the hour.
pub open spec fn in_window(minute: int, start: int, end: int) -> bool {
    if start <= end {
        start <= minute < end
    } else {
        minute >= start || minute < end
    }
}

/// The news is due at time `now` when it is enabled and the minute of the
/// hour falls in the window.
pub open spec fn news_due(enabled: bool, now: u64, start: usize, end: usize) -> bool {
    enabled && in_window(minute_of_hour(now) as int, start as int, end as int)
}

/// The minute within the current hour of `now` (seconds since the epoch).
pub fn news_minute(now: u64) -> (m: u64)
    ensures
        m == minute_of_hour(now),
        m < 60,
{
    (now % 3600) / 60
}

/// Whether `minute` falls in the news window.
pub fn in_news_window(minute: u64, start: u64, end: u64) -> (b: bool)
    ensures
        b == in_window(minute as int, start as int, end as int),
{
    if start <= end {
        minute >= start && minute < end
    } else {
        minute >= start || minute < end
    }
}

/// Whether the news stream should play at time `now`.
pub fn should_play_news(enabled: bool, now: u64, start: usize, end: usize) -> (b: bool)
    ensures
        b == news_due(enabled, now, start, end),
{
    if enabled {
        in_news_window(news_minute(now), start as u64, end as u64)
    } else {
        false
    }
}

/// A window that starts where it ends holds no minute.
pub proof fn lemma_empty_window(minute: int, start: int)
    ensures
        !in_window(minute, start, start),
{
}

/// Swapping the start and end of a non-empty window gives its complement:
/// every minute falls in exactly one of the two.
pub proof fn lemma_window_complement(minute: int, start: int, end: int)
    requires
        start != end,
    ensures
        in_window(minute, start, end) == !in_window(minute, end, start),
{
}

/// The start and end minutes of the news window.
#[derive(Clone, Copy, Debug, PartialEq, Eq, Structural)]
pub struct NewsWindow {
    pub start_minute: usize,
    pub end_minute: usize,
}

/// The window used when no configuration says otherwise: the first five
/// minutes of each hour.
pub open spec fn default_window() -> NewsWindow {
    NewsWindow { start_minute: 0, end_minute: 5 }
}

/// The lines that hold more than whitespace, in order.
pub open spec fn nonblank(lines: Seq<Seq<char>>) -> Seq<Seq<char>>
    decreases lines.len(),
{
    if lines.len() == 0 {
        Seq::empty()
    } else if trim(lines.last()).len() == 0 {
        nonblank(lines.drop_last())
    } else {
        nonblank(lines.drop_last()).push(lines.last())
    }
}

/// The number on the `i`-th non-blank line, or `default` when there is no
/// such line or it is not a number.
pub open spec fn config_value(lines: Seq<Seq<char>>, i: int, default: usize) -> usize {
    let nb = nonblank(lines);
    if nb.len() > i {
        match parse_usize(trim(nb[i])) {
            Some(v) => v,
            None => default,
        }
    } else {
        default
    }
}

/// The window that a configuration file sets: its first non-blank line is
/// the start minute (0 when missing or not a number), its second the end
/// minute (5 when missing or not a number).
pub open spec fn window_of_config(lines: Seq<Seq<char>>) -> NewsWindow {
    NewsWindow { start_minute: config_value(lines, 0, 0), end_minute: config_value(lines, 1, 5) }
}

fn number_or(line: &String, default: usize) -> (v: usize)
    ensures
        v == match parse_usize(trim(line@)) {
            Some(n) => n,
            None => default,
        },
{
    let cs = chars_of(line.as_str());
    let t = trim_chars(cs.as_slice());
    match parse_decimal(t.as_slice()) {
        Some(n) => n,
        None => default,
    }
}

/// The news window from the lines of the configuration file, or the
/// default window when the file could not be opened (`None`).
pub fn news_window_from_config(lines: Option<&[String]>) -> (w: NewsWindow)
    ensures
        w == match lines {
            Some(ls) => window_of_config(line_views(ls@)),
            None => default_window(),
        },
{
    match lines {
        None => NewsWindow { start_minute: 0, end_minute: 5 },
        Some(ls) => {
            let mut nb: Vec<String> = Vec::new();
            let mut i: usize = 0;
            while i < ls.len()
                invariant
                    i <= ls.len(),
                    line_views(nb@) == nonblank(line_views(ls@.take(i as int))),
                decreases ls.len() - i,
            {
                let cs = chars_of(ls[i].as_str());
                let t = trim_chars(cs.as_slice());
                if t.len() > 0 {
                    nb.push(ls[i].clone());
                }
                proof {
                    let taken = line_views(ls@.take(i + 1));
                    assert(taken.drop_last() =~= line_views(ls@.take(i as int)));
                    assert(taken.last() == ls@[i as int]@);
                    assert(line_views(nb@) =~= nonblank(taken));
                }
                i = i + 1;
            }
            assert(ls@.take(ls.len() as int) =~= ls@);
            let start = if nb.len() >= 1 {
                number_or(&nb[0], 0)
            } else {
                0
            };
            let end = if nb.len() >= 2 {
                number_or(&nb[1], 5)
            } else {
                5
            };
            proof {
                if nb.len() >= 1 {
                    assert(line_views(nb@)[0] == nb@[0]@);
                }
                if nb.len() >= 2 {
                    assert(line_views(nb@)[1] == nb@[1]@);
                }
            }
            NewsWindow { start_minute: start, end_minute: end }
        },
    }
}

} // verus!
