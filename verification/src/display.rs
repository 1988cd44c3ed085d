//! The two lines of the 16x2 display: station number and name on the
//! first, news flag, timer and clock on the second.

use vstd::prelude::*;
use crate::text::{utf8_len, lemma_byte_len_concat, lemma_take_bytes_len, lemma_two_digits, byte_len, byte_len_exceeds, char_boundary, chars_of, decimal, is_char_boundary, pad_left, prefix_within_bytes, push_char, push_chars, push_padded, string_of, take_bytes};

verus! {

/// The width of the display, in bytes.
pub const LCD_WIDTH: usize = 16;

/// Two decimal digits, zero-padded.
pub open spec fn two_digits(n: nat) -> Seq<char> {
    pad_left(decimal(n), 2, '0')
}

/// `hh:mm:ss` of a Unix time in seconds, in UTC.
pub open spec fn clock_of(now: u64) -> Seq<char> {
    two_digits(((now / 3600) % 24) as nat) + seq![':'] + two_digits(((now / 60) % 60) as nat)
        + seq![':'] + two_digits((now % 60) as nat)
}

/// The name shown for a station without one.
pub open spec fn unknown_name() -> Seq<char> {
    "Desconocida"@
}

/// The name of station `index`, or the placeholder when the list has none.
pub open spec fn name_for(index: usize, names: Seq<Seq<char>>) -> Seq<char> {
    if index < names.len() {
        names[index as int]
    } else {
        unknown_name()
    }
}

/// A name that fits the line: names longer than 16 bytes are cut to their
/// first 13 bytes followed by `...`.
pub open spec fn shortened(name: Seq<char>) -> Seq<char> {
    if byte_len(name) > 16 {
        take_bytes(name, 13) + seq!['.', '.', '.']
    } else {
        name
    }
}

/// The first line: the station number (from 1, padded to two places), a
/// dash, and the shortened name.
pub open spec fn line_one(index: usize, names: Seq<Seq<char>>) -> Seq<char> {
    pad_left(decimal(index as nat + 1), 2, ' ') + seq!['-'] + shortened(name_for(index, names))
}

/// The timer field: the minutes left, two digits and `m`, or three blanks
/// when the timer is off.
pub open spec fn timer_field(active: bool, minutes: usize) -> Seq<char> {
    if active && minutes > 0 {
        two_digits(minutes as nat).push('m')
    } else {
        seq![' ', ' ', ' ']
    }
}

/// The second line before it is cut to the display width: `N` when the
/// news is on (else a blank), a blank, the timer field, three blanks and
/// the clock.
pub open spec fn line_two_full(news_enabled: bool, active: bool, minutes: usize, clock: Seq<char>) -> Seq<char> {
    seq![if news_enabled { 'N' } else { ' ' }, ' '] + timer_field(active, minutes) + seq![' ', ' ', ' ']
        + clock
}

/// The second line: the full line cut to 16 bytes.
pub open spec fn line_two(news_enabled: bool, active: bool, minutes: usize, clock: Seq<char>) -> Seq<char> {
    let full = line_two_full(news_enabled, active, minutes, clock);
    if byte_len(full) > 16 {
        take_bytes(full, 16)
    } else {
        full
    }
}

/// The inputs on which the lines can be made: the station number fits in a
/// `usize`, and each cut falls between characters.
pub open spec fn lines_defined(
    index: usize,
    names: Seq<Seq<char>>,
    news_enabled: bool,
    active: bool,
    minutes: usize,
    clock: Seq<char>,
) -> bool {
    &&& index < usize::MAX
    &&& byte_len(name_for(index, names)) > 16 ==> is_char_boundary(name_for(index, names), 13)
    &&& byte_len(line_two_full(news_enabled, active, minutes, clock)) > 16 ==> is_char_boundary(
        line_two_full(news_enabled, active, minutes, clock),
        16,
    )
}

/// `hh:mm:ss` of `now` (seconds since the epoch), in UTC.
pub fn clock_text(now: u64) -> (t: String)
    ensures
        t@ == clock_of(now),
{
    let mut t = String::new();
    push_padded(&mut t, (now / 3600) % 24, 2, '0');
    push_char(&mut t, ':');
    push_padded(&mut t, (now / 60) % 60, 2, '0');
    push_char(&mut t, ':');
    push_padded(&mut t, now % 60, 2, '0');
    t
}

fn name_chars(index: usize, names: &[String]) -> (cs: Vec<char>)
    ensures
        cs@ == name_for(index, names@.map_values(|s: String| s@)),
{
    if index < names.len() {
        chars_of(names[index].as_str())
    } else {
        chars_of("Desconocida")
    }
}

fn shorten(name: Vec<char>) -> (s: Vec<char>)
    ensures
        s@ == shortened(name@),
{
    if byte_len_exceeds(name.as_slice(), 16) {
        let mut p = prefix_within_bytes(name.as_slice(), 13);
        p.push('.');
        p.push('.');
        p.push('.');
        assert(p@ =~= take_bytes(name@, 13) + seq!['.', '.', '.']);
        p
    } else {
        name
    }
}

fn full_second_line(news_enabled: bool, active: bool, minutes: usize, clock: &str) -> (cs: Vec<char>)
    ensures
        cs@ == line_two_full(news_enabled, active, minutes, clock@),
{
    let mut s = String::new();
    push_char(&mut s, if news_enabled { 'N' } else { ' ' });
    push_char(&mut s, ' ');
    if active && minutes > 0 {
        push_padded(&mut s, minutes as u64, 2, '0');
        push_char(&mut s, 'm');
    } else {
        push_char(&mut s, ' ');
        push_char(&mut s, ' ');
        push_char(&mut s, ' ');
    }
    push_char(&mut s, ' ');
    push_char(&mut s, ' ');
    push_char(&mut s, ' ');
    s.append(clock);
    let cs = chars_of(s.as_str());
    assert(cs@ =~= line_two_full(news_enabled, active, minutes, clock@));
    cs
}

/// The two lines shown for station `index` (counted from 0) among the
/// station `names`, with the news flag, the timer and the clock text.
pub fn lcd_lines(
    index: usize,
    names: &[String],
    news_enabled: bool,
    timer_active: bool,
    timer_minutes: usize,
    clock: &str,
) -> (lines: (String, String))
    requires
        lines_defined(
            index,
            names@.map_values(|s: String| s@),
            news_enabled,
            timer_active,
            timer_minutes,
            clock@,
        ),
    ensures
        lines.0@ == line_one(index, names@.map_values(|s: String| s@)),
        lines.1@ == line_two(news_enabled, timer_active, timer_minutes, clock@),
{
    let short = shorten(name_chars(index, names));
    let mut first = String::new();
    push_padded(&mut first, (index + 1) as u64, 2, ' ');
    push_char(&mut first, '-');
    push_chars(&mut first, short.as_slice());
    let full = full_second_line(news_enabled, timer_active, timer_minutes, clock);
    let second = if byte_len_exceeds(full.as_slice(), 16) {
        let p = prefix_within_bytes(full.as_slice(), 16);
        string_of(p.as_slice())
    } else {
        string_of(full.as_slice())
    };
    (first, second)
}

/// The two lines, or `None` on the inputs where they cannot be made (a cut
/// that would split a character, or a station number past `usize::MAX`).
pub fn lcd_lines_checked(
    index: usize,
    names: &[String],
    news_enabled: bool,
    timer_active: bool,
    timer_minutes: usize,
    clock: &str,
) -> (lines: Option<(String, String)>)
    ensures
        lines is Some == lines_defined(
            index,
            names@.map_values(|s: String| s@),
            news_enabled,
            timer_active,
            timer_minutes,
            clock@,
        ),
        lines matches Some(l) ==> l.0@ == line_one(index, names@.map_values(|s: String| s@)) && l.1@
            == line_two(news_enabled, timer_active, timer_minutes, clock@),
{
    if index == usize::MAX {
        return None;
    }
    let name = name_chars(index, names);
    if byte_len_exceeds(name.as_slice(), 16) && !char_boundary(name.as_slice(), 13) {
        return None;
    }
    let full = full_second_line(news_enabled, timer_active, timer_minutes, clock);
    if byte_len_exceeds(full.as_slice(), 16) && !char_boundary(full.as_slice(), 16) {
        return None;
    }
    Some(lcd_lines(index, names, news_enabled, timer_active, timer_minutes, clock))
}

/// The second line never takes more than the display's 16 bytes.
pub proof fn lemma_line_two_fits(news_enabled: bool, active: bool, minutes: usize, clock: Seq<char>)
    ensures
        byte_len(line_two(news_enabled, active, minutes, clock)) <= 16,
{
    lemma_take_bytes_len(line_two_full(news_enabled, active, minutes, clock), 16);
}


/// The clock text is always eight characters, `hh:mm:ss`.
pub proof fn lemma_clock_len(now: u64)
    ensures
        clock_of(now).len() == 8,
        clock_of(now)[2] == ':',
        clock_of(now)[5] == ':',
{
    lemma_two_digits(((now / 3600) % 24) as nat);
    lemma_two_digits(((now / 60) % 60) as nat);
    lemma_two_digits((now % 60) as nat);
}

/// A shortened name takes at most 16 bytes.
pub proof fn lemma_shortened_fits(name: Seq<char>)
    ensures
        byte_len(shortened(name)) <= 16,
{
    if byte_len(name) > 16 {
        lemma_take_bytes_len(name, 13);
        lemma_byte_len_concat(take_bytes(name, 13), seq!['.', '.', '.']);
        reveal_with_fuel(byte_len, 4);
        assert(seq!['.', '.', '.'].drop_first() =~= seq!['.', '.']);
        assert(seq!['.', '.'].drop_first() =~= seq!['.']);
        assert(seq!['.'].drop_first() =~= Seq::<char>::empty());
    }
}


proof fn lemma_take_bytes_prefix(s: Seq<char>, n: nat)
    ensures
        take_bytes(s, n).len() <= s.len(),
        take_bytes(s, n) == s.take(take_bytes(s, n).len() as int),
    decreases s.len(),
{
    if s.len() > 0 && utf8_len(s[0]) <= n {
        let rest = take_bytes(s.drop_first(), (n - utf8_len(s[0])) as nat);
        lemma_take_bytes_prefix(s.drop_first(), (n - utf8_len(s[0])) as nat);
        assert(seq![s[0]] + rest =~= s.take(rest.len() as int + 1));
    } else {
        assert(Seq::<char>::empty() =~= s.take(0));
    }
}

/// A name of at most 16 bytes is shown whole; a longer one is shown as a
/// prefix of exactly 13 bytes followed by `...` (when byte 13 falls between
/// characters).
pub proof fn lemma_shortened_name(name: Seq<char>)
    ensures
        byte_len(name) <= 16 ==> shortened(name) == name,
        byte_len(name) > 16 && is_char_boundary(name, 13) ==> exists|k: int|
            0 <= k <= name.len() && byte_len(name.take(k)) == 13 && shortened(name) == name.take(k)
                + seq!['.', '.', '.'],
{
    if byte_len(name) > 16 && is_char_boundary(name, 13) {
        lemma_take_bytes_prefix(name, 13);
        let k = take_bytes(name, 13).len() as int;
        assert(byte_len(name.take(k)) == 13);
    }
}

/// The first line is the station number from 1, padded to two places, a
/// dash, and the station's name whole when it has at most 16 bytes.
pub proof fn lemma_line_one_short_name(index: usize, names: Seq<Seq<char>>)
    requires
        index < names.len(),
        byte_len(names[index as int]) <= 16,
    ensures
        line_one(index, names) == pad_left(decimal(index as nat + 1), 2, ' ') + seq!['-']
            + names[index as int],
{
    lemma_shortened_name(names[index as int]);
}

} // verus!
