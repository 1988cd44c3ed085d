//! The file that remembers the last station played: one decimal index and a
//! newline.

use vstd::prelude::*;
use crate::text::{chars_of, decimal, is_space, lemma_decimal, parse_decimal, parse_usize, push_char, push_decimal, trim, trim_chars, trim_end, trim_start};

verus! {

/// What the file holds for station `index`.
pub open spec fn station_record(index: usize) -> Seq<char> {
    decimal(index as nat).push('\n')
}

/// The index that the first line of the file names, if it names one.
pub open spec fn index_of_line(line: Seq<char>) -> Option<usize> {
    parse_usize(trim(line))
}

/// The text to write to the file for station `index`.
pub fn station_index_record(index: usize) -> (text: String)
    ensures
        text@ == station_record(index),
{
    let mut text = String::new();
    push_decimal(&mut text, index as u64);
    push_char(&mut text, '\n');
    text
}

/// The station index that the first line of the file names: the trimmed line
/// read as a `usize`. `None` when the file has no first line or the line is
/// not a number; the caller then starts from station 0 and rewrites the file.
pub fn read_station_index(first_line: Option<&str>) -> (index: Option<usize>)
    ensures
        index == match first_line {
            Some(l) => index_of_line(l@),
            None => None,
        },
{
    match first_line {
        Some(l) => {
            let cs = chars_of(l);
            let t = trim_chars(cs.as_slice());
            parse_decimal(t.as_slice())
        },
        None => None,
    }
}

/// The station to start from given the first line of the file (`None` when
/// the file is missing or has no readable first line), and whether the file
/// must be rewritten: a line naming an index gives that index and leaves the
/// file alone; anything else starts from station 0 and rewrites the file
/// with `station_record(0)`.
pub fn stored_or_reset(first_line: Option<&str>) -> (r: (usize, bool))
    ensures
        r == match first_line {
            Some(l) => match index_of_line(l@) {
                Some(i) => (i, false),
                None => (0usize, true),
            },
            None => (0usize, true),
        },
{
    match read_station_index(first_line) {
        Some(i) => (i, false),
        None => (0, true),
    }
}

proof fn lemma_digits_untrimmed(s: Seq<char>)
    requires
        s.len() > 0,
        forall|i: int| 0 <= i < s.len() ==> !is_space(#[trigger] s[i]),
    ensures
        trim(s) == s,
{
    assert(trim_start(s) == s);
    assert(trim_end(s) == s);
}

/// The first line of what is written for a station reads back as that
/// station: the record is the decimal index followed by the only newline,
/// and the text before that newline parses to the index.
pub proof fn lemma_station_record_roundtrip(index: usize)
    ensures
        station_record(index).len() == decimal(index as nat).len() + 1,
        station_record(index).last() == '\n',
        forall|j: int|
            0 <= j < decimal(index as nat).len() ==> #[trigger] station_record(index)[j] != '\n',
        index_of_line(station_record(index).drop_last()) == Some(index),
{
    let d = decimal(index as nat);
    lemma_decimal(index as nat);
    assert(station_record(index).drop_last() =~= d);
    assert forall|j: int| 0 <= j < d.len() implies !is_space(#[trigger] d[j]) by {
        assert(crate::text::is_digit(d[j]));
    }
    lemma_digits_untrimmed(d);
    assert forall|j: int| 0 <= j < d.len() implies #[trigger] station_record(index)[j] != '\n' by {
        assert(station_record(index)[j] == d[j]);
        assert(crate::text::is_digit(d[j]));
    }
}

} // verus!
