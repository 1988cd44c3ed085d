//! The M3U station list: stream addresses and display names.

use vstd::prelude::*;
use crate::text::{is_space, lemma_trim_ends, chars_of, string_of, trim, trim_chars};

verus! {

/// The characters of each line.
pub open spec fn line_views(lines: Seq<String>) -> Seq<Seq<char>> {
    lines.map_values(|l: String| l@)
}

/// The stream address a line names: the trimmed line, unless it is empty
/// or a comment (starts with `#`).
pub open spec fn station_entry(line: Seq<char>) -> Option<Seq<char>> {
    let t = trim(line);
    if t.len() == 0 || t[0] == '#' {
        None
    } else {
        Some(t)
    }
}

/// The stream addresses of a playlist, in file order.
pub open spec fn stations_of(lines: Seq<Seq<char>>) -> Seq<Seq<char>>
    decreases lines.len(),
{
    if lines.len() == 0 {
        Seq::empty()
    } else {
        let before = stations_of(lines.drop_last());
        match station_entry(lines.last()) {
            Some(t) => before.push(t),
            None => before,
        }
    }
}

/// The marker that opens a station's display name.
pub open spec fn name_marker() -> Seq<char> {
    seq!['#', 'E', 'X', 'T', 'I', 'N', 'F', ':', '-', '1', ',']
}

/// The display name a line carries: what follows `#EXTINF:-1,` when the
/// line starts with it.
pub open spec fn name_entry(line: Seq<char>) -> Option<Seq<char>> {
    if line.len() >= name_marker().len() && line.take(name_marker().len() as int)
        == name_marker() {
        Some(line.skip(name_marker().len() as int))
    } else {
        None
    }
}

/// The display names of a playlist, in file order.
pub open spec fn names_of(lines: Seq<Seq<char>>) -> Seq<Seq<char>>
    decreases lines.len(),
{
    if lines.len() == 0 {
        Seq::empty()
    } else {
        let before = names_of(lines.drop_last());
        match name_entry(lines.last()) {
            Some(t) => before.push(t),
            None => before,
        }
    }
}

fn station_of_line(line: &String) -> (r: Option<String>)
    ensures
        match r {
            Some(s) => station_entry(line@) == Some(s@),
            None => station_entry(line@) is None,
        },
{
    let cs = chars_of(line.as_str());
    let t = trim_chars(cs.as_slice());
    if t.len() == 0 || t[0] == '#' {
        None
    } else {
        Some(string_of(t.as_slice()))
    }
}

/// The stream addresses of a playlist given as its lines: each line
/// trimmed, skipping empty lines and lines that start with `#`.
pub fn parse_stations(lines: &[String]) -> (stations: Vec<String>)
    ensures
        line_views(stations@) == stations_of(line_views(lines@)),
{
    let mut stations: Vec<String> = Vec::new();
    let mut i: usize = 0;
    while i < lines.len()
        invariant
            i <= lines.len(),
            line_views(stations@) == stations_of(line_views(lines@.take(i as int))),
        decreases lines.len() - i,
    {
        let ghost before = stations@;
        let entry = station_of_line(&lines[i]);
        match entry {
            Some(s) => {
                stations.push(s);
            },
            None => {},
        }
        proof {
            let taken = line_views(lines@.take(i + 1));
            assert(taken.drop_last() =~= line_views(lines@.take(i as int)));
            assert(taken.last() == lines@[i as int]@);
            assert(line_views(stations@) =~= stations_of(taken));
        }
        i = i + 1;
    }
    assert(lines@.take(lines.len() as int) =~= lines@);
    stations
}

fn name_of_line(line: &String) -> (r: Option<String>)
    ensures
        match r {
            Some(s) => name_entry(line@) == Some(s@),
            None => name_entry(line@) is None,
        },
{
    let cs = chars_of(line.as_str());
    let marker: Vec<char> = vec!['#', 'E', 'X', 'T', 'I', 'N', 'F', ':', '-', '1', ','];
    assert(marker@ =~= name_marker());
    if cs.len() < marker.len() {
        return None;
    }
    let mut k: usize = 0;
    while k < marker.len()
        invariant
            k <= marker.len() <= cs.len(),
            cs@ == line@,
            marker@ == name_marker(),
            forall|j: int| 0 <= j < k ==> cs@[j] == marker@[j],
        decreases marker.len() - k,
    {
        if cs[k] != marker[k] {
            assert(cs@.take(marker.len() as int)[k as int] != name_marker()[k as int]);
            assert(cs@.take(marker.len() as int) != name_marker());
            assert(name_entry(line@) is None);
            return None;
        }
        k = k + 1;
    }
    assert(cs@.take(marker.len() as int) =~= name_marker());
    let mut rest: Vec<char> = Vec::new();
    let mut i: usize = marker.len();
    while i < cs.len()
        invariant
            marker.len() <= i <= cs.len(),
            marker@ == name_marker(),
            rest@ == cs@.subrange(marker.len() as int, i as int),
        decreases cs.len() - i,
    {
        rest.push(cs[i]);
        i = i + 1;
        assert(rest@ =~= cs@.subrange(marker.len() as int, i as int));
    }
    assert(rest@ =~= cs@.skip(marker.len() as int));
    Some(string_of(rest.as_slice()))
}

/// The display names of a playlist given as its lines: the text after
/// `#EXTINF:-1,` on each line that starts with it.
pub fn parse_station_names(lines: &[String]) -> (names: Vec<String>)
    ensures
        line_views(names@) == names_of(line_views(lines@)),
{
    let mut names: Vec<String> = Vec::new();
    let mut i: usize = 0;
    while i < lines.len()
        invariant
            i <= lines.len(),
            line_views(names@) == names_of(line_views(lines@.take(i as int))),
        decreases lines.len() - i,
    {
        let entry = name_of_line(&lines[i]);
        match entry {
            Some(s) => {
                names.push(s);
            },
            None => {},
        }
        proof {
            let taken = line_views(lines@.take(i + 1));
            assert(taken.drop_last() =~= line_views(lines@.take(i as int)));
            assert(taken.last() == lines@[i as int]@);
            assert(line_views(names@) =~= names_of(taken));
        }
        i = i + 1;
    }
    assert(lines@.take(lines.len() as int) =~= lines@);
    names
}


/// The news stream: the first address of the news playlist, or nothing
/// (empty) when it has none.
pub open spec fn news_stream_of(news_stations: Seq<Seq<char>>) -> Seq<char> {
    if news_stations.len() == 0 {
        Seq::empty()
    } else {
        news_stations[0]
    }
}

/// The stream being played is the news when there is a news stream and
/// the two addresses are the same.
pub open spec fn plays_news(current: Seq<char>, news: Seq<char>) -> bool {
    news.len() > 0 && current == news
}

/// The news stream of the news playlist's addresses.
pub fn news_stream(news_stations: &[String]) -> (url: String)
    ensures
        url@ == news_stream_of(line_views(news_stations@)),
{
    if news_stations.len() == 0 {
        String::new()
    } else {
        news_stations[0].clone()
    }
}

/// Whether the stream at `current` is the news stream `news`.
pub fn is_playing_news(current: &str, news: &str) -> (b: bool)
    ensures
        b == plays_news(current@, news@),
{
    let c = chars_of(current);
    let n = chars_of(news);
    if n.len() == 0 || c.len() != n.len() {
        return false;
    }
    let mut i: usize = 0;
    while i < n.len()
        invariant
            i <= n.len() == c.len(),
            c@ == current@,
            n@ == news@,
            forall|j: int| 0 <= j < i ==> c@[j] == n@[j],
        decreases n.len() - i,
    {
        if c[i] != n[i] {
            return false;
        }
        i = i + 1;
    }
    assert(c@ =~= n@);
    true
}


/// No station address is empty, a comment, or has whitespace at either end.
pub proof fn lemma_stations_clean(lines: Seq<Seq<char>>)
    ensures
        forall|k: int|
            0 <= k < stations_of(lines).len() ==> {
                let s = #[trigger] stations_of(lines)[k];
                &&& s.len() > 0
                &&& s[0] != '#'
                &&& !is_space(s[0])
                &&& !is_space(s.last())
            },
    decreases lines.len(),
{
    if lines.len() > 0 {
        lemma_stations_clean(lines.drop_last());
        lemma_trim_ends(lines.last());
        let before = stations_of(lines.drop_last());
        assert forall|k: int| 0 <= k < stations_of(lines).len() implies {
            let s = #[trigger] stations_of(lines)[k];
            &&& s.len() > 0
            &&& s[0] != '#'
            &&& !is_space(s[0])
            &&& !is_space(s.last())
        } by {
            if k < before.len() {
                assert(stations_of(lines)[k] == before[k]);
            }
        }
    }
}

/// Every display name follows the `#EXTINF:-1,` marker on some line, and
/// there are never more names than lines.
pub proof fn lemma_names_from_marked_lines(lines: Seq<Seq<char>>)
    ensures
        names_of(lines).len() <= lines.len(),
        forall|k: int|
            0 <= k < names_of(lines).len() ==> exists|j: int|
                0 <= j < lines.len() && name_entry(#[trigger] lines[j]) == Some(
                    #[trigger] names_of(lines)[k],
                ),
    decreases lines.len(),
{
    if lines.len() > 0 {
        let rest = lines.drop_last();
        lemma_names_from_marked_lines(rest);
        assert forall|k: int| 0 <= k < names_of(lines).len() implies exists|j: int|
            0 <= j < lines.len() && name_entry(#[trigger] lines[j]) == Some(
                #[trigger] names_of(lines)[k],
            ) by {
            if k < names_of(rest).len() {
                assert(names_of(lines)[k] == names_of(rest)[k]);
                let j = choose|j: int|
                    0 <= j < rest.len() && name_entry(#[trigger] rest[j]) == Some(
                        #[trigger] names_of(rest)[k],
                    );
                assert(lines[j] == rest[j]);
            } else {
                assert(name_entry(lines[lines.len() - 1]) == Some(names_of(lines)[k]));
            }
        }
    }
}

} // verus!
