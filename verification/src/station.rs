//! Moving through the station list with the next and previous buttons.

use vstd::prelude::*;
use vstd::arithmetic::div_mod::{lemma_add_mod_noop_right, lemma_mod_add_multiples_vanish, lemma_mod_self_0, lemma_small_mod};

verus! {

/// The station after `i` in a list of `n`, wrapping to the first.
pub open spec fn next_index(i: int, n: int) -> int {
    (i + 1) % n
}

/// The station before `i` in a list of `n`, wrapping to the last.
pub open spec fn prev_index(i: int, n: int) -> int {
    if i == 0 {
        n - 1
    } else {
        i - 1
    }
}

/// `next_index` applied `k` times.
pub open spec fn advance(i: int, n: int, k: nat) -> int
    decreases k,
{
    if k == 0 {
        i
    } else {
        next_index(advance(i, n, (k - 1) as nat), n)
    }
}

/// The station after `current` in a list of `count` stations.
pub fn next_station(current: usize, count: usize) -> (next: usize)
    requires
        current < count,
    ensures
        next == next_index(current as int, count as int),
        next < count,
{
    (current + 1) % count
}

/// The station before `current` in a list of `count` stations.
pub fn prev_station(current: usize, count: usize) -> (prev: usize)
    requires
        current < count,
    ensures
        prev == prev_index(current as int, count as int),
        prev < count,
{
    if current == 0 {
        count - 1
    } else {
        current - 1
    }
}

/// The stored index when it names a station, else the first station.
pub open spec fn start_index(stored: usize, count: usize) -> usize {
    if stored < count {
        stored
    } else {
        0
    }
}

/// The station to start with, given the index read from the file and the
/// number of stations; the flag tells whether the index had to be reset
/// (and so written back).
pub fn starting_station(stored: usize, count: usize) -> (r: (usize, bool))
    requires
        count > 0,
    ensures
        r.0 == start_index(stored, count),
        r.0 < count,
        r.1 == (stored >= count),
{
    if stored >= count {
        (0, true)
    } else {
        (stored, false)
    }
}

/// Going forward and then back, or back and then forward, returns to the
/// same station.
pub proof fn lemma_next_prev_inverse(i: int, n: int)
    requires
        0 <= i < n,
    ensures
        0 <= next_index(i, n) < n,
        0 <= prev_index(i, n) < n,
        prev_index(next_index(i, n), n) == i,
        next_index(prev_index(i, n), n) == i,
{
    if i + 1 < n {
        lemma_small_mod((i + 1) as nat, n as nat);
    } else {
        lemma_mod_self_0(n);
    }
    if i == 0 {
        lemma_mod_self_0(n);
    } else {
        lemma_small_mod(i as nat, n as nat);
    }
}

/// Pressing next `k` times moves `k` stations forward, wrapping around.
pub proof fn lemma_advance(i: int, n: int, k: nat)
    requires
        0 <= i < n,
    ensures
        advance(i, n, k) == (i + k) % n,
    decreases k,
{
    if k > 0 {
        lemma_advance(i, n, (k - 1) as nat);
        lemma_add_mod_noop_right(1, i + k - 1, n);
        assert(advance(i, n, k) == ((i + k - 1) % n + 1) % n);
        assert(1 + (i + k - 1) == i + k);
    } else {
        lemma_small_mod(i as nat, n as nat);
    }
}

/// Pressing next once per station brings the radio back to where it was.
pub proof fn lemma_full_round(i: int, n: int)
    requires
        0 <= i < n,
    ensures
        advance(i, n, n as nat) == i,
{
    lemma_advance(i, n, n as nat);
    lemma_mod_add_multiples_vanish(i, n);
    lemma_small_mod(i as nat, n as nat);
    assert(n + i == i + n);
}

} // verus!
