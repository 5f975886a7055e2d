//! The fixed-rate round loop: counters, pacing and the final summary.
//!
//! The loop itself blocks on sockets and clocks and so lives outside this
//! library; everything it decides — the sequence number of the next round,
//! when to stop, how long to sleep, what the summary says — is computed
//! here, on plain values.

use vstd::prelude::*;
use vstd::arithmetic::div_mod::lemma_add_mod_noop_right;

verus! {

/// The counters of one run. The transmitted count is the number of rounds
/// that completed a send, whether or not a reply arrived; the sequence
/// number is the one the next round will carry, wrapping at 65536.
#[derive(PartialEq, Eq, Structural, Clone, Copy, Debug)]
pub struct RunStatistics {
    pub sequence: u16,
    pub transmitted: u64,
    pub received: u64,
}

/// The counters a run starts with.
pub open spec fn initial_statistics() -> RunStatistics {
    RunStatistics { sequence: 0, transmitted: 0, received: 0 }
}

/// What recording one finished round does to the counters: the round was
/// sent, so the transmitted count grows by one and the sequence number
/// steps on, wrapping; the received count grows only on a matched round.
pub open spec fn record_round_spec(s: RunStatistics, matched: bool) -> RunStatistics {
    RunStatistics {
        sequence: (((s.sequence as int) + 1) % 0x10000) as u16,
        transmitted: ((s.transmitted as int) + 1) as u64,
        received: if matched {
            ((s.received as int) + 1) as u64
        } else {
            s.received
        },
    }
}

/// When the loop stops: on cancellation, or when a non-zero count of
/// rounds has been transmitted.
pub open spec fn should_stop_spec(s: RunStatistics, count: u16, cancelled: bool) -> bool {
    cancelled || (count != 0 && s.transmitted >= count)
}

impl RunStatistics {
    /// The counters agree with each other, from the fresh state through
    /// every recorded round.
    pub open spec fn wf(self) -> bool {
        &&& self.received <= self.transmitted
        &&& self.sequence as int == self.transmitted as int % 0x10000
    }

    /// Fresh counters for a new run.
    pub fn new() -> (r: RunStatistics)
        ensures
            r == initial_statistics(),
            r.wf(),
    {
        RunStatistics { sequence: 0, transmitted: 0, received: 0 }
    }

    /// Records one finished round; see [`record_round_spec`].
    pub fn record_round(&mut self, matched: bool)
        requires
            old(self).wf(),
            old(self).transmitted < u64::MAX,
        ensures
            *final(self) == record_round_spec(*old(self), matched),
            final(self).wf(),
            final(self).transmitted == old(self).transmitted + 1,
            final(self).received == old(self).received + (if matched { 1int } else { 0int }),
    {
        proof {
            lemma_add_mod_noop_right(1, old(self).transmitted as int, 0x10000);
        }
        self.sequence = if self.sequence == 0xFFFF {
            0
        } else {
            self.sequence + 1
        };
        self.transmitted = self.transmitted + 1;
        if matched {
            self.received = self.received + 1;
        }
    }

    /// Whether the loop is over; see [`should_stop_spec`].
    pub fn should_stop(&self, count: u16, cancelled: bool) -> (r: bool)
        ensures
            r == should_stop_spec(*self, count, cancelled),
    {
        cancelled || (count != 0 && self.transmitted >= count as u64)
    }

    /// The closing summary of a unicast run. At least one round must have
    /// been sent: the loss share divides by the transmitted count.
    pub fn summarize(&self, elapsed_millis: u128) -> (r: RunSummary)
        requires
            self.wf(),
            0 < self.transmitted,
        ensures
            r.transmitted == self.transmitted,
            r.received == self.received,
            r.loss == (self.transmitted - self.received) as u64 / self.transmitted,
            r.elapsed_millis == elapsed_millis,
    {
        RunSummary {
            transmitted: self.transmitted,
            received: self.received,
            loss: loss_share(self.transmitted, self.received),
            elapsed_millis,
        }
    }
}

/// What the end of a unicast run reports: the two counters, the loss share
/// and the elapsed wall-clock time.
#[derive(PartialEq, Eq, Structural, Clone, Copy, Debug)]
pub struct RunSummary {
    pub transmitted: u64,
    pub received: u64,
    pub loss: u64,
    pub elapsed_millis: u128,
}

/// The loss figure of the summary line: the unanswered share of the
/// transmitted rounds, integer-truncated.
pub fn loss_share(transmitted: u64, received: u64) -> (r: u64)
    requires
        0 < transmitted,
        received <= transmitted,
    ensures
        r == (transmitted - received) as u64 / transmitted,
{
    (transmitted - received) / transmitted
}

/// How long to sleep once a round is done: whatever the round's cost left
/// of the interval, `max(0, interval - cost)`. A round that outran the
/// interval earns no sleep, and the next round starts at once.
pub fn sleep_budget_micros(interval_micros: u64, cost_micros: u64) -> (r: u64)
    ensures
        r as int == if cost_micros < interval_micros {
            interval_micros - cost_micros
        } else {
            0int
        },
{
    if cost_micros < interval_micros {
        interval_micros - cost_micros
    } else {
        0
    }
}

/// The counters after a whole run of rounds, each entry telling whether
/// its round was matched.
pub open spec fn replay(rounds: Seq<bool>) -> RunStatistics
    decreases rounds.len(),
{
    if rounds.len() == 0 {
        initial_statistics()
    } else {
        record_round_spec(replay(rounds.drop_last()), rounds.last())
    }
}

/// How many rounds of a run were matched.
pub open spec fn count_matched(rounds: Seq<bool>) -> int
    decreases rounds.len(),
{
    if rounds.len() == 0 {
        0
    } else {
        count_matched(rounds.drop_last()) + if rounds.last() {
            1int
        } else {
            0int
        }
    }
}

/// Sequence monotonicity: across any run of consecutive rounds the
/// sequence numbers sent are exactly 0, 1, … n−1 modulo 65536 — after n
/// rounds the next sequence number is n mod 65536, the transmitted count
/// is n, and the received count is the number of matched rounds.
pub proof fn lemma_sequence_monotonic(rounds: Seq<bool>)
    requires
        rounds.len() <= u64::MAX,
    ensures
        replay(rounds).transmitted == rounds.len(),
        replay(rounds).sequence as int == rounds.len() as int % 0x10000,
        replay(rounds).received == count_matched(rounds),
        replay(rounds).wf(),
    decreases rounds.len(),
{
    if rounds.len() > 0 {
        lemma_sequence_monotonic(rounds.drop_last());
        lemma_add_mod_noop_right(1, rounds.len() as int - 1, 0x10000);
    }
}

/// A matched round raises the received counter by exactly one; an
/// unmatched round leaves it unchanged.
pub proof fn lemma_matched_round_counts(s: RunStatistics)
    requires
        s.wf(),
        s.transmitted < u64::MAX,
    ensures
        record_round_spec(s, true).received == s.received + 1,
        record_round_spec(s, false).received == s.received,
{
}

/// Bounded run: with a non-zero count and no cancellation, the loop does
/// not stop while fewer rounds than the count have been sent, and stops as
/// soon as the count is reached.
pub proof fn lemma_bounded_run(rounds: Seq<bool>, count: u16)
    requires
        0 < count,
        rounds.len() <= count,
    ensures
        rounds.len() < count ==> !should_stop_spec(replay(rounds), count, false),
        rounds.len() == count ==> should_stop_spec(replay(rounds), count, false),
{
    lemma_sequence_monotonic(rounds);
}

} // verus!
