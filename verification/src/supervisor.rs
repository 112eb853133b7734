//! The connection supervisor's policy: which peer to try next, and what to
//! do when an attempt or a session ends.
//!
//! The policy is deliberately plain: each attempt's address is drawn at
//! random from the configured candidate set (no affinity across retries),
//! every failure or session end is followed by the same fixed cooldown (no
//! exponential backoff, no extra jitter), and the loop never gives up. The
//! supervisor loop itself — opening sockets, waiting out the cooldown —
//! runs outside the library and asks these functions for every decision.

use vstd::prelude::*;

use crate::entropy::choose_candidate;
use crate::RETRY_COOLDOWN_SECS;

verus! {

/// How one connection attempt, or the session it led to, ended.
#[derive(Clone, Copy, Debug, PartialEq, Eq, Structural)]
pub enum ConnectOutcome {
    /// The connection opened; a session ran until it closed.
    Connected,
    /// The connection was refused or failed outright.
    Refused,
    /// The attempt hit the connect timeout.
    TimedOut,
}

/// The supervisor's bookkeeping: the candidate peer set and how many
/// attempts have been made.
pub struct Supervisor {
    candidates: Vec<String>,
    attempts: u64,
}

impl Supervisor {
    /// The configured candidate addresses.
    pub closed spec fn candidates(&self) -> Seq<Seq<char>> {
        self.candidates@.map_values(|s: String| s@)
    }

    /// How many connection attempts have been started.
    pub closed spec fn attempts(&self) -> u64 {
        self.attempts
    }

    /// A supervisor is usable only with at least one candidate address;
    /// a configuration without one is rejected before any session starts.
    pub open spec fn wf(&self) -> bool {
        self.candidates().len() > 0
    }

    /// A fresh supervisor over the given candidate set.
    pub fn new(candidates: Vec<String>) -> (s: Supervisor)
        requires
            candidates@.len() > 0,
        ensures
            s.candidates() == candidates@.map_values(|c: String| c@),
            s.attempts() == 0,
            s.wf(),
    {
        Supervisor { candidates, attempts: 0 }
    }

    /// Start one more attempt: draw an address uniformly at random from the
    /// candidate set and count the attempt.
    pub fn next_attempt(&mut self) -> (addr: String)
        requires
            old(self).wf(),
            old(self).attempts() < u64::MAX,
        ensures
            final(self).wf(),
            final(self).candidates() == old(self).candidates(),
            final(self).attempts() == old(self).attempts() + 1,
            old(self).candidates().contains(addr@),
    {
        let addr = choose_candidate(&self.candidates);
        self.attempts = self.attempts + 1;
        addr
    }

    /// How many attempts have been started so far.
    pub fn attempt_count(&self) -> (n: u64)
        ensures
            n == self.attempts(),
    {
        self.attempts
    }

    /// The wait after an attempt, however it ended: always the same fixed
    /// cooldown, then retry. No outcome terminates the loop and none grows
    /// the delay.
    pub fn cooldown_after(&self, outcome: ConnectOutcome) -> (secs: u64)
        ensures
            secs == RETRY_COOLDOWN_SECS,
    {
        let _ = outcome;
        RETRY_COOLDOWN_SECS
    }
}

/// How many connection attempts a run of outcomes holds, counting every
/// attempt up to and including the first that connected.
pub open spec fn attempts_in_run(outcomes: Seq<ConnectOutcome>) -> nat
    decreases outcomes.len(),
{
    if outcomes.len() == 0 {
        0
    } else if outcomes[0] is Connected {
        1
    } else {
        1 + attempts_in_run(outcomes.drop_first())
    }
}

/// Reconnect behavior: a run of `n` consecutive connect failures followed
/// by a success makes exactly `n + 1` attempts before that success — one
/// per failure and one that connects, each after the same fixed cooldown.
pub proof fn lemma_reconnect_attempts(outcomes: Seq<ConnectOutcome>, n: int)
    requires
        0 <= n < outcomes.len(),
        forall|i: int| 0 <= i < n ==> !(#[trigger] outcomes[i] is Connected),
        outcomes[n] is Connected,
    ensures
        attempts_in_run(outcomes) == n + 1,
    decreases n,
{
    if n == 0 {
    } else {
        assert(!(outcomes[0] is Connected));
        let rest = outcomes.drop_first();
        assert forall|i: int| 0 <= i < n - 1 implies !(#[trigger] rest[i] is Connected) by {
            assert(rest[i] == outcomes[i + 1]);
        }
        assert(rest[n - 1] == outcomes[n]);
        lemma_reconnect_attempts(rest, n - 1);
    }
}

} // verus!
