//! Schedule of the periodic peer-discovery rounds.
//!
//! Each chain runs its own discovery loop: wait some delay, then trigger one
//! discovery round. The delay starts at five seconds and doubles after every
//! round, capped at two minutes, whatever the outcome of the round was.

use vstd::prelude::*;

verus! {

/// Seconds to wait before the first discovery round.
pub const INITIAL_DISCOVERY_DELAY_SECS: u64 = 5;

/// Upper bound, in seconds, on the delay between two discovery rounds.
pub const MAX_DISCOVERY_DELAY_SECS: u64 = 120;

/// Delay, in seconds, waited before the discovery round numbered `round`
/// (rounds are numbered from 0): 5 before the first round, doubling after
/// each round, capped at 120.
pub open spec fn discovery_delay(round: nat) -> nat
    decreases round,
{
    if round == 0 {
        5
    } else if 2 * discovery_delay((round - 1) as nat) >= 120 {
        120
    } else {
        2 * discovery_delay((round - 1) as nat)
    }
}

/// Timer state of one chain's discovery loop.
///
/// `advance` takes no argument describing the outcome of the round: the
/// schedule is the same whether the round succeeded or failed.
pub struct DiscoveryTimer {
    next_delay: u64,
    round: Ghost<nat>,
}

impl DiscoveryTimer {
    /// Number of rounds already waited for.
    pub closed spec fn round(self) -> nat {
        self.round@
    }

    /// The delay matches the schedule for the current round.
    pub closed spec fn wf(self) -> bool {
        self.next_delay == discovery_delay(self.round@)
    }

    /// A fresh timer, about to wait for round 0.
    pub fn new() -> (t: DiscoveryTimer)
        ensures
            t.wf(),
            t.round() == 0,
    {
        DiscoveryTimer { next_delay: INITIAL_DISCOVERY_DELAY_SECS, round: Ghost(0) }
    }

    /// Seconds to wait before the next discovery round.
    pub fn wait_secs(&self) -> (d: u64)
        requires
            self.wf(),
        ensures
            d == discovery_delay(self.round()),
    {
        self.next_delay
    }

    /// Move on to the next round: the delay doubles, capped at 120 seconds.
    pub fn advance(&mut self)
        requires
            old(self).wf(),
        ensures
            final(self).wf(),
            final(self).round() == old(self).round() + 1,
    {
        proof {
            lemma_discovery_delay_bounded(self.round@);
        }
        if self.next_delay >= 60 {
            self.next_delay = MAX_DISCOVERY_DELAY_SECS;
        } else {
            self.next_delay = 2 * self.next_delay;
        }
        proof {
            self.round@ = self.round@ + 1;
        }
    }
}

/// Every delay of the schedule lies between 5 and 120 seconds.
pub proof fn lemma_discovery_delay_bounded(round: nat)
    ensures
        5 <= discovery_delay(round) <= 120,
    decreases round,
{
    if round > 0 {
        lemma_discovery_delay_bounded((round - 1) as nat);
    }
}

/// The discovery delays, from the first round on, are
/// 5, 10, 20, 40, 80, 120, 120, 120, ... seconds: the delay doubles after
/// each round until it reaches the two-minute cap, and stays there.
pub proof fn lemma_discovery_delay_schedule(round: nat)
    ensures
        discovery_delay(0) == 5,
        discovery_delay(1) == 10,
        discovery_delay(2) == 20,
        discovery_delay(3) == 40,
        discovery_delay(4) == 80,
        round >= 5 ==> discovery_delay(round) == 120,
    decreases round,
{
    reveal_with_fuel(discovery_delay, 6);
    if round > 5 {
        lemma_discovery_delay_schedule((round - 1) as nat);
    }
}

} // verus!
