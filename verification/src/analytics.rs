//! Baseline analytics: a precomputed snapshot of finished trips for a map,
//! and the counting queries the challenge modes compare live runs against.

use vstd::prelude::*;
use crate::duration::Duration;
use crate::scenario::{Agent, TripMode};

verus! {

/// How many of the recorded trips finished no later than `t`.
pub open spec fn finished_before_spec(trips: Seq<(Duration, TripMode)>, t: Duration) -> nat
    decreases trips.len(),
{
    if trips.len() == 0 {
        0
    } else {
        finished_before_spec(trips.drop_last(), t) + (if trips.last().0.micros <= t.micros {
            1nat
        } else {
            0
        })
    }
}

/// How many of the recorded trips of mode `m` finished no later than `t`.
pub open spec fn finished_of_mode_before_spec(
    trips: Seq<(Duration, TripMode)>,
    m: TripMode,
    t: Duration,
) -> nat
    decreases trips.len(),
{
    if trips.len() == 0 {
        0
    } else {
        finished_of_mode_before_spec(trips.drop_last(), m, t) + (if trips.last().0.micros
            <= t.micros && trips.last().1 == m {
            1nat
        } else {
            0
        })
    }
}

/// How many agents have departed by `t`.
pub open spec fn departed_spec(agents: Seq<Agent>, t: Duration) -> nat
    decreases agents.len(),
{
    if agents.len() == 0 {
        0
    } else {
        departed_spec(agents.drop_last(), t) + (if agents.last().depart.micros <= t.micros {
            1nat
        } else {
            0
        })
    }
}

/// How many agents of mode `m` have departed by `t`.
pub open spec fn departed_of_mode_spec(agents: Seq<Agent>, m: TripMode, t: Duration) -> nat
    decreases agents.len(),
{
    if agents.len() == 0 {
        0
    } else {
        departed_of_mode_spec(agents.drop_last(), m, t) + (if agents.last().depart.micros
            <= t.micros && agents.last().mode == m {
            1nat
        } else {
            0
        })
    }
}

/// The precomputed, deterministic metrics snapshot for a map: the trips the
/// baseline run finished, each with its completion time and mode.  An empty
/// snapshot stands in when none exists for the map.
pub struct Analytics {
    pub finished_trips: Vec<(Duration, TripMode)>,
}

impl Analytics {
    /// The empty snapshot.
    pub fn new() -> (a: Analytics)
        ensures
            a.finished_trips@.len() == 0,
    {
        Analytics { finished_trips: Vec::new() }
    }

    /// Counts the baseline trips finished no later than `t`.
    pub fn finished_before(&self, t: Duration) -> (n: usize)
        ensures
            n as nat == finished_before_spec(self.finished_trips@, t),
    {
        let len = self.finished_trips.len();
        let mut n: usize = 0;
        let mut i: usize = 0;
        while i < len
            invariant
                len == self.finished_trips@.len(),
                i <= len,
                n <= i,
                n as nat == finished_before_spec(self.finished_trips@.take(i as int), t),
            decreases len - i,
        {
            proof {
                assert(self.finished_trips@.take(i + 1).drop_last() =~= self.finished_trips@.take(
                    i as int,
                ));
            }
            if self.finished_trips[i].0.micros <= t.micros {
                n += 1;
            }
            i += 1;
        }
        proof {
            assert(self.finished_trips@.take(len as int) =~= self.finished_trips@);
        }
        n
    }

    /// Counts the baseline trips of mode `m` finished no later than `t`.
    pub fn finished_of_mode_before(&self, m: TripMode, t: Duration) -> (n: usize)
        ensures
            n as nat == finished_of_mode_before_spec(self.finished_trips@, m, t),
    {
        let len = self.finished_trips.len();
        let mut n: usize = 0;
        let mut i: usize = 0;
        while i < len
            invariant
                len == self.finished_trips@.len(),
                i <= len,
                n <= i,
                n as nat == finished_of_mode_before_spec(
                    self.finished_trips@.take(i as int),
                    m,
                    t,
                ),
            decreases len - i,
        {
            proof {
                assert(self.finished_trips@.take(i + 1).drop_last() =~= self.finished_trips@.take(
                    i as int,
                ));
            }
            if self.finished_trips[i].0.micros <= t.micros && self.finished_trips[i].1 == m {
                n += 1;
            }
            i += 1;
        }
        proof {
            assert(self.finished_trips@.take(len as int) =~= self.finished_trips@);
        }
        n
    }
}

/// Counts the agents that have departed by `t`.
pub fn count_departed(agents: &Vec<Agent>, t: Duration) -> (n: usize)
    ensures
        n as nat == departed_spec(agents@, t),
{
    let len = agents.len();
    let mut n: usize = 0;
    let mut i: usize = 0;
    while i < len
        invariant
            len == agents@.len(),
            i <= len,
            n <= i,
            n as nat == departed_spec(agents@.take(i as int), t),
        decreases len - i,
    {
        proof {
            assert(agents@.take(i + 1).drop_last() =~= agents@.take(i as int));
        }
        if agents[i].depart.micros <= t.micros {
            n += 1;
        }
        i += 1;
    }
    proof {
        assert(agents@.take(len as int) =~= agents@);
    }
    n
}

/// Counts the agents of mode `m` that have departed by `t`.
pub fn count_departed_of_mode(agents: &Vec<Agent>, m: TripMode, t: Duration) -> (n: usize)
    ensures
        n as nat == departed_of_mode_spec(agents@, m, t),
{
    let len = agents.len();
    let mut n: usize = 0;
    let mut i: usize = 0;
    while i < len
        invariant
            len == agents@.len(),
            i <= len,
            n <= i,
            n as nat == departed_of_mode_spec(agents@.take(i as int), m, t),
        decreases len - i,
    {
        proof {
            assert(agents@.take(i + 1).drop_last() =~= agents@.take(i as int));
        }
        if agents[i].depart.micros <= t.micros && agents[i].mode == m {
            n += 1;
        }
        i += 1;
    }
    proof {
        assert(agents@.take(len as int) =~= agents@);
    }
    n
}

} // verus!
