//! Attachments of one source that run at the same time.
//!
//! An attachment looks for the source's pool while others may read the
//! registry too, and makes sure of the pool while it holds the registry
//! alone. Between the look and the entry anything may happen. This module
//! writes such a race down, one step of one attachment at a time, and
//! proves that whatever the order of the steps, one pool is built.

use crate::factory::ConnectionPool;
use crate::pools::{offered, Pools};
use vstd::prelude::*;

verus! {

/// How far one attachment has come.
pub enum Racer {
    /// It has not looked at the registry yet.
    Arrived,
    /// It looked and saw no pool for the source; it waits to enter.
    SawNoPool,
    /// It is done: it saw a pool, or it entered.
    Finished,
}

/// The registry and the attachments in flight.
pub struct Race {
    pub pools: Pools,
    /// The number of pools built so far.
    pub built: nat,
    pub racers: Seq<Racer>,
}

/// One step of one attachment.
pub enum Move {
    /// The attachment looks whether the source has a pool.
    Look { racer: int },
    /// The attachment enters alone, looks again, and builds `pool` only if
    /// the source still has none.
    Enter { racer: int, pool: ConnectionPool },
}

pub open spec fn after_move(race: Race, source_id: Seq<char>, step: Move) -> Race {
    match step {
        Move::Look { racer } => if 0 <= racer < race.racers.len() && race.racers[racer] is Arrived {
            Race {
                racers: race.racers.update(
                    racer,
                    if race.pools.contains_key(source_id) {
                        Racer::Finished
                    } else {
                        Racer::SawNoPool
                    },
                ),
                ..race
            }
        } else {
            race
        },
        Move::Enter { racer, pool } => if 0 <= racer < race.racers.len()
            && race.racers[racer] is SawNoPool {
            Race {
                pools: offered(race.pools, source_id, pool),
                built: if race.pools.contains_key(source_id) {
                    race.built
                } else {
                    race.built + 1
                },
                racers: race.racers.update(racer, Racer::Finished),
            }
        } else {
            race
        },
    }
}

pub open spec fn after_moves(race: Race, source_id: Seq<char>, steps: Seq<Move>) -> Race
    decreases steps.len(),
{
    if steps.len() == 0 {
        race
    } else {
        after_move(after_moves(race, source_id, steps.drop_last()), source_id, steps.last())
    }
}

/// A race at its start: the source has no pool, nothing was built, and no
/// attachment has looked yet.
pub open spec fn at_start(race: Race, source_id: Seq<char>) -> bool {
    &&& !race.pools.contains_key(source_id)
    &&& race.built == 0
    &&& forall|k: int| 0 <= k < race.racers.len() ==> #[trigger] race.racers[k] is Arrived
}

/// Whatever the attachments of one source do, and in whatever order: at
/// most one pool is built, the source has a pool exactly if one was built,
/// an attachment finishes only when the source has a pool, and the pools of
/// other sources are as they were.
pub proof fn law_race_builds_one_pool(start: Race, source_id: Seq<char>, steps: Seq<Move>)
    requires
        at_start(start, source_id),
    ensures
        ({
            let end = after_moves(start, source_id, steps);
            &&& end.built <= 1
            &&& end.built == 1 <==> end.pools.contains_key(source_id)
            &&& end.racers.len() == start.racers.len()
            &&& forall|k: int|
                0 <= k < end.racers.len() && #[trigger] end.racers[k] is Finished
                    ==> end.pools.contains_key(source_id)
            &&& end.pools.remove(source_id) == start.pools
        }),
    decreases steps.len(),
{
    if steps.len() > 0 {
        law_race_builds_one_pool(start, source_id, steps.drop_last());
    }
}

/// The pool that a source has at some point of a race is the pool it has
/// at every later point: a pool is never built over another.
pub proof fn law_race_keeps_the_pool(start: Race, source_id: Seq<char>, steps: Seq<Move>, k: int)
    requires
        0 <= k <= steps.len(),
        after_moves(start, source_id, steps.take(k)).pools.contains_key(source_id),
    ensures
        after_moves(start, source_id, steps).pools == after_moves(
            start,
            source_id,
            steps.take(k),
        ).pools,
    decreases steps.len() - k,
{
    if k == steps.len() {
        assert(steps.take(k) =~= steps);
    } else {
        assert(steps.drop_last().take(k) =~= steps.take(k));
        law_race_keeps_the_pool(start, source_id, steps.drop_last(), k);
    }
}

} // verus!
