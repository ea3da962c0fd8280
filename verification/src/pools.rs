//! The pool registry: at most one connection pool per source.

use crate::config::{ConnectionCreateOptions, ConnectionSettings};
use crate::factory::{build, built_for, refusal, BuildError, ConnectionPool};
use vstd::hash_map::StringHashMap;
use vstd::prelude::*;

verus! {

/// Maps the identity of a source to its connection pool, and owns the pools.
pub struct PoolRegistry {
    pools: StringHashMap<ConnectionPool>,
}

/// The content of a registry: for each source that has one, its pool.
pub type Pools = Map<Seq<char>, ConnectionPool>;

impl View for PoolRegistry {
    type V = Pools;

    closed spec fn view(&self) -> Pools {
        self.pools@
    }
}

/// The registry after a pool built for `source_id` is offered to it: the
/// pool is stored only where the source has none.
pub open spec fn offered(pools: Pools, source_id: Seq<char>, pool: ConnectionPool) -> Pools {
    if pools.contains_key(source_id) {
        pools
    } else {
        pools.insert(source_id, pool)
    }
}

/// What making sure of a pool for `source_id` does to the registry, and what
/// it answers.
///
/// A source that has a pool keeps it, whatever the settings are. A source
/// without one gets a pool that is built for the settings, unless the
/// settings can never give a pool: then the fault is answered and nothing
/// changes.
pub open spec fn ensured(
    before: Pools,
    after: Pools,
    source_id: Seq<char>,
    settings: ConnectionSettings,
    answer: Result<(), BuildError>,
) -> bool {
    if before.contains_key(source_id) {
        answer is Ok && after == before
    } else {
        match refusal(settings) {
            Some(fault) => answer == Err::<(), BuildError>(fault) && after == before,
            None => {
                &&& answer is Ok
                &&& after.contains_key(source_id)
                &&& after == before.insert(source_id, after[source_id])
                &&& built_for(after[source_id], settings)
            },
        }
    }
}

impl PoolRegistry {
    /// A registry without pools.
    pub fn new() -> (r: Self)
        ensures
            r@ == Map::<Seq<char>, ConnectionPool>::empty(),
    {
        PoolRegistry { pools: StringHashMap::new() }
    }

    /// The number of sources that have a pool.
    pub fn len(&self) -> (r: usize)
        ensures
            r == self@.len(),
    {
        broadcast use vstd::hash_map::group_hash_map_axioms;

        self.pools.len()
    }

    /// Whether `source_id` has a pool.
    pub fn contains(&self, source_id: &str) -> (r: bool)
        ensures
            r == self@.contains_key(source_id@),
    {
        self.pools.contains_key(source_id)
    }

    /// The pool of `source_id`, if it has one.
    pub fn get(&self, source_id: &str) -> (r: Option<&ConnectionPool>)
        ensures
            match r {
                Some(pool) => self@.contains_key(source_id@) && *pool == self@[source_id@],
                None => !self@.contains_key(source_id@),
            },
    {
        self.pools.get(source_id)
    }

    /// Stores `pool` for `source_id` unless the source already has a pool,
    /// and tells whether it was stored. A pool that is not stored is dropped.
    ///
    /// This is the step that must run with the registry held exclusively:
    /// whoever saw the source without a pool, and built one, learns here
    /// whether somebody else was faster.
    pub fn insert_if_absent(&mut self, source_id: &str, pool: ConnectionPool) -> (stored: bool)
        ensures
            stored == !old(self)@.contains_key(source_id@),
            final(self)@ == offered(old(self)@, source_id@, pool),
    {
        if self.pools.contains_key(source_id) {
            false
        } else {
            self.pools.insert(String::from_str(source_id), pool);
            true
        }
    }

    /// Takes the outcome of a build for `source_id`: a pool is stored unless
    /// the source has one by now, a failure is handed on and changes
    /// nothing.
    pub fn store_built(&mut self, source_id: &str, built: Result<ConnectionPool, BuildError>) -> (r:
        Result<(), BuildError>)
        ensures
            match built {
                Ok(pool) => r is Ok && final(self)@ == offered(old(self)@, source_id@, pool),
                Err(e) => r == Err::<(), BuildError>(e) && final(self)@ == old(self)@,
            },
    {
        match built {
            Ok(pool) => {
                self.insert_if_absent(source_id, pool);
                Ok(())
            },
            Err(e) => Err(e),
        }
    }

    /// Makes sure that `source_id` has a pool, building one from `options`
    /// if it has none.
    ///
    /// Where the source has a pool, nothing is built and the pool stays the
    /// one it was: calling this again, with these or other settings, never
    /// replaces a pool. Where it has none, the outcome is that of
    /// [`build`].
    pub fn ensure(&mut self, source_id: &str, options: &ConnectionCreateOptions) -> (r: Result<
        (),
        BuildError,
    >)
        ensures
            ensured(old(self)@, final(self)@, source_id@, options@, r),
    {
        if self.pools.contains_key(source_id) {
            return Ok(());
        }
        let built = build(options);
        self.store_built(source_id, built)
    }

    /// Removes the pool of `source_id`, if it has one. Connections that were
    /// taken from the pool before stay with whoever took them.
    pub fn remove(&mut self, source_id: &str)
        ensures
            final(self)@ == old(self)@.remove(source_id@),
    {
        self.pools.remove(source_id);
    }

    /// Removes every pool.
    pub fn clear(&mut self)
        ensures
            final(self)@ == Map::<Seq<char>, ConnectionPool>::empty(),
    {
        self.pools.clear();
    }
}

} // verus!
