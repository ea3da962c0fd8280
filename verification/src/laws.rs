//! What holds of the gateway as a whole, stated over the content of its two
//! registries.

use crate::config::{parse_spec, ConnectionSettings, Entries};
use crate::factory::{built_for, refusal, ConnectionPool};
use crate::handlers::{
    attached, config_prefix, execution_plan, pool_plan, AttachOutcome, ErrorView,
};
use crate::pools::{ensured, offered, Pools};
use crate::statements::{without_owner, Statements};
use vstd::prelude::*;

verus! {

/// Making sure of a pool with success is offering the registry the pool
/// that the source has afterwards: it is stored only where the source had
/// none.
pub proof fn law_ensure_offers(
    before: Pools,
    after: Pools,
    source_id: Seq<char>,
    settings: ConnectionSettings,
)
    requires
        ensured(before, after, source_id, settings, Ok(())),
    ensures
        after.contains_key(source_id),
        after == offered(before, source_id, after[source_id]),
{
}

/// What an attachment does for a source that has no pool: the source has a
/// pool afterwards exactly if the attachment reports one ready, which it
/// does exactly for settings that can give a pool, and the pool is built
/// for those settings: for their host, port and database, with their size,
/// and over an encrypted transport exactly if they require one.
pub proof fn law_attachment_provisions(
    before: Pools,
    after: Pools,
    source_id: Seq<char>,
    config: Entries,
    outcome: AttachOutcome,
)
    requires
        attached(before, after, source_id, config, outcome),
        !before.contains_key(source_id),
    ensures
        after.contains_key(source_id) <==> outcome == AttachOutcome::PoolReady,
        after.contains_key(source_id) ==> {
            &&& parse_spec(config_prefix(), config) matches Ok(settings)
            &&& refusal(settings) is None
            &&& built_for(after[source_id], settings)
        },
        parse_spec(config_prefix(), config) matches Ok(settings) && refusal(settings) is None
            ==> after.contains_key(source_id),
        after.remove(source_id) == before,
{
}

/// A run of attachments of `source_id`, in the order in which they reached
/// the pool registry: `states` holds the pools before the first, between
/// each two, and after the last.
pub open spec fn attachments(
    states: Seq<Pools>,
    source_id: Seq<char>,
    configs: Seq<Entries>,
    outcomes: Seq<AttachOutcome>,
) -> bool {
    &&& states.len() == configs.len() + 1
    &&& outcomes.len() == configs.len()
    &&& forall|k: int|
        0 <= k < configs.len() ==> attached(
            #[trigger] states[k],
            states[k + 1],
            source_id,
            configs[k],
            outcomes[k],
        )
}

/// Once a source has a pool, further attachments of it change nothing,
/// whatever they bring and however many they are: every later lookup finds
/// the same pool. No attachment of a source touches the pool of another.
pub proof fn law_attachments_keep_the_pool(
    states: Seq<Pools>,
    source_id: Seq<char>,
    configs: Seq<Entries>,
    outcomes: Seq<AttachOutcome>,
    i: int,
    j: int,
)
    requires
        attachments(states, source_id, configs, outcomes),
        0 <= i <= j < states.len(),
    ensures
        states[i].contains_key(source_id) ==> states[j] == states[i],
        states[j].remove(source_id) == states[i].remove(source_id),
    decreases j - i,
{
    if i < j {
        law_attachments_keep_the_pool(states, source_id, configs, outcomes, i, j - 1);
    }
}

/// Of any number of attachments of one source, whatever each brings: once
/// one of them reports the pool ready, every later one reports it ready and
/// the pools are what they were after that one. One pool is made, and every
/// later lookup finds it.
pub proof fn law_ready_stays_ready(
    states: Seq<Pools>,
    source_id: Seq<char>,
    configs: Seq<Entries>,
    outcomes: Seq<AttachOutcome>,
    first: int,
    later: int,
)
    requires
        attachments(states, source_id, configs, outcomes),
        0 <= first <= later < outcomes.len(),
        outcomes[first] == AttachOutcome::PoolReady,
    ensures
        states[first + 1].contains_key(source_id),
        states[later + 1] == states[first + 1],
        parse_spec(config_prefix(), configs[later]) is Ok ==> outcomes[later]
            == AttachOutcome::PoolReady,
{
    assert(attached(states[first], states[first + 1], source_id, configs[first], outcomes[first]));
    law_attachments_keep_the_pool(states, source_id, configs, outcomes, first + 1, later + 1);
    if first < later {
        law_attachments_keep_the_pool(states, source_id, configs, outcomes, first + 1, later);
        assert(attached(
            states[later],
            states[later + 1],
            source_id,
            configs[later],
            outcomes[later],
        ));
    }
}

/// Of any number of attachments of a source without a pool that all bring
/// the same usable settings, the first builds the pool and the others find
/// it: one pool is made, it is built for those settings, and every
/// attachment reports it ready.
pub proof fn law_one_pool_for_many_attachments(
    states: Seq<Pools>,
    source_id: Seq<char>,
    configs: Seq<Entries>,
    outcomes: Seq<AttachOutcome>,
    config: Entries,
    j: int,
)
    requires
        attachments(states, source_id, configs, outcomes),
        !states[0].contains_key(source_id),
        forall|k: int| 0 <= k < configs.len() ==> #[trigger] configs[k] == config,
        parse_spec(config_prefix(), config) matches Ok(settings) && refusal(settings) is None,
        1 <= j < states.len(),
    ensures
        states[1] == states[0].insert(source_id, states[1][source_id]),
        built_for(states[1][source_id], parse_spec(config_prefix(), config)->Ok_0),
        states[j] == states[1],
        outcomes[j - 1] == AttachOutcome::PoolReady,
{
    assert(attached(states[0], states[1], source_id, configs[0], outcomes[0]));
    law_ready_stays_ready(states, source_id, configs, outcomes, 0, j - 1);
}

/// After a source has detached, a query of it finds no pool, and each token
/// that it owned names no statement any more. What other sources own is
/// found as before.
pub proof fn law_detach_invalidates<S>(
    statements: Statements<S>,
    pools: Pools,
    source_id: Seq<char>,
    token: Seq<char>,
    other: Seq<char>,
)
    ensures
        pool_plan(pools.remove(source_id), source_id) == Err::<ConnectionPool, ErrorView>(
            ErrorView::PoolUnavailable { source_id },
        ),
        statements.contains_key(token) && statements[token].1 == source_id ==> execution_plan(
            without_owner(statements, source_id),
            pools.remove(source_id),
            token,
        ) == Err::<(S, ConnectionPool), ErrorView>(ErrorView::StatementNotFound { token }),
        !(statements.contains_key(token) && statements[token].1 == source_id) ==> execution_plan(
            without_owner(statements, source_id),
            pools.remove(source_id),
            token,
        ) == execution_plan(statements, pools, token),
        other != source_id ==> pool_plan(pools.remove(source_id), other) == pool_plan(pools, other),
{
}

/// A token whose owner has lost its pool cannot be executed, whether or not
/// the statement is still stored: between the two steps of a detachment,
/// and whenever a pool goes before its statements, the token fails for want
/// of a pool.
pub proof fn law_no_pool_no_execution<S>(
    statements: Statements<S>,
    pools: Pools,
    source_id: Seq<char>,
    token: Seq<char>,
)
    requires
        statements.contains_key(token),
        statements[token].1 == source_id,
    ensures
        execution_plan(statements, pools.remove(source_id), token) == Err::<
            (S, ConnectionPool),
            ErrorView,
        >(ErrorView::PoolUnavailable { source_id }),
{
}

/// After a shutdown no source has a pool and no token names a statement,
/// whatever was there before.
pub proof fn law_shutdown_invalidates<S>(source_id: Seq<char>, token: Seq<char>)
    ensures
        pool_plan(Map::<Seq<char>, ConnectionPool>::empty(), source_id) == Err::<
            ConnectionPool,
            ErrorView,
        >(ErrorView::PoolUnavailable { source_id }),
        execution_plan(
            Map::<Seq<char>, (S, Seq<char>)>::empty(),
            Map::<Seq<char>, ConnectionPool>::empty(),
            token,
        ) == Err::<(S, ConnectionPool), ErrorView>(ErrorView::StatementNotFound { token }),
        without_owner(Map::<Seq<char>, (S, Seq<char>)>::empty(), source_id) == Map::<
            Seq<char>,
            (S, Seq<char>),
        >::empty(),
        Map::<Seq<char>, ConnectionPool>::empty().remove(source_id) == Map::<
            Seq<char>,
            ConnectionPool,
        >::empty(),
{
    assert(without_owner(Map::<Seq<char>, (S, Seq<char>)>::empty(), source_id) =~= Map::<
        Seq<char>,
        (S, Seq<char>),
    >::empty());
    assert(Map::<Seq<char>, ConnectionPool>::empty().remove(source_id) =~= Map::<
        Seq<char>,
        ConnectionPool,
    >::empty());
}

/// A stored statement stays what it is until its owner detaches or the
/// service stops: a prepare stores under a token that names nothing yet, so
/// it leaves every stored statement alone, and the detachment of one source
/// leaves the statements of the others alone and takes all of its own.
pub proof fn law_statements_live_until_detached<S>(
    statements: Statements<S>,
    token: Seq<char>,
    minted: Seq<char>,
    prepared: S,
    preparer: Seq<char>,
    detached: Seq<char>,
)
    requires
        statements.contains_key(token),
    ensures
        !statements.contains_key(minted) ==> {
            &&& statements.insert(minted, (prepared, preparer)).contains_key(token)
            &&& statements.insert(minted, (prepared, preparer))[token] == statements[token]
        },
        statements[token].1 != detached ==> {
            &&& without_owner(statements, detached).contains_key(token)
            &&& without_owner(statements, detached)[token] == statements[token]
        },
        statements[token].1 == detached ==> !without_owner(statements, detached).contains_key(token),
{
}

/// A token is executed for whoever holds it: a statement that one source
/// prepared runs, on that source's pool, also when another source asks. No
/// ownership is checked, and no error tells of a foreign owner.
pub proof fn law_any_holder_may_execute<S>(
    statements: Statements<S>,
    pools: Pools,
    token: Seq<char>,
)
    requires
        statements.contains_key(token),
        pools.contains_key(statements[token].1),
    ensures
        execution_plan(statements, pools, token) == Ok::<(S, ConnectionPool), ErrorView>(
            (statements[token].0, pools[statements[token].1]),
        ),
{
}

/// Every statement belongs to a source that has a pool.
pub open spec fn bound_to_pools<S>(statements: Statements<S>, pools: Pools) -> bool {
    forall|token: Seq<char>| #[trigger]
        statements.contains_key(token) ==> pools.contains_key(statements[token].1)
}

/// Statements stay bound to pools through every change that the handlers
/// make: a pool that is added, a statement that is stored for a source with
/// a pool, a detachment, and a shutdown. While they are bound, every live
/// token can be executed.
pub proof fn law_statements_stay_bound<S>(
    statements: Statements<S>,
    pools: Pools,
    source_id: Seq<char>,
    pool: ConnectionPool,
    token: Seq<char>,
    statement: S,
)
    requires
        bound_to_pools(statements, pools),
    ensures
        bound_to_pools(statements, offered(pools, source_id, pool)),
        pools.contains_key(source_id) ==> bound_to_pools(
            statements.insert(token, (statement, source_id)),
            pools,
        ),
        bound_to_pools(without_owner(statements, source_id), pools.remove(source_id)),
        bound_to_pools(
            Map::<Seq<char>, (S, Seq<char>)>::empty(),
            Map::<Seq<char>, ConnectionPool>::empty(),
        ),
        statements.contains_key(token) ==> execution_plan(statements, pools, token) is Ok,
{
}

} // verus!
