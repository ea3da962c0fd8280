//! The decisions of the request handlers.
//!
//! Talking to the backend is left to the caller: it asks here where a
//! request goes, does the backend's part over a connection it takes from the
//! pool it was given, and comes back here with what the backend said. No
//! function here waits for anything, so a caller that guards the registries
//! with locks holds them only while a table is read or changed.

use crate::config::{parse_prefixed_config_from_map, parse_spec, Entries, SettingsError};
use crate::factory::{BuildError, ConnectionPool};
use crate::pools::{ensured, PoolRegistry, Pools};
use crate::rows::{
    converted_rows, first_fault_in_row, into_result_rows, native_rows_view, rows_convertible,
    rows_view, ConversionFault, NativeColumn, ResultRow,
};
use crate::statements::{without_owner, StatementRegistry, Statements};
use crate::token::{fresh_token, is_statement_token};
use vstd::prelude::*;

verus! {

/// Why a request was not served.
#[derive(Clone, Debug, PartialEq, Eq)]
pub enum GatewayError {
    /// The request does not say which source it comes from.
    SourceIdentityMissing,
    /// The source has no pool.
    PoolUnavailable { source_id: String },
    /// No connection could be taken from the pool.
    AcquisitionFailed { diagnostic: String },
    /// The token names no statement.
    StatementNotFound { token: String },
    /// The backend refused to prepare the statement.
    PrepareFailed { diagnostic: String },
    /// The backend refused to run the query or the statement.
    QueryExecutionFailed { diagnostic: String },
    /// A value of the result cannot be carried by the protocol.
    RowConversionFailed { fault: ConversionFault },
    /// The backend prepared the statement, and every token minted for it
    /// names a statement already.
    TokenUnavailable,
}

/// The mathematical content of a [`GatewayError`].
pub enum ErrorView {
    SourceIdentityMissing,
    PoolUnavailable { source_id: Seq<char> },
    AcquisitionFailed { diagnostic: Seq<char> },
    StatementNotFound { token: Seq<char> },
    PrepareFailed { diagnostic: Seq<char> },
    QueryExecutionFailed { diagnostic: Seq<char> },
    RowConversionFailed { fault: ConversionFault },
    TokenUnavailable,
}

impl View for GatewayError {
    type V = ErrorView;

    open spec fn view(&self) -> ErrorView {
        match self {
            GatewayError::SourceIdentityMissing => ErrorView::SourceIdentityMissing,
            GatewayError::PoolUnavailable { source_id } => ErrorView::PoolUnavailable {
                source_id: source_id@,
            },
            GatewayError::AcquisitionFailed { diagnostic } => ErrorView::AcquisitionFailed {
                diagnostic: diagnostic@,
            },
            GatewayError::StatementNotFound { token } => ErrorView::StatementNotFound {
                token: token@,
            },
            GatewayError::PrepareFailed { diagnostic } => ErrorView::PrepareFailed {
                diagnostic: diagnostic@,
            },
            GatewayError::QueryExecutionFailed { diagnostic } => ErrorView::QueryExecutionFailed {
                diagnostic: diagnostic@,
            },
            GatewayError::RowConversionFailed { fault } => ErrorView::RowConversionFailed {
                fault: *fault,
            },
            GatewayError::TokenUnavailable => ErrorView::TokenUnavailable,
        }
    }
}

/// What went wrong between taking a connection and the backend's answer.
#[derive(Clone, Debug, PartialEq, Eq)]
pub enum BackendFailure {
    /// No connection could be taken from the pool: it is exhausted, or the
    /// backend cannot be reached.
    Acquisition { diagnostic: String },
    /// The backend refused what it was asked to do.
    Refused { diagnostic: String },
}

/// What became of an attachment. None of these is a failure of the
/// attachment itself, which always succeeds.
#[derive(Clone, Copy, Debug, PartialEq, Eq, Structural)]
pub enum AttachOutcome {
    /// The configuration gives no connection settings; nothing was built.
    NotConfigured(SettingsError),
    /// The source has a pool: the one it had, or a new one.
    PoolReady,
    /// The source has no pool, because none could be built.
    PoolNotBuilt(BuildError),
}

/// The prefix of the configuration keys that the gateway reads.
pub const CONFIG_PREFIX: &'static str = "POSTGRES_";

/// The prefix of the configuration keys that the gateway reads.
pub open spec fn config_prefix() -> Seq<char> {
    "POSTGRES_"@
}

/// Where a request of `source_id` goes: to the pool of that source.
pub open spec fn pool_plan(pools: Pools, source_id: Seq<char>) -> Result<ConnectionPool, ErrorView> {
    if pools.contains_key(source_id) {
        Ok(pools[source_id])
    } else {
        Err(ErrorView::PoolUnavailable { source_id })
    }
}

/// Where the execution of `token` goes: to the statement that the token
/// names and to the pool that the statement's owner has now. Who asks plays
/// no part in it.
pub open spec fn execution_plan<S>(statements: Statements<S>, pools: Pools, token: Seq<char>) -> Result<
    (S, ConnectionPool),
    ErrorView,
> {
    if !statements.contains_key(token) {
        Err(ErrorView::StatementNotFound { token })
    } else if !pools.contains_key(statements[token].1) {
        Err(ErrorView::PoolUnavailable { source_id: statements[token].1 })
    } else {
        Ok((statements[token].0, pools[statements[token].1]))
    }
}

/// The identity of the source that a request comes from.
pub fn caller_source(component: Option<String>) -> (r: Result<String, GatewayError>)
    ensures
        match component {
            Some(source_id) => r == Ok::<String, GatewayError>(source_id),
            None => r == Err::<String, GatewayError>(GatewayError::SourceIdentityMissing),
        },
{
    match component {
        Some(source_id) => Ok(source_id),
        None => Err(GatewayError::SourceIdentityMissing),
    }
}

/// Finds the pool that a query or a prepare of `source_id` runs on.
pub fn resolve_pool<'a>(pools: &'a PoolRegistry, source_id: &str) -> (r: Result<
    &'a ConnectionPool,
    GatewayError,
>)
    ensures
        match r {
            Ok(pool) => pool_plan(pools@, source_id@) == Ok::<ConnectionPool, ErrorView>(*pool),
            Err(e) => pool_plan(pools@, source_id@) == Err::<ConnectionPool, ErrorView>(e@),
        },
{
    match pools.get(source_id) {
        Some(pool) => Ok(pool),
        None => Err(GatewayError::PoolUnavailable { source_id: String::from_str(source_id) }),
    }
}

/// Finds the statement that `token` names and the pool it runs on, which is
/// the pool that the statement's owner has at this moment.
///
/// The source that asks, `caller`, plays no part: whoever holds a token may
/// execute it, on the pool of the statement's owner, so a token is to be
/// kept like a key.
pub fn resolve_statement<'a, S>(
    statements: &'a StatementRegistry<S>,
    pools: &'a PoolRegistry,
    caller: Option<&str>,
    token: &str,
) -> (r: Result<(&'a S, &'a ConnectionPool), GatewayError>)
    ensures
        match r {
            Ok((statement, pool)) => execution_plan(statements@, pools@, token@) == Ok::<
                (S, ConnectionPool),
                ErrorView,
            >((*statement, *pool)),
            Err(e) => execution_plan(statements@, pools@, token@) == Err::<
                (S, ConnectionPool),
                ErrorView,
            >(e@),
        },
{
    let _ = caller;
    match statements.get(token) {
        None => Err(GatewayError::StatementNotFound { token: String::from_str(token) }),
        Some((statement, owner)) => match pools.get(owner.as_str()) {
            None => Err(GatewayError::PoolUnavailable { source_id: owner.clone() }),
            Some(pool) => Ok((statement, pool)),
        },
    }
}

/// The error that a failure gives while a query or a statement runs.
pub open spec fn run_error(failure: BackendFailure) -> ErrorView {
    match failure {
        BackendFailure::Acquisition { diagnostic } => ErrorView::AcquisitionFailed {
            diagnostic: diagnostic@,
        },
        BackendFailure::Refused { diagnostic } => ErrorView::QueryExecutionFailed {
            diagnostic: diagnostic@,
        },
    }
}

/// The error that a failure gives while a statement is prepared.
pub open spec fn prepare_error(failure: BackendFailure) -> ErrorView {
    match failure {
        BackendFailure::Acquisition { diagnostic } => ErrorView::AcquisitionFailed {
            diagnostic: diagnostic@,
        },
        BackendFailure::Refused { diagnostic } => ErrorView::PrepareFailed {
            diagnostic: diagnostic@,
        },
    }
}

/// Ends a query: the rows that the backend gave are converted, all or
/// none, and a failure becomes the caller's error.
pub fn finish_query(outcome: Result<Vec<Vec<NativeColumn>>, BackendFailure>) -> (r: Result<
    Vec<ResultRow>,
    GatewayError,
>)
    ensures
        match outcome {
            Err(failure) => r matches Err(e) && e@ == run_error(failure),
            Ok(rows) => match r {
                Ok(converted) => rows_convertible(native_rows_view(rows@)) && rows_view(
                    converted@,
                ) == converted_rows(native_rows_view(rows@)),
                Err(e) => e@ matches ErrorView::RowConversionFailed { fault } && {
                    &&& 0 <= fault.row < rows.len()
                    &&& rows_convertible(native_rows_view(rows@).take(fault.row as int))
                    &&& first_fault_in_row(
                        native_rows_view(rows@)[fault.row as int],
                        fault.column as int,
                        fault.type_oid,
                    )
                },
            },
        },
{
    match outcome {
        Err(BackendFailure::Acquisition { diagnostic }) => Err(
            GatewayError::AcquisitionFailed { diagnostic },
        ),
        Err(BackendFailure::Refused { diagnostic }) => Err(
            GatewayError::QueryExecutionFailed { diagnostic },
        ),
        Ok(rows) => match into_result_rows(&rows) {
            Ok(converted) => Ok(converted),
            Err(fault) => Err(GatewayError::RowConversionFailed { fault }),
        },
    }
}

/// How many tokens a prepare mints at most before it gives up.
pub const MINT_ATTEMPTS: usize = 4;

/// Some token of the form that the gateway mints names a statement.
pub open spec fn some_minted_token_is_live<S>(statements: Statements<S>) -> bool {
    exists|token: Seq<char>| is_statement_token(token) && #[trigger] statements.contains_key(token)
}

/// Ends a prepare: a statement that the backend prepared is stored for
/// `source_id` under a new token, which is returned; a failure becomes the
/// caller's error and stores nothing.
///
/// The token is minted at random. One that names a statement already is
/// thrown away and another is minted, up to [`MINT_ATTEMPTS`] times, so that
/// no statement is ever taken over by a later prepare. Only when each of
/// them named a statement does the prepare fail, and the statement is
/// dropped; so a prepare cannot fail this way while no minted token is live.
pub fn finish_prepare<S>(
    statements: &mut StatementRegistry<S>,
    source_id: &str,
    outcome: Result<S, BackendFailure>,
) -> (r: Result<String, GatewayError>)
    ensures
        match outcome {
            Ok(statement) => match r {
                Ok(token) => {
                    &&& is_statement_token(token@)
                    &&& !old(statements)@.contains_key(token@)
                    &&& final(statements)@ == old(statements)@.insert(
                        token@,
                        (statement, source_id@),
                    )
                },
                Err(e) => {
                    &&& e@ == ErrorView::TokenUnavailable
                    &&& final(statements)@ == old(statements)@
                    &&& some_minted_token_is_live(old(statements)@)
                },
            },
            Err(failure) => r matches Err(e) && e@ == prepare_error(failure) && final(statements)@
                == old(statements)@,
        },
{
    match outcome {
        Ok(prepared) => {
            let ghost statement = prepared;
            let mut pending = prepared;
            let mut attempt: usize = 0;
            while attempt < MINT_ATTEMPTS
                invariant
                    outcome == Ok::<S, BackendFailure>(statement),
                    pending == statement,
                    statements@ == old(statements)@,
                    attempt > 0 ==> some_minted_token_is_live(old(statements)@),
                decreases MINT_ATTEMPTS - attempt,
            {
                let token = fresh_token();
                match statements.insert(token.clone(), pending, String::from_str(source_id)) {
                    Ok(_) => {
                        return Ok(token);
                    },
                    Err(back) => {
                        assert(old(statements)@.contains_key(token@));
                        pending = back;
                    },
                }
                attempt += 1;
            }
            Err(GatewayError::TokenUnavailable)
        },
        Err(BackendFailure::Acquisition { diagnostic }) => Err(
            GatewayError::AcquisitionFailed { diagnostic },
        ),
        Err(BackendFailure::Refused { diagnostic }) => Err(
            GatewayError::PrepareFailed { diagnostic },
        ),
    }
}

/// Ends an execution: the number of rows that the statement changed, or the
/// caller's error.
pub fn finish_execute(outcome: Result<u64, BackendFailure>) -> (r: Result<u64, GatewayError>)
    ensures
        match outcome {
            Ok(rows_affected) => r == Ok::<u64, GatewayError>(rows_affected),
            Err(failure) => r matches Err(e) && e@ == run_error(failure),
        },
{
    match outcome {
        Ok(rows_affected) => Ok(rows_affected),
        Err(BackendFailure::Acquisition { diagnostic }) => Err(
            GatewayError::AcquisitionFailed { diagnostic },
        ),
        Err(BackendFailure::Refused { diagnostic }) => Err(
            GatewayError::QueryExecutionFailed { diagnostic },
        ),
    }
}

/// What an attachment of `source_id` with the configuration `config` does
/// to the pools, and what it tells.
///
/// A configuration that gives no settings changes nothing. One that gives
/// settings makes sure of a pool for the source, and tells whether the
/// source has one afterwards: it has, unless it had none and the settings
/// can never give one.
pub open spec fn attached(
    before: Pools,
    after: Pools,
    source_id: Seq<char>,
    config: Entries,
    outcome: AttachOutcome,
) -> bool {
    match parse_spec(config_prefix(), config) {
        Err(e) => outcome == AttachOutcome::NotConfigured(e) && after == before,
        Ok(settings) => match outcome {
            AttachOutcome::NotConfigured(_) => false,
            AttachOutcome::PoolReady => ensured(before, after, source_id, settings, Ok(())),
            AttachOutcome::PoolNotBuilt(e) => ensured(before, after, source_id, settings, Err(e)),
        },
    }
}

/// Handles a source that attaches with the configuration `raw_config`.
///
/// Keys without the prefix `POSTGRES_` are not looked at. A configuration
/// that gives no settings leaves everything as it is. One that gives
/// settings makes sure that the source has a pool; a pool that cannot be
/// built is told in the outcome and leaves the source without one. Whatever
/// comes of it, the attachment stands.
pub fn source_attached(
    pools: &mut PoolRegistry,
    source_id: &str,
    raw_config: &Vec<(String, String)>,
) -> (r: AttachOutcome)
    ensures
        attached(old(pools)@, final(pools)@, source_id@, raw_config.deep_view(), r),
{
    match parse_prefixed_config_from_map(CONFIG_PREFIX, raw_config) {
        Err(e) => AttachOutcome::NotConfigured(e),
        Ok(options) => match pools.ensure(source_id, &options) {
            Ok(_) => AttachOutcome::PoolReady,
            Err(e) => AttachOutcome::PoolNotBuilt(e),
        },
    }
}

/// Handles a source that detaches: its statements go first, then its pool.
/// Statements and pools of other sources stay as they are.
pub fn source_detached<S>(
    statements: &mut StatementRegistry<S>,
    pools: &mut PoolRegistry,
    source_id: &str,
)
    ensures
        final(statements)@ == without_owner(old(statements)@, source_id@),
        final(pools)@ == old(pools)@.remove(source_id@),
{
    statements.remove_all_owned_by(source_id);
    pools.remove(source_id);
}

/// Handles the end of the service: every statement and every pool goes.
pub fn shutdown<S>(statements: &mut StatementRegistry<S>, pools: &mut PoolRegistry)
    ensures
        final(statements)@ == Map::<Seq<char>, (S, Seq<char>)>::empty(),
        final(pools)@ == Map::<Seq<char>, ConnectionPool>::empty(),
{
    statements.clear();
    pools.clear();
}

} // verus!
