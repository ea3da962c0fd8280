use sqldb_postgres::config::{RequiredKey, SettingsError};
use sqldb_postgres::factory::BuildError;
use sqldb_postgres::handlers::{
    caller_source, finish_execute, finish_prepare, finish_query, resolve_pool, resolve_statement,
    shutdown, source_attached, source_detached, AttachOutcome, BackendFailure, GatewayError,
};
use sqldb_postgres::pools::PoolRegistry;
use sqldb_postgres::rows::{ConversionFault, NativeColumn, ResultRowEntry};
use sqldb_postgres::statements::StatementRegistry;
use sqldb_postgres::value::{NativeValue, Value};

fn config(database: &str, pool_size: &str) -> Vec<(String, String)> {
    [
        ("POSTGRES_HOST", "db"),
        ("POSTGRES_PORT", "5432"),
        ("POSTGRES_USERNAME", "u"),
        ("POSTGRES_PASSWORD", "p"),
        ("POSTGRES_DATABASE", database),
        ("POSTGRES_POOL_SIZE", pool_size),
    ]
    .iter()
    .map(|(k, v)| (k.to_string(), v.to_string()))
    .collect()
}

fn refused(diagnostic: &str) -> BackendFailure {
    BackendFailure::Refused { diagnostic: diagnostic.to_string() }
}

fn no_connection(diagnostic: &str) -> BackendFailure {
    BackendFailure::Acquisition { diagnostic: diagnostic.to_string() }
}

struct Service {
    pools: PoolRegistry,
    statements: StatementRegistry<String>,
}

fn service_with(sources: &[&str]) -> Service {
    let mut service = Service { pools: PoolRegistry::new(), statements: StatementRegistry::new() };
    for (i, source) in sources.iter().enumerate() {
        let outcome =
            source_attached(&mut service.pools, source, &config("app", &(i + 1).to_string()));
        assert_eq!(outcome, AttachOutcome::PoolReady);
    }
    service
}

fn prepare(service: &mut Service, source: &str, text: &str) -> String {
    assert!(resolve_pool(&service.pools, source).is_ok());
    finish_prepare(&mut service.statements, source, Ok(text.to_string())).expect("a token")
}

#[test]
fn request_without_source_is_refused() {
    assert_eq!(caller_source(None), Err(GatewayError::SourceIdentityMissing));
    assert_eq!(caller_source(Some("srcA".to_string())), Ok("srcA".to_string()));
    assert_eq!(caller_source(Some(String::new())), Ok(String::new()));
}

#[test]
fn attach_without_recognized_keys_is_a_no_op() {
    let mut pools = PoolRegistry::new();
    let raw = vec![("OTHER".to_string(), "x".to_string())];
    assert_eq!(
        source_attached(&mut pools, "srcA", &raw),
        AttachOutcome::NotConfigured(SettingsError::NoRecognizedKeys)
    );
    assert_eq!(
        source_attached(&mut pools, "srcA", &Vec::new()),
        AttachOutcome::NotConfigured(SettingsError::NoRecognizedKeys)
    );
    assert_eq!(pools.len(), 0);
    assert_eq!(
        resolve_pool(&pools, "srcA").err(),
        Some(GatewayError::PoolUnavailable { source_id: "srcA".to_string() })
    );
}

#[test]
fn attach_with_incomplete_settings_builds_nothing() {
    let mut pools = PoolRegistry::new();
    let raw = vec![("POSTGRES_HOST".to_string(), "db".to_string())];
    assert_eq!(
        source_attached(&mut pools, "srcA", &raw),
        AttachOutcome::NotConfigured(SettingsError::MissingKey(RequiredKey::Port))
    );
    assert!(!pools.contains("srcA"));
}

#[test]
fn attach_swallows_a_failed_build() {
    let mut pools = PoolRegistry::new();
    assert_eq!(
        source_attached(&mut pools, "srcA", &config("", "2")),
        AttachOutcome::PoolNotBuilt(BuildError::DatabaseNameEmpty)
    );
    assert_eq!(
        source_attached(&mut pools, "srcA", &config("app", "0")),
        AttachOutcome::PoolNotBuilt(BuildError::PoolSizeOutOfRange)
    );
    assert_eq!(
        source_attached(&mut pools, "srcA", &config("app", "262144")),
        AttachOutcome::PoolNotBuilt(BuildError::PoolSizeOutOfRange)
    );
    assert!(!pools.contains("srcA"));
    assert_eq!(source_attached(&mut pools, "srcA", &config("app", "oops")), AttachOutcome::PoolReady);
    assert!(pools.contains("srcA"));
}

#[test]
fn attach_that_requires_encryption_gets_a_pool_with_tls() {
    let mut pools = PoolRegistry::new();
    let mut raw = config("app", "2");
    raw.push(("POSTGRES_TLS_REQUIRED".to_string(), "true".to_string()));
    for _ in 0..3 {
        assert_eq!(source_attached(&mut pools, "srcA", &raw), AttachOutcome::PoolReady);
        assert_eq!(pools.len(), 1);
        assert!(pools.get("srcA").expect("a pool").uses_tls());
    }
}

#[test]
fn repeated_attach_keeps_the_first_pool() {
    let mut pools = PoolRegistry::new();
    for size in ["5", "5", "6", "0"] {
        assert_eq!(source_attached(&mut pools, "srcA", &config("app", size)), AttachOutcome::PoolReady);
        assert_eq!(pools.len(), 1);
        assert_eq!(resolve_pool(&pools, "srcA").ok().and_then(|p| p.max_size()), Some(5));
    }
    assert_eq!(source_attached(&mut pools, "srcA", &config("", "5")), AttachOutcome::PoolReady);
    assert_eq!(
        source_attached(&mut pools, "srcA", &Vec::new()),
        AttachOutcome::NotConfigured(SettingsError::NoRecognizedKeys)
    );
    assert_eq!(resolve_pool(&pools, "srcA").ok().and_then(|p| p.max_size()), Some(5));
}

#[test]
fn query_needs_the_callers_pool() {
    let service = service_with(&["srcA", "srcB"]);
    assert_eq!(resolve_pool(&service.pools, "srcA").ok().and_then(|p| p.max_size()), Some(1));
    assert_eq!(resolve_pool(&service.pools, "srcB").ok().and_then(|p| p.max_size()), Some(2));
    assert_eq!(
        resolve_pool(&service.pools, "srcC").err(),
        Some(GatewayError::PoolUnavailable { source_id: "srcC".to_string() })
    );
}

#[test]
fn query_outcomes_become_rows_or_errors() {
    let row = vec![NativeColumn { name: "?column?".to_string(), value: NativeValue::Int4(1) }];
    assert_eq!(
        finish_query(Ok(vec![row])),
        Ok(vec![vec![ResultRowEntry { column_name: "?column?".to_string(), value: Value::Integer(1) }]])
    );
    assert_eq!(finish_query(Ok(Vec::new())), Ok(Vec::new()));
    assert_eq!(
        finish_query(Err(no_connection("timed out"))),
        Err(GatewayError::AcquisitionFailed { diagnostic: "timed out".to_string() })
    );
    assert_eq!(
        finish_query(Err(refused("syntax error"))),
        Err(GatewayError::QueryExecutionFailed { diagnostic: "syntax error".to_string() })
    );
    let rows = vec![
        vec![NativeColumn { name: "a".to_string(), value: NativeValue::Int4(1) }],
        vec![NativeColumn { name: "a".to_string(), value: NativeValue::Unsupported(600) }],
    ];
    assert_eq!(
        finish_query(Ok(rows)),
        Err(GatewayError::RowConversionFailed {
            fault: ConversionFault { row: 1, column: 0, type_oid: 600 }
        })
    );
}

#[test]
fn prepare_execute_round_trip() {
    let mut service = service_with(&["S"]);
    let token = prepare(&mut service, "S", "INSERT INTO t VALUES ($1)");
    assert!(token.starts_with("prepared-statement-"));
    let (statement, pool) =
        resolve_statement(&service.statements, &service.pools, Some("S"), &token).ok().expect("a plan");
    assert_eq!(statement, "INSERT INTO t VALUES ($1)");
    assert_eq!(pool.max_size(), Some(1));
    assert_eq!(finish_execute(Ok(1)), Ok(1));
}

#[test]
fn prepare_mints_a_token_of_its_own_each_time() {
    let mut service = service_with(&["S"]);
    let mut tokens = std::collections::HashSet::new();
    for i in 0..200usize {
        let token = prepare(&mut service, "S", &format!("SELECT {}", i));
        assert!(tokens.insert(token));
    }
    assert_eq!(service.statements.len(), 200);
    for (i, token) in tokens.iter().enumerate() {
        let found = service.statements.get(token).expect("a statement");
        assert_eq!(found.1, "S");
        assert!(found.0.starts_with("SELECT "), "{} {}", i, found.0);
    }
}

#[test]
fn prepare_on_an_empty_registry_gives_a_token() {
    for text in ["INSERT INTO t VALUES ($1)", "UPDATE t SET x=$1 WHERE id=$2"] {
        let mut statements: StatementRegistry<String> = StatementRegistry::new();
        let token = finish_prepare(&mut statements, "srcA", Ok(text.to_string())).expect("a token");
        assert!(token.starts_with("prepared-statement-"));
        assert_eq!(statements.len(), 1);
        assert_eq!(statements.get(&token), Some((&text.to_string(), &"srcA".to_string())));
    }
}

#[test]
fn failed_prepare_stores_nothing() {
    let mut service = service_with(&["S"]);
    assert_eq!(
        finish_prepare(&mut service.statements, "S", Err(refused("relation \"t\" does not exist"))),
        Err(GatewayError::PrepareFailed { diagnostic: "relation \"t\" does not exist".to_string() })
    );
    assert_eq!(
        finish_prepare(&mut service.statements, "S", Err(no_connection("pool closed"))),
        Err(GatewayError::AcquisitionFailed { diagnostic: "pool closed".to_string() })
    );
    assert_eq!(service.statements.len(), 0);
}

#[test]
fn execute_outcomes_become_counts_or_errors() {
    assert_eq!(finish_execute(Ok(0)), Ok(0));
    assert_eq!(finish_execute(Ok(u64::MAX)), Ok(u64::MAX));
    assert_eq!(
        finish_execute(Err(refused("duplicate key"))),
        Err(GatewayError::QueryExecutionFailed { diagnostic: "duplicate key".to_string() })
    );
    assert_eq!(
        finish_execute(Err(no_connection("unreachable"))),
        Err(GatewayError::AcquisitionFailed { diagnostic: "unreachable".to_string() })
    );
}

#[test]
fn unknown_token_is_not_found() {
    let service = service_with(&["S"]);
    assert_eq!(
        resolve_statement(&service.statements, &service.pools, Some("S"), "prepared-statement-X").err(),
        Some(GatewayError::StatementNotFound { token: "prepared-statement-X".to_string() })
    );
    assert_eq!(
        resolve_statement(&service.statements, &service.pools, None, "").err(),
        Some(GatewayError::StatementNotFound { token: String::new() })
    );
}

#[test]
fn detachment_invalidates_tokens_and_pool() {
    let mut service = service_with(&["S", "other"]);
    let t1 = prepare(&mut service, "S", "SELECT 1");
    let t2 = prepare(&mut service, "S", "SELECT 2");
    let kept = prepare(&mut service, "other", "SELECT 3");
    source_detached(&mut service.statements, &mut service.pools, "S");
    for token in [&t1, &t2] {
        assert_eq!(
            resolve_statement(&service.statements, &service.pools, Some("S"), token).err(),
            Some(GatewayError::StatementNotFound { token: token.to_string() })
        );
    }
    assert_eq!(
        resolve_pool(&service.pools, "S").err(),
        Some(GatewayError::PoolUnavailable { source_id: "S".to_string() })
    );
    let (statement, pool) =
        resolve_statement(&service.statements, &service.pools, Some("other"), &kept).ok().expect("a plan");
    assert_eq!(statement, "SELECT 3");
    assert_eq!(pool.max_size(), Some(2));
    source_detached(&mut service.statements, &mut service.pools, "S");
    source_detached(&mut service.statements, &mut service.pools, "never-attached");
    assert_eq!(service.pools.len(), 1);
    assert_eq!(service.statements.len(), 1);
}

#[test]
fn token_without_its_owners_pool_finds_no_pool() {
    let mut service = service_with(&["S"]);
    let token = prepare(&mut service, "S", "SELECT 1");
    service.pools.remove("S");
    assert_eq!(
        resolve_statement(&service.statements, &service.pools, Some("S"), &token).err(),
        Some(GatewayError::PoolUnavailable { source_id: "S".to_string() })
    );
}

#[test]
fn reattached_source_gets_a_new_pool_and_no_old_tokens() {
    let mut service = service_with(&["S"]);
    let token = prepare(&mut service, "S", "SELECT 1");
    source_detached(&mut service.statements, &mut service.pools, "S");
    assert_eq!(source_attached(&mut service.pools, "S", &config("app", "9")), AttachOutcome::PoolReady);
    assert_eq!(resolve_pool(&service.pools, "S").ok().and_then(|p| p.max_size()), Some(9));
    assert_eq!(
        resolve_statement(&service.statements, &service.pools, Some("S"), &token).err(),
        Some(GatewayError::StatementNotFound { token })
    );
}

#[test]
fn shutdown_invalidates_everything() {
    let mut service = service_with(&["a", "b", "c"]);
    let tokens = vec![
        prepare(&mut service, "a", "SELECT 1"),
        prepare(&mut service, "b", "SELECT 2"),
        prepare(&mut service, "b", "SELECT 3"),
    ];
    for _ in 0..3 {
        shutdown(&mut service.statements, &mut service.pools);
        assert_eq!(service.pools.len(), 0);
        assert_eq!(service.statements.len(), 0);
        for source in ["a", "b", "c"] {
            assert_eq!(
                resolve_pool(&service.pools, source).err(),
                Some(GatewayError::PoolUnavailable { source_id: source.to_string() })
            );
        }
        for token in &tokens {
            assert_eq!(
                resolve_statement(&service.statements, &service.pools, Some("a"), token).err(),
                Some(GatewayError::StatementNotFound { token: token.clone() })
            );
        }
    }
}

#[test]
fn shutdown_of_an_empty_service() {
    let mut service = service_with(&[]);
    shutdown(&mut service.statements, &mut service.pools);
    assert_eq!(service.pools.len(), 0);
    assert_eq!(service.statements.len(), 0);
}

#[test]
fn any_holder_of_a_token_may_execute_it() {
    let mut service = service_with(&["owner", "stranger"]);
    let token = prepare(&mut service, "owner", "DELETE FROM t");
    for caller in [Some("owner"), Some("stranger"), Some("not-attached"), None] {
        let (statement, pool) =
            resolve_statement(&service.statements, &service.pools, caller, &token).ok().expect("a plan");
        assert_eq!(statement, "DELETE FROM t");
        assert_eq!(pool.max_size(), Some(1));
    }
    source_detached(&mut service.statements, &mut service.pools, "stranger");
    assert!(resolve_statement(&service.statements, &service.pools, Some("stranger"), &token).is_ok());
}

#[test]
fn end_to_end_scenario() {
    let mut service = Service { pools: PoolRegistry::new(), statements: StatementRegistry::new() };
    let raw: Vec<(String, String)> = [
        ("POSTGRES_HOST", "db"),
        ("POSTGRES_PORT", "5432"),
        ("POSTGRES_USERNAME", "u"),
        ("POSTGRES_PASSWORD", "p"),
        ("POSTGRES_DATABASE", "app"),
    ]
    .iter()
    .map(|(k, v)| (k.to_string(), v.to_string()))
    .collect();
    assert_eq!(source_attached(&mut service.pools, "srcA", &raw), AttachOutcome::PoolReady);
    assert_eq!(service.pools.len(), 1);
    assert_eq!(service.statements.len(), 0);
    let pool = service.pools.get("srcA").expect("a pool");
    assert_eq!(pool.host(), "db");
    assert_eq!(pool.port(), 5432);
    assert_eq!(pool.database(), "app");
    assert!(!pool.uses_tls());

    let source = caller_source(Some("srcA".to_string())).unwrap();
    assert!(resolve_pool(&service.pools, &source).is_ok());
    let answer = vec![vec![NativeColumn { name: "?column?".to_string(), value: NativeValue::Int4(1) }]];
    let rows = finish_query(Ok(answer)).unwrap();
    assert_eq!(rows.len(), 1);
    assert_eq!(rows[0].len(), 1);
    assert_eq!(rows[0][0].value, Value::Integer(1));

    let t2 = prepare(&mut service, "srcA", "UPDATE t SET x=$1 WHERE id=$2");
    let (statement, _pool) =
        resolve_statement(&service.statements, &service.pools, Some("srcA"), &t2).ok().expect("a plan");
    assert_eq!(statement, "UPDATE t SET x=$1 WHERE id=$2");
    assert_eq!(finish_execute(Ok(1)), Ok(1));

    source_detached(&mut service.statements, &mut service.pools, "srcA");
    assert_eq!(
        resolve_statement(&service.statements, &service.pools, Some("srcA"), &t2).err(),
        Some(GatewayError::StatementNotFound { token: t2 })
    );
}
