//! Builds the connection pool of one source from its settings.
//!
//! Building a pool opens no connection: the pool connects when a connection
//! is first asked of it. A build therefore fails only on settings that can
//! never work, and is never tried again here.

use crate::config::{ConnectionCreateOptions, ConnectionSettings};
use vstd::prelude::*;

verus! {

/// The largest number of connections a pool may be sized for: the most
/// that a PostgreSQL server can be set to accept. A pool reserves room for
/// all its connections when it is built, so a size has to be bounded.
pub const MAX_POOL_SIZE: usize = 262_143;

/// A `deadpool_postgres::Pool`, which shares its state among its clones.
/// The library stores and hands out pools; it never looks into one.
#[verifier::external_body]
pub struct PoolHandle {
    pub inner: deadpool_postgres::Pool,
}

/// Whether `handle` was made with an encrypted transport.
pub uninterp spec fn made_with_tls(handle: PoolHandle) -> bool;

/// The host, the port and the database that `handle` was made for.
pub uninterp spec fn made_for(handle: PoolHandle) -> (Seq<char>, u16, Seq<char>);

/// The number of connections that `handle` was asked to hold at most.
pub uninterp spec fn asked_size(handle: PoolHandle) -> Option<usize>;

/// The pool of live connections of one source, with a record of what it was
/// made for. Only [`build`] and [`build_encrypted`] make one, and the record
/// always agrees with the pool.
pub struct ConnectionPool {
    handle: PoolHandle,
    host: String,
    port: u16,
    database: String,
    max_size: Option<usize>,
    tls: bool,
}

impl ConnectionPool {
    #[verifier::type_invariant]
    spec fn recorded_truly(self) -> bool {
        &&& made_with_tls(self.handle) == self.tls
        &&& made_for(self.handle) == (self.host@, self.port, self.database@)
        &&& asked_size(self.handle) == self.max_size
    }

    /// The pool from which connections are taken.
    pub closed spec fn spec_handle(&self) -> &PoolHandle {
        &self.handle
    }

    /// The pool from which connections are taken.
    #[verifier::when_used_as_spec(spec_handle)]
    pub fn handle(&self) -> (r: &PoolHandle)
        ensures
            r == self.handle(),
    {
        &self.handle
    }

    /// The host that the pool was made for.
    pub fn host(&self) -> (r: &String)
        ensures
            r@ == made_for(*self.handle()).0,
    {
        proof {
            use_type_invariant(self);
        }
        &self.host
    }

    /// The port that the pool was made for.
    pub fn port(&self) -> (r: u16)
        ensures
            r == made_for(*self.handle()).1,
    {
        proof {
            use_type_invariant(self);
        }
        self.port
    }

    /// The database that the pool was made for.
    pub fn database(&self) -> (r: &String)
        ensures
            r@ == made_for(*self.handle()).2,
    {
        proof {
            use_type_invariant(self);
        }
        &self.database
    }

    /// The number of connections the pool was asked to hold at most;
    /// without one, the pool chose its own.
    pub fn max_size(&self) -> (r: Option<usize>)
        ensures
            r == asked_size(*self.handle()),
    {
        proof {
            use_type_invariant(self);
        }
        self.max_size
    }

    /// Whether the pool was made with an encrypted transport.
    pub fn uses_tls(&self) -> (r: bool)
        ensures
            r == made_with_tls(*self.handle()),
    {
        proof {
            use_type_invariant(self);
        }
        self.tls
    }
}

/// The encrypted transport of tokio-postgres-rustls, carried from where it
/// is set up to where a pool is built with it.
#[verifier::external_type_specification]
#[verifier::external_body]
pub struct ExMakeRustlsConnect(tokio_postgres_rustls::MakeRustlsConnect);

/// The error of rustls, of which only the presence is looked at.
#[verifier::external_type_specification]
#[verifier::external_body]
pub struct ExTlsError(rustls::Error);

/// The error of deadpool's `create_pool`, of which only the presence is
/// looked at.
#[verifier::external_type_specification]
#[verifier::external_body]
#[verifier::reject_recursive_types(C)]
pub struct ExCreatePoolError<C>(deadpool::managed::CreatePoolError<C>);

/// The configuration error of deadpool-postgres, which the error of
/// `create_pool` carries.
#[verifier::external_type_specification]
#[verifier::external_body]
pub struct ExConfigError(deadpool_postgres::ConfigError);

/// Why no pool was built.
#[derive(Clone, Copy, Debug, PartialEq, Eq, Structural)]
pub enum BuildError {
    /// The settings name no database.
    DatabaseNameEmpty,
    /// The pool size is zero or above [`MAX_POOL_SIZE`].
    PoolSizeOutOfRange,
    /// The encrypted transport that the pool was to be made with could not
    /// be set up.
    TlsUnavailable,
    /// The pool refused settings that passed the checks made here. No
    /// settings are known that it refuses.
    Rejected,
}

/// The fault in settings that can never give a pool, if there is one.
pub open spec fn refusal(settings: ConnectionSettings) -> Option<BuildError> {
    if settings.database.len() == 0 {
        Some(BuildError::DatabaseNameEmpty)
    } else if settings.pool_size matches Some(n) && !(1 <= n <= MAX_POOL_SIZE) {
        Some(BuildError::PoolSizeOutOfRange)
    } else {
        None
    }
}

/// The pool was made for the host, the port and the database of the
/// settings and with the size they ask for, over an encrypted transport
/// exactly if `tls` says so.
pub open spec fn built_with(pool: ConnectionPool, settings: ConnectionSettings, tls: bool) -> bool {
    &&& made_with_tls(*pool.handle()) == tls
    &&& made_for(*pool.handle()) == (settings.host, settings.port, settings.database)
    &&& asked_size(*pool.handle()) == settings.pool_size
}

/// The pool is what the settings ask for: made for their host, port and
/// database, of the size they name, and over an encrypted transport exactly
/// if they require one.
///
/// An encrypted transport is what the pool offers the server each time it
/// connects. The driver is left in its own mode, which prefers encryption
/// and takes a server that has none.
pub open spec fn built_for(pool: ConnectionPool, settings: ConnectionSettings) -> bool {
    built_with(pool, settings, settings.tls_required)
}

/// The handle was made for the host, the port and the database of the
/// settings and with the size they ask for.
pub open spec fn handle_for(handle: PoolHandle, settings: ConnectionSettings) -> bool {
    &&& made_for(handle) == (settings.host, settings.port, settings.database)
    &&& asked_size(handle) == settings.pool_size
}

/// `Config::create_pool` of deadpool-postgres, without encryption and on the
/// tokio runtime. With no URL, a database name that is not empty and a
/// runtime given, its source returns `Ok` on every path. The pool's manager
/// holds the host, the port and the database name as they were given, and no
/// encrypted transport; the pool's size is the one given, or the pool's own
/// where none is. The user is not spoken of: an empty one is replaced from
/// the environment.
#[verifier::external_body]
fn create_plain_pool(options: &ConnectionCreateOptions) -> (r: Result<
    PoolHandle,
    deadpool_postgres::CreatePoolError,
>)
    requires
        refusal(options@) is None,
    ensures
        r is Ok,
        r matches Ok(handle) ==> {
            &&& !made_with_tls(handle)
            &&& made_for(handle) == (options.host@, options.port, options.database@)
            &&& asked_size(handle) == options.pool_size
        },
{
    let mut cfg = deadpool_postgres::Config::new();
    cfg.host = Some(options.host.clone());
    cfg.port = Some(options.port);
    cfg.user = Some(options.username.clone());
    cfg.password = Some(options.password.clone());
    cfg.dbname = Some(options.database.clone());
    cfg.pool = options.pool_size.map(deadpool_postgres::PoolConfig::new);
    let inner = cfg.create_pool(Some(deadpool_postgres::Runtime::Tokio1), tokio_postgres::NoTls)?;
    Ok(PoolHandle { inner })
}

/// `Config::create_pool` of deadpool-postgres with the given encrypted
/// transport, on the tokio runtime. The claims are those of
/// [`create_plain_pool`], but that the pool's manager holds the transport
/// given: the build stores it and does not use it.
#[verifier::external_body]
fn create_tls_pool(
    options: &ConnectionCreateOptions,
    connector: tokio_postgres_rustls::MakeRustlsConnect,
) -> (r: Result<PoolHandle, deadpool_postgres::CreatePoolError>)
    requires
        refusal(options@) is None,
    ensures
        r is Ok,
        r matches Ok(handle) ==> {
            &&& made_with_tls(handle)
            &&& made_for(handle) == (options.host@, options.port, options.database@)
            &&& asked_size(handle) == options.pool_size
        },
{
    let mut cfg = deadpool_postgres::Config::new();
    cfg.host = Some(options.host.clone());
    cfg.port = Some(options.port);
    cfg.user = Some(options.username.clone());
    cfg.password = Some(options.password.clone());
    cfg.dbname = Some(options.database.clone());
    cfg.pool = options.pool_size.map(deadpool_postgres::PoolConfig::new);
    let inner = cfg.create_pool(Some(deadpool_postgres::Runtime::Tokio1), connector)?;
    Ok(PoolHandle { inner })
}

/// Builds the default encrypted transport with rustls and
/// tokio-postgres-rustls: it trusts an empty set of root certificates and
/// presents no client certificate. With the ring provider and the default
/// protocol versions, the source of rustls returns `Ok` on every path: the
/// provider has cipher suites for one of the versions and key exchange
/// groups for each suite.
#[verifier::external_body]
fn permissive_connector() -> (r: Result<tokio_postgres_rustls::MakeRustlsConnect, rustls::Error>)
    ensures
        r is Ok,
{
    let provider = std::sync::Arc::new(rustls::crypto::ring::default_provider());
    let config = rustls::ClientConfig::builder_with_provider(provider)
        .with_safe_default_protocol_versions()?
        .with_root_certificates(rustls::RootCertStore::empty())
        .with_no_client_auth();
    Ok(tokio_postgres_rustls::MakeRustlsConnect::new(config))
}

/// Tells the fault in settings that can never give a pool.
pub fn validate(options: &ConnectionCreateOptions) -> (r: Result<(), BuildError>)
    ensures
        match r {
            Ok(_) => refusal(options@) is None,
            Err(e) => refusal(options@) == Some(e),
        },
{
    if options.database.as_str().unicode_len() == 0 {
        return Err(BuildError::DatabaseNameEmpty);
    }
    match options.pool_size {
        Some(n) => {
            if n < 1 || n > MAX_POOL_SIZE {
                return Err(BuildError::PoolSizeOutOfRange);
            }
        },
        None => {},
    }
    Ok(())
}

fn record(handle: PoolHandle, options: &ConnectionCreateOptions, tls: bool) -> (pool:
    ConnectionPool)
    requires
        made_with_tls(handle) == tls,
        handle_for(handle, options@),
    ensures
        built_with(pool, options@, tls),
{
    ConnectionPool {
        handle,
        host: options.host.clone(),
        port: options.port,
        database: options.database.clone(),
        max_size: options.pool_size,
        tls,
    }
}

fn assemble_encrypted(
    options: &ConnectionCreateOptions,
    connector: Result<tokio_postgres_rustls::MakeRustlsConnect, rustls::Error>,
) -> (r: Result<ConnectionPool, BuildError>)
    requires
        refusal(options@) is None,
    ensures
        connector is Err ==> r == Err::<ConnectionPool, BuildError>(BuildError::TlsUnavailable),
        connector is Ok ==> r is Ok,
        r matches Ok(pool) ==> built_with(pool, options@, true),
{
    match connector {
        Ok(tls) => match create_tls_pool(options, tls) {
            Ok(handle) => Ok(record(handle, options, true)),
            Err(_) => Err(BuildError::Rejected),
        },
        Err(_) => Err(BuildError::TlsUnavailable),
    }
}

/// Builds a pool over an encrypted transport of the caller's own making,
/// given as the outcome of setting it up. This is the way to trust other
/// roots, or to present a client certificate, than [`build`] does.
///
/// The pool is made with that transport whether or not the settings require
/// encryption. Settings that can never give a pool are refused first; then
/// a transport that could not be set up gives no pool.
pub fn build_encrypted(
    options: &ConnectionCreateOptions,
    connector: Result<tokio_postgres_rustls::MakeRustlsConnect, rustls::Error>,
) -> (r: Result<ConnectionPool, BuildError>)
    ensures
        refusal(options@) matches Some(e) ==> r == Err::<ConnectionPool, BuildError>(e),
        refusal(options@) is None && connector is Err ==> r == Err::<ConnectionPool, BuildError>(
            BuildError::TlsUnavailable,
        ),
        refusal(options@) is None && connector is Ok ==> r is Ok,
        r matches Ok(pool) ==> built_with(pool, options@, true),
{
    match validate(options) {
        Err(e) => Err(e),
        Ok(_) => assemble_encrypted(options, connector),
    }
}

/// Builds a pool from `options`.
///
/// Settings without a database name, or with a pool size of zero or above
/// [`MAX_POOL_SIZE`], are refused. All other settings give a pool, made for
/// their host, port and database. Settings that require encryption give a
/// pool made with an encrypted transport, never a plain one; that transport
/// trusts no root certificate and presents no client certificate, see
/// [`build_encrypted`] for another.
pub fn build(options: &ConnectionCreateOptions) -> (r: Result<ConnectionPool, BuildError>)
    ensures
        match refusal(options@) {
            Some(e) => r == Err::<ConnectionPool, BuildError>(e),
            None => r matches Ok(pool) && built_for(pool, options@),
        },
{
    match validate(options) {
        Err(e) => Err(e),
        Ok(_) => if options.tls_required {
            assemble_encrypted(options, permissive_connector())
        } else {
            match create_plain_pool(options) {
                Ok(handle) => Ok(record(handle, options, false)),
                Err(_) => Err(BuildError::Rejected),
            }
        },
    }
}

} // verus!
