//! A gateway between many sources and one relational backend.
//!
//! Each source that attaches with connection settings gets a pool of
//! connections of its own. A source prepares statements once and executes
//! them by token. When a source detaches, its statements and its pool go;
//! when the service stops, everything goes.
//!
//! The library decides and keeps the books; it never waits. Its caller
//! guards the two registries, takes connections and talks to the backend.
//!
//! - [`config`] reads connection settings from a source's configuration.
//! - [`factory`] builds a connection pool from settings.
//! - [`pools`] keeps at most one pool per source.
//! - [`statements`] keeps prepared statements by token, with their owners.
//! - [`token`] mints the tokens.
//! - [`value`] and [`rows`] convert between the protocol's values and the
//!   backend's.
//! - [`handlers`] holds the decisions of the six requests.
//! - [`race`] and [`laws`] state what holds of all this together.

use vstd::prelude::*;

pub mod config;
pub mod factory;
pub mod handlers;
pub mod laws;
pub mod pools;
pub mod race;
pub mod rows;
pub mod statements;
pub mod token;
pub mod value;

verus! {

/// The text that [`default_config`] returns.
pub open spec fn default_config_text() -> Seq<char> {
    "# What applies where a source's configuration says nothing else.\n\
[keys]\n\
prefix = \"POSTGRES_\"\n\
required = [\"HOST\", \"PORT\", \"USERNAME\", \"PASSWORD\", \"DATABASE\"]\n\
optional = [\"TLS_REQUIRED\", \"POOL_SIZE\"]\n\
\n\
[defaults]\n\
port = 5432\n\
tls_required = false\n\
\n\
[limits]\n\
max_pool_size = 262143\n"@
}

/// The gateway's defaults as a TOML document: the configuration keys it
/// reads, the values it takes where a key is left out or cannot be read,
/// and the largest pool it builds.
pub fn default_config() -> (text: &'static str)
    ensures
        text@ == default_config_text(),
{
    "# What applies where a source's configuration says nothing else.\n\
[keys]\n\
prefix = \"POSTGRES_\"\n\
required = [\"HOST\", \"PORT\", \"USERNAME\", \"PASSWORD\", \"DATABASE\"]\n\
optional = [\"TLS_REQUIRED\", \"POOL_SIZE\"]\n\
\n\
[defaults]\n\
port = 5432\n\
tls_required = false\n\
\n\
[limits]\n\
max_pool_size = 262143\n"
}

} // verus!
