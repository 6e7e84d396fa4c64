//! The service's configuration, as explicit structures handed to whatever
//! needs them, and the decisions taken on it.
use vstd::prelude::*;

verus! {

/// Connection to the Ethereum node and the operator's identity.
#[derive(Clone, Debug)]
pub struct Ethereum {
    pub ethereum: String,
    pub ethereum_polling_interval: usize,
    pub mnemonic: String,
    pub indexer_address: String,
}

/// Ports and endpoints of the service and the graph node it fronts.
#[derive(Clone, Debug)]
pub struct IndexerInfrastructure {
    pub port: u32,
    pub metrics_port: u16,
    pub graph_node_query_endpoint: String,
    pub graph_node_status_endpoint: String,
    pub log_level: LogLevel,
    pub gcloud_profiling: bool,
    pub free_query_auth_token: Option<String>,
}

/// Connection to the database.
#[derive(Clone, Debug)]
pub struct Postgres {
    pub postgres_host: String,
    pub postgres_port: usize,
    pub postgres_database: String,
    pub postgres_username: String,
    pub postgres_password: String,
}

/// Where the network subgraph is found and how it is served.
#[derive(Clone, Debug)]
pub struct NetworkSubgraph {
    pub network_subgraph_deployment: Option<String>,
    pub network_subgraph_endpoint: String,
    pub network_subgraph_auth_token: Option<String>,
    pub serve_network_subgraph: bool,
    pub allocation_syncing_interval: u32,
    pub client_signer_address: Option<String>,
}

/// The whole command line.
#[derive(Clone, Debug)]
pub struct Cli {
    pub ethereum: Ethereum,
    pub indexer_infrastructure: IndexerInfrastructure,
    pub postgres: Postgres,
    pub network_subgraph: NetworkSubgraph,
    pub input_file: Option<String>,
    pub spec_in: Option<String>,
    pub config: Option<String>,
}

/// Verbosity of the service's log.
#[derive(Clone, Copy, Debug, PartialEq, Eq, Structural)]
pub enum LogLevel {
    Trace,
    Debug,
    Info,
    Warn,
    Error,
    Fatal,
}

impl Default for LogLevel {
    fn default() -> (r: LogLevel)
        ensures
            r == LogLevel::Debug,
    {
        LogLevel::Debug
    }
}

/// Why the configuration cannot be used.
#[derive(Clone, Copy, Debug, PartialEq, Eq, Structural)]
pub enum ConfigError {
    /// A configuration file was given without an input file or `--spec-in`.
    MissingInput,
}

impl Cli {
    /// The input that a configuration file applies to: the input file, else
    /// the `--spec-in` value.
    pub open spec fn spec_config_input(&self) -> Result<Option<(Seq<char>, Seq<char>)>, ConfigError> {
        match self.config {
            None => Ok(None),
            Some(config) => match self.input_file {
                Some(input) => Ok(Some((input@, config@))),
                None => match self.spec_in {
                    Some(spec_in) => Ok(Some((spec_in@, config@))),
                    None => Err(ConfigError::MissingInput),
                },
            },
        }
    }

    /// With a configuration file, the input it applies to and the file, in
    /// that order; nothing without one.
    pub fn config_input(&self) -> (r: Result<Option<(String, String)>, ConfigError>)
        ensures
            match (r, self.spec_config_input()) {
                (Ok(None), Ok(None)) => true,
                (Ok(Some((input, config))), Ok(Some((i, c)))) => input@ == i && config@ == c,
                (Err(e), Err(f)) => e == f,
                _ => false,
            },
    {
        match &self.config {
            None => Ok(None),
            Some(config) => match &self.input_file {
                Some(input) => Ok(Some((input.clone(), config.clone()))),
                None => match &self.spec_in {
                    Some(spec_in) => Ok(Some((spec_in.clone(), config.clone()))),
                    None => Err(ConfigError::MissingInput),
                },
            },
        }
    }
}

impl IndexerInfrastructure {
    /// A query is served for free iff the service has a free-query token and
    /// the request presents exactly that token.
    pub fn admits_free_query(&self, auth_token: &Option<String>) -> (r: bool)
        ensures
            r == match (auth_token, self.free_query_auth_token) {
                (Some(given), Some(expected)) => given@ == expected@,
                _ => false,
            },
    {
        match auth_token {
            Some(given) => match &self.free_query_auth_token {
                Some(expected) => given.eq(expected),
                None => false,
            },
            None => false,
        }
    }
}

} // verus!
