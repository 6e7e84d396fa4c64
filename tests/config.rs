use indexer_tap::config::{
    Cli, ConfigError, Ethereum, IndexerInfrastructure, LogLevel, NetworkSubgraph, Postgres,
};

fn cli(input_file: Option<&str>, spec_in: Option<&str>, config: Option<&str>) -> Cli {
    Cli {
        ethereum: Ethereum {
            ethereum: "http://localhost:8545".to_string(),
            ethereum_polling_interval: 4000,
            mnemonic: String::new(),
            indexer_address: String::new(),
        },
        indexer_infrastructure: infrastructure(Some("secret")),
        postgres: Postgres {
            postgres_host: "http://0.0.0.0/".to_string(),
            postgres_port: 5432,
            postgres_database: "db".to_string(),
            postgres_username: "postgres".to_string(),
            postgres_password: String::new(),
        },
        network_subgraph: NetworkSubgraph {
            network_subgraph_deployment: None,
            network_subgraph_endpoint: String::new(),
            network_subgraph_auth_token: None,
            serve_network_subgraph: false,
            allocation_syncing_interval: 120_000,
            client_signer_address: None,
        },
        input_file: input_file.map(String::from),
        spec_in: spec_in.map(String::from),
        config: config.map(String::from),
    }
}

fn infrastructure(token: Option<&str>) -> IndexerInfrastructure {
    IndexerInfrastructure {
        port: 7600,
        metrics_port: 7300,
        graph_node_query_endpoint: "http://0.0.0.0:8000".to_string(),
        graph_node_status_endpoint: "http://0.0.0.0:8030".to_string(),
        log_level: LogLevel::default(),
        gcloud_profiling: false,
        free_query_auth_token: token.map(String::from),
    }
}

#[test]
fn log_level_defaults_to_debug() {
    assert_eq!(LogLevel::default(), LogLevel::Debug);
}

#[test]
fn config_input_prefers_input_file() {
    assert_eq!(cli(None, None, None).config_input(), Ok(None));
    assert_eq!(
        cli(Some("in.yaml"), Some("spec"), Some("c.yaml")).config_input(),
        Ok(Some(("in.yaml".to_string(), "c.yaml".to_string())))
    );
    assert_eq!(
        cli(None, Some("spec"), Some("c.yaml")).config_input(),
        Ok(Some(("spec".to_string(), "c.yaml".to_string())))
    );
    assert_eq!(cli(None, None, Some("c.yaml")).config_input(), Err(ConfigError::MissingInput));
    assert_eq!(cli(Some("in.yaml"), None, None).config_input(), Ok(None));
}

#[test]
fn free_queries_need_the_configured_token() {
    let with_token = infrastructure(Some("secret"));
    assert!(with_token.admits_free_query(&Some("secret".to_string())));
    assert!(!with_token.admits_free_query(&Some("other".to_string())));
    assert!(!with_token.admits_free_query(&None));
    let without = infrastructure(None);
    assert!(!without.admits_free_query(&Some("secret".to_string())));
    assert!(!without.admits_free_query(&None));
}
