use glue_catalog::bootstrap::{
    resolve_client_config, select_credentials, select_region, FALLBACK_REGION_NAME,
};
use glue_catalog::{
    BootstrapEnvironment, ClientConfig, CredentialStrategy, GlueDataCatalog, RegionSelection,
};

fn text(value: &str) -> Option<String> {
    Some(value.to_string())
}

fn environment(
    endpoint_url: Option<&str>,
    region_name: Option<&str>,
    web_identity_token_file: Option<&str>,
) -> BootstrapEnvironment {
    BootstrapEnvironment {
        endpoint_url: endpoint_url.map(str::to_string),
        region_name: region_name.map(str::to_string),
        web_identity_token_file: web_identity_token_file.map(str::to_string),
    }
}

#[test]
fn fallback_region_name_is_custom() {
    assert_eq!(FALLBACK_REGION_NAME, "custom");
}

#[test]
fn region_is_default_without_an_endpoint() {
    assert_eq!(select_region(None, None), RegionSelection::Default);
    assert_eq!(select_region(None, text("eu-west-1")), RegionSelection::Default);
}

#[test]
fn region_is_custom_with_an_endpoint() {
    assert_eq!(
        select_region(text("http://localhost:4566"), text("eu-west-1")),
        RegionSelection::Custom {
            name: "eu-west-1".to_string(),
            endpoint: "http://localhost:4566".to_string(),
        }
    );
}

#[test]
fn custom_region_falls_back_to_the_fixed_name() {
    assert_eq!(
        select_region(text("http://localhost:4566"), None),
        RegionSelection::Custom {
            name: "custom".to_string(),
            endpoint: "http://localhost:4566".to_string(),
        }
    );
}

#[test]
fn custom_region_keeps_an_empty_name() {
    assert_eq!(
        select_region(text(""), text("")),
        RegionSelection::Custom { name: String::new(), endpoint: String::new() }
    );
}

#[test]
fn credentials_follow_the_token_file() {
    assert_eq!(select_credentials(None), CredentialStrategy::DefaultChain);
    assert_eq!(
        select_credentials(text("/var/run/secrets/token")),
        CredentialStrategy::FederatedIdentity {
            token_file: "/var/run/secrets/token".to_string(),
        }
    );
    assert_eq!(
        select_credentials(text("")),
        CredentialStrategy::FederatedIdentity { token_file: String::new() }
    );
}

#[test]
fn bootstrap_without_token_file_takes_the_default_chain() {
    for endpoint in [None, Some("http://localhost:4566")] {
        for region in [None, Some("us-east-2")] {
            let config = resolve_client_config(environment(endpoint, region, None));
            assert_eq!(config.credentials, CredentialStrategy::DefaultChain);
        }
    }
}

#[test]
fn bootstrap_with_token_file_takes_federated_identity() {
    for endpoint in [None, Some("http://localhost:4566")] {
        for region in [None, Some("us-east-2")] {
            let config = resolve_client_config(environment(endpoint, region, Some("/token")));
            assert_eq!(
                config.credentials,
                CredentialStrategy::FederatedIdentity { token_file: "/token".to_string() }
            );
        }
    }
}

#[test]
fn bootstrap_resolves_region_and_credentials_together() {
    assert_eq!(
        resolve_client_config(environment(None, None, None)),
        ClientConfig {
            region: RegionSelection::Default,
            credentials: CredentialStrategy::DefaultChain,
        }
    );
    assert_eq!(
        resolve_client_config(environment(Some("http://glue.local"), Some("local"), Some("/t"))),
        ClientConfig {
            region: RegionSelection::Custom {
                name: "local".to_string(),
                endpoint: "http://glue.local".to_string(),
            },
            credentials: CredentialStrategy::FederatedIdentity { token_file: "/t".to_string() },
        }
    );
    assert_eq!(
        resolve_client_config(environment(Some("http://glue.local"), None, None)),
        ClientConfig {
            region: RegionSelection::Custom {
                name: "custom".to_string(),
                endpoint: "http://glue.local".to_string(),
            },
            credentials: CredentialStrategy::DefaultChain,
        }
    );
    assert_eq!(
        resolve_client_config(environment(None, Some("eu-west-1"), Some("/t"))),
        ClientConfig {
            region: RegionSelection::Default,
            credentials: CredentialStrategy::FederatedIdentity { token_file: "/t".to_string() },
        }
    );
}

#[test]
fn catalog_holds_the_resolved_configuration() {
    let catalog = GlueDataCatalog::new(environment(Some("http://glue.local"), None, Some("/t")));
    assert_eq!(
        catalog.client_config(),
        &resolve_client_config(environment(Some("http://glue.local"), None, Some("/t")))
    );
    let plain = GlueDataCatalog::new(environment(None, None, None));
    assert_eq!(plain.client_config().region, RegionSelection::Default);
    assert_eq!(plain.client_config().credentials, CredentialStrategy::DefaultChain);
}
