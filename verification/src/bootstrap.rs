//! How a catalog client is to be configured: which region it talks to and
//! where its credentials come from.
//!
//! The environment is read by the caller, once, and handed over as a
//! `BootstrapEnvironment`. What is decided here is a `ClientConfig`; building
//! the client from it is the caller's part.

use vstd::prelude::*;

verus! {

/// The name given to a custom region when the environment names none.
pub const FALLBACK_REGION_NAME: &'static str = "custom";

/// The fallback region name, as characters.
pub open spec fn fallback_region_name() -> Seq<char> {
    FALLBACK_REGION_NAME@
}

/// The three environment variables that decide the configuration, each with
/// its value if it is set.
#[derive(Debug, Clone, PartialEq, Eq)]
pub struct BootstrapEnvironment {
    /// `AWS_ENDPOINT_URL`: a service endpoint to use in place of AWS's own.
    pub endpoint_url: Option<String>,
    /// `AWS_REGION`: the name of the region.
    pub region_name: Option<String>,
    /// `AWS_WEB_IDENTITY_TOKEN_FILE`: where a federated-identity token lies.
    pub web_identity_token_file: Option<String>,
}

/// A `BootstrapEnvironment` with its texts as sequences of characters.
pub struct BootstrapEnvironmentView {
    pub endpoint_url: Option<Seq<char>>,
    pub region_name: Option<Seq<char>>,
    pub web_identity_token_file: Option<Seq<char>>,
}

impl View for BootstrapEnvironment {
    type V = BootstrapEnvironmentView;

    open spec fn view(&self) -> BootstrapEnvironmentView {
        BootstrapEnvironmentView {
            endpoint_url: self.endpoint_url.deep_view(),
            region_name: self.region_name.deep_view(),
            web_identity_token_file: self.web_identity_token_file.deep_view(),
        }
    }
}

/// The region of a client.
#[derive(Debug, Clone, PartialEq, Eq)]
pub enum RegionSelection {
    /// The region that the platform resolves by default.
    Default,
    /// A region of the caller's own, reached at `endpoint`.
    Custom { name: String, endpoint: String },
}

/// A `RegionSelection` with its texts as sequences of characters.
pub enum RegionSelectionView {
    Default,
    Custom { name: Seq<char>, endpoint: Seq<char> },
}

impl View for RegionSelection {
    type V = RegionSelectionView;

    open spec fn view(&self) -> RegionSelectionView {
        match *self {
            RegionSelection::Default => RegionSelectionView::Default,
            RegionSelection::Custom { name, endpoint } => RegionSelectionView::Custom {
                name: name@,
                endpoint: endpoint@,
            },
        }
    }
}

/// Where the credentials of a client come from.
#[derive(Debug, Clone, PartialEq, Eq)]
pub enum CredentialStrategy {
    /// The client's default chain of providers, on the region alone.
    DefaultChain,
    /// A self-refreshing provider of federated-identity credentials, with an
    /// HTTP transport of the catalog's own.
    FederatedIdentity { token_file: String },
}

/// A `CredentialStrategy` with its text as a sequence of characters.
pub enum CredentialStrategyView {
    DefaultChain,
    FederatedIdentity { token_file: Seq<char> },
}

impl View for CredentialStrategy {
    type V = CredentialStrategyView;

    open spec fn view(&self) -> CredentialStrategyView {
        match *self {
            CredentialStrategy::DefaultChain => CredentialStrategyView::DefaultChain,
            CredentialStrategy::FederatedIdentity { token_file } => {
                CredentialStrategyView::FederatedIdentity { token_file: token_file@ }
            },
        }
    }
}

/// Everything that is needed to build a client.
#[derive(Debug, Clone, PartialEq, Eq)]
pub struct ClientConfig {
    pub region: RegionSelection,
    pub credentials: CredentialStrategy,
}

/// A `ClientConfig` with its texts as sequences of characters.
pub struct ClientConfigView {
    pub region: RegionSelectionView,
    pub credentials: CredentialStrategyView,
}

impl View for ClientConfig {
    type V = ClientConfigView;

    open spec fn view(&self) -> ClientConfigView {
        ClientConfigView { region: self.region@, credentials: self.credentials@ }
    }
}

/// The region for an endpoint override and a region name, each if set: with
/// an endpoint, a custom region at that endpoint, under the name given or the
/// fallback name; without one, the default region, whatever the name.
pub open spec fn region_for(
    endpoint_url: Option<Seq<char>>,
    region_name: Option<Seq<char>>,
) -> RegionSelectionView {
    match endpoint_url {
        Some(endpoint) => RegionSelectionView::Custom {
            name: match region_name {
                Some(name) => name,
                None => fallback_region_name(),
            },
            endpoint,
        },
        None => RegionSelectionView::Default,
    }
}

/// The credential strategy for a token file, if one is set: federated
/// identity with it, the default chain without.
pub open spec fn credentials_for(web_identity_token_file: Option<Seq<char>>)
    -> CredentialStrategyView {
    match web_identity_token_file {
        Some(token_file) => CredentialStrategyView::FederatedIdentity { token_file },
        None => CredentialStrategyView::DefaultChain,
    }
}

/// The configuration that an environment asks for.
pub open spec fn config_for(environment: BootstrapEnvironmentView) -> ClientConfigView {
    ClientConfigView {
        region: region_for(environment.endpoint_url, environment.region_name),
        credentials: credentials_for(environment.web_identity_token_file),
    }
}

/// Whether a client for `config` is built on the default chain of providers.
pub open spec fn uses_default_chain(config: ClientConfigView) -> bool {
    config.credentials is DefaultChain
}

/// The construction path depends on the token file alone: the default chain
/// is taken exactly when no token file is set, whatever the endpoint and the
/// region name are.
pub proof fn lemma_strategy_follows_token_file(environment: BootstrapEnvironmentView)
    ensures
        uses_default_chain(config_for(environment))
            <==> environment.web_identity_token_file is None,
        environment.web_identity_token_file matches Some(token_file) ==> config_for(
            environment,
        ).credentials == (CredentialStrategyView::FederatedIdentity { token_file }),
{
}

/// Chooses the region of a client.
pub fn select_region(endpoint_url: Option<String>, region_name: Option<String>) -> (region:
    RegionSelection)
    ensures
        region@ == region_for(endpoint_url.deep_view(), region_name.deep_view()),
{
    match endpoint_url {
        Some(endpoint) => {
            let name = match region_name {
                Some(name) => name,
                None => FALLBACK_REGION_NAME.to_owned(),
            };
            RegionSelection::Custom { name, endpoint }
        },
        None => RegionSelection::Default,
    }
}

/// Chooses where the credentials of a client come from.
pub fn select_credentials(web_identity_token_file: Option<String>) -> (credentials:
    CredentialStrategy)
    ensures
        credentials@ == credentials_for(web_identity_token_file.deep_view()),
{
    match web_identity_token_file {
        Some(token_file) => CredentialStrategy::FederatedIdentity { token_file },
        None => CredentialStrategy::DefaultChain,
    }
}

/// Resolves the configuration of a client from the environment.
pub fn resolve_client_config(environment: BootstrapEnvironment) -> (config: ClientConfig)
    ensures
        config@ == config_for(environment@),
{
    ClientConfig {
        region: select_region(environment.endpoint_url, environment.region_name),
        credentials: select_credentials(environment.web_identity_token_file),
    }
}

} // verus!
