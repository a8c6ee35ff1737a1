//! A table catalog backed by the AWS Glue Data Catalog, without the network.
//!
//! The crate holds every decision the catalog takes: which request to send,
//! what a response means, how a storage location is normalized, and how a
//! client is to be configured. Sending the request is left to the caller.

pub mod bootstrap;
pub mod catalog;
pub mod error;
pub mod location;

pub use bootstrap::{BootstrapEnvironment, ClientConfig, CredentialStrategy, RegionSelection};
pub use catalog::{DeltaTable, DeltaTableMetaData, GlueDataCatalog};
pub use error::DataCatalogError;
