//! The errors of the catalog, and the errors of the AWS client that they wrap.

use rusoto_core::request::TlsError;
use rusoto_core::RusotoError;
use rusoto_credential::CredentialsError;
use rusoto_glue::{CreateTableError, GetTableError};
use vstd::prelude::*;
use vstd::std_specs::convert::FromSpecImpl;

verus! {

/// `rusoto_core::RusotoError`, the failure of a request. The catalog never
/// looks inside one: it is carried to the caller as the cause.
#[verifier::external_type_specification]
#[verifier::external_body]
#[verifier::reject_recursive_types(E)]
pub struct ExRusotoError<E>(RusotoError<E>);

/// `rusoto_glue::GetTableError`, what the service answers when a table cannot
/// be described. Carried, never read.
#[verifier::external_type_specification]
#[verifier::external_body]
pub struct ExGetTableError(GetTableError);

/// `rusoto_glue::CreateTableError`, what the service answers when a table
/// cannot be created. Carried, never read.
#[verifier::external_type_specification]
#[verifier::external_body]
pub struct ExCreateTableError(CreateTableError);

/// `rusoto_core::request::TlsError`, the failure to set up the HTTP
/// transport. Carried, never read.
#[verifier::external_type_specification]
#[verifier::external_body]
pub struct ExTlsError(TlsError);

/// `rusoto_credential::CredentialsError`, the failure to set up a credential
/// provider. Carried, never read.
#[verifier::external_type_specification]
#[verifier::external_body]
pub struct ExCredentialsError(CredentialsError);

/// Why a catalog operation, or the construction of a catalog client, failed.
#[derive(Debug, PartialEq)]
#[allow(inconsistent_fields)]
pub enum DataCatalogError {
    /// The answer to a "get table" request lacks a piece that is needed;
    /// `metadata` names the piece.
    MissingMetadata { metadata: String },
    /// The metadata of a table to register lacks a field that is needed;
    /// `metadata` names the field.
    InconsistentDeltaTableMetadata { metadata: String },
    /// The "get table" request itself failed.
    GlueError { source: RusotoError<GetTableError> },
    /// The "create table" request itself failed.
    GlueCreateTableError { source: RusotoError<CreateTableError> },
    /// The HTTP transport of a client could not be built.
    RusotoTlsError { source: TlsError },
    /// The credential provider of a client could not be built.
    AWSCredentials { source: CredentialsError },
}

/// A `DataCatalogError` with its texts as sequences of characters.
#[allow(inconsistent_fields)]
pub enum DataCatalogErrorView {
    MissingMetadata { metadata: Seq<char> },
    InconsistentDeltaTableMetadata { metadata: Seq<char> },
    GlueError { source: RusotoError<GetTableError> },
    GlueCreateTableError { source: RusotoError<CreateTableError> },
    RusotoTlsError { source: TlsError },
    AWSCredentials { source: CredentialsError },
}

impl View for DataCatalogError {
    type V = DataCatalogErrorView;

    open spec fn view(&self) -> DataCatalogErrorView {
        match *self {
            DataCatalogError::MissingMetadata { metadata } => DataCatalogErrorView::MissingMetadata {
                metadata: metadata@,
            },
            DataCatalogError::InconsistentDeltaTableMetadata { metadata } => {
                DataCatalogErrorView::InconsistentDeltaTableMetadata { metadata: metadata@ }
            },
            DataCatalogError::GlueError { source } => DataCatalogErrorView::GlueError { source },
            DataCatalogError::GlueCreateTableError { source } => {
                DataCatalogErrorView::GlueCreateTableError { source }
            },
            DataCatalogError::RusotoTlsError { source } => DataCatalogErrorView::RusotoTlsError {
                source,
            },
            DataCatalogError::AWSCredentials { source } => DataCatalogErrorView::AWSCredentials {
                source,
            },
        }
    }
}

impl DataCatalogError {
    /// The error for a piece that the answer to a "get table" request lacks.
    pub fn missing_metadata(piece: &str) -> (error: DataCatalogError)
        ensures
            error@ == (DataCatalogErrorView::MissingMetadata { metadata: piece@ }),
    {
        DataCatalogError::MissingMetadata { metadata: piece.to_owned() }
    }

    /// The error for a field that the metadata of a table to register lacks.
    pub fn inconsistent_metadata(field: &str) -> (error: DataCatalogError)
        ensures
            error@ == (DataCatalogErrorView::InconsistentDeltaTableMetadata { metadata: field@ }),
    {
        DataCatalogError::InconsistentDeltaTableMetadata { metadata: field.to_owned() }
    }
}

impl From<RusotoError<GetTableError>> for DataCatalogError {
    fn from(source: RusotoError<GetTableError>) -> (error: DataCatalogError) {
        DataCatalogError::GlueError { source }
    }
}

impl FromSpecImpl<RusotoError<GetTableError>> for DataCatalogError {
    open spec fn obeys_from_spec() -> bool {
        true
    }

    open spec fn from_spec(source: RusotoError<GetTableError>) -> DataCatalogError {
        DataCatalogError::GlueError { source }
    }
}

impl From<TlsError> for DataCatalogError {
    fn from(source: TlsError) -> (error: DataCatalogError) {
        DataCatalogError::RusotoTlsError { source }
    }
}

impl FromSpecImpl<TlsError> for DataCatalogError {
    open spec fn obeys_from_spec() -> bool {
        true
    }

    open spec fn from_spec(source: TlsError) -> DataCatalogError {
        DataCatalogError::RusotoTlsError { source }
    }
}

impl From<CredentialsError> for DataCatalogError {
    fn from(source: CredentialsError) -> (error: DataCatalogError) {
        DataCatalogError::AWSCredentials { source }
    }
}

impl FromSpecImpl<CredentialsError> for DataCatalogError {
    open spec fn obeys_from_spec() -> bool {
        true
    }

    open spec fn from_spec(source: CredentialsError) -> DataCatalogError {
        DataCatalogError::AWSCredentials { source }
    }
}

} // verus!
