//! The Glue-backed catalog: the requests it sends and what it makes of the
//! answers.
//!
//! Each of the two operations of a catalog is one request and one answer.
//! For each, the catalog says which request to send, and, given the outcome of
//! sending it, what the operation returns. An operation whose request cannot
//! be built fails before anything is sent.

use crate::bootstrap::{
    config_for, resolve_client_config, BootstrapEnvironment, ClientConfig, ClientConfigView,
};
use crate::error::{DataCatalogError, DataCatalogErrorView};
use crate::location::{
    has_placeholder_suffix, has_s3a_scheme, lemma_only_scheme_rewritten, lemma_placeholder_removed,
    normalize_location, normalize_storage_location, placeholder_suffix, rewrite_scheme, s3_scheme,
    s3a_scheme,
};
use rusoto_core::RusotoError;
use rusoto_glue::{CreateTableError, CreateTableResponse, GetTableError};
use vstd::prelude::*;

verus! {

/// The database in which a table is registered when the caller names none.
pub const DEFAULT_DATABASE_NAME: &'static str = "unknown";

/// The default database name, as characters.
pub open spec fn default_database_name() -> Seq<char> {
    DEFAULT_DATABASE_NAME@
}

/// `rusoto_glue::CreateTableResponse`, the service's answer to a "create
/// table" request that succeeded. It holds nothing.
#[verifier::external_type_specification]
#[verifier::external_body]
pub struct ExCreateTableResponse(CreateTableResponse);

/// The physical storage of a table, as far as the catalog reads or sets it.
#[derive(Debug, Clone, PartialEq, Eq)]
pub struct StorageDescriptor {
    pub location: Option<String>,
}

/// A `StorageDescriptor` with its text as a sequence of characters.
pub struct StorageDescriptorView {
    pub location: Option<Seq<char>>,
}

impl View for StorageDescriptor {
    type V = StorageDescriptorView;

    open spec fn view(&self) -> StorageDescriptorView {
        StorageDescriptorView { location: self.location.deep_view() }
    }
}

/// A table as the service describes it, as far as the catalog reads it.
#[derive(Debug, Clone, PartialEq, Eq)]
pub struct Table {
    pub storage_descriptor: Option<StorageDescriptor>,
}

/// A `Table` with its texts as sequences of characters.
pub struct TableView {
    pub storage_descriptor: Option<StorageDescriptorView>,
}

impl View for Table {
    type V = TableView;

    open spec fn view(&self) -> TableView {
        TableView {
            storage_descriptor: match self.storage_descriptor {
                Some(descriptor) => Some(descriptor@),
                None => None,
            },
        }
    }
}

/// The request that asks the service to describe a table.
#[derive(Debug, Clone, PartialEq, Eq)]
pub struct GetTableRequest {
    /// The catalog to look in; without one the service takes the account's.
    pub catalog_id: Option<String>,
    pub database_name: String,
    pub name: String,
}

/// A `GetTableRequest` with its texts as sequences of characters.
pub struct GetTableRequestView {
    pub catalog_id: Option<Seq<char>>,
    pub database_name: Seq<char>,
    pub name: Seq<char>,
}

impl View for GetTableRequest {
    type V = GetTableRequestView;

    open spec fn view(&self) -> GetTableRequestView {
        GetTableRequestView {
            catalog_id: self.catalog_id.deep_view(),
            database_name: self.database_name@,
            name: self.name@,
        }
    }
}

/// The service's answer to a `GetTableRequest`.
#[derive(Debug, Clone, PartialEq, Eq)]
pub struct GetTableResponse {
    pub table: Option<Table>,
}

/// A `GetTableResponse` with its texts as sequences of characters.
pub struct GetTableResponseView {
    pub table: Option<TableView>,
}

impl View for GetTableResponse {
    type V = GetTableResponseView;

    open spec fn view(&self) -> GetTableResponseView {
        GetTableResponseView {
            table: match self.table {
                Some(table) => Some(table@),
                None => None,
            },
        }
    }
}

/// The definition of a table to create. It holds the attributes that a
/// registration sets; every other attribute of the service's table input
/// (owner, partition keys, retention, and so on) is unset in a request made
/// from it.
#[derive(Debug, Clone, PartialEq, Eq)]
pub struct TableInput {
    pub name: String,
    pub description: Option<String>,
    pub storage_descriptor: Option<StorageDescriptor>,
}

/// A `TableInput` with its texts as sequences of characters.
pub struct TableInputView {
    pub name: Seq<char>,
    pub description: Option<Seq<char>>,
    pub storage_descriptor: Option<StorageDescriptorView>,
}

impl View for TableInput {
    type V = TableInputView;

    open spec fn view(&self) -> TableInputView {
        TableInputView {
            name: self.name@,
            description: self.description.deep_view(),
            storage_descriptor: match self.storage_descriptor {
                Some(descriptor) => Some(descriptor@),
                None => None,
            },
        }
    }
}

/// The request that asks the service to create a table.
#[derive(Debug, Clone, PartialEq, Eq)]
pub struct CreateTableRequest {
    pub catalog_id: Option<String>,
    pub database_name: String,
    pub table_input: TableInput,
}

/// A `CreateTableRequest` with its texts as sequences of characters.
pub struct CreateTableRequestView {
    pub catalog_id: Option<Seq<char>>,
    pub database_name: Seq<char>,
    pub table_input: TableInputView,
}

impl View for CreateTableRequest {
    type V = CreateTableRequestView;

    open spec fn view(&self) -> CreateTableRequestView {
        CreateTableRequestView {
            catalog_id: self.catalog_id.deep_view(),
            database_name: self.database_name@,
            table_input: self.table_input@,
        }
    }
}

/// The handle of a table of the storage engine: where its data lies.
#[derive(Debug, Clone, PartialEq, Eq)]
pub struct DeltaTable {
    pub table_uri: String,
}

/// The metadata of a table of the storage engine, as far as a registration
/// reads it.
#[derive(Debug, Clone, PartialEq, Eq)]
pub struct DeltaTableMetaData {
    pub name: Option<String>,
    pub description: Option<String>,
}

/// A `DeltaTableMetaData` with its texts as sequences of characters.
pub struct DeltaTableMetaDataView {
    pub name: Option<Seq<char>>,
    pub description: Option<Seq<char>>,
}

impl View for DeltaTableMetaData {
    type V = DeltaTableMetaDataView;

    open spec fn view(&self) -> DeltaTableMetaDataView {
        DeltaTableMetaDataView {
            name: self.name.deep_view(),
            description: self.description.deep_view(),
        }
    }
}

/// A result with what it holds, success or error, taken by its view.
pub open spec fn result_view<T: View, E: View>(result: Result<T, E>) -> Result<T::V, E::V> {
    match result {
        Ok(value) => Ok(value@),
        Err(error) => Err(error@),
    }
}

/// The outcome of a request with the answer taken by its view. The cause of
/// a failure stays as it is.
pub open spec fn outcome_view<T: View, E>(outcome: Result<T, E>) -> Result<T::V, E> {
    match outcome {
        Ok(response) => Ok(response@),
        Err(cause) => Err(cause),
    }
}

/// The request that looks a table up.
pub open spec fn lookup_request(
    catalog_id: Option<Seq<char>>,
    database_name: Seq<char>,
    table_name: Seq<char>,
) -> GetTableRequestView {
    GetTableRequestView { catalog_id, database_name, name: table_name }
}

/// The error that names a missing piece of a "get table" answer.
pub open spec fn missing(piece: Seq<char>) -> DataCatalogErrorView {
    DataCatalogErrorView::MissingMetadata { metadata: piece }
}

/// The location that the answer to a "get table" request holds, or the first
/// piece on the way to it that the answer lacks.
pub open spec fn described_location(response: GetTableResponseView) -> Result<
    Seq<char>,
    DataCatalogErrorView,
> {
    match response.table {
        None => Err(missing("Table"@)),
        Some(table) => match table.storage_descriptor {
            None => Err(missing("Storage Descriptor"@)),
            Some(descriptor) => match descriptor.location {
                None => Err(missing("Location"@)),
                Some(location) => Ok(location),
            },
        },
    }
}

/// What resolving a table's location returns, given the outcome of the "get
/// table" request: the failure of the request, wrapped; or the missing piece
/// of the answer, named; or the location in the answer, normalized.
pub open spec fn storage_location(
    outcome: Result<GetTableResponseView, RusotoError<GetTableError>>,
) -> Result<Seq<char>, DataCatalogErrorView> {
    match outcome {
        Err(source) => Err(DataCatalogErrorView::GlueError { source }),
        Ok(response) => match described_location(response) {
            Err(error) => Err(error),
            Ok(location) => Ok(normalize_location(location)),
        },
    }
}

/// The request that registers a table in `database_name`, or the error for
/// metadata without a name. The request holds the catalog, the database, the
/// table's name and description, and the table's URI as its location.
pub open spec fn registration_request(
    catalog_id: Seq<char>,
    database_name: Seq<char>,
    table_uri: Seq<char>,
    metadata: DeltaTableMetaDataView,
) -> Result<CreateTableRequestView, DataCatalogErrorView> {
    match metadata.name {
        None => Err(DataCatalogErrorView::InconsistentDeltaTableMetadata { metadata: "name"@ }),
        Some(name) => Ok(
            CreateTableRequestView {
                catalog_id: Some(catalog_id),
                database_name,
                table_input: TableInputView {
                    name,
                    description: metadata.description,
                    storage_descriptor: Some(StorageDescriptorView { location: Some(table_uri) }),
                },
            },
        ),
    }
}

/// What registering a table returns, given the outcome of the "create table"
/// request: success, or the failure of the request, wrapped.
pub open spec fn registration_result(
    outcome: Result<CreateTableResponse, RusotoError<CreateTableError>>,
) -> Result<(), DataCatalogErrorView> {
    match outcome {
        Ok(_) => Ok(()),
        Err(source) => Err(DataCatalogErrorView::GlueCreateTableError { source }),
    }
}

/// An answer that lacks the table, the storage descriptor or the location
/// makes resolving fail with the error that names that piece.
pub proof fn lemma_missing_piece_named(response: GetTableResponseView)
    ensures
        response.table is None ==> (storage_location(Ok(response)) matches Err(error)
            && error == missing("Table"@)),
        response.table matches Some(table) && table.storage_descriptor is None
            ==> (storage_location(Ok(response)) matches Err(error)
            && error == missing("Storage Descriptor"@)),
        response.table matches Some(table) && table.storage_descriptor matches Some(descriptor)
            && descriptor.location is None
            ==> (storage_location(Ok(response)) matches Err(error)
            && error == missing("Location"@)),
{
}

/// Resolving a location that ends with the placeholder marker yields the
/// location without that marker and with nothing else changed but an `s3a`
/// scheme: the resolved location followed by the marker is the location
/// with its scheme rewritten.
pub proof fn lemma_resolving_removes_placeholder(
    response: GetTableResponseView,
    location: Seq<char>,
)
    requires
        described_location(response) matches Ok(described) && described == location,
        has_placeholder_suffix(location),
    ensures
        storage_location(Ok(response)) matches Ok(resolved) && resolved + placeholder_suffix()
            == rewrite_scheme(location) && (!has_s3a_scheme(location) ==> resolved
            + placeholder_suffix() == location),
{
    lemma_placeholder_removed(location);
}

/// Resolving a location of scheme `s3a` that does not end with the
/// placeholder marker rewrites the scheme and nothing else.
pub proof fn lemma_resolving_rewrites_scheme_only(
    response: GetTableResponseView,
    location: Seq<char>,
)
    requires
        described_location(response) matches Ok(described) && described == location,
        has_s3a_scheme(location),
        !has_placeholder_suffix(location),
    ensures
        storage_location(Ok(response)) matches Ok(resolved) && resolved == s3_scheme()
            + location.skip(s3a_scheme().len() as int),
{
    lemma_only_scheme_rewritten(location);
}

/// Metadata without a name gives no request, whatever the rest holds: the
/// registration fails with the error that names the field, and nothing is
/// there to send. Metadata with a name always gives a request.
pub proof fn lemma_registration_needs_name(
    catalog_id: Seq<char>,
    database_name: Seq<char>,
    table_uri: Seq<char>,
    metadata: DeltaTableMetaDataView,
)
    ensures
        registration_request(catalog_id, database_name, table_uri, metadata) is Err
            <==> metadata.name is None,
        metadata.name is None ==> (registration_request(
            catalog_id,
            database_name,
            table_uri,
            metadata,
        ) matches Err(error) && error == (DataCatalogErrorView::InconsistentDeltaTableMetadata {
            metadata: "name"@,
        })),
{
}

/// A catalog backed by the Glue Data Catalog. It holds the configuration of
/// its client, resolved once when the catalog is made.
#[derive(Debug, Clone, PartialEq, Eq)]
pub struct GlueDataCatalog {
    config: ClientConfig,
}

impl View for GlueDataCatalog {
    type V = ClientConfigView;

    closed spec fn view(&self) -> ClientConfigView {
        self.config@
    }
}

impl GlueDataCatalog {
    /// Creates a catalog whose client is configured as `environment` asks.
    pub fn new(environment: BootstrapEnvironment) -> (catalog: GlueDataCatalog)
        ensures
            catalog@ == config_for(environment@),
    {
        GlueDataCatalog { config: resolve_client_config(environment) }
    }

    /// The configuration from which the catalog's client is built.
    pub fn client_config(&self) -> (config: &ClientConfig)
        ensures
            config@ == self@,
    {
        &self.config
    }

    /// The request to send in order to resolve the location of a table.
    pub fn get_table_request(
        &self,
        catalog_id: Option<String>,
        database_name: &str,
        table_name: &str,
    ) -> (request: GetTableRequest)
        ensures
            request@ == lookup_request(catalog_id.deep_view(), database_name@, table_name@),
    {
        GetTableRequest {
            catalog_id,
            database_name: database_name.to_owned(),
            name: table_name.to_owned(),
        }
    }

    /// The location of a table, from the outcome of the request that
    /// `get_table_request` gave.
    pub fn get_table_storage_location(
        &self,
        outcome: Result<GetTableResponse, RusotoError<GetTableError>>,
    ) -> (result: Result<String, DataCatalogError>)
        ensures
            result_view(result) == storage_location(outcome_view(outcome)),
    {
        let response = match outcome {
            Ok(response) => response,
            Err(source) => {
                return Err(DataCatalogError::from(source));
            },
        };
        let table = match response.table {
            Some(table) => table,
            None => {
                return Err(DataCatalogError::missing_metadata("Table"));
            },
        };
        let descriptor = match table.storage_descriptor {
            Some(descriptor) => descriptor,
            None => {
                return Err(DataCatalogError::missing_metadata("Storage Descriptor"));
            },
        };
        match descriptor.location {
            Some(location) => Ok(normalize_storage_location(location.as_str())),
            None => Err(DataCatalogError::missing_metadata("Location")),
        }
    }

    /// The request to send in order to register a table in the default
    /// database, or the reason why none is sent.
    pub fn create_table_request(
        &self,
        catalog_id: String,
        table: DeltaTable,
        metadata: DeltaTableMetaData,
    ) -> (result: Result<CreateTableRequest, DataCatalogError>)
        ensures
            result_view(result) == registration_request(
                catalog_id@,
                default_database_name(),
                table.table_uri@,
                metadata@,
            ),
    {
        self.create_table_request_in(
            catalog_id,
            DEFAULT_DATABASE_NAME.to_owned(),
            table,
            metadata,
        )
    }

    /// The request to send in order to register a table in `database_name`,
    /// or the reason why none is sent.
    pub fn create_table_request_in(
        &self,
        catalog_id: String,
        database_name: String,
        table: DeltaTable,
        metadata: DeltaTableMetaData,
    ) -> (result: Result<CreateTableRequest, DataCatalogError>)
        ensures
            result_view(result) == registration_request(
                catalog_id@,
                database_name@,
                table.table_uri@,
                metadata@,
            ),
    {
        let name = match metadata.name {
            Some(name) => name,
            None => {
                return Err(DataCatalogError::inconsistent_metadata("name"));
            },
        };
        Ok(
            CreateTableRequest {
                catalog_id: Some(catalog_id),
                database_name,
                table_input: TableInput {
                    name,
                    description: metadata.description,
                    storage_descriptor: Some(
                        StorageDescriptor { location: Some(table.table_uri) },
                    ),
                },
            },
        )
    }

    /// Whether a table was registered, from the outcome of the request that
    /// `create_table_request` gave.
    pub fn record_table_storage_location(
        &self,
        outcome: Result<CreateTableResponse, RusotoError<CreateTableError>>,
    ) -> (result: Result<(), DataCatalogError>)
        ensures
            result_view(result) == registration_result(outcome),
    {
        match outcome {
            Ok(_) => Ok(()),
            Err(source) => Err(DataCatalogError::GlueCreateTableError { source }),
        }
    }
}

} // verus!
