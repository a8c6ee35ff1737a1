use glue_catalog::catalog::{
    CreateTableRequest, GetTableRequest, GetTableResponse, StorageDescriptor, Table, TableInput,
    DEFAULT_DATABASE_NAME,
};
use glue_catalog::{
    BootstrapEnvironment, DataCatalogError, DeltaTable, DeltaTableMetaData, GlueDataCatalog,
};
use rusoto_core::RusotoError;
use rusoto_credential::CredentialsError;
use rusoto_glue::{CreateTableError, CreateTableResponse, GetTableError};

fn catalog() -> GlueDataCatalog {
    GlueDataCatalog::new(BootstrapEnvironment {
        endpoint_url: None,
        region_name: None,
        web_identity_token_file: None,
    })
}

fn response_with_location(location: &str) -> GetTableResponse {
    GetTableResponse {
        table: Some(Table {
            storage_descriptor: Some(StorageDescriptor { location: Some(location.to_string()) }),
        }),
    }
}

fn table(uri: &str) -> DeltaTable {
    DeltaTable { table_uri: uri.to_string() }
}

fn metadata(name: Option<&str>, description: Option<&str>) -> DeltaTableMetaData {
    DeltaTableMetaData {
        name: name.map(str::to_string),
        description: description.map(str::to_string),
    }
}

#[test]
fn default_database_name_is_unknown() {
    assert_eq!(DEFAULT_DATABASE_NAME, "unknown");
}

#[test]
fn get_table_request_holds_the_table_identity() {
    assert_eq!(
        catalog().get_table_request(Some("123456789012".to_string()), "sales", "orders"),
        GetTableRequest {
            catalog_id: Some("123456789012".to_string()),
            database_name: "sales".to_string(),
            name: "orders".to_string(),
        }
    );
}

#[test]
fn get_table_request_may_leave_the_catalog_out() {
    assert_eq!(
        catalog().get_table_request(None, "sales", "orders"),
        GetTableRequest {
            catalog_id: None,
            database_name: "sales".to_string(),
            name: "orders".to_string(),
        }
    );
}

#[test]
fn resolving_strips_placeholder_and_rewrites_scheme() {
    let outcome = Ok(response_with_location("s3a://bucket/db/table-__PLACEHOLDER__"));
    assert_eq!(
        catalog().get_table_storage_location(outcome),
        Ok("s3://bucket/db/table".to_string())
    );
}

#[test]
fn resolving_rewrites_only_the_scheme() {
    let outcome = Ok(response_with_location("s3a://bucket/t"));
    assert_eq!(catalog().get_table_storage_location(outcome), Ok("s3://bucket/t".to_string()));
}

#[test]
fn resolving_returns_other_locations_unchanged() {
    let outcome = Ok(response_with_location("s3://bucket/path/s3a"));
    assert_eq!(
        catalog().get_table_storage_location(outcome),
        Ok("s3://bucket/path/s3a".to_string())
    );
}

#[test]
fn resolving_without_table_names_the_table() {
    let outcome = Ok(GetTableResponse { table: None });
    assert_eq!(
        catalog().get_table_storage_location(outcome),
        Err(DataCatalogError::MissingMetadata { metadata: "Table".to_string() })
    );
}

#[test]
fn resolving_without_storage_descriptor_names_it() {
    let outcome = Ok(GetTableResponse { table: Some(Table { storage_descriptor: None }) });
    assert_eq!(
        catalog().get_table_storage_location(outcome),
        Err(DataCatalogError::MissingMetadata { metadata: "Storage Descriptor".to_string() })
    );
}

#[test]
fn resolving_without_location_names_it() {
    let outcome = Ok(GetTableResponse {
        table: Some(Table { storage_descriptor: Some(StorageDescriptor { location: None }) }),
    });
    assert_eq!(
        catalog().get_table_storage_location(outcome),
        Err(DataCatalogError::MissingMetadata { metadata: "Location".to_string() })
    );
}

#[test]
fn resolving_wraps_a_failed_request() {
    let outcome = Err(RusotoError::Service(GetTableError::EntityNotFound(
        "no such table".to_string(),
    )));
    assert_eq!(
        catalog().get_table_storage_location(outcome),
        Err(DataCatalogError::GlueError {
            source: RusotoError::Service(GetTableError::EntityNotFound(
                "no such table".to_string()
            )),
        })
    );
}

#[test]
fn registering_builds_the_create_table_request() {
    let request = catalog().create_table_request(
        "123456789012".to_string(),
        table("file:///tmp/t"),
        metadata(Some("orders"), Some("all orders")),
    );
    assert_eq!(
        request,
        Ok(CreateTableRequest {
            catalog_id: Some("123456789012".to_string()),
            database_name: "unknown".to_string(),
            table_input: TableInput {
                name: "orders".to_string(),
                description: Some("all orders".to_string()),
                storage_descriptor: Some(StorageDescriptor {
                    location: Some("file:///tmp/t".to_string()),
                }),
            },
        })
    );
}

#[test]
fn registering_sets_location_and_name_exactly() {
    let request = catalog()
        .create_table_request("c".to_string(), table("file:///tmp/t"), metadata(Some("t"), None))
        .unwrap();
    assert_eq!(request.table_input.name, "t");
    assert_eq!(request.table_input.description, None);
    assert_eq!(
        request.table_input.storage_descriptor.unwrap().location,
        Some("file:///tmp/t".to_string())
    );
}

#[test]
fn registering_does_not_normalize_the_uri() {
    let request = catalog()
        .create_table_request(
            "c".to_string(),
            table("s3a://bucket/t-__PLACEHOLDER__"),
            metadata(Some("t"), None),
        )
        .unwrap();
    assert_eq!(
        request.table_input.storage_descriptor.unwrap().location,
        Some("s3a://bucket/t-__PLACEHOLDER__".to_string())
    );
}

#[test]
fn registering_in_a_named_database() {
    let request = catalog()
        .create_table_request_in(
            "c".to_string(),
            "sales".to_string(),
            table("s3://bucket/t"),
            metadata(Some("t"), None),
        )
        .unwrap();
    assert_eq!(request.database_name, "sales");
    assert_eq!(request.catalog_id, Some("c".to_string()));
}

#[test]
fn registering_accepts_an_empty_name() {
    let request = catalog()
        .create_table_request("c".to_string(), table("s3://bucket/t"), metadata(Some(""), None))
        .unwrap();
    assert_eq!(request.table_input.name, "");
}

#[test]
fn registering_without_name_fails() {
    assert_eq!(
        catalog().create_table_request(
            "c".to_string(),
            table("file:///tmp/t"),
            metadata(None, Some("described")),
        ),
        Err(DataCatalogError::InconsistentDeltaTableMetadata { metadata: "name".to_string() })
    );
    assert_eq!(
        catalog().create_table_request_in(
            "c".to_string(),
            "sales".to_string(),
            table("file:///tmp/t"),
            metadata(None, None),
        ),
        Err(DataCatalogError::InconsistentDeltaTableMetadata { metadata: "name".to_string() })
    );
}

/// Registers a table through a sender that counts the requests it is given
/// and fails each of them.
fn register_through_failing_sender(
    metadata: DeltaTableMetaData,
    sent: &mut Vec<CreateTableRequest>,
) -> Result<(), DataCatalogError> {
    let catalog = catalog();
    let request = catalog.create_table_request("c".to_string(), table("file:///tmp/t"), metadata)?;
    sent.push(request);
    catalog.record_table_storage_location(Err(RusotoError::Validation("simulated".to_string())))
}

#[test]
fn registering_without_name_sends_nothing() {
    let mut sent = Vec::new();
    let result = register_through_failing_sender(metadata(None, None), &mut sent);
    assert_eq!(
        result,
        Err(DataCatalogError::InconsistentDeltaTableMetadata { metadata: "name".to_string() })
    );
    assert!(sent.is_empty());
}

#[test]
fn registering_surfaces_a_remote_failure() {
    let mut sent = Vec::new();
    let result = register_through_failing_sender(metadata(Some("orders"), None), &mut sent);
    assert_eq!(
        result,
        Err(DataCatalogError::GlueCreateTableError {
            source: RusotoError::Validation("simulated".to_string()),
        })
    );
    assert_eq!(sent.len(), 1);
    assert_eq!(sent[0].table_input.name, "orders");
    assert_eq!(
        sent[0].table_input.storage_descriptor,
        Some(StorageDescriptor { location: Some("file:///tmp/t".to_string()) })
    );
}

#[test]
fn recording_keeps_the_cause_of_a_failure() {
    let outcome = Err(RusotoError::Service(CreateTableError::AlreadyExists(
        "orders".to_string(),
    )));
    match catalog().record_table_storage_location(outcome) {
        Err(DataCatalogError::GlueCreateTableError { source }) => assert_eq!(
            source,
            RusotoError::Service(CreateTableError::AlreadyExists("orders".to_string()))
        ),
        other => panic!("unexpected result: {:?}", other),
    }
}

#[test]
fn recording_succeeds_when_the_request_did() {
    assert_eq!(catalog().record_table_storage_location(Ok(CreateTableResponse {})), Ok(()));
}

#[test]
fn get_table_failure_converts_into_glue_error() {
    let error = DataCatalogError::from(RusotoError::<GetTableError>::ParseError(
        "bad payload".to_string(),
    ));
    assert_eq!(
        error,
        DataCatalogError::GlueError { source: RusotoError::ParseError("bad payload".to_string()) }
    );
}

#[test]
fn credentials_failure_converts_into_credentials_error() {
    let error = DataCatalogError::from(CredentialsError::new("no provider"));
    assert_eq!(
        error,
        DataCatalogError::AWSCredentials { source: CredentialsError::new("no provider") }
    );
}

#[test]
fn missing_and_inconsistent_errors_name_their_piece() {
    assert_eq!(
        DataCatalogError::missing_metadata("Location"),
        DataCatalogError::MissingMetadata { metadata: "Location".to_string() }
    );
    assert_eq!(
        DataCatalogError::inconsistent_metadata("name"),
        DataCatalogError::InconsistentDeltaTableMetadata { metadata: "name".to_string() }
    );
}
