use conduit_admin_graphql::channel::OrderDirection;
use conduit_admin_graphql::data_storage::{
    map_settings_from_input, merge_settings, resolve_data_storage_order, DataStorageOrder,
    DataStorageOrderField, DataStorageOrderSelection, DataStorageOrderTerm, DataStorageServiceError,
    DataStorageSettings, DataStorageSettingsInput, GCSInput, S3Input, WebDAVInput, GCS, S3, WebDAV,
};

#[test]
fn resolve_data_storage_order_remaps_created_at_to_default_id_order() {
    let order = Some(DataStorageOrder {
        direction: OrderDirection::Desc,
        field: DataStorageOrderField::CreatedAt,
    });
    let sel = resolve_data_storage_order(order);
    match sel {
        Some(DataStorageOrderSelection { direction, term }) => {
            assert_eq!(direction, OrderDirection::Desc);
            assert_eq!(term, DataStorageOrderTerm::Id);
        }
        None => panic!("expected Some selection"),
    }
}

#[test]
fn resolve_data_storage_order_passes_updated_at_through() {
    let order = Some(DataStorageOrder {
        direction: OrderDirection::Asc,
        field: DataStorageOrderField::UpdatedAt,
    });
    let sel = resolve_data_storage_order(order);
    match sel {
        Some(DataStorageOrderSelection { direction, term }) => {
            assert_eq!(direction, OrderDirection::Asc);
            assert_eq!(term, DataStorageOrderTerm::UpdatedAt);
        }
        None => panic!("expected Some selection"),
    }
}

#[test]
fn resolve_data_storage_order_none_when_argument_absent() {
    assert!(resolve_data_storage_order(None).is_none());
}

#[test]
fn merge_settings_keeps_existing_when_input_is_none() {
    let existing = DataStorageSettings {
        dsn: Some("postgresql://db/conduit".to_string()),
        directory: Some("/var/data".to_string()),
        s3: None,
        gcs: None,
        webdav: None,
    };
    let input = DataStorageSettingsInput {
        dsn: None,
        directory: None,
        s3: None,
        gcs: None,
        webdav: None,
    };
    let merged = merge_settings(&existing, &input);
    assert_eq!(merged.dsn, existing.dsn);
    assert_eq!(merged.directory, existing.directory);
}

#[test]
fn merge_settings_overrides_provided_dsn() {
    let existing = DataStorageSettings {
        dsn: Some("postgresql://old/conduit".to_string()),
        directory: None,
        s3: None,
        gcs: None,
        webdav: None,
    };
    let input = DataStorageSettingsInput {
        dsn: Some("postgres://new".to_string()),
        directory: None,
        s3: None,
        gcs: None,
        webdav: None,
    };
    let merged = merge_settings(&existing, &input);
    assert_eq!(merged.dsn.as_deref(), Some("postgres://new"));
}

fn stored() -> DataStorageSettings {
    DataStorageSettings {
        dsn: None,
        directory: Some("/data".to_owned()),
        s3: Some(S3 {
            bucket_name: "old".to_owned(),
            endpoint: "e".to_owned(),
            region: "r".to_owned(),
            path_style: true,
        }),
        gcs: Some(GCS { bucket_name: "g".to_owned() }),
        webdav: Some(WebDAV {
            url: "https://dav".to_owned(),
            username: Some("u".to_owned()),
            password: Some("p".to_owned()),
            insecure_skip_tls: Some(true),
            path: None,
        }),
    }
}

fn nothing_given() -> DataStorageSettingsInput {
    DataStorageSettingsInput { dsn: None, directory: None, s3: None, gcs: None, webdav: None }
}

#[test]
fn a_change_that_gives_nothing_keeps_everything() {
    assert_eq!(merge_settings(&stored(), &nothing_given()), stored());
}

#[test]
fn given_values_win_and_the_rest_is_kept() {
    let mut change = nothing_given();
    change.s3 = Some(S3Input {
        bucket_name: String::new(),
        endpoint: Some("e2".to_owned()),
        region: None,
        access_key: Some("ak".to_owned()),
        secret_key: None,
        path_style: Some(false),
    });
    change.gcs = Some(GCSInput { bucket_name: "g2".to_owned(), credential: None });
    change.webdav = Some(WebDAVInput {
        url: "https://other".to_owned(),
        username: None,
        password: None,
        insecure_skip_tls: None,
        path: Some("/x".to_owned()),
    });
    let merged = merge_settings(&stored(), &change);
    assert_eq!(
        merged.s3,
        Some(S3 {
            bucket_name: "old".to_owned(),
            endpoint: "e2".to_owned(),
            region: "r".to_owned(),
            path_style: false,
        })
    );
    assert_eq!(merged.gcs, Some(GCS { bucket_name: "g2".to_owned() }));
    assert_eq!(
        merged.webdav,
        Some(WebDAV {
            url: "https://other".to_owned(),
            username: Some("u".to_owned()),
            password: Some("p".to_owned()),
            insecure_skip_tls: Some(true),
            path: Some("/x".to_owned()),
        })
    );
    assert_eq!(merge_settings(&merged, &change), merged);
}

#[test]
fn an_empty_bucket_name_keeps_the_stored_one() {
    let mut change = nothing_given();
    change.gcs = Some(GCSInput { bucket_name: String::new(), credential: Some("c".to_owned()) });
    assert_eq!(
        merge_settings(&stored(), &change).gcs,
        Some(GCS { bucket_name: "g".to_owned() })
    );
}

#[test]
fn new_settings_fill_what_is_not_given() {
    let mut given = nothing_given();
    given.s3 = Some(S3Input {
        bucket_name: "b".to_owned(),
        endpoint: None,
        region: None,
        access_key: None,
        secret_key: None,
        path_style: None,
    });
    given.webdav = Some(WebDAVInput {
        url: String::new(),
        username: None,
        password: None,
        insecure_skip_tls: None,
        path: None,
    });
    let settings = map_settings_from_input(&given);
    assert_eq!(
        settings,
        DataStorageSettings {
            dsn: None,
            directory: None,
            s3: Some(S3 {
                bucket_name: "b".to_owned(),
                endpoint: String::new(),
                region: String::new(),
                path_style: false,
            }),
            gcs: None,
            webdav: Some(WebDAV {
                url: String::new(),
                username: None,
                password: None,
                insecure_skip_tls: None,
                path: None,
            }),
        }
    );
}

#[test]
fn data_storage_errors_read_as_promised() {
    assert_eq!(
        DataStorageServiceError::ServiceUnavailable.message(),
        "data storage service is not available"
    );
    assert_eq!(
        DataStorageServiceError::DuplicateName("n".to_owned()).message(),
        "data storage name 'n' already exists"
    );
    assert_eq!(DataStorageServiceError::NotFound.message(), "ent: datastorage not found");
    assert_eq!(
        DataStorageServiceError::Create("x".to_owned()).message(),
        "failed to create data storage: x"
    );
    assert_eq!(
        DataStorageServiceError::Update("x".to_owned()).message(),
        "failed to update data storage: x"
    );
    assert_eq!(
        DataStorageServiceError::Query("x".to_owned()).message(),
        "failed to query data storages: x"
    );
}
