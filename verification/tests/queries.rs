use conduit_admin_graphql::backup_ext::BackupExtError;
use conduit_admin_graphql::change_set::{ChangeSetError, ChangeSetKind, ChangeSetStatus};
use conduit_admin_graphql::channel::{
    ChannelOrder, ChannelOrderField, ChannelOrderSelection, ChannelOrderTerm, ChannelStatus,
    OrderDirection,
};
use conduit_admin_graphql::channel_override_template_ext::ChannelOverrideTemplateExtError;
use conduit_admin_graphql::channel_probe_ext::ChannelProbeError;
use conduit_admin_graphql::channel_queries::{
    ChannelExtraQueryError, CountChannelsByTypeArgs, CountChannelsByTypeInput, QueryChannelInput,
    QueryChannelsArgs,
};
use conduit_admin_graphql::dashboard::DashboardError;
use conduit_admin_graphql::data_storage::{
    DataStorage, DataStorageSettings, DataStorageStatus, DataStorageType,
};
use conduit_admin_graphql::edges::{EdgeFilter, EdgePage, ExecutionArgs};
use conduit_admin_graphql::scalars::{CursorScalar, TimeScalar, ID};

#[test]
fn query_channel_input_lowers_created_at_to_default_id_order() {
    let args: QueryChannelsArgs = QueryChannelInput {
        order_by: Some(ChannelOrder {
            direction: OrderDirection::Desc,
            field: ChannelOrderField::CreatedAt,
        }),
        has_tag: Some("prod".to_owned()),
        model: Some("gpt-4o".to_owned()),
        ..QueryChannelInput::default()
    }
    .into();

    assert_eq!(
        args.order_by,
        Some(ChannelOrderSelection {
            direction: OrderDirection::Desc,
            term: ChannelOrderTerm::Id,
        })
    );
    assert_eq!(args.has_tag.as_deref(), Some("prod"));
    assert_eq!(args.model.as_deref(), Some("gpt-4o"));
}

#[test]
fn channel_queries_keep_their_page_and_conditions() {
    let args = QueryChannelsArgs::from(QueryChannelInput {
        after: Some(CursorScalar("a".to_owned())),
        first: Some(10),
        before: Some(CursorScalar("b".to_owned())),
        last: Some(20),
        ..QueryChannelInput::default()
    });
    assert_eq!(
        args,
        QueryChannelsArgs {
            after: Some("a".to_owned()),
            first: Some(10),
            before: Some("b".to_owned()),
            last: Some(20),
            ..QueryChannelsArgs::default()
        }
    );
    assert_eq!(
        CountChannelsByTypeArgs::from(CountChannelsByTypeInput {
            status_in: Some(vec![ChannelStatus::Archived]),
        }),
        CountChannelsByTypeArgs { status_in: Some(vec![ChannelStatus::Archived]) }
    );
}

#[test]
fn executions_stay_with_their_storage() {
    let storage = DataStorage {
        id: ID("3".to_owned()),
        created_at: TimeScalar::default(),
        updated_at: TimeScalar::default(),
        name: "s".to_owned(),
        description: String::new(),
        primary: false,
        storage_type: DataStorageType::Fs,
        settings: DataStorageSettings {
            dsn: None,
            directory: None,
            s3: None,
            gcs: None,
            webdav: None,
        },
        status: DataStorageStatus::Active,
    };
    let args: ExecutionArgs<&str, u8, u8> = storage.edge_arguments(
        "global",
        EdgePage { last: Some(2), ..EdgePage::default() },
        None,
        Some(EdgeFilter {
            channel_id: Some(ID("c".to_owned())),
            data_storage_id: Some(ID("4".to_owned())),
            other: None,
        }),
    );
    assert_eq!(
        args.where_filter,
        Some(EdgeFilter {
            channel_id: Some(ID("c".to_owned())),
            data_storage_id: Some(ID("3".to_owned())),
            other: None,
        })
    );
    assert_eq!(args.last, Some(2));
    assert_eq!(args.access, "global");
}

#[test]
fn change_sets_are_stored_by_name() {
    assert_eq!(ChangeSetKind::ProviderPrice.as_str(), "provider_price");
    assert_eq!(ChangeSetKind::ModelMapping.as_str(), "model_mapping");
    assert_eq!(ChangeSetKind::RetailPrice.as_str(), "retail_price");
    let statuses: Vec<&str> = [
        ChangeSetStatus::Draft,
        ChangeSetStatus::PendingReview,
        ChangeSetStatus::Applied,
        ChangeSetStatus::Rejected,
        ChangeSetStatus::Superseded,
        ChangeSetStatus::Invalid,
    ]
    .into_iter()
    .map(ChangeSetStatus::as_str)
    .collect();
    assert_eq!(
        statuses,
        vec!["draft", "pending_review", "applied", "rejected", "superseded", "invalid"]
    );
}

#[test]
fn service_errors_read_as_promised() {
    let x = || "x".to_owned();
    assert_eq!(ChangeSetError::Query(x()).message(), "change set query failed: x");
    assert_eq!(ChangeSetError::Invalid(x()).message(), "invalid change set operation: x");
    assert_eq!(ChangeSetError::Storage(x()).message(), "change set operation failed: x");
    assert_eq!(
        ChannelExtraQueryError::ServiceUnavailable.message(),
        "channel service is not available"
    );
    assert_eq!(
        ChannelExtraQueryError::QueryChannels(x()).message(),
        "failed to query channels: x"
    );
    assert_eq!(ChannelExtraQueryError::GetProject(x()).message(), "failed to get project: x");
    assert_eq!(
        ChannelExtraQueryError::CountByType(x()).message(),
        "failed to query channel type counts: x"
    );
    assert_eq!(ChannelExtraQueryError::Query(x()).message(), "x");
    assert_eq!(
        BackupExtError::ServiceUnavailable.message(),
        "backup service is not available"
    );
    assert_eq!(BackupExtError::Backup(x()).message(), "backup failed: x");
    assert_eq!(BackupExtError::Restore(x()).message(), "restore failed: x");
    assert_eq!(
        DashboardError::ServiceUnavailable.message(),
        "dashboard service is not available"
    );
    assert_eq!(
        DashboardError::Overview(x()).message(),
        "failed to get dashboard overview: x"
    );
    assert_eq!(
        DashboardError::RequestStats(x()).message(),
        "failed to get request stats: x"
    );
    assert_eq!(DashboardError::TokenStats(x()).message(), "failed to get token stats: x");
    assert_eq!(
        ChannelProbeError::Unavailable.message(),
        "channel probe service is not available"
    );
    assert_eq!(ChannelProbeError::InvalidChannelId(x()).message(), "invalid channel id: x");
    assert_eq!(ChannelProbeError::Query(x()).message(), "channel probe query failed: x");
    assert_eq!(
        ChannelOverrideTemplateExtError::ServiceUnavailable.message(),
        "channel override template service is not available"
    );
    assert_eq!(
        ChannelOverrideTemplateExtError::Operation(x()).message(),
        "channel override template operation failed: x"
    );
}
