use conduit_admin_graphql::channel::{
    resolve_channel_order, CapabilityPolicy, Channel, ChannelCredentials, ChannelEndpoint,
    ChannelEndpointInput, ChannelIssueCategory, ChannelIssueSeverity, ChannelOperationalIssue,
    ChannelOrder, ChannelOrderField, ChannelOrderSelection, ChannelOrderTerm, ChannelPolicies,
    ChannelPoliciesInput, ChannelRateLimit, ChannelRateLimitInput, ChannelServiceError,
    ChannelSettings, ChannelSettingsInput, ChannelStatus, ChannelType, DisabledAPIKey,
    ModelMapping, ModelMappingInput, OrderDirection, OverrideMatch, OverrideMatchInput,
    OverrideOperation, OverrideOperationInput, ProxyConfig, ProxyConfigInput, ProxyType,
    RetryableErrorPattern, RetryableErrorPatternInput, TransformOptions, TransformOptionsInput,
};
use conduit_admin_graphql::channel_endpoints::default_channel_endpoints;
use conduit_admin_graphql::channel_issues::{
    classify_channel_error_message, issue_priority, ProviderQuotaStanding,
};
use conduit_admin_graphql::channel_models::{channel_model_entries, ModelEntrySource};
use conduit_admin_graphql::channel_queries::ChannelSensitiveFields;
use conduit_admin_graphql::edges::{EdgeArgs, EdgeFilter, EdgePage};
use conduit_admin_graphql::scalars::{CursorScalar, TimeScalar, ID};

#[test]
fn resolve_channel_order_remaps_created_at_to_default_id_order() {
    let selection = resolve_channel_order(Some(ChannelOrder {
        direction: OrderDirection::Desc,
        field: ChannelOrderField::CreatedAt,
    }));
    assert_eq!(
        selection,
        Some(ChannelOrderSelection {
            direction: OrderDirection::Desc,
            term: ChannelOrderTerm::Id,
        })
    );
}

#[test]
fn resolve_channel_order_maps_other_fields_one_to_one() {
    for (field, term) in [
        (ChannelOrderField::UpdatedAt, ChannelOrderTerm::UpdatedAt),
        (ChannelOrderField::Type, ChannelOrderTerm::Type),
        (ChannelOrderField::Name, ChannelOrderTerm::Name),
        (ChannelOrderField::Status, ChannelOrderTerm::Status),
        (
            ChannelOrderField::OrderingWeight,
            ChannelOrderTerm::OrderingWeight,
        ),
    ] {
        let selection = resolve_channel_order(Some(ChannelOrder {
            direction: OrderDirection::Asc,
            field,
        }));
        assert_eq!(
            selection.map(|s| s.term),
            Some(term),
            "field {field:?} must map to {term:?}"
        );
    }
    assert_eq!(resolve_channel_order(None), None);
}

#[test]
fn settings_conversion_zero_fills_non_null_lists_and_bools() {
    let settings = ChannelSettings::from(ChannelSettingsInput {
        management_adapter: Some("new_api".to_string()),
        transform_options: Some(TransformOptionsInput::default()),
        ..ChannelSettingsInput::default()
    });
    assert!(settings.header_override_operations.is_empty());
    assert!(settings.body_override_operations.is_empty());
    assert_eq!(settings.management_adapter.as_deref(), Some("new_api"));
    assert_eq!(
        settings.transform_options,
        Some(TransformOptions {
            force_array_instructions: false,
            force_array_inputs: false,
            replace_developer_role_with_system: false,
        })
    );
}

#[test]
fn channel_error_classifier_returns_stable_categories() {
    for (message, category, code) in [
        (
            "HTTP 401 Unauthorized",
            ChannelIssueCategory::Auth,
            "authentication_failed",
        ),
        (
            "insufficient quota",
            ChannelIssueCategory::Quota,
            "quota_exhausted",
        ),
        (
            "429 Too Many Requests",
            ChannelIssueCategory::RateLimit,
            "rate_limited",
        ),
        (
            "unsupported model",
            ChannelIssueCategory::Model,
            "model_unavailable",
        ),
        (
            "connection refused",
            ChannelIssueCategory::Unreachable,
            "endpoint_unreachable",
        ),
        (
            "malformed SSE frame",
            ChannelIssueCategory::Protocol,
            "protocol_incompatible",
        ),
        (
            "502 Bad Gateway",
            ChannelIssueCategory::Upstream,
            "upstream_server_error",
        ),
    ] {
        let issue = classify_channel_error_message(message);
        assert_eq!(issue.category, category, "message: {message}");
        assert_eq!(issue.code, code, "message: {message}");
    }
}

#[test]
fn override_operation_conversion_preserves_all_fields() {
    let converted: OverrideOperation = OverrideOperationInput {
        op: "replace".to_owned(),
        path: Some("$.model".to_owned()),
        from: None,
        to: None,
        value: Some("gpt-4o".to_owned()),
        condition: None,
        match_: Some(OverrideMatchInput {
            path: "$.stream".to_owned(),
            eq: "true".to_owned(),
        }),
        index: Some(2),
        splat: Some(true),
    }
    .into();
    assert_eq!(converted.op, "replace");
    assert_eq!(converted.path.as_deref(), Some("$.model"));
    assert_eq!(converted.value.as_deref(), Some("gpt-4o"));
    assert_eq!(
        converted.match_,
        Some(OverrideMatch {
            path: "$.stream".to_owned(),
            eq: "true".to_owned(),
        })
    );
    assert_eq!(converted.index, Some(2));
    assert_eq!(converted.splat, Some(true));
}

fn sample() -> Channel {
    Channel {
        id: ID("7".to_owned()),
        created_at: TimeScalar::default(),
        updated_at: TimeScalar::default(),
        channel_type: ChannelType::Openai,
        base_url: None,
        website_url: None,
        quota_currency: "USD".to_owned(),
        actual_quota_used: None,
        quota_remaining: None,
        name: "prod".to_owned(),
        status: ChannelStatus::Enabled,
        supported_models: vec![],
        manual_models: None,
        auto_sync_supported_models: false,
        auto_sync_model_pattern: None,
        tags: None,
        default_test_model: "gpt-4o".to_owned(),
        policies: None,
        settings: None,
        ordering_weight: 0,
        error_message: None,
        remark: None,
        endpoints: None,
    }
}

fn settings() -> ChannelSettings {
    ChannelSettings::from(ChannelSettingsInput::default())
}

fn texts(list: &[&str]) -> Vec<String> {
    list.iter().map(|text| (*text).to_owned()).collect()
}

fn entries(channel: &Channel) -> Vec<(String, String, String)> {
    channel_model_entries(channel)
        .into_iter()
        .map(|row| (row.request_model, row.actual_model, row.source))
        .collect()
}

fn entry(request: &str, actual: &str, source: &str) -> (String, String, String) {
    (request.to_owned(), actual.to_owned(), source.to_owned())
}

fn alias(from: &str, to: &str) -> ModelMapping {
    ModelMapping { from: from.to_owned(), to: to.to_owned() }
}

#[test]
fn supported_models_are_listed_in_order() {
    let mut channel = sample();
    channel.supported_models = texts(&["gpt-4o", "deepseek-chat", "gpt-4o"]);
    assert_eq!(
        entries(&channel),
        vec![entry("deepseek-chat", "deepseek-chat", "direct"), entry("gpt-4o", "gpt-4o", "direct")]
    );
    assert_eq!(channel.all_model_entries(), channel_model_entries(&channel));
}

#[test]
fn prefixes_trimmed_names_and_aliases_are_accepted_too() {
    let mut channel = sample();
    channel.supported_models = texts(&["vendor/gpt-4o", "mini"]);
    let mut given = settings();
    given.extra_model_prefix = Some("team".to_owned());
    given.auto_trimed_model_prefixes = Some(texts(&["vendor"]));
    given.model_mappings = Some(vec![alias("fast", "mini"), alias("lost", "absent")]);
    channel.settings = Some(given);
    assert_eq!(
        entries(&channel),
        vec![
            entry("fast", "mini", "mapping"),
            entry("gpt-4o", "vendor/gpt-4o", "auto_trim"),
            entry("mini", "mini", "direct"),
            entry("team/mini", "mini", "prefix"),
            entry("team/vendor/gpt-4o", "vendor/gpt-4o", "prefix"),
            entry("vendor/gpt-4o", "vendor/gpt-4o", "direct"),
        ]
    );
}

#[test]
fn originals_and_mapped_models_can_be_hidden() {
    let mut channel = sample();
    channel.supported_models = texts(&["a", "b"]);
    let mut given = settings();
    given.model_mappings = Some(vec![alias("x", "a")]);
    given.hide_mapped_models = Some(true);
    channel.settings = Some(given.clone());
    assert_eq!(
        entries(&channel),
        vec![entry("b", "b", "direct"), entry("x", "a", "mapping")]
    );
    given.hide_mapped_models = None;
    given.hide_original_models = Some(true);
    channel.settings = Some(given);
    assert_eq!(entries(&channel), vec![entry("x", "a", "mapping")]);
}

#[test]
fn lowercase_channels_accept_lowercase_names() {
    let mut channel = sample();
    channel.supported_models = texts(&["GPT-4o", "deepseek-chat"]);
    let mut given = settings();
    given.lowercase_model_id = Some(true);
    channel.settings = Some(given);
    let rows = entries(&channel);
    assert!(rows.contains(&entry("gpt-4o", "GPT-4o", "direct")), "{rows:?}");
    assert!(rows.contains(&entry("deepseek-chat", "deepseek-chat", "direct")), "{rows:?}");
}

#[test]
fn sources_have_names_and_ranks() {
    assert_eq!(ModelEntrySource::Direct.as_str(), "direct");
    assert_eq!(ModelEntrySource::AutoTrim.as_str(), "auto_trim");
    assert_eq!(ModelEntrySource::Mapping.as_str(), "mapping");
    assert_eq!(ModelEntrySource::Prefix.as_str(), "prefix");
    assert!(ModelEntrySource::Direct.priority() > ModelEntrySource::AutoTrim.priority());
}

#[test]
fn classification_goes_by_the_first_category_that_fits() {
    for (message, category, severity) in [
        ("Forbidden: too many requests", ChannelIssueCategory::Auth, ChannelIssueSeverity::Critical),
        ("\u{4f59}\u{989d}\u{4e0d}\u{8db3}", ChannelIssueCategory::Quota, ChannelIssueSeverity::Critical),
    ] {
        let issue = classify_channel_error_message(message);
        assert_eq!(issue.category, category, "message: {message}");
        assert_eq!(issue.severity, severity, "message: {message}");
        assert_eq!(issue.source, "channel_error");
    }
    let unknown = classify_channel_error_message("");
    assert_eq!(unknown.category, ChannelIssueCategory::Unknown);
    assert_eq!(classify_channel_error_message("INVALID JSON").category, ChannelIssueCategory::Protocol);
}

#[test]
fn the_graver_issue_is_reported() {
    let mut channel = sample();
    assert_eq!(channel.operational_issue(None), None);
    assert_eq!(channel.operational_issue(Some(ProviderQuotaStanding::Other)), None);
    assert_eq!(
        channel.operational_issue(Some(ProviderQuotaStanding::Exhausted)),
        Some(ChannelOperationalIssue {
            category: ChannelIssueCategory::Quota,
            severity: ChannelIssueSeverity::Critical,
            code: "quota_exhausted".to_owned(),
            source: "provider_quota".to_owned(),
        })
    );
    channel.error_message = Some("rate limit".to_owned());
    let warned = channel.operational_issue(Some(ProviderQuotaStanding::Warning));
    assert_eq!(warned.map(|issue| issue.code), Some("quota_warning".to_owned()));
    channel.error_message = Some("invalid token".to_owned());
    let refused = channel.operational_issue(Some(ProviderQuotaStanding::Exhausted));
    assert_eq!(refused.map(|issue| issue.code), Some("authentication_failed".to_owned()));
    channel.error_message = Some("quota exceeded".to_owned());
    let same = channel.operational_issue(Some(ProviderQuotaStanding::Warning));
    assert_eq!(same.map(|issue| issue.source), Some("channel_error".to_owned()));
}

#[test]
fn categories_are_ranked() {
    let ranks: Vec<u8> = [
        ChannelIssueCategory::Auth,
        ChannelIssueCategory::Quota,
        ChannelIssueCategory::Protocol,
        ChannelIssueCategory::Unreachable,
        ChannelIssueCategory::Model,
        ChannelIssueCategory::RateLimit,
        ChannelIssueCategory::Upstream,
        ChannelIssueCategory::Unknown,
    ]
    .into_iter()
    .map(issue_priority)
    .collect();
    assert_eq!(ranks, vec![8, 7, 6, 5, 4, 3, 2, 1]);
}

fn formats(channel_type: ChannelType) -> Vec<String> {
    default_channel_endpoints(channel_type)
        .into_iter()
        .map(|endpoint| endpoint.api_format)
        .collect()
}

#[test]
fn provider_types_have_their_endpoints() {
    assert_eq!(
        default_channel_endpoints(ChannelType::Anthropic),
        vec![ChannelEndpoint {
            api_format: "anthropic/messages".to_owned(),
            path: Some(String::new()),
            base_url: Some(String::new()),
            transport: Some(String::new()),
        }]
    );
    assert_eq!(formats(ChannelType::Openai)[0], "openai/chat_completions");
    assert_eq!(
        formats(ChannelType::Codex),
        vec!["openai/responses", "openai/image_generation", "openai/image_edit"]
    );
    assert_eq!(formats(ChannelType::Gemini), vec!["gemini/contents", "gemini/embeddings"]);
    assert_eq!(formats(ChannelType::Jina), vec!["jina/rerank", "jina/embeddings"]);
    assert_eq!(formats(ChannelType::Ollama), vec!["ollama/chat"]);
    assert_eq!(
        sample().default_endpoints(),
        default_channel_endpoints(ChannelType::Openai)
    );
}

#[test]
fn inputs_are_stored_as_given() {
    assert_eq!(
        ModelMapping::from(ModelMappingInput { from: "a".to_owned(), to: "b".to_owned() }),
        alias("a", "b")
    );
    assert_eq!(
        ProxyConfig::from(ProxyConfigInput {
            proxy_type: ProxyType::Disabled,
            url: None,
            username: Some("u".to_owned()),
            password: None,
        }),
        ProxyConfig {
            proxy_type: ProxyType::Disabled,
            url: Some(String::new()),
            username: Some("u".to_owned()),
            password: Some(String::new()),
        }
    );
    assert_eq!(
        RetryableErrorPattern::from(RetryableErrorPatternInput {
            pattern: "p".to_owned(),
            regex: None,
        }),
        RetryableErrorPattern { pattern: "p".to_owned(), regex: false }
    );
    assert_eq!(
        ChannelRateLimit::from(ChannelRateLimitInput { rpm: Some(3), ..ChannelRateLimitInput::default() })
            .rpm,
        Some(3)
    );
    assert_eq!(
        ChannelPolicies::from(ChannelPoliciesInput { stream: Some(CapabilityPolicy::Require) }),
        ChannelPolicies { stream: Some(CapabilityPolicy::Require) }
    );
    assert_eq!(
        ChannelEndpoint::from(ChannelEndpointInput {
            api_format: "f".to_owned(),
            path: Some("/x".to_owned()),
            base_url: None,
            transport: None,
        })
        .path,
        Some("/x".to_owned())
    );
}

#[test]
fn edges_stay_with_their_channel() {
    let args: EdgeArgs<u8, &str> = sample().edge_arguments(
        EdgePage {
            after: Some(CursorScalar("c".to_owned())),
            first: Some(5),
            before: None,
            last: None,
        },
        Some(1),
        Some(EdgeFilter {
            channel_id: Some(ID("8".to_owned())),
            data_storage_id: Some(ID("9".to_owned())),
            other: Some("rest"),
        }),
    );
    assert_eq!(
        args,
        EdgeArgs {
            after: Some("c".to_owned()),
            first: Some(5),
            before: None,
            last: None,
            order_by: Some(1),
            where_filter: Some(EdgeFilter {
                channel_id: Some(ID("7".to_owned())),
                data_storage_id: Some(ID("9".to_owned())),
                other: Some("rest"),
            }),
        }
    );
    let unfiltered: EdgeArgs<u8, &str> = sample().edge_arguments(EdgePage::default(), None, None);
    assert_eq!(
        unfiltered.where_filter,
        Some(EdgeFilter { channel_id: Some(ID("7".to_owned())), data_storage_id: None, other: None })
    );
}

#[test]
fn sensitive_fields_are_for_editors_only() {
    let channel = sample();
    assert_eq!(channel.sensitive_lookup(true), Some(ID("7".to_owned())));
    assert_eq!(channel.sensitive_lookup(false), None);
    let fields = ChannelSensitiveFields {
        credentials: Some(ChannelCredentials {
            api_key: Some("k".to_owned()),
            api_keys: None,
            gcp: None,
            oauth: None,
        }),
        disabled_api_keys: Vec::<DisabledAPIKey>::new(),
    };
    assert!(Channel::credentials(true, Some(fields.clone())).is_some());
    assert!(Channel::credentials(false, Some(fields.clone())).is_none());
    assert!(Channel::credentials(true, None).is_none());
    assert_eq!(Channel::disabled_api_keys(true, Some(fields.clone())), Some(vec![]));
    assert_eq!(Channel::disabled_api_keys(false, Some(fields)), None);
    assert_eq!(Channel::disabled_api_keys(true, None), None);
}

#[test]
fn channel_errors_read_as_promised() {
    assert_eq!(
        ChannelServiceError::ServiceUnavailable.message(),
        "channel service is not available"
    );
    assert_eq!(
        ChannelServiceError::DuplicateName("n".to_owned()).message(),
        "channel name 'n' already exists"
    );
    assert_eq!(ChannelServiceError::NotFound.message(), "ent: channel not found");
    assert_eq!(
        ChannelServiceError::Create("x".to_owned()).message(),
        "failed to create channel: x"
    );
    assert_eq!(
        ChannelServiceError::Update("x".to_owned()).message(),
        "failed to update channel: x"
    );
    assert_eq!(
        ChannelServiceError::Delete("x".to_owned()).message(),
        "failed to delete channel: x"
    );
    assert_eq!(
        ChannelServiceError::Query("x".to_owned()).message(),
        "failed to query channels: x"
    );
}

#[test]
fn the_order_of_supported_models_makes_no_difference() {
    let mut given = settings();
    given.extra_model_prefix = Some("p".to_owned());
    given.auto_trimed_model_prefixes = Some(texts(&["v", "w"]));
    given.model_mappings = Some(vec![alias("x", "v/m"), alias("m", "w/m")]);
    let mut channel = sample();
    channel.settings = Some(given);
    channel.supported_models = texts(&["v/m", "w/m", "p/w/m", "n"]);
    let rows = channel_model_entries(&channel);
    for order in [
        ["n", "p/w/m", "w/m", "v/m", "n"],
        ["w/m", "w/m", "n", "v/m", "p/w/m"],
    ] {
        channel.supported_models = texts(&order);
        assert_eq!(channel_model_entries(&channel), rows);
    }
}
