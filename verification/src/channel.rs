//! Channels: the types of the channel domain, their ordering and their errors.
use vstd::prelude::*;

use crate::scalars::{
    CursorScalar, DecimalInputScalar, DecimalScalar, JsonText, PageInfo, TimeScalar, ID,
};
use crate::text::joined;

verus! {

/// Whether a channel takes traffic.
#[derive(Debug, Clone, Copy, PartialEq, Eq, PartialOrd, Ord, Structural)]
pub enum ChannelStatus {
    Enabled,
    Disabled,
    Archived,
}

/// The kind of provider behind a channel.
#[derive(Debug, Clone, Copy, PartialEq, Eq, PartialOrd, Ord, Structural)]
pub enum ChannelType {
    Openai,
    OpenaiResponses,
    Atlascloud,
    Codex,
    Vercel,
    Anthropic,
    AnthropicAws,
    AnthropicGcp,
    GeminiOpenai,
    Gemini,
    GeminiVertex,
    Deepseek,
    DeepseekAnthropic,
    Deepinfra,
    Qiniu,
    Fireworks,
    Doubao,
    DoubaoAnthropic,
    Moonshot,
    MoonshotAnthropic,
    Zhipu,
    Zai,
    ZhipuAnthropic,
    ZaiAnthropic,
    AnthropicFake,
    OpenaiFake,
    Openrouter,
    Xiaomi,
    XiaomiAnthropic,
    Xai,
    Ppio,
    Siliconflow,
    Volcengine,
    VolcengineAnthropic,
    Longcat,
    LongcatAnthropic,
    Minimax,
    MinimaxAnthropic,
    Aihubmix,
    AihubmixAnthropic,
    Burncloud,
    Modelscope,
    Bailian,
    BailianAnthropic,
    MoonshotCoding,
    Jina,
    Github,
    GithubCopilot,
    Claudecode,
    Cerebras,
    Antigravity,
    Nanogpt,
    NanogptResponses,
    OpencodeGo,
    OpencodeGoAnthropic,
    Ollama,
    Evolink,
    EvolinkAnthropic,
}

/// Whether a capability may, must or must not be used.
#[derive(Debug, Clone, Copy, PartialEq, Eq, Structural)]
pub enum CapabilityPolicy {
    Unlimited,
    Require,
    Forbid,
}

/// Stable, provider-neutral reason shown by the channel operations view. It is
/// derived from recorded channel and quota evidence and does not replace the
/// original error text.
#[derive(Debug, Clone, Copy, PartialEq, Eq, Structural)]
pub enum ChannelIssueCategory {
    Auth,
    Quota,
    RateLimit,
    Model,
    Unreachable,
    Upstream,
    Protocol,
    Unknown,
}

/// How urgent a channel issue is.
#[derive(Debug, Clone, Copy, PartialEq, Eq, Structural)]
pub enum ChannelIssueSeverity {
    Warning,
    Error,
    Critical,
}

/// What is wrong with a channel, in one summary.
#[derive(Debug, Clone, PartialEq, Eq)]
pub struct ChannelOperationalIssue {
    pub category: ChannelIssueCategory,
    pub severity: ChannelIssueSeverity,
    /// Stable machine-readable value suitable for filters and translations.
    pub code: String,
    /// Evidence lane: `channel_error` or `provider_quota`.
    pub source: String,
}

/// How a channel picks its proxy.
#[derive(Debug, Clone, Copy, PartialEq, Eq, Structural)]
pub enum ProxyType {
    Disabled,
    Environment,
    Url,
}

/// What a caller can order channels by.
#[derive(Debug, Clone, Copy, PartialEq, Eq, Structural)]
pub enum ChannelOrderField {
    CreatedAt,
    UpdatedAt,
    Type,
    Name,
    Status,
    OrderingWeight,
}

/// The direction of an ordering.
#[derive(Debug, Clone, Copy, PartialEq, Eq, Structural)]
pub enum OrderDirection {
    Asc,
    Desc,
}

/// An alias: requests for model `from` are sent as model `to`.
#[derive(Debug, Clone, PartialEq, Eq)]
pub struct ModelMapping {
    pub from: String,
    pub to: String,
}

/// The `OverrideMatch` object.
#[derive(Debug, Clone, PartialEq, Eq)]
pub struct OverrideMatch {
    pub path: String,
    pub eq: String,
}

/// The `OverrideOperation` object.
#[derive(Debug, Clone, PartialEq, Eq)]
pub struct OverrideOperation {
    pub op: String,
    pub path: Option<String>,
    pub from: Option<String>,
    pub to: Option<String>,
    pub value: Option<String>,
    pub condition: Option<String>,
    pub match_: Option<OverrideMatch>,
    pub index: Option<i64>,
    pub splat: Option<bool>,
}

/// The `ProxyConfig` object.
#[derive(Debug, Clone, PartialEq, Eq)]
pub struct ProxyConfig {
    pub proxy_type: ProxyType,
    pub url: Option<String>,
    pub username: Option<String>,
    pub password: Option<String>,
}

/// The `TransformOptions` object.
#[derive(Debug, Clone, PartialEq, Eq)]
pub struct TransformOptions {
    pub force_array_instructions: bool,
    pub force_array_inputs: bool,
    pub replace_developer_role_with_system: bool,
}

/// The `RetryableErrorPattern` object.
#[derive(Debug, Clone, PartialEq, Eq)]
pub struct RetryableErrorPattern {
    pub pattern: String,
    pub regex: bool,
}

/// The `ChannelRateLimit` object.
#[derive(Debug, Clone, PartialEq, Eq)]
pub struct ChannelRateLimit {
    pub rpm: Option<i64>,
    pub tpm: Option<i64>,
    pub max_concurrent: Option<i64>,
    pub queue_size: Option<i64>,
    pub queue_timeout_ms: Option<i64>,
}

/// The `GCPCredential` object.
#[derive(Debug, Clone, PartialEq, Eq)]
pub struct GCPCredential {
    pub region: String,
    pub project_id: String,
    pub json_data: String,
}

/// The `OAuthCredentials` object.
#[derive(Debug, Clone, PartialEq, Eq)]
pub struct OAuthCredentials {
    pub access_token: Option<String>,
    pub refresh_token: Option<String>,
    pub client_id: Option<String>,
    pub expires_at: Option<TimeScalar>,
    pub token_type: Option<String>,
    pub scopes: Option<Vec<String>>,
}

/// The `ChannelCredentials` object.
#[derive(Debug, Clone, PartialEq, Eq)]
pub struct ChannelCredentials {
    pub api_key: Option<String>,
    pub api_keys: Option<Vec<String>>,
    pub gcp: Option<GCPCredential>,
    pub oauth: Option<OAuthCredentials>,
}

/// The `DisabledAPIKey` object.
#[derive(Debug, Clone, PartialEq, Eq)]
pub struct DisabledAPIKey {
    pub key: String,
    pub disabled_at: TimeScalar,
    pub error_code: i64,
    pub reason: Option<String>,
}

/// The `ChannelLimiterStats` object.
#[derive(Debug, Clone, PartialEq, Eq)]
pub struct ChannelLimiterStats {
    pub in_flight: i64,
    pub waiting: i64,
    pub capacity: i64,
    pub queue_size: i64,
}

/// The `AutoModelMappingRule` object.
#[derive(Debug, Clone, PartialEq, Eq)]
pub struct AutoModelMappingRule {
    pub pattern: String,
    pub public_model_id_template: String,
    pub create_draft: bool,
    pub developer_template: Option<String>,
    pub name_template: Option<String>,
    pub group_template: Option<String>,
    pub model_type: String,
}

/// The `ErrorResponseRewriteRule` object.
#[derive(Debug, Clone, PartialEq, Eq)]
pub struct ErrorResponseRewriteRule {
    pub status_codes: Vec<i64>,
    pub body_pattern: Option<String>,
    pub http_status: Option<i64>,
    pub message: Option<String>,
    pub error_type: Option<String>,
    pub code: Option<String>,
    pub body: Option<JsonText>,
}

/// The `ChannelPolicies` object.
#[derive(Debug, Clone, PartialEq, Eq)]
pub struct ChannelPolicies {
    pub stream: Option<CapabilityPolicy>,
}

/// The settings of a channel, as they are stored.
#[derive(Debug, Clone, PartialEq, Eq)]
pub struct ChannelSettings {
    pub management_adapter: Option<String>,
    pub billing_currency: Option<String>,
    pub recharge_multiplier: Option<DecimalScalar>,
    pub extra_model_prefix: Option<String>,
    pub model_mappings: Option<Vec<ModelMapping>>,
    pub auto_trimed_model_prefixes: Option<Vec<String>>,
    pub hide_original_models: Option<bool>,
    pub hide_mapped_models: Option<bool>,
    pub lowercase_model_id: Option<bool>,
    pub proxy: Option<ProxyConfig>,
    pub transform_options: Option<TransformOptions>,
    pub header_override_operations: Vec<OverrideOperation>,
    pub body_override_operations: Vec<OverrideOperation>,
    pub pass_through_user_agent: Option<bool>,
    pub pass_through_body: Option<bool>,
    pub rate_limit: Option<ChannelRateLimit>,
    pub retryable_status_codes: Option<Vec<i64>>,
    pub retryable_error_patterns: Option<Vec<RetryableErrorPattern>>,
    pub auto_model_mapping_rules: Option<Vec<AutoModelMappingRule>>,
    pub error_response_rewrite_rules: Option<Vec<ErrorResponseRewriteRule>>,
}

/// The `ChannelEndpoint` object.
#[derive(Debug, Clone, PartialEq, Eq)]
pub struct ChannelEndpoint {
    pub api_format: String,
    pub path: Option<String>,
    pub base_url: Option<String>,
    pub transport: Option<String>,
}

/// A channel: one configured upstream provider account.
#[derive(Debug, Clone, PartialEq)]
pub struct Channel {
    pub id: ID,
    pub created_at: TimeScalar,
    pub updated_at: TimeScalar,
    pub channel_type: ChannelType,
    pub base_url: Option<String>,
    pub website_url: Option<String>,
    pub quota_currency: String,
    pub actual_quota_used: Option<DecimalScalar>,
    pub quota_remaining: Option<DecimalScalar>,
    pub name: String,
    pub status: ChannelStatus,
    pub supported_models: Vec<String>,
    pub manual_models: Option<Vec<String>>,
    pub auto_sync_supported_models: bool,
    pub auto_sync_model_pattern: Option<String>,
    pub tags: Option<Vec<String>>,
    pub default_test_model: String,
    pub policies: Option<ChannelPolicies>,
    pub settings: Option<ChannelSettings>,
    pub ordering_weight: i64,
    pub error_message: Option<String>,
    pub remark: Option<String>,
    pub endpoints: Option<Vec<ChannelEndpoint>>,
}

/// The `ChannelEdge` object.
#[derive(Debug, Clone, PartialEq)]
pub struct ChannelEdge {
    pub node: Option<Channel>,
    pub cursor: CursorScalar,
}

/// The `ChannelConnection` object.
#[derive(Debug, Clone, PartialEq)]
pub struct ChannelConnection {
    pub edges: Option<Vec<Option<ChannelEdge>>>,
    pub page_info: PageInfo,
    pub total_count: i64,
}

/// The `ModelMappingInput` input.
#[derive(Debug, Clone, PartialEq, Eq)]
pub struct ModelMappingInput {
    pub from: String,
    pub to: String,
}

/// The `OverrideMatchInput` input.
#[derive(Debug, Clone, PartialEq, Eq)]
pub struct OverrideMatchInput {
    pub path: String,
    pub eq: String,
}

/// The `OverrideOperationInput` input.
#[derive(Debug, Clone, PartialEq, Eq)]
pub struct OverrideOperationInput {
    pub op: String,
    pub path: Option<String>,
    pub from: Option<String>,
    pub to: Option<String>,
    pub value: Option<String>,
    pub condition: Option<String>,
    pub match_: Option<OverrideMatchInput>,
    pub index: Option<i64>,
    pub splat: Option<bool>,
}

/// The `ProxyConfigInput` input.
#[derive(Debug, Clone, PartialEq, Eq)]
pub struct ProxyConfigInput {
    pub proxy_type: ProxyType,
    pub url: Option<String>,
    pub username: Option<String>,
    pub password: Option<String>,
}

/// The `TransformOptionsInput` input.
#[derive(Debug, Clone, Default, PartialEq, Eq)]
pub struct TransformOptionsInput {
    pub force_array_instructions: Option<bool>,
    pub force_array_inputs: Option<bool>,
    pub replace_developer_role_with_system: Option<bool>,
}

/// The `RetryableErrorPatternInput` input.
#[derive(Debug, Clone, PartialEq, Eq)]
pub struct RetryableErrorPatternInput {
    pub pattern: String,
    pub regex: Option<bool>,
}

/// The `ChannelRateLimitInput` input.
#[derive(Debug, Clone, Default, PartialEq, Eq)]
pub struct ChannelRateLimitInput {
    pub rpm: Option<i64>,
    pub tpm: Option<i64>,
    pub max_concurrent: Option<i64>,
    pub queue_size: Option<i64>,
    pub queue_timeout_ms: Option<i64>,
}

/// The `ChannelPoliciesInput` input.
#[derive(Debug, Clone, Default, PartialEq, Eq)]
pub struct ChannelPoliciesInput {
    pub stream: Option<CapabilityPolicy>,
}

/// The `AutoModelMappingRuleInput` input.
#[derive(Debug, Clone, Default, PartialEq, Eq)]
pub struct AutoModelMappingRuleInput {
    pub pattern: String,
    pub public_model_id_template: String,
    pub create_draft: Option<bool>,
    pub developer_template: Option<String>,
    pub name_template: Option<String>,
    pub group_template: Option<String>,
    pub model_type: Option<String>,
}

/// The `ErrorResponseRewriteRuleInput` input.
#[derive(Debug, Clone, Default, PartialEq, Eq)]
pub struct ErrorResponseRewriteRuleInput {
    pub status_codes: Option<Vec<i64>>,
    pub body_pattern: Option<String>,
    pub http_status: Option<i64>,
    pub message: Option<String>,
    pub error_type: Option<String>,
    pub code: Option<String>,
    pub body: Option<JsonText>,
}

/// The settings of a channel, as a caller gives them.
#[derive(Debug, Clone, Default, PartialEq, Eq)]
pub struct ChannelSettingsInput {
    pub management_adapter: Option<String>,
    pub billing_currency: Option<String>,
    pub recharge_multiplier: Option<DecimalInputScalar>,
    pub extra_model_prefix: Option<String>,
    pub model_mappings: Option<Vec<ModelMappingInput>>,
    pub auto_trimed_model_prefixes: Option<Vec<String>>,
    pub hide_original_models: Option<bool>,
    pub hide_mapped_models: Option<bool>,
    pub lowercase_model_id: Option<bool>,
    pub proxy: Option<ProxyConfigInput>,
    pub transform_options: Option<TransformOptionsInput>,
    pub header_override_operations: Option<Vec<OverrideOperationInput>>,
    pub body_override_operations: Option<Vec<OverrideOperationInput>>,
    pub pass_through_user_agent: Option<bool>,
    pub pass_through_body: Option<bool>,
    pub rate_limit: Option<ChannelRateLimitInput>,
    pub retryable_status_codes: Option<Vec<i64>>,
    pub retryable_error_patterns: Option<Vec<RetryableErrorPatternInput>>,
    pub auto_model_mapping_rules: Option<Vec<AutoModelMappingRuleInput>>,
    pub error_response_rewrite_rules: Option<Vec<ErrorResponseRewriteRuleInput>>,
}

/// The `ChannelEndpointInput` input.
#[derive(Debug, Clone, PartialEq, Eq)]
pub struct ChannelEndpointInput {
    pub api_format: String,
    pub path: Option<String>,
    pub base_url: Option<String>,
    pub transport: Option<String>,
}

/// The `GcpCredentialInput` input.
#[derive(Debug, Clone, PartialEq, Eq)]
pub struct GcpCredentialInput {
    pub region: String,
    pub project_id: String,
    pub json_data: String,
}

/// The `OAuthCredentialsInput` input.
#[derive(Debug, Clone, Default, PartialEq, Eq)]
pub struct OAuthCredentialsInput {
    pub access_token: Option<String>,
    pub refresh_token: Option<String>,
    pub client_id: Option<String>,
    pub expires_at: Option<TimeScalar>,
    pub token_type: Option<String>,
    pub scopes: Option<Vec<String>>,
}

/// The `ChannelCredentialsInput` input.
#[derive(Debug, Clone, Default, PartialEq, Eq)]
pub struct ChannelCredentialsInput {
    pub api_key: Option<String>,
    pub api_keys: Option<Vec<String>>,
    pub gcp: Option<GcpCredentialInput>,
    pub oauth: Option<OAuthCredentialsInput>,
}

/// The `CreateChannelInput` input.
#[derive(Debug, Clone, PartialEq, Eq)]
pub struct CreateChannelInput {
    pub channel_type: ChannelType,
    pub base_url: Option<String>,
    pub website_url: Option<String>,
    pub quota_currency: Option<String>,
    pub actual_quota_used: Option<DecimalInputScalar>,
    pub quota_remaining: Option<DecimalInputScalar>,
    pub name: String,
    pub credentials: ChannelCredentialsInput,
    pub supported_models: Vec<String>,
    pub manual_models: Option<Vec<String>>,
    pub auto_sync_supported_models: Option<bool>,
    pub auto_sync_model_pattern: Option<String>,
    pub tags: Option<Vec<String>>,
    pub default_test_model: String,
    pub policies: Option<ChannelPoliciesInput>,
    pub settings: Option<ChannelSettingsInput>,
    pub ordering_weight: Option<i64>,
    pub remark: Option<String>,
    pub endpoints: Option<Vec<ChannelEndpointInput>>,
}

/// The `UpdateChannelInput` input.
#[derive(Debug, Clone, Default, PartialEq, Eq)]
pub struct UpdateChannelInput {
    pub channel_type: Option<ChannelType>,
    pub base_url: Option<String>,
    pub clear_base_url: Option<bool>,
    pub website_url: Option<String>,
    pub clear_website_url: Option<bool>,
    pub quota_currency: Option<String>,
    pub actual_quota_used: Option<DecimalInputScalar>,
    pub clear_actual_quota_used: Option<bool>,
    pub quota_remaining: Option<DecimalInputScalar>,
    pub clear_quota_remaining: Option<bool>,
    pub name: Option<String>,
    pub status: Option<ChannelStatus>,
    pub credentials: Option<ChannelCredentialsInput>,
    pub supported_models: Option<Vec<String>>,
    pub append_supported_models: Option<Vec<String>>,
    pub manual_models: Option<Vec<String>>,
    pub append_manual_models: Option<Vec<String>>,
    pub clear_manual_models: Option<bool>,
    pub auto_sync_supported_models: Option<bool>,
    pub auto_sync_model_pattern: Option<String>,
    pub clear_auto_sync_model_pattern: Option<bool>,
    pub tags: Option<Vec<String>>,
    pub append_tags: Option<Vec<String>>,
    pub clear_tags: Option<bool>,
    pub default_test_model: Option<String>,
    pub policies: Option<ChannelPoliciesInput>,
    pub clear_policies: Option<bool>,
    pub settings: Option<ChannelSettingsInput>,
    pub clear_settings: Option<bool>,
    pub ordering_weight: Option<i64>,
    pub error_message: Option<String>,
    pub clear_error_message: Option<bool>,
    pub remark: Option<String>,
    pub clear_remark: Option<bool>,
    pub endpoints: Option<Vec<ChannelEndpointInput>>,
    pub append_endpoints: Option<Vec<ChannelEndpointInput>>,
    pub clear_endpoints: Option<bool>,
}

/// The `ChannelOrder` input.
#[derive(Debug, Clone, PartialEq, Eq)]
pub struct ChannelOrder {
    pub direction: OrderDirection,
    pub field: ChannelOrderField,
}

/// The `ChannelWhereInput` input.
#[derive(Debug, Default, PartialEq)]
pub struct ChannelWhereInput {
    pub not: Option<Box<ChannelWhereInput>>,
    pub and: Option<Vec<ChannelWhereInput>>,
    pub or: Option<Vec<ChannelWhereInput>>,
    pub id: Option<ID>,
    pub id_neq: Option<ID>,
    pub id_in: Option<Vec<ID>>,
    pub id_not_in: Option<Vec<ID>>,
    pub id_gt: Option<ID>,
    pub id_gte: Option<ID>,
    pub id_lt: Option<ID>,
    pub id_lte: Option<ID>,
    pub created_at: Option<TimeScalar>,
    pub created_at_neq: Option<TimeScalar>,
    pub created_at_in: Option<Vec<TimeScalar>>,
    pub created_at_not_in: Option<Vec<TimeScalar>>,
    pub created_at_gt: Option<TimeScalar>,
    pub created_at_gte: Option<TimeScalar>,
    pub created_at_lt: Option<TimeScalar>,
    pub created_at_lte: Option<TimeScalar>,
    pub updated_at: Option<TimeScalar>,
    pub updated_at_neq: Option<TimeScalar>,
    pub updated_at_in: Option<Vec<TimeScalar>>,
    pub updated_at_not_in: Option<Vec<TimeScalar>>,
    pub updated_at_gt: Option<TimeScalar>,
    pub updated_at_gte: Option<TimeScalar>,
    pub updated_at_lt: Option<TimeScalar>,
    pub updated_at_lte: Option<TimeScalar>,
    pub channel_type: Option<ChannelType>,
    pub type_neq: Option<ChannelType>,
    pub type_in: Option<Vec<ChannelType>>,
    pub type_not_in: Option<Vec<ChannelType>>,
    pub base_url: Option<String>,
    pub base_url_neq: Option<String>,
    pub base_url_in: Option<Vec<String>>,
    pub base_url_not_in: Option<Vec<String>>,
    pub base_url_gt: Option<String>,
    pub base_url_gte: Option<String>,
    pub base_url_lt: Option<String>,
    pub base_url_lte: Option<String>,
    pub base_url_contains: Option<String>,
    pub base_url_has_prefix: Option<String>,
    pub base_url_has_suffix: Option<String>,
    pub base_url_is_nil: Option<bool>,
    pub base_url_not_nil: Option<bool>,
    pub base_url_equal_fold: Option<String>,
    pub base_url_contains_fold: Option<String>,
    pub name: Option<String>,
    pub name_neq: Option<String>,
    pub name_in: Option<Vec<String>>,
    pub name_not_in: Option<Vec<String>>,
    pub name_gt: Option<String>,
    pub name_gte: Option<String>,
    pub name_lt: Option<String>,
    pub name_lte: Option<String>,
    pub name_contains: Option<String>,
    pub name_has_prefix: Option<String>,
    pub name_has_suffix: Option<String>,
    pub name_equal_fold: Option<String>,
    pub name_contains_fold: Option<String>,
    pub status: Option<ChannelStatus>,
    pub status_neq: Option<ChannelStatus>,
    pub status_in: Option<Vec<ChannelStatus>>,
    pub status_not_in: Option<Vec<ChannelStatus>>,
    pub auto_sync_supported_models: Option<bool>,
    pub auto_sync_supported_models_neq: Option<bool>,
    pub auto_sync_model_pattern: Option<String>,
    pub auto_sync_model_pattern_neq: Option<String>,
    pub auto_sync_model_pattern_in: Option<Vec<String>>,
    pub auto_sync_model_pattern_not_in: Option<Vec<String>>,
    pub auto_sync_model_pattern_gt: Option<String>,
    pub auto_sync_model_pattern_gte: Option<String>,
    pub auto_sync_model_pattern_lt: Option<String>,
    pub auto_sync_model_pattern_lte: Option<String>,
    pub auto_sync_model_pattern_contains: Option<String>,
    pub auto_sync_model_pattern_has_prefix: Option<String>,
    pub auto_sync_model_pattern_has_suffix: Option<String>,
    pub auto_sync_model_pattern_is_nil: Option<bool>,
    pub auto_sync_model_pattern_not_nil: Option<bool>,
    pub auto_sync_model_pattern_equal_fold: Option<String>,
    pub auto_sync_model_pattern_contains_fold: Option<String>,
    pub default_test_model: Option<String>,
    pub default_test_model_neq: Option<String>,
    pub default_test_model_in: Option<Vec<String>>,
    pub default_test_model_not_in: Option<Vec<String>>,
    pub default_test_model_gt: Option<String>,
    pub default_test_model_gte: Option<String>,
    pub default_test_model_lt: Option<String>,
    pub default_test_model_lte: Option<String>,
    pub default_test_model_contains: Option<String>,
    pub default_test_model_has_prefix: Option<String>,
    pub default_test_model_has_suffix: Option<String>,
    pub default_test_model_equal_fold: Option<String>,
    pub default_test_model_contains_fold: Option<String>,
    pub ordering_weight: Option<i64>,
    pub ordering_weight_neq: Option<i64>,
    pub ordering_weight_in: Option<Vec<i64>>,
    pub ordering_weight_not_in: Option<Vec<i64>>,
    pub ordering_weight_gt: Option<i64>,
    pub ordering_weight_gte: Option<i64>,
    pub ordering_weight_lt: Option<i64>,
    pub ordering_weight_lte: Option<i64>,
    pub error_message: Option<String>,
    pub error_message_neq: Option<String>,
    pub error_message_in: Option<Vec<String>>,
    pub error_message_not_in: Option<Vec<String>>,
    pub error_message_gt: Option<String>,
    pub error_message_gte: Option<String>,
    pub error_message_lt: Option<String>,
    pub error_message_lte: Option<String>,
    pub error_message_contains: Option<String>,
    pub error_message_has_prefix: Option<String>,
    pub error_message_has_suffix: Option<String>,
    pub error_message_is_nil: Option<bool>,
    pub error_message_not_nil: Option<bool>,
    pub error_message_equal_fold: Option<String>,
    pub error_message_contains_fold: Option<String>,
    pub remark: Option<String>,
    pub remark_neq: Option<String>,
    pub remark_in: Option<Vec<String>>,
    pub remark_not_in: Option<Vec<String>>,
    pub remark_gt: Option<String>,
    pub remark_gte: Option<String>,
    pub remark_lt: Option<String>,
    pub remark_lte: Option<String>,
    pub remark_contains: Option<String>,
    pub remark_has_prefix: Option<String>,
    pub remark_has_suffix: Option<String>,
    pub remark_is_nil: Option<bool>,
    pub remark_not_nil: Option<bool>,
    pub remark_equal_fold: Option<String>,
    pub remark_contains_fold: Option<String>,
    pub has_requests: Option<bool>,
    pub has_executions: Option<bool>,
    pub has_usage_logs: Option<bool>,
    pub has_channel_probes: Option<bool>,
    pub has_channel_model_prices: Option<bool>,
    pub has_provider_quota_status: Option<bool>,
    /// Filters by the control-plane adapter in the channel settings, for
    /// example `new_api`.
    pub management_adapter: Option<String>,
}

/// What the service orders channels by. `Id`, the primary key, is no choice of
/// the caller: it stands in for the creation time.
#[derive(Debug, Clone, Copy, PartialEq, Eq, Structural)]
pub enum ChannelOrderTerm {
    Id,
    UpdatedAt,
    Type,
    Name,
    Status,
    OrderingWeight,
}

/// The ordering handed to the channel service.
#[derive(Debug, Clone, Copy, PartialEq, Eq)]
pub struct ChannelOrderSelection {
    pub direction: OrderDirection,
    pub term: ChannelOrderTerm,
}

/// What a channel service reports when it fails.
#[derive(Debug, Clone)]
pub enum ChannelServiceError {
    ServiceUnavailable,
    DuplicateName(String),
    NotFound,
    Create(String),
    Update(String),
    Delete(String),
    Query(String),
}

/// The arguments of a channel connection query, as the service takes them.
#[derive(Debug, Default)]
pub struct ChannelConnectionArgs {
    pub after: Option<String>,
    pub first: Option<i32>,
    pub before: Option<String>,
    pub last: Option<i32>,
    pub order_by: Option<ChannelOrderSelection>,
    pub where_filter: Option<ChannelWhereInput>,
}

/// The service term for a caller's order field: the creation time is ordered by
/// primary key, every other field by itself.
pub open spec fn channel_order_term(field: ChannelOrderField) -> ChannelOrderTerm {
    match field {
        ChannelOrderField::CreatedAt => ChannelOrderTerm::Id,
        ChannelOrderField::UpdatedAt => ChannelOrderTerm::UpdatedAt,
        ChannelOrderField::Type => ChannelOrderTerm::Type,
        ChannelOrderField::Name => ChannelOrderTerm::Name,
        ChannelOrderField::Status => ChannelOrderTerm::Status,
        ChannelOrderField::OrderingWeight => ChannelOrderTerm::OrderingWeight,
    }
}

/// Lowers a caller's ordering into the one the service takes. A request for the
/// creation time becomes the primary key; the direction stands.
pub fn resolve_channel_order(order_by: Option<ChannelOrder>) -> (selection: Option<
    ChannelOrderSelection,
>)
    ensures
        selection is Some <==> order_by is Some,
        order_by matches Some(order) ==> selection == Some(
            (ChannelOrderSelection {
                direction: order.direction,
                term: channel_order_term(order.field),
            }),
        ),
{
    match order_by {
        Some(order) => {
            let term = match order.field {
                ChannelOrderField::CreatedAt => ChannelOrderTerm::Id,
                ChannelOrderField::UpdatedAt => ChannelOrderTerm::UpdatedAt,
                ChannelOrderField::Type => ChannelOrderTerm::Type,
                ChannelOrderField::Name => ChannelOrderTerm::Name,
                ChannelOrderField::Status => ChannelOrderTerm::Status,
                ChannelOrderField::OrderingWeight => ChannelOrderTerm::OrderingWeight,
            };
            Some(ChannelOrderSelection { direction: order.direction, term })
        },
        None => None,
    }
}

/// Different order fields stay different orderings: lowering loses no choice.
pub proof fn channel_order_terms_are_distinct(a: ChannelOrderField, b: ChannelOrderField)
    requires
        a != b,
    ensures
        channel_order_term(a) != channel_order_term(b),
{
}

impl ChannelServiceError {
    /// What the error reads like.
    pub open spec fn text(&self) -> Seq<char> {
        match self {
            ChannelServiceError::ServiceUnavailable => "channel service is not available"@,
            ChannelServiceError::DuplicateName(name) => "channel name '"@ + name@
                + "' already exists"@,
            ChannelServiceError::NotFound => "ent: channel not found"@,
            ChannelServiceError::Create(cause) => "failed to create channel: "@ + cause@,
            ChannelServiceError::Update(cause) => "failed to update channel: "@ + cause@,
            ChannelServiceError::Delete(cause) => "failed to delete channel: "@ + cause@,
            ChannelServiceError::Query(cause) => "failed to query channels: "@ + cause@,
        }
    }

    /// What the error reads like.
    pub fn message(&self) -> (message: String)
        ensures
            message@ == self.text(),
    {
        match self {
            ChannelServiceError::ServiceUnavailable => "channel service is not available".to_owned(),
            ChannelServiceError::DuplicateName(name) => crate::text::joined3(
                "channel name '",
                name.as_str(),
                "' already exists",
            ),
            ChannelServiceError::NotFound => "ent: channel not found".to_owned(),
            ChannelServiceError::Create(cause) => joined("failed to create channel: ", cause.as_str()),
            ChannelServiceError::Update(cause) => joined("failed to update channel: ", cause.as_str()),
            ChannelServiceError::Delete(cause) => joined("failed to delete channel: ", cause.as_str()),
            ChannelServiceError::Query(cause) => joined("failed to query channels: ", cause.as_str()),
        }
    }
}

/// What each `ChannelServiceError` reads like.
pub proof fn channel_service_errors_read_like_this(error: ChannelServiceError)
    ensures
        error is ServiceUnavailable ==> error.text() == "channel service is not available"@,
        error matches ChannelServiceError::DuplicateName(name) ==> error.text() == "channel name '"@ + name@ + "' already exists"@,
        error is NotFound ==> error.text() == "ent: channel not found"@,
        error matches ChannelServiceError::Create(cause) ==> error.text() == "failed to create channel: "@ + cause@,
        error matches ChannelServiceError::Update(cause) ==> error.text() == "failed to update channel: "@ + cause@,
        error matches ChannelServiceError::Delete(cause) ==> error.text() == "failed to delete channel: "@ + cause@,
        error matches ChannelServiceError::Query(cause) ==> error.text() == "failed to query channels: "@ + cause@,
{
}

/// Creation time is ordered by primary key, and every other field by itself.
pub proof fn channel_orders_are_lowered(field: ChannelOrderField)
    ensures
        field is CreatedAt <==> channel_order_term(field) is Id,
        field is UpdatedAt <==> channel_order_term(field) is UpdatedAt,
        field is Type <==> channel_order_term(field) is Type,
        field is Name <==> channel_order_term(field) is Name,
        field is Status <==> channel_order_term(field) is Status,
        field is OrderingWeight <==> channel_order_term(field) is OrderingWeight,
{
}

} // verus!
