//! From what a caller gives to what is stored. Each input keeps its values; an
//! absent value that the stored form cannot leave out becomes the zero value.
use vstd::prelude::*;

use crate::channel::{
    AutoModelMappingRule, AutoModelMappingRuleInput, ChannelEndpoint, ChannelEndpointInput,
    ChannelPolicies, ChannelPoliciesInput, ChannelRateLimit, ChannelRateLimitInput, ChannelSettings,
    ChannelSettingsInput, ErrorResponseRewriteRule, ErrorResponseRewriteRuleInput, ModelMapping,
    ModelMappingInput, OverrideMatch, OverrideMatchInput, OverrideOperation, OverrideOperationInput,
    ProxyConfig, ProxyConfigInput, RetryableErrorPattern, RetryableErrorPatternInput,
    TransformOptions, TransformOptionsInput,
};
use crate::scalars::DecimalScalar;

verus! {

// ---------------------------------------------------------------------------
// Zero values
// ---------------------------------------------------------------------------

/// `stored` holds the given text, or the empty text where none was given.
pub open spec fn text_or_empty(given: Option<String>, stored: Option<String>) -> bool {
    match given {
        Some(text) => stored == Some(text),
        None => stored is Some && stored->0@ == Seq::<char>::empty(),
    }
}

fn or_empty(given: Option<String>) -> (stored: Option<String>)
    ensures
        text_or_empty(given, stored),
{
    match given {
        Some(text) => Some(text),
        None => Some(String::new()),
    }
}

/// A flag that is off unless it was given as on.
pub open spec fn flag(given: Option<bool>) -> bool {
    given == Some(true)
}

fn or_false(given: Option<bool>) -> (stored: bool)
    ensures
        stored == flag(given),
{
    match given {
        Some(value) => value,
        None => false,
    }
}

// ---------------------------------------------------------------------------
// Single objects
// ---------------------------------------------------------------------------

impl vstd::std_specs::convert::FromSpecImpl<ModelMappingInput> for ModelMapping {
    open spec fn obeys_from_spec() -> bool {
        true
    }

    open spec fn from_spec(input: ModelMappingInput) -> ModelMapping {
        ModelMapping { from: input.from, to: input.to }
    }
}

impl From<ModelMappingInput> for ModelMapping {
    fn from(input: ModelMappingInput) -> (stored: Self) {
        ModelMapping { from: input.from, to: input.to }
    }
}

impl vstd::std_specs::convert::FromSpecImpl<OverrideMatchInput> for OverrideMatch {
    open spec fn obeys_from_spec() -> bool {
        true
    }

    open spec fn from_spec(input: OverrideMatchInput) -> OverrideMatch {
        OverrideMatch { path: input.path, eq: input.eq }
    }
}

impl From<OverrideMatchInput> for OverrideMatch {
    fn from(input: OverrideMatchInput) -> (stored: Self) {
        OverrideMatch { path: input.path, eq: input.eq }
    }
}

/// The stored form of an override operation: every field as given.
pub open spec fn stored_operation(input: OverrideOperationInput) -> OverrideOperation {
    OverrideOperation {
        op: input.op,
        path: input.path,
        from: input.from,
        to: input.to,
        value: input.value,
        condition: input.condition,
        match_: match input.match_ {
            Some(given) => Some(OverrideMatch { path: given.path, eq: given.eq }),
            None => None,
        },
        index: input.index,
        splat: input.splat,
    }
}

impl vstd::std_specs::convert::FromSpecImpl<OverrideOperationInput> for OverrideOperation {
    open spec fn obeys_from_spec() -> bool {
        true
    }

    open spec fn from_spec(input: OverrideOperationInput) -> OverrideOperation {
        stored_operation(input)
    }
}

impl From<OverrideOperationInput> for OverrideOperation {
    fn from(input: OverrideOperationInput) -> (stored: Self) {
        OverrideOperation {
            op: input.op,
            path: input.path,
            from: input.from,
            to: input.to,
            value: input.value,
            condition: input.condition,
            match_: match input.match_ {
                Some(given) => Some(OverrideMatch::from(given)),
                None => None,
            },
            index: input.index,
            splat: input.splat,
        }
    }
}

/// `stored` is the stored form of a proxy: absent texts are empty.
pub open spec fn stores_proxy(input: ProxyConfigInput, stored: ProxyConfig) -> bool {
    &&& stored.proxy_type == input.proxy_type
    &&& text_or_empty(input.url, stored.url)
    &&& text_or_empty(input.username, stored.username)
    &&& text_or_empty(input.password, stored.password)
}

impl vstd::std_specs::convert::FromSpecImpl<ProxyConfigInput> for ProxyConfig {
    open spec fn obeys_from_spec() -> bool {
        false
    }

    open spec fn from_spec(input: ProxyConfigInput) -> ProxyConfig {
        arbitrary()
    }
}

impl From<ProxyConfigInput> for ProxyConfig {
    fn from(input: ProxyConfigInput) -> (stored: Self)
        ensures
            stores_proxy(input, stored),
    {
        ProxyConfig {
            proxy_type: input.proxy_type,
            url: or_empty(input.url),
            username: or_empty(input.username),
            password: or_empty(input.password),
        }
    }
}

/// The stored form of transform options: absent flags are off.
pub open spec fn stored_transform(input: TransformOptionsInput) -> TransformOptions {
    TransformOptions {
        force_array_instructions: flag(input.force_array_instructions),
        force_array_inputs: flag(input.force_array_inputs),
        replace_developer_role_with_system: flag(input.replace_developer_role_with_system),
    }
}

impl vstd::std_specs::convert::FromSpecImpl<TransformOptionsInput> for TransformOptions {
    open spec fn obeys_from_spec() -> bool {
        true
    }

    open spec fn from_spec(input: TransformOptionsInput) -> TransformOptions {
        stored_transform(input)
    }
}

impl From<TransformOptionsInput> for TransformOptions {
    fn from(input: TransformOptionsInput) -> (stored: Self) {
        TransformOptions {
            force_array_instructions: or_false(input.force_array_instructions),
            force_array_inputs: or_false(input.force_array_inputs),
            replace_developer_role_with_system: or_false(input.replace_developer_role_with_system),
        }
    }
}

/// The stored form of a retryable error pattern: plain unless given as a regex.
pub open spec fn stored_pattern(input: RetryableErrorPatternInput) -> RetryableErrorPattern {
    RetryableErrorPattern { pattern: input.pattern, regex: flag(input.regex) }
}

impl vstd::std_specs::convert::FromSpecImpl<RetryableErrorPatternInput> for RetryableErrorPattern {
    open spec fn obeys_from_spec() -> bool {
        true
    }

    open spec fn from_spec(input: RetryableErrorPatternInput) -> RetryableErrorPattern {
        stored_pattern(input)
    }
}

impl From<RetryableErrorPatternInput> for RetryableErrorPattern {
    fn from(input: RetryableErrorPatternInput) -> (stored: Self) {
        RetryableErrorPattern { pattern: input.pattern, regex: or_false(input.regex) }
    }
}

/// The stored form of a rate limit: every field as given.
pub open spec fn stored_rate_limit(input: ChannelRateLimitInput) -> ChannelRateLimit {
    ChannelRateLimit {
        rpm: input.rpm,
        tpm: input.tpm,
        max_concurrent: input.max_concurrent,
        queue_size: input.queue_size,
        queue_timeout_ms: input.queue_timeout_ms,
    }
}

impl vstd::std_specs::convert::FromSpecImpl<ChannelRateLimitInput> for ChannelRateLimit {
    open spec fn obeys_from_spec() -> bool {
        true
    }

    open spec fn from_spec(input: ChannelRateLimitInput) -> ChannelRateLimit {
        stored_rate_limit(input)
    }
}

impl From<ChannelRateLimitInput> for ChannelRateLimit {
    fn from(input: ChannelRateLimitInput) -> (stored: Self) {
        ChannelRateLimit {
            rpm: input.rpm,
            tpm: input.tpm,
            max_concurrent: input.max_concurrent,
            queue_size: input.queue_size,
            queue_timeout_ms: input.queue_timeout_ms,
        }
    }
}

impl vstd::std_specs::convert::FromSpecImpl<ChannelPoliciesInput> for ChannelPolicies {
    open spec fn obeys_from_spec() -> bool {
        true
    }

    open spec fn from_spec(input: ChannelPoliciesInput) -> ChannelPolicies {
        ChannelPolicies { stream: input.stream }
    }
}

impl From<ChannelPoliciesInput> for ChannelPolicies {
    fn from(input: ChannelPoliciesInput) -> (stored: Self) {
        ChannelPolicies { stream: input.stream }
    }
}

/// `stored` is the stored form of an endpoint: absent texts are empty.
pub open spec fn stores_endpoint(input: ChannelEndpointInput, stored: ChannelEndpoint) -> bool {
    &&& stored.api_format == input.api_format
    &&& text_or_empty(input.path, stored.path)
    &&& text_or_empty(input.base_url, stored.base_url)
    &&& text_or_empty(input.transport, stored.transport)
}

impl vstd::std_specs::convert::FromSpecImpl<ChannelEndpointInput> for ChannelEndpoint {
    open spec fn obeys_from_spec() -> bool {
        false
    }

    open spec fn from_spec(input: ChannelEndpointInput) -> ChannelEndpoint {
        arbitrary()
    }
}

impl From<ChannelEndpointInput> for ChannelEndpoint {
    fn from(input: ChannelEndpointInput) -> (stored: Self)
        ensures
            stores_endpoint(input, stored),
    {
        ChannelEndpoint {
            api_format: input.api_format,
            path: or_empty(input.path),
            base_url: or_empty(input.base_url),
            transport: or_empty(input.transport),
        }
    }
}

/// `stored` is the stored form of a mapping rule: it creates a draft only where that
/// is asked for, and its model type is `chat` where none was given.
pub open spec fn stores_mapping_rule(
    input: AutoModelMappingRuleInput,
    stored: AutoModelMappingRule,
) -> bool {
    &&& stored.pattern == input.pattern
    &&& stored.public_model_id_template == input.public_model_id_template
    &&& stored.create_draft == (input.create_draft == Some(true))
    &&& stored.developer_template == input.developer_template
    &&& stored.name_template == input.name_template
    &&& stored.group_template == input.group_template
    &&& match input.model_type {
        Some(given) => stored.model_type == given,
        None => stored.model_type@ == "chat"@,
    }
}

fn store_mapping_rule(input: AutoModelMappingRuleInput) -> (stored: AutoModelMappingRule)
    ensures
        stores_mapping_rule(input, stored),
{
    AutoModelMappingRule {
        pattern: input.pattern,
        public_model_id_template: input.public_model_id_template,
        create_draft: match input.create_draft {
            Some(value) => value,
            None => false,
        },
        developer_template: input.developer_template,
        name_template: input.name_template,
        group_template: input.group_template,
        model_type: match input.model_type {
            Some(given) => given,
            None => "chat".to_owned(),
        },
    }
}

/// `stored` is the stored form of a rewrite rule: without status codes it has an
/// empty list of them.
pub open spec fn stores_rewrite_rule(
    input: ErrorResponseRewriteRuleInput,
    stored: ErrorResponseRewriteRule,
) -> bool {
    &&& match input.status_codes {
        Some(codes) => stored.status_codes == codes,
        None => stored.status_codes@ == Seq::<i64>::empty(),
    }
    &&& stored.body_pattern == input.body_pattern
    &&& stored.http_status == input.http_status
    &&& stored.message == input.message
    &&& stored.error_type == input.error_type
    &&& stored.code == input.code
    &&& stored.body == input.body
}

fn store_rewrite_rule(input: ErrorResponseRewriteRuleInput) -> (stored: ErrorResponseRewriteRule)
    ensures
        stores_rewrite_rule(input, stored),
{
    ErrorResponseRewriteRule {
        status_codes: match input.status_codes {
            Some(codes) => codes,
            None => Vec::new(),
        },
        body_pattern: input.body_pattern,
        http_status: input.http_status,
        message: input.message,
        error_type: input.error_type,
        code: input.code,
        body: input.body,
    }
}

// ---------------------------------------------------------------------------
// Lists
// ---------------------------------------------------------------------------

/// `stored` lists the stored forms of `given`, in order.
pub open spec fn stores_mappings(given: Seq<ModelMappingInput>, stored: Seq<ModelMapping>) -> bool {
    &&& stored.len() == given.len()
    &&& forall|i: int|
        0 <= i < given.len() ==> #[trigger] stored[i] == (ModelMapping {
            from: given[i].from,
            to: given[i].to,
        })
}

/// `stored` lists the stored forms of `given`, in order.
pub open spec fn stores_operations(
    given: Seq<OverrideOperationInput>,
    stored: Seq<OverrideOperation>,
) -> bool {
    &&& stored.len() == given.len()
    &&& forall|i: int|
        0 <= i < given.len() ==> #[trigger] stored[i] == stored_operation(given[i])
}

/// `stored` lists the stored forms of `given`, in order.
pub open spec fn stores_patterns(
    given: Seq<RetryableErrorPatternInput>,
    stored: Seq<RetryableErrorPattern>,
) -> bool {
    &&& stored.len() == given.len()
    &&& forall|i: int| 0 <= i < given.len() ==> #[trigger] stored[i] == stored_pattern(given[i])
}

/// `stored` lists the stored forms of `given`, in order.
pub open spec fn stores_mapping_rules(
    given: Seq<AutoModelMappingRuleInput>,
    stored: Seq<AutoModelMappingRule>,
) -> bool {
    &&& stored.len() == given.len()
    &&& forall|i: int|
        0 <= i < given.len() ==> stores_mapping_rule(given[i], #[trigger] stored[i])
}

/// `stored` lists the stored forms of `given`, in order.
pub open spec fn stores_rewrite_rules(
    given: Seq<ErrorResponseRewriteRuleInput>,
    stored: Seq<ErrorResponseRewriteRule>,
) -> bool {
    &&& stored.len() == given.len()
    &&& forall|i: int|
        0 <= i < given.len() ==> stores_rewrite_rule(given[i], #[trigger] stored[i])
}

fn store_mappings(given: Vec<ModelMappingInput>) -> (stored: Vec<ModelMapping>)
    ensures
        stores_mappings(given@, stored@),
{
    let mut stored: Vec<ModelMapping> = Vec::new();
    for item in items: given
        invariant
            items.seq() == given@,
            stores_mappings(given@.take(items.index() as int), stored@),
    {
        stored.push(ModelMapping::from(item));
    }
    assert(given@.take(given@.len() as int) =~= given@);
    stored
}

fn store_operations(given: Option<Vec<OverrideOperationInput>>) -> (stored: Vec<OverrideOperation>)
    ensures
        stores_operations(
            match given {
                Some(list) => list@,
                None => Seq::empty(),
            },
            stored@,
        ),
{
    let mut stored: Vec<OverrideOperation> = Vec::new();
    if let Some(list) = given {
        for item in items: list
            invariant
                items.seq() == list@,
                stores_operations(list@.take(items.index() as int), stored@),
        {
            stored.push(OverrideOperation::from(item));
        }
        assert(list@.take(list@.len() as int) =~= list@);
    }
    stored
}

fn store_patterns(given: Vec<RetryableErrorPatternInput>) -> (stored: Vec<RetryableErrorPattern>)
    ensures
        stores_patterns(given@, stored@),
{
    let mut stored: Vec<RetryableErrorPattern> = Vec::new();
    for item in items: given
        invariant
            items.seq() == given@,
            stores_patterns(given@.take(items.index() as int), stored@),
    {
        stored.push(RetryableErrorPattern::from(item));
    }
    assert(given@.take(given@.len() as int) =~= given@);
    stored
}

fn store_mapping_rules(given: Vec<AutoModelMappingRuleInput>) -> (stored: Vec<AutoModelMappingRule>)
    ensures
        stores_mapping_rules(given@, stored@),
{
    let mut stored: Vec<AutoModelMappingRule> = Vec::new();
    for item in items: given
        invariant
            items.seq() == given@,
            stores_mapping_rules(given@.take(items.index() as int), stored@),
    {
        stored.push(store_mapping_rule(item));
    }
    assert(given@.take(given@.len() as int) =~= given@);
    stored
}

fn store_rewrite_rules(given: Vec<ErrorResponseRewriteRuleInput>) -> (stored: Vec<
    ErrorResponseRewriteRule,
>)
    ensures
        stores_rewrite_rules(given@, stored@),
{
    let mut stored: Vec<ErrorResponseRewriteRule> = Vec::new();
    for item in items: given
        invariant
            items.seq() == given@,
            stores_rewrite_rules(given@.take(items.index() as int), stored@),
    {
        stored.push(store_rewrite_rule(item));
    }
    assert(given@.take(given@.len() as int) =~= given@);
    stored
}

// ---------------------------------------------------------------------------
// Settings
// ---------------------------------------------------------------------------

/// The operations of a list, none where it is absent.
pub open spec fn operations(given: Option<Vec<OverrideOperationInput>>) -> Seq<
    OverrideOperationInput,
> {
    match given {
        Some(list) => list@,
        None => Seq::empty(),
    }
}

/// `stored` is the stored form of the settings: plain fields as given, lists
/// item by item, and the two lists of operations empty where they are absent.
pub open spec fn stores_settings(input: ChannelSettingsInput, stored: ChannelSettings) -> bool {
    &&& stored.management_adapter == input.management_adapter
    &&& stored.billing_currency == input.billing_currency
    &&& stored.recharge_multiplier == match input.recharge_multiplier {
        Some(given) => Some(DecimalScalar { mantissa: given.mantissa, scale: given.scale }),
        None => None,
    }
    &&& stored.extra_model_prefix == input.extra_model_prefix
    &&& match input.model_mappings {
        Some(given) => stored.model_mappings is Some && stores_mappings(
            given@,
            stored.model_mappings->0@,
        ),
        None => stored.model_mappings is None,
    }
    &&& stored.auto_trimed_model_prefixes == input.auto_trimed_model_prefixes
    &&& stored.hide_original_models == input.hide_original_models
    &&& stored.hide_mapped_models == input.hide_mapped_models
    &&& stored.lowercase_model_id == input.lowercase_model_id
    &&& match input.proxy {
        Some(given) => stored.proxy is Some && stores_proxy(given, stored.proxy->0),
        None => stored.proxy is None,
    }
    &&& stored.transform_options == match input.transform_options {
        Some(given) => Some(stored_transform(given)),
        None => None,
    }
    &&& stores_operations(
        operations(input.header_override_operations),
        stored.header_override_operations@,
    )
    &&& stores_operations(
        operations(input.body_override_operations),
        stored.body_override_operations@,
    )
    &&& stored.pass_through_user_agent == input.pass_through_user_agent
    &&& stored.pass_through_body == input.pass_through_body
    &&& stored.rate_limit == match input.rate_limit {
        Some(given) => Some(stored_rate_limit(given)),
        None => None,
    }
    &&& stored.retryable_status_codes == input.retryable_status_codes
    &&& match input.retryable_error_patterns {
        Some(given) => stored.retryable_error_patterns is Some && stores_patterns(
            given@,
            stored.retryable_error_patterns->0@,
        ),
        None => stored.retryable_error_patterns is None,
    }
    &&& match input.auto_model_mapping_rules {
        Some(given) => stored.auto_model_mapping_rules is Some && stores_mapping_rules(
            given@,
            stored.auto_model_mapping_rules->0@,
        ),
        None => stored.auto_model_mapping_rules is None,
    }
    &&& match input.error_response_rewrite_rules {
        Some(given) => stored.error_response_rewrite_rules is Some && stores_rewrite_rules(
            given@,
            stored.error_response_rewrite_rules->0@,
        ),
        None => stored.error_response_rewrite_rules is None,
    }
}

impl vstd::std_specs::convert::FromSpecImpl<ChannelSettingsInput> for ChannelSettings {
    open spec fn obeys_from_spec() -> bool {
        false
    }

    open spec fn from_spec(input: ChannelSettingsInput) -> ChannelSettings {
        arbitrary()
    }
}

impl From<ChannelSettingsInput> for ChannelSettings {
    fn from(input: ChannelSettingsInput) -> (stored: Self)
        ensures
            stores_settings(input, stored),
    {
        ChannelSettings {
            management_adapter: input.management_adapter,
            billing_currency: input.billing_currency,
            recharge_multiplier: match input.recharge_multiplier {
                Some(given) => Some(
                    DecimalScalar { mantissa: given.mantissa, scale: given.scale },
                ),
                None => None,
            },
            extra_model_prefix: input.extra_model_prefix,
            model_mappings: match input.model_mappings {
                Some(given) => Some(store_mappings(given)),
                None => None,
            },
            auto_trimed_model_prefixes: input.auto_trimed_model_prefixes,
            hide_original_models: input.hide_original_models,
            hide_mapped_models: input.hide_mapped_models,
            lowercase_model_id: input.lowercase_model_id,
            proxy: match input.proxy {
                Some(given) => Some(ProxyConfig::from(given)),
                None => None,
            },
            transform_options: match input.transform_options {
                Some(given) => Some(TransformOptions::from(given)),
                None => None,
            },
            header_override_operations: store_operations(input.header_override_operations),
            body_override_operations: store_operations(input.body_override_operations),
            pass_through_user_agent: input.pass_through_user_agent,
            pass_through_body: input.pass_through_body,
            rate_limit: match input.rate_limit {
                Some(given) => Some(ChannelRateLimit::from(given)),
                None => None,
            },
            retryable_status_codes: input.retryable_status_codes,
            retryable_error_patterns: match input.retryable_error_patterns {
                Some(given) => Some(store_patterns(given)),
                None => None,
            },
            auto_model_mapping_rules: match input.auto_model_mapping_rules {
                Some(given) => Some(store_mapping_rules(given)),
                None => None,
            },
            error_response_rewrite_rules: match input.error_response_rewrite_rules {
                Some(given) => Some(store_rewrite_rules(given)),
                None => None,
            },
        }
    }
}

// ---------------------------------------------------------------------------
// Laws
// ---------------------------------------------------------------------------

/// Settings that were accepted and normalised are stored with mapping rules that
/// hold: each has a pattern that compiles, a template and a known model type.
pub proof fn accepted_rules_are_stored_normal(
    settings: ChannelSettingsInput,
    billing: Result<Option<String>, String>,
    new: ChannelSettingsInput,
    stored: ChannelSettings,
    i: int,
)
    requires
        crate::channel_settings::settings_error(settings, billing) is None,
        crate::channel_settings::settings_after(settings, billing, new),
        stores_settings(new, stored),
        stored.auto_model_mapping_rules is Some,
        0 <= i < stored.auto_model_mapping_rules->0@.len(),
    ensures
        ({
            let rule = stored.auto_model_mapping_rules->0@[i];
            &&& rule.pattern@.len() > 0
            &&& crate::channel_settings::pattern_error(rule.pattern@) is None
            &&& rule.public_model_id_template@.len() > 0
            &&& crate::text::listed(crate::channel_settings::MODEL_TYPES@, rule.model_type@)
        }),
{
    crate::channel_settings::settings_are_accepted_iff_all_rules_are(settings, billing);
    crate::channel_settings::accepted_mapping_rules_are_normal(settings, billing, new, i);
}

/// Plain settings are stored as they are given.
pub proof fn plain_settings_are_stored_as_given(
    input: ChannelSettingsInput,
    stored: ChannelSettings,
)
    requires
        stores_settings(input, stored),
    ensures
        stored.management_adapter == input.management_adapter,
        stored.billing_currency == input.billing_currency,
        stored.extra_model_prefix == input.extra_model_prefix,
        stored.auto_trimed_model_prefixes == input.auto_trimed_model_prefixes,
        stored.hide_original_models == input.hide_original_models,
        stored.hide_mapped_models == input.hide_mapped_models,
        stored.lowercase_model_id == input.lowercase_model_id,
        stored.pass_through_user_agent == input.pass_through_user_agent,
        stored.pass_through_body == input.pass_through_body,
        stored.retryable_status_codes == input.retryable_status_codes,
        stored.recharge_multiplier is Some <==> input.recharge_multiplier is Some,
        input.recharge_multiplier matches Some(given) ==> stored.recharge_multiplier->0.mantissa
            == given.mantissa && stored.recharge_multiplier->0.scale == given.scale,
        stored.rate_limit is Some <==> input.rate_limit is Some,
        input.rate_limit matches Some(given) ==> {
            let limit = stored.rate_limit->0;
            &&& limit.rpm == given.rpm
            &&& limit.tpm == given.tpm
            &&& limit.max_concurrent == given.max_concurrent
            &&& limit.queue_size == given.queue_size
            &&& limit.queue_timeout_ms == given.queue_timeout_ms
        },
        stored.transform_options is Some <==> input.transform_options is Some,
        input.transform_options matches Some(given) ==> {
            let options = stored.transform_options->0;
            &&& options.force_array_instructions <==> given.force_array_instructions == Some(true)
            &&& options.force_array_inputs <==> given.force_array_inputs == Some(true)
            &&& options.replace_developer_role_with_system
                <==> given.replace_developer_role_with_system == Some(true)
        },
        stored.proxy is Some <==> input.proxy is Some,
        input.proxy matches Some(given) ==> {
            let proxy = stored.proxy->0;
            &&& proxy.proxy_type == given.proxy_type
            &&& given.url is Some ==> proxy.url == given.url
            &&& given.url is None ==> proxy.url is Some && proxy.url->0@.len() == 0
            &&& given.username is Some ==> proxy.username == given.username
            &&& given.username is None ==> proxy.username is Some && proxy.username->0@.len() == 0
            &&& given.password is Some ==> proxy.password == given.password
            &&& given.password is None ==> proxy.password is Some && proxy.password->0@.len() == 0
        },
{
}

/// Whether an operation is stored as it is given.
pub open spec fn keeps_operation(given: OverrideOperationInput, stored: OverrideOperation) -> bool {
    &&& stored.op == given.op
    &&& stored.path == given.path
    &&& stored.from == given.from
    &&& stored.to == given.to
    &&& stored.value == given.value
    &&& stored.condition == given.condition
    &&& stored.match_ is Some <==> given.match_ is Some
    &&& given.match_ is Some ==> stored.match_->0.path == given.match_->0.path
        && stored.match_->0.eq == given.match_->0.eq
    &&& stored.index == given.index
    &&& stored.splat == given.splat
}

/// Lists are stored item by item, in the order in which they are given; an absent list of
/// operations is an empty one.
pub proof fn listed_settings_are_stored_as_given(
    input: ChannelSettingsInput,
    stored: ChannelSettings,
    i: int,
)
    requires
        stores_settings(input, stored),
    ensures
        stored.model_mappings is Some <==> input.model_mappings is Some,
        input.model_mappings matches Some(given) ==> {
            &&& stored.model_mappings->0@.len() == given@.len()
            &&& 0 <= i < given@.len() ==> stored.model_mappings->0@[i].from == given@[i].from
                && stored.model_mappings->0@[i].to == given@[i].to
        },
        stored.retryable_error_patterns is Some <==> input.retryable_error_patterns is Some,
        input.retryable_error_patterns matches Some(given) ==> {
            let patterns = stored.retryable_error_patterns->0@;
            &&& patterns.len() == given@.len()
            &&& 0 <= i < given@.len() ==> patterns[i].pattern == given@[i].pattern && (
            patterns[i].regex <==> given@[i].regex == Some(true))
        },
        match input.header_override_operations {
            Some(given) => {
                &&& stored.header_override_operations@.len() == given@.len()
                &&& 0 <= i < given@.len() ==> keeps_operation(
                    given@[i],
                    stored.header_override_operations@[i],
                )
            },
            None => stored.header_override_operations@.len() == 0,
        },
        match input.body_override_operations {
            Some(given) => {
                &&& stored.body_override_operations@.len() == given@.len()
                &&& 0 <= i < given@.len() ==> keeps_operation(
                    given@[i],
                    stored.body_override_operations@[i],
                )
            },
            None => stored.body_override_operations@.len() == 0,
        },
        stored.auto_model_mapping_rules is Some <==> input.auto_model_mapping_rules is Some,
        input.auto_model_mapping_rules matches Some(given) ==> {
            let rules = stored.auto_model_mapping_rules->0@;
            &&& rules.len() == given@.len()
            &&& 0 <= i < given@.len() ==> {
                &&& rules[i].pattern == given@[i].pattern
                &&& rules[i].public_model_id_template == given@[i].public_model_id_template
                &&& rules[i].create_draft <==> given@[i].create_draft == Some(true)
                &&& rules[i].developer_template == given@[i].developer_template
                &&& rules[i].name_template == given@[i].name_template
                &&& rules[i].group_template == given@[i].group_template
                &&& given@[i].model_type is Some ==> rules[i].model_type == given@[i].model_type->0
                &&& given@[i].model_type is None ==> rules[i].model_type@ == "chat"@
            }
        },
        stored.error_response_rewrite_rules is Some <==> input.error_response_rewrite_rules is Some,
        input.error_response_rewrite_rules matches Some(given) ==> {
            let rules = stored.error_response_rewrite_rules->0@;
            &&& rules.len() == given@.len()
            &&& 0 <= i < given@.len() ==> {
                &&& given@[i].status_codes is Some ==> rules[i].status_codes
                    == given@[i].status_codes->0
                &&& given@[i].status_codes is None ==> rules[i].status_codes@.len() == 0
                &&& rules[i].body_pattern == given@[i].body_pattern
                &&& rules[i].http_status == given@[i].http_status
                &&& rules[i].message == given@[i].message
                &&& rules[i].error_type == given@[i].error_type
                &&& rules[i].code == given@[i].code
                &&& rules[i].body == given@[i].body
            }
        },
{
    if let Some(given) = input.model_mappings {
        if 0 <= i < given@.len() {
            assert(stored.model_mappings->0@[i] == stored.model_mappings->0@[i]);
        }
    }
    let header = operations(input.header_override_operations);
    if 0 <= i < header.len() {
        assert(stored.header_override_operations@[i] == stored_operation(header[i]));
    }
    let body = operations(input.body_override_operations);
    if 0 <= i < body.len() {
        assert(stored.body_override_operations@[i] == stored_operation(body[i]));
    }
}

/// Objects that are converted on their own keep what is given as well.
pub proof fn single_objects_are_stored_as_given(
    mapping: ModelMappingInput,
    matching: OverrideMatchInput,
    operation: OverrideOperationInput,
    transform: TransformOptionsInput,
    pattern: RetryableErrorPatternInput,
    limit: ChannelRateLimitInput,
    policies: ChannelPoliciesInput,
)
    ensures
        ({
            let stored = <ModelMapping as vstd::std_specs::convert::FromSpec<
                ModelMappingInput,
            >>::from_spec(mapping);
            stored.from == mapping.from && stored.to == mapping.to
        }),
        ({
            let stored = <OverrideMatch as vstd::std_specs::convert::FromSpec<
                OverrideMatchInput,
            >>::from_spec(matching);
            stored.path == matching.path && stored.eq == matching.eq
        }),
        keeps_operation(
            operation,
            <OverrideOperation as vstd::std_specs::convert::FromSpec<
                OverrideOperationInput,
            >>::from_spec(operation),
        ),
        ({
            let stored = <TransformOptions as vstd::std_specs::convert::FromSpec<
                TransformOptionsInput,
            >>::from_spec(transform);
            &&& stored.force_array_instructions <==> transform.force_array_instructions == Some(
                true,
            )
            &&& stored.force_array_inputs <==> transform.force_array_inputs == Some(true)
            &&& stored.replace_developer_role_with_system
                <==> transform.replace_developer_role_with_system == Some(true)
        }),
        ({
            let stored = <RetryableErrorPattern as vstd::std_specs::convert::FromSpec<
                RetryableErrorPatternInput,
            >>::from_spec(pattern);
            stored.pattern == pattern.pattern && (stored.regex <==> pattern.regex == Some(true))
        }),
        ({
            let stored = <ChannelRateLimit as vstd::std_specs::convert::FromSpec<
                ChannelRateLimitInput,
            >>::from_spec(limit);
            &&& stored.rpm == limit.rpm
            &&& stored.tpm == limit.tpm
            &&& stored.max_concurrent == limit.max_concurrent
            &&& stored.queue_size == limit.queue_size
            &&& stored.queue_timeout_ms == limit.queue_timeout_ms
        }),
        <ChannelPolicies as vstd::std_specs::convert::FromSpec<
            ChannelPoliciesInput,
        >>::from_spec(policies).stream == policies.stream,
{
}

/// An endpoint keeps what is given, and what it leaves out is empty; so does a proxy.
pub proof fn endpoints_and_proxies_are_stored_as_given(
    input: ChannelEndpointInput,
    stored: ChannelEndpoint,
    proxy: ProxyConfigInput,
    kept: ProxyConfig,
)
    requires
        stores_endpoint(input, stored),
        stores_proxy(proxy, kept),
    ensures
        stored.api_format == input.api_format,
        input.path is Some ==> stored.path == input.path,
        input.path is None ==> stored.path is Some && stored.path->0@.len() == 0,
        input.base_url is Some ==> stored.base_url == input.base_url,
        input.base_url is None ==> stored.base_url is Some && stored.base_url->0@.len() == 0,
        input.transport is Some ==> stored.transport == input.transport,
        input.transport is None ==> stored.transport is Some && stored.transport->0@.len() == 0,
        kept.proxy_type == proxy.proxy_type,
        proxy.url is Some ==> kept.url == proxy.url,
        proxy.url is None ==> kept.url is Some && kept.url->0@.len() == 0,
        proxy.username is Some ==> kept.username == proxy.username,
        proxy.username is None ==> kept.username is Some && kept.username->0@.len() == 0,
        proxy.password is Some ==> kept.password == proxy.password,
        proxy.password is None ==> kept.password is Some && kept.password->0@.len() == 0,
{
}

/// The conversions of single objects do what their contracts say.
pub proof fn single_objects_obey_their_contracts()
    ensures
        <ModelMapping as vstd::std_specs::convert::FromSpec<ModelMappingInput>>::obeys_from_spec(),
        <OverrideMatch as vstd::std_specs::convert::FromSpec<
            OverrideMatchInput,
        >>::obeys_from_spec(),
        <OverrideOperation as vstd::std_specs::convert::FromSpec<
            OverrideOperationInput,
        >>::obeys_from_spec(),
        <TransformOptions as vstd::std_specs::convert::FromSpec<
            TransformOptionsInput,
        >>::obeys_from_spec(),
        <RetryableErrorPattern as vstd::std_specs::convert::FromSpec<
            RetryableErrorPatternInput,
        >>::obeys_from_spec(),
        <ChannelRateLimit as vstd::std_specs::convert::FromSpec<
            ChannelRateLimitInput,
        >>::obeys_from_spec(),
        <ChannelPolicies as vstd::std_specs::convert::FromSpec<
            ChannelPoliciesInput,
        >>::obeys_from_spec(),
{
}

} // verus!
