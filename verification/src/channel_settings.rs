//! The rules that channel settings meet before a mutation reaches its service.
use vstd::prelude::*;

use crate::channel::{
    AutoModelMappingRuleInput, ChannelSettingsInput, ErrorResponseRewriteRuleInput,
};
use crate::scalars::DecimalInputScalar;
use crate::text::{
    is_listed, joined, listed, lowered, number_text, numeral, optional_text, to_lower, trim, trimmed,
};

verus! {

/// The model types that a mapping rule can create.
pub const MODEL_TYPES: [&'static str; 5] = [
    "chat",
    "embedding",
    "rerank",
    "image_generation",
    "video_generation",
];

// ---------------------------------------------------------------------------
// Patterns
// ---------------------------------------------------------------------------

/// What `regex::Regex::new` objects to in a pattern, on a machine whose pointers
/// have `pointer_bits` bits; nothing where the pattern compiles. The width
/// matters because the limit on the size of a compiled pattern is one of memory.
pub uninterp spec fn regex_error(pattern: Seq<char>, pointer_bits: nat) -> Option<Seq<char>>;

/// Calls `regex::Regex::new` and keeps the text of its error, if it gives one:
/// the outcome is `regex_error` of the pattern. Which patterns compile is not
/// said here.
#[verifier::external_body]
fn compile_pattern(pattern: &str) -> (error: Option<String>)
    ensures
        optional_text(error) == regex_error(pattern@, usize::BITS as nat),
{
    match regex::Regex::new(pattern) {
        Ok(_) => None,
        Err(error) => Some(error.to_string()),
    }
}

/// What is wrong with a pattern on this machine.
pub open spec fn pattern_error(pattern: Seq<char>) -> Option<Seq<char>> {
    regex_error(pattern, usize::BITS as nat)
}

// ---------------------------------------------------------------------------
// Mapping rules
// ---------------------------------------------------------------------------

/// How an error about the mapping rule at `position` begins.
pub open spec fn mapping_rule_label(position: nat) -> Seq<char> {
    "auto model mapping rule "@ + numeral(position)
}

/// The model type of a rule: trimmed, in lower case, and `chat` where none is
/// given.
pub open spec fn rule_model_type(model_type: Option<String>) -> Seq<char> {
    match model_type {
        Some(given) => lowered(trimmed(given@)),
        None => lowered(trimmed("chat"@)),
    }
}

/// What is wrong with the mapping rule at `position`, given what is wrong with
/// its trimmed pattern.
pub open spec fn mapping_rule_error(
    rule: AutoModelMappingRuleInput,
    position: nat,
    pattern_error: Option<Seq<char>>,
) -> Option<Seq<char>> {
    if trimmed(rule.pattern@).len() == 0 || trimmed(rule.public_model_id_template@).len() == 0 {
        Some(mapping_rule_label(position) + " requires pattern and publicModelIDTemplate"@)
    } else if pattern_error is Some {
        Some(mapping_rule_label(position) + " has invalid regex: "@ + pattern_error->0)
    } else if !listed(MODEL_TYPES@, rule_model_type(rule.model_type)) {
        Some(mapping_rule_label(position) + " has unsupported model type"@)
    } else {
        None
    }
}

/// `new` is `rule` with its pattern and template trimmed.
pub open spec fn mapping_rule_trimmed(
    rule: AutoModelMappingRuleInput,
    new: AutoModelMappingRuleInput,
) -> bool {
    &&& new.pattern@ == trimmed(rule.pattern@)
    &&& new.public_model_id_template@ == trimmed(rule.public_model_id_template@)
    &&& new.create_draft == rule.create_draft
    &&& new.developer_template == rule.developer_template
    &&& new.name_template == rule.name_template
    &&& new.group_template == rule.group_template
}

/// `new` is what becomes of `rule`: trimmed, and with its model type normalised
/// where the rule is in order.
pub open spec fn mapping_rule_after(
    rule: AutoModelMappingRuleInput,
    new: AutoModelMappingRuleInput,
    error: Option<Seq<char>>,
) -> bool {
    &&& mapping_rule_trimmed(rule, new)
    &&& if error is Some {
        new.model_type == rule.model_type
    } else {
        optional_text(new.model_type) == Some(rule_model_type(rule.model_type))
    }
}

fn mapping_rule_message(position: usize, rest: &str) -> (message: String)
    ensures
        message@ == mapping_rule_label(position as nat) + rest@,
{
    let label = joined("auto model mapping rule ", number_text(position).as_str());
    joined(label.as_str(), rest)
}

/// Trims a mapping rule and checks it, given what is wrong with its trimmed
/// pattern. The model type is normalised where the rule is in order.
pub fn apply_mapping_rule(
    rule: &mut AutoModelMappingRuleInput,
    position: usize,
    pattern_error: Option<String>,
) -> (checked: Result<(), String>)
    ensures
        ({
            let error = mapping_rule_error(
                *old(rule),
                position as nat,
                optional_text(pattern_error),
            );
            &&& checked is Ok <==> error is None
            &&& checked matches Err(message) ==> Some(message@) == error
            &&& mapping_rule_after(*old(rule), *final(rule), error)
        }),
{
    rule.pattern = trim(rule.pattern.as_str());
    rule.public_model_id_template = trim(rule.public_model_id_template.as_str());
    if rule.pattern.as_str().is_empty() || rule.public_model_id_template.as_str().is_empty() {
        return Err(
            mapping_rule_message(position, " requires pattern and publicModelIDTemplate"),
        );
    }
    if let Some(error) = pattern_error {
        let message = mapping_rule_message(position, " has invalid regex: ");
        return Err(joined(message.as_str(), error.as_str()));
    }
    let model_type = match &rule.model_type {
        Some(given) => to_lower(trim(given.as_str()).as_str()),
        None => to_lower(trim("chat").as_str()),
    };
    if !is_listed(MODEL_TYPES, model_type.as_str()) {
        return Err(mapping_rule_message(position, " has unsupported model type"));
    }
    rule.model_type = Some(model_type);
    Ok(())
}

/// What is wrong with rule `i` of a list, on this machine.
pub open spec fn mapping_error_at(
    rules: Seq<AutoModelMappingRuleInput>,
    i: int,
) -> Option<Seq<char>> {
    mapping_rule_error(rules[i], (i + 1) as nat, pattern_error(trimmed(rules[i].pattern@)))
}

/// The first mapping rule, from `from` on, that is not in order; the length of
/// the list where all are.
pub open spec fn first_bad_mapping(rules: Seq<AutoModelMappingRuleInput>, from: int) -> int
    decreases rules.len() - from,
{
    if 0 <= from < rules.len() && mapping_error_at(rules, from) is None {
        first_bad_mapping(rules, from + 1)
    } else {
        from
    }
}

/// What becomes of a list of mapping rules: all up to the first bad one are
/// normalised, that one is trimmed, the rest stands.
pub open spec fn mapping_rules_after(
    rules: Seq<AutoModelMappingRuleInput>,
    new: Seq<AutoModelMappingRuleInput>,
) -> bool {
    let bad = first_bad_mapping(rules, 0);
    &&& new.len() == rules.len()
    &&& forall|i: int|
        0 <= i < rules.len() && i <= bad ==> mapping_rule_after(
            rules[i],
            #[trigger] new[i],
            mapping_error_at(rules, i),
        )
    &&& forall|i: int| bad < i < rules.len() ==> #[trigger] new[i] == rules[i]
}

/// The first `n` rules of `now` are those of `rules`, found in order and
/// normalised; the rest stands.
spec fn mapped_so_far(
    rules: Seq<AutoModelMappingRuleInput>,
    now: Seq<AutoModelMappingRuleInput>,
    n: int,
) -> bool {
    &&& now.len() == rules.len()
    &&& forall|j: int|
        0 <= j < n ==> mapping_rule_after(rules[j], #[trigger] now[j], None)
    &&& forall|j: int| 0 <= j < n ==> #[trigger] mapping_error_at(rules, j) is None
    &&& forall|j: int| n <= j < now.len() ==> #[trigger] now[j] == rules[j]
}

fn apply_mapping_rules(rules: &mut Vec<AutoModelMappingRuleInput>) -> (checked: Result<(), String>)
    ensures
        ({
            let before = old(rules)@;
            let bad = first_bad_mapping(before, 0);
            &&& 0 <= bad <= before.len()
            &&& checked is Ok <==> bad == before.len()
            &&& checked matches Err(message) ==> Some(message@) == mapping_error_at(before, bad)
            &&& mapping_rules_after(before, final(rules)@)
        }),
{
    let mut i: usize = 0;
    while i < rules.len()
        invariant
            i <= rules@.len(),
            first_bad_mapping(old(rules)@, 0) == first_bad_mapping(old(rules)@, i as int),
            mapped_so_far(old(rules)@, rules@, i as int),
        decreases rules@.len() - i,
    {
        let pattern = trim(rules[i].pattern.as_str());
        let template = trim(rules[i].public_model_id_template.as_str());
        let error = if pattern.as_str().is_empty() || template.as_str().is_empty() {
            None
        } else {
            compile_pattern(pattern.as_str())
        };
        let ghost before = rules@;
        let ghost found = optional_text(error);
        let checked = apply_mapping_rule(&mut rules[i], i + 1, error);
        assert(rules@ =~= before.update(i as int, rules@[i as int]));
        assert(mapping_rule_error(before[i as int], (i + 1) as nat, found) == mapping_error_at(
            old(rules)@,
            i as int,
        ));
        if checked.is_err() {
            return checked;
        }
        i += 1;
    }
    Ok(())
}

// ---------------------------------------------------------------------------
// Rewrite rules
// ---------------------------------------------------------------------------

/// How an error about the rewrite rule at `position` begins.
pub open spec fn rewrite_rule_label(position: nat) -> Seq<char> {
    "error response rewrite rule "@ + numeral(position)
}

/// A status that a rewrite rule may match or send: a client or server error.
pub open spec fn is_error_status(status: i64) -> bool {
    400 <= status <= 599
}

/// Whether every status of a rule is an error status.
pub open spec fn statuses_in_range(rule: ErrorResponseRewriteRuleInput) -> bool {
    &&& rule.status_codes matches Some(codes) ==> forall|i: int|
        0 <= i < codes@.len() ==> is_error_status(#[trigger] codes@[i])
    &&& rule.http_status matches Some(status) ==> is_error_status(status)
}

/// Whether a rule changes anything.
pub open spec fn rewrites_something(rule: ErrorResponseRewriteRuleInput) -> bool {
    rule.http_status is Some || rule.message is Some || rule.error_type is Some || rule.code is Some
        || rule.body is Some
}

/// The trimmed pattern of a rule, where it has one that is not empty.
pub open spec fn rewrite_pattern(rule: ErrorResponseRewriteRuleInput) -> Option<Seq<char>> {
    match rule.body_pattern {
        Some(pattern) => if trimmed(pattern@).len() == 0 {
            None
        } else {
            Some(trimmed(pattern@))
        },
        None => None,
    }
}

/// What is wrong with the rewrite rule at `position`, given what is wrong with
/// its pattern.
pub open spec fn rewrite_rule_error(
    rule: ErrorResponseRewriteRuleInput,
    position: nat,
    pattern_error: Option<Seq<char>>,
) -> Option<Seq<char>> {
    if !statuses_in_range(rule) {
        Some(rewrite_rule_label(position) + " uses a status outside 400..599"@)
    } else if rewrite_pattern(rule) is Some && pattern_error is Some {
        Some(rewrite_rule_label(position) + " has invalid regex: "@ + pattern_error->0)
    } else if !rewrites_something(rule) {
        Some(rewrite_rule_label(position) + " has no rewrite fields"@)
    } else {
        None
    }
}

/// `new` is what becomes of `rule`: with its pattern trimmed, unless a status
/// stopped it first.
pub open spec fn rewrite_rule_after(
    rule: ErrorResponseRewriteRuleInput,
    new: ErrorResponseRewriteRuleInput,
) -> bool {
    &&& new.status_codes == rule.status_codes
    &&& new.http_status == rule.http_status
    &&& new.message == rule.message
    &&& new.error_type == rule.error_type
    &&& new.code == rule.code
    &&& new.body == rule.body
    &&& if statuses_in_range(rule) && rule.body_pattern is Some {
        optional_text(new.body_pattern) == Some(trimmed(rule.body_pattern->0@))
    } else {
        new.body_pattern == rule.body_pattern
    }
}

fn statuses_are_in_range(rule: &ErrorResponseRewriteRuleInput) -> (fine: bool)
    ensures
        fine == statuses_in_range(*rule),
{
    if let Some(codes) = &rule.status_codes {
        let mut i: usize = 0;
        while i < codes.len()
            invariant
                i <= codes@.len(),
                forall|j: int| 0 <= j < i ==> is_error_status(#[trigger] codes@[j]),
                rule.status_codes == Some(*codes),
            decreases codes@.len() - i,
        {
            if codes[i] < 400 || codes[i] > 599 {
                assert(!is_error_status(rule.status_codes->0@[i as int]));
                return false;
            }
            i += 1;
        }
    }
    match rule.http_status {
        Some(status) => 400 <= status && status <= 599,
        None => true,
    }
}

fn rewrite_rule_message(position: usize, rest: &str) -> (message: String)
    ensures
        message@ == rewrite_rule_label(position as nat) + rest@,
{
    let label = joined("error response rewrite rule ", number_text(position).as_str());
    joined(label.as_str(), rest)
}

/// Checks a rewrite rule and trims its pattern, given what is wrong with the
/// trimmed pattern.
pub fn apply_rewrite_rule(
    rule: &mut ErrorResponseRewriteRuleInput,
    position: usize,
    pattern_error: Option<String>,
) -> (checked: Result<(), String>)
    ensures
        ({
            let error = rewrite_rule_error(
                *old(rule),
                position as nat,
                optional_text(pattern_error),
            );
            &&& checked is Ok <==> error is None
            &&& checked matches Err(message) ==> Some(message@) == error
            &&& rewrite_rule_after(*old(rule), *final(rule))
        }),
{
    if !statuses_are_in_range(rule) {
        return Err(rewrite_rule_message(position, " uses a status outside 400..599"));
    }
    let body_pattern = match &rule.body_pattern {
        Some(pattern) => Some(trim(pattern.as_str())),
        None => None,
    };
    if let Some(pattern) = body_pattern {
        let empty = pattern.as_str().is_empty();
        rule.body_pattern = Some(pattern);
        if !empty {
            if let Some(error) = pattern_error {
                let message = rewrite_rule_message(position, " has invalid regex: ");
                return Err(joined(message.as_str(), error.as_str()));
            }
        }
    }
    if rule.http_status.is_none() && rule.message.is_none() && rule.error_type.is_none()
        && rule.code.is_none() && rule.body.is_none() {
        return Err(rewrite_rule_message(position, " has no rewrite fields"));
    }
    Ok(())
}

/// What is wrong with rule `i` of a list, on this machine.
pub open spec fn rewrite_error_at(
    rules: Seq<ErrorResponseRewriteRuleInput>,
    i: int,
) -> Option<Seq<char>> {
    rewrite_rule_error(
        rules[i],
        (i + 1) as nat,
        match rewrite_pattern(rules[i]) {
            Some(pattern) => pattern_error(pattern),
            None => None,
        },
    )
}

/// The first rewrite rule, from `from` on, that is not in order; the length of
/// the list where all are.
pub open spec fn first_bad_rewrite(rules: Seq<ErrorResponseRewriteRuleInput>, from: int) -> int
    decreases rules.len() - from,
{
    if 0 <= from < rules.len() && rewrite_error_at(rules, from) is None {
        first_bad_rewrite(rules, from + 1)
    } else {
        from
    }
}

/// What becomes of a list of rewrite rules: all up to and including the first
/// bad one are applied, the rest stands.
pub open spec fn rewrite_rules_after(
    rules: Seq<ErrorResponseRewriteRuleInput>,
    new: Seq<ErrorResponseRewriteRuleInput>,
) -> bool {
    let bad = first_bad_rewrite(rules, 0);
    &&& new.len() == rules.len()
    &&& forall|i: int|
        0 <= i < rules.len() && i <= bad ==> rewrite_rule_after(rules[i], #[trigger] new[i])
    &&& forall|i: int| bad < i < rules.len() ==> #[trigger] new[i] == rules[i]
}

/// The first `n` rules of `now` are those of `rules`, found in order and
/// applied; the rest stands.
spec fn rewritten_so_far(
    rules: Seq<ErrorResponseRewriteRuleInput>,
    now: Seq<ErrorResponseRewriteRuleInput>,
    n: int,
) -> bool {
    &&& now.len() == rules.len()
    &&& forall|j: int| 0 <= j < n ==> rewrite_rule_after(rules[j], #[trigger] now[j])
    &&& forall|j: int| 0 <= j < n ==> #[trigger] rewrite_error_at(rules, j) is None
    &&& forall|j: int| n <= j < now.len() ==> #[trigger] now[j] == rules[j]
}

fn apply_rewrite_rules(rules: &mut Vec<ErrorResponseRewriteRuleInput>) -> (checked: Result<
    (),
    String,
>)
    ensures
        ({
            let before = old(rules)@;
            let bad = first_bad_rewrite(before, 0);
            &&& 0 <= bad <= before.len()
            &&& checked is Ok <==> bad == before.len()
            &&& checked matches Err(message) ==> Some(message@) == rewrite_error_at(before, bad)
            &&& rewrite_rules_after(before, final(rules)@)
        }),
{
    let mut i: usize = 0;
    while i < rules.len()
        invariant
            i <= rules@.len(),
            first_bad_rewrite(old(rules)@, 0) == first_bad_rewrite(old(rules)@, i as int),
            rewritten_so_far(old(rules)@, rules@, i as int),
        decreases rules@.len() - i,
    {
        let mut error: Option<String> = None;
        if let Some(given) = &rules[i].body_pattern {
            let pattern = trim(given.as_str());
            if !pattern.as_str().is_empty() {
                error = compile_pattern(pattern.as_str());
            }
        }
        let ghost before = rules@;
        let ghost found = optional_text(error);
        let checked = apply_rewrite_rule(&mut rules[i], i + 1, error);
        assert(rules@ =~= before.update(i as int, rules@[i as int]));
        assert(rewrite_rule_error(before[i as int], (i + 1) as nat, found) == rewrite_error_at(
            old(rules)@,
            i as int,
        ));
        if checked.is_err() {
            return checked;
        }
        i += 1;
    }
    Ok(())
}

// ---------------------------------------------------------------------------
// The settings
// ---------------------------------------------------------------------------

impl ChannelSettingsInput {
    /// What the recharge-metadata rules are asked about: the currency and the
    /// multiplier.
    pub fn billing_metadata(&self) -> (asked: (Option<String>, Option<DecimalInputScalar>))
        ensures
            optional_text(asked.0) == optional_text(self.billing_currency),
            asked.1 == self.recharge_multiplier,
    {
        let currency = match &self.billing_currency {
            Some(currency) => Some(currency.clone()),
            None => None,
        };
        (currency, self.recharge_multiplier)
    }
}

/// The mapping rules of the settings, none where the list is absent.
pub open spec fn mapping_rules(settings: ChannelSettingsInput) -> Seq<AutoModelMappingRuleInput> {
    match settings.auto_model_mapping_rules {
        Some(rules) => rules@,
        None => Seq::empty(),
    }
}

/// The rewrite rules of the settings, none where the list is absent.
pub open spec fn rewrite_rules(settings: ChannelSettingsInput) -> Seq<
    ErrorResponseRewriteRuleInput,
> {
    match settings.error_response_rewrite_rules {
        Some(rules) => rules@,
        None => Seq::empty(),
    }
}

/// What is wrong with the settings, given the answer of the recharge-metadata
/// rules: their objection first, then the first bad mapping rule, then the first
/// bad rewrite rule.
pub open spec fn settings_error(
    settings: ChannelSettingsInput,
    billing: Result<Option<String>, String>,
) -> Option<Seq<char>> {
    let mappings = mapping_rules(settings);
    let rewrites = rewrite_rules(settings);
    let bad_mapping = first_bad_mapping(mappings, 0);
    let bad_rewrite = first_bad_rewrite(rewrites, 0);
    match billing {
        Err(objection) => Some(objection@),
        Ok(_) => if bad_mapping < mappings.len() {
            mapping_error_at(mappings, bad_mapping)
        } else if bad_rewrite < rewrites.len() {
            rewrite_error_at(rewrites, bad_rewrite)
        } else {
            None
        },
    }
}

/// Everything but the currency and the two lists of rules stands.
pub open spec fn other_settings_stand(
    settings: ChannelSettingsInput,
    new: ChannelSettingsInput,
) -> bool {
    &&& new.management_adapter == settings.management_adapter
    &&& new.recharge_multiplier == settings.recharge_multiplier
    &&& new.extra_model_prefix == settings.extra_model_prefix
    &&& new.model_mappings == settings.model_mappings
    &&& new.auto_trimed_model_prefixes == settings.auto_trimed_model_prefixes
    &&& new.hide_original_models == settings.hide_original_models
    &&& new.hide_mapped_models == settings.hide_mapped_models
    &&& new.lowercase_model_id == settings.lowercase_model_id
    &&& new.proxy == settings.proxy
    &&& new.transform_options == settings.transform_options
    &&& new.header_override_operations == settings.header_override_operations
    &&& new.body_override_operations == settings.body_override_operations
    &&& new.pass_through_user_agent == settings.pass_through_user_agent
    &&& new.pass_through_body == settings.pass_through_body
    &&& new.rate_limit == settings.rate_limit
    &&& new.retryable_status_codes == settings.retryable_status_codes
    &&& new.retryable_error_patterns == settings.retryable_error_patterns
}

/// What becomes of the settings. A currency objection changes nothing; after it
/// the currency is the normalised one, the mapping rules are applied, and, where
/// they are all in order, so are the rewrite rules.
pub open spec fn settings_after(
    settings: ChannelSettingsInput,
    billing: Result<Option<String>, String>,
    new: ChannelSettingsInput,
) -> bool {
    let mappings = mapping_rules(settings);
    match billing {
        Err(_) => new == settings,
        Ok(currency) => {
            &&& other_settings_stand(settings, new)
            &&& new.billing_currency == currency
            &&& new.auto_model_mapping_rules is Some <==> settings.auto_model_mapping_rules is Some
            &&& mapping_rules_after(mappings, mapping_rules(new))
            &&& if first_bad_mapping(mappings, 0) < mappings.len() {
                new.error_response_rewrite_rules == settings.error_response_rewrite_rules
            } else {
                &&& new.error_response_rewrite_rules is Some
                    <==> settings.error_response_rewrite_rules is Some
                &&& rewrite_rules_after(rewrite_rules(settings), rewrite_rules(new))
            }
        },
    }
}

/// Applies the channel rules to a settings object. `billing` is the answer of
/// the recharge-metadata rules about the currency and multiplier in it: the
/// currency to store, or an objection.
pub fn validate_and_normalize_channel_settings_input(
    settings: Option<&mut ChannelSettingsInput>,
    billing: Result<Option<String>, String>,
) -> (checked: Result<(), String>)
    ensures
        settings is None ==> checked is Ok,
        settings is Some ==> {
            let error = settings_error(*settings->0, billing);
            &&& checked is Ok <==> error is None
            &&& checked matches Err(message) ==> Some(message@) == error
            &&& settings_after(*settings->0, billing, *final(settings->0))
        },
{
    match settings {
        None => Ok(()),
        Some(settings) => {
            match billing {
                Err(objection) => {
                    return Err(objection);
                },
                Ok(currency) => {
                    settings.billing_currency = currency;
                },
            }
            if let Some(rules) = &mut settings.auto_model_mapping_rules {
                let checked = apply_mapping_rules(rules);
                if checked.is_err() {
                    return checked;
                }
            }
            if let Some(rules) = &mut settings.error_response_rewrite_rules {
                let checked = apply_rewrite_rules(rules);
                if checked.is_err() {
                    return checked;
                }
            }
            Ok(())
        },
    }
}

// ---------------------------------------------------------------------------
// Laws
// ---------------------------------------------------------------------------

proof fn mappings_in_order(rules: Seq<AutoModelMappingRuleInput>, from: int)
    requires
        0 <= from <= rules.len(),
    ensures
        from <= first_bad_mapping(rules, from) <= rules.len(),
        first_bad_mapping(rules, from) < rules.len() ==> mapping_error_at(
            rules,
            first_bad_mapping(rules, from),
        ) is Some,
        first_bad_mapping(rules, from) == rules.len() <==> forall|i: int|
            from <= i < rules.len() ==> #[trigger] mapping_error_at(rules, i) is None,
    decreases rules.len() - from,
{
    if from < rules.len() && mapping_error_at(rules, from) is None {
        mappings_in_order(rules, from + 1);
    }
}

proof fn rewrites_in_order(rules: Seq<ErrorResponseRewriteRuleInput>, from: int)
    requires
        0 <= from <= rules.len(),
    ensures
        from <= first_bad_rewrite(rules, from) <= rules.len(),
        first_bad_rewrite(rules, from) < rules.len() ==> rewrite_error_at(
            rules,
            first_bad_rewrite(rules, from),
        ) is Some,
        first_bad_rewrite(rules, from) == rules.len() <==> forall|i: int|
            from <= i < rules.len() ==> #[trigger] rewrite_error_at(rules, i) is None,
    decreases rules.len() - from,
{
    if from < rules.len() && rewrite_error_at(rules, from) is None {
        rewrites_in_order(rules, from + 1);
    }
}

/// Settings are accepted exactly where the recharge-metadata rules accept them
/// and every rule in them is in order.
pub proof fn settings_are_accepted_iff_all_rules_are(
    settings: ChannelSettingsInput,
    billing: Result<Option<String>, String>,
)
    ensures
        settings_error(settings, billing) is None <==> {
            &&& billing is Ok
            &&& forall|i: int|
                0 <= i < mapping_rules(settings).len() ==> #[trigger] mapping_error_at(
                    mapping_rules(settings),
                    i,
                ) is None
            &&& forall|i: int|
                0 <= i < rewrite_rules(settings).len() ==> #[trigger] rewrite_error_at(
                    rewrite_rules(settings),
                    i,
                ) is None
        },
{
    mappings_in_order(mapping_rules(settings), 0);
    rewrites_in_order(rewrite_rules(settings), 0);
}

/// Accepted settings are in normal form: each mapping rule has a trimmed pattern
/// and template that are not empty, a pattern that compiles, and one of the
/// known model types.
pub proof fn accepted_mapping_rules_are_normal(
    settings: ChannelSettingsInput,
    billing: Result<Option<String>, String>,
    new: ChannelSettingsInput,
    i: int,
)
    requires
        settings_error(settings, billing) is None,
        settings_after(settings, billing, new),
        0 <= i < mapping_rules(settings).len(),
    ensures
        mapping_rules(new).len() == mapping_rules(settings).len(),
        ({
            let rule = mapping_rules(new)[i];
            &&& rule.pattern@.len() > 0
            &&& trimmed(rule.pattern@) == rule.pattern@
            &&& pattern_error(rule.pattern@) is None
            &&& rule.public_model_id_template@.len() > 0
            &&& trimmed(rule.public_model_id_template@) == rule.public_model_id_template@
            &&& rule.model_type is Some
            &&& listed(MODEL_TYPES@, rule.model_type->0@)
        }),
{
    settings_are_accepted_iff_all_rules_are(settings, billing);
    let before = mapping_rules(settings);
    mappings_in_order(before, 0);
    assert(mapping_error_at(before, i) is None);
    assert(mapping_rule_after(before[i], mapping_rules(new)[i], mapping_error_at(before, i)));
    crate::text::trim_is_idempotent(before[i].pattern@);
    crate::text::trim_is_idempotent(before[i].public_model_id_template@);
}

/// What was accepted once is accepted again: the rules find nothing wrong with
/// the settings that they have normalised.
pub proof fn accepted_settings_stay_accepted(
    settings: ChannelSettingsInput,
    billing: Result<Option<String>, String>,
    new: ChannelSettingsInput,
    again: Result<Option<String>, String>,
)
    requires
        settings_error(settings, billing) is None,
        settings_after(settings, billing, new),
        again is Ok,
    ensures
        settings_error(new, again) is None,
{
    settings_are_accepted_iff_all_rules_are(settings, billing);
    settings_are_accepted_iff_all_rules_are(new, again);
    let before = mapping_rules(settings);
    let after = mapping_rules(new);
    mappings_in_order(before, 0);
    rewrites_in_order(rewrite_rules(settings), 0);
    assert forall|i: int| 0 <= i < after.len() implies #[trigger] mapping_error_at(after, i) is None by {
        assert(mapping_error_at(before, i) is None);
        assert(mapping_rule_after(before[i], after[i], mapping_error_at(before, i)));
        crate::text::trim_is_idempotent(before[i].pattern@);
        crate::text::trim_is_idempotent(before[i].public_model_id_template@);
        let given = match before[i].model_type {
            Some(text) => text@,
            None => "chat"@,
        };
        crate::text::trim_and_lower_commute(trimmed(given));
        crate::text::trim_is_idempotent(given);
        crate::text::lower_is_idempotent(trimmed(given));
    }
    let old_rewrites = rewrite_rules(settings);
    let rewrites = rewrite_rules(new);
    assert forall|i: int| 0 <= i < rewrites.len() implies #[trigger] rewrite_error_at(
        rewrites,
        i,
    ) is None by {
        assert(rewrite_error_at(old_rewrites, i) is None);
        assert(rewrite_rule_after(old_rewrites[i], rewrites[i]));
        if old_rewrites[i].body_pattern is Some {
            crate::text::trim_is_idempotent(old_rewrites[i].body_pattern->0@);
        }
    }
}

/// Whether two mapping rules read the same.
pub open spec fn same_mapping_rule(
    a: AutoModelMappingRuleInput,
    b: AutoModelMappingRuleInput,
) -> bool {
    &&& a.pattern@ == b.pattern@
    &&& a.public_model_id_template@ == b.public_model_id_template@
    &&& a.create_draft == b.create_draft
    &&& a.developer_template == b.developer_template
    &&& a.name_template == b.name_template
    &&& a.group_template == b.group_template
    &&& optional_text(a.model_type) == optional_text(b.model_type)
}

/// Whether two rewrite rules read the same.
pub open spec fn same_rewrite_rule(
    a: ErrorResponseRewriteRuleInput,
    b: ErrorResponseRewriteRuleInput,
) -> bool {
    &&& a.status_codes == b.status_codes
    &&& optional_text(a.body_pattern) == optional_text(b.body_pattern)
    &&& a.http_status == b.http_status
    &&& a.message == b.message
    &&& a.error_type == b.error_type
    &&& a.code == b.code
    &&& a.body == b.body
}

/// Whether two settings read the same.
pub open spec fn same_settings_input(a: ChannelSettingsInput, b: ChannelSettingsInput) -> bool {
    &&& other_settings_stand(a, b)
    &&& optional_text(a.billing_currency) == optional_text(b.billing_currency)
    &&& a.auto_model_mapping_rules is Some <==> b.auto_model_mapping_rules is Some
    &&& mapping_rules(a).len() == mapping_rules(b).len()
    &&& forall|i: int|
        0 <= i < mapping_rules(a).len() ==> same_mapping_rule(
            #[trigger] mapping_rules(a)[i],
            mapping_rules(b)[i],
        )
    &&& a.error_response_rewrite_rules is Some <==> b.error_response_rewrite_rules is Some
    &&& rewrite_rules(a).len() == rewrite_rules(b).len()
    &&& forall|i: int|
        0 <= i < rewrite_rules(a).len() ==> same_rewrite_rule(
            #[trigger] rewrite_rules(a)[i],
            rewrite_rules(b)[i],
        )
}

/// Validating accepted settings once more, with their currency confirmed, accepts
/// them and leaves them as they are.
pub proof fn second_validation_changes_nothing(
    settings: ChannelSettingsInput,
    billing: Result<Option<String>, String>,
    new: ChannelSettingsInput,
    again: Result<Option<String>, String>,
    last: ChannelSettingsInput,
)
    requires
        settings_error(settings, billing) is None,
        settings_after(settings, billing, new),
        again matches Ok(currency) && optional_text(currency) == optional_text(
            new.billing_currency,
        ),
        settings_after(new, again, last),
    ensures
        settings_error(new, again) is None,
        same_settings_input(new, last),
{
    accepted_settings_stay_accepted(settings, billing, new, again);
    settings_are_accepted_iff_all_rules_are(settings, billing);
    settings_are_accepted_iff_all_rules_are(new, again);
    let before = mapping_rules(settings);
    let after = mapping_rules(new);
    mappings_in_order(before, 0);
    mappings_in_order(after, 0);
    assert forall|i: int| 0 <= i < after.len() implies same_mapping_rule(
        #[trigger] after[i],
        mapping_rules(last)[i],
    ) by {
        assert(mapping_error_at(before, i) is None);
        assert(mapping_error_at(after, i) is None);
        assert(mapping_rule_after(before[i], after[i], mapping_error_at(before, i)));
        assert(mapping_rule_after(
            after[i],
            mapping_rules(last)[i],
            mapping_error_at(after, i),
        ));
        crate::text::trim_is_idempotent(before[i].pattern@);
        crate::text::trim_is_idempotent(before[i].public_model_id_template@);
        let given = match before[i].model_type {
            Some(text) => text@,
            None => "chat"@,
        };
        crate::text::trim_and_lower_commute(trimmed(given));
        crate::text::trim_is_idempotent(given);
        crate::text::lower_is_idempotent(trimmed(given));
    }
    let old_rewrites = rewrite_rules(settings);
    let rewrites = rewrite_rules(new);
    rewrites_in_order(old_rewrites, 0);
    rewrites_in_order(rewrites, 0);
    assert forall|i: int| 0 <= i < rewrites.len() implies same_rewrite_rule(
        #[trigger] rewrites[i],
        rewrite_rules(last)[i],
    ) by {
        assert(rewrite_error_at(old_rewrites, i) is None);
        assert(rewrite_error_at(rewrites, i) is None);
        assert(rewrite_rule_after(old_rewrites[i], rewrites[i]));
        assert(rewrite_rule_after(rewrites[i], rewrite_rules(last)[i]));
        if old_rewrites[i].body_pattern is Some {
            crate::text::trim_is_idempotent(old_rewrites[i].body_pattern->0@);
        }
    }
}

// ---------------------------------------------------------------------------
// What is wrong with one rule
// ---------------------------------------------------------------------------

/// Whether a mapping rule can create a model type: one of five, white space and ASCII
/// case aside; without one it is `chat`.
pub open spec fn creates_known_type(model_type: Option<String>) -> bool {
    match model_type {
        Some(given) => {
            ||| lowered(trimmed(given@)) == "chat"@
            ||| lowered(trimmed(given@)) == "embedding"@
            ||| lowered(trimmed(given@)) == "rerank"@
            ||| lowered(trimmed(given@)) == "image_generation"@
            ||| lowered(trimmed(given@)) == "video_generation"@
        },
        None => true,
    }
}

proof fn chat_is_plain()
    ensures
        lowered(trimmed("chat"@)) == "chat"@,
{
    reveal_strlit("chat");
    let s = "chat"@;
    assert(s[0] == 'c' && s[1] == 'h' && s[2] == 'a' && s[3] == 't');
    assert forall|i: int| 0 <= i < s.len() implies !crate::text::is_white_space(
        #[trigger] s[i],
    ) by {
        assert(i == 0 || i == 1 || i == 2 || i == 3);
    }
    crate::text::trim_keeps_text_without_white_space(s);
    assert(lowered(s) =~= s);
}

/// What is wrong with a mapping rule: an empty pattern or template first, then a pattern
/// that does not compile, then an unknown model type. Each message names the rule's
/// position.
pub proof fn mapping_rules_are_checked_in_order(
    rule: AutoModelMappingRuleInput,
    position: nat,
    objection: Option<Seq<char>>,
)
    ensures
        ({
            let error = mapping_rule_error(rule, position, objection);
            let label = "auto model mapping rule "@ + numeral(position);
            let empty = trimmed(rule.pattern@).len() == 0 || trimmed(
                rule.public_model_id_template@,
            ).len() == 0;
            &&& empty ==> error == Some(label + " requires pattern and publicModelIDTemplate"@)
            &&& !empty && objection is Some ==> error == Some(
                label + " has invalid regex: "@ + objection->0,
            )
            &&& !empty && objection is None && !creates_known_type(rule.model_type) ==> error
                == Some(label + " has unsupported model type"@)
            &&& !empty && objection is None && creates_known_type(rule.model_type) ==> error
                is None
        }),
{
    chat_is_plain();
    let types = MODEL_TYPES@;
    assert(types[0]@ == "chat"@);
    assert(types[1]@ == "embedding"@);
    assert(types[2]@ == "rerank"@);
    assert(types[3]@ == "image_generation"@);
    assert(types[4]@ == "video_generation"@);
    let wanted = rule_model_type(rule.model_type);
    if listed(types, wanted) {
        let i = choose|i: int| 0 <= i < types.len() && (#[trigger] types[i])@ == wanted;
        assert(i == 0 || i == 1 || i == 2 || i == 3 || i == 4);
    }
}

/// What becomes of a mapping rule: its pattern and template are trimmed, its model type is
/// normalised where the rule is in order, and the rest stands.
pub proof fn mapping_rules_keep_their_other_parts(
    rule: AutoModelMappingRuleInput,
    new: AutoModelMappingRuleInput,
    error: Option<Seq<char>>,
)
    requires
        mapping_rule_after(rule, new, error),
    ensures
        new.pattern@ == trimmed(rule.pattern@),
        new.public_model_id_template@ == trimmed(rule.public_model_id_template@),
        new.create_draft == rule.create_draft,
        new.developer_template == rule.developer_template,
        new.name_template == rule.name_template,
        new.group_template == rule.group_template,
        error is Some ==> new.model_type == rule.model_type,
        error is None ==> new.model_type is Some,
        error is None && rule.model_type is None ==> new.model_type->0@ == "chat"@,
        error is None && rule.model_type is Some ==> new.model_type->0@ == lowered(
            trimmed(rule.model_type->0@),
        ),
{
    chat_is_plain();
}

/// What is wrong with a rewrite rule: a status that is no error first, then a pattern that
/// does not compile, then a rule that rewrites nothing. Each message names the rule's
/// position.
pub proof fn rewrite_rules_are_checked_in_order(
    rule: ErrorResponseRewriteRuleInput,
    position: nat,
    objection: Option<Seq<char>>,
)
    ensures
        ({
            let error = rewrite_rule_error(rule, position, objection);
            let label = "error response rewrite rule "@ + numeral(position);
            let outside = {
                ||| rule.status_codes is Some && exists|i: int|
                    0 <= i < rule.status_codes->0@.len() && !(400
                        <= #[trigger] rule.status_codes->0@[i] <= 599)
                ||| rule.http_status is Some && !(400 <= rule.http_status->0 <= 599)
            };
            let broken = rule.body_pattern is Some && trimmed(rule.body_pattern->0@).len() > 0
                && objection is Some;
            let idle = rule.http_status is None && rule.message is None && rule.error_type is None
                && rule.code is None && rule.body is None;
            &&& outside ==> error == Some(label + " uses a status outside 400..599"@)
            &&& !outside && broken ==> error == Some(
                label + " has invalid regex: "@ + objection->0,
            )
            &&& !outside && !broken && idle ==> error == Some(label + " has no rewrite fields"@)
            &&& !outside && !broken && !idle ==> error is None
        }),
{
    if rule.status_codes is Some {
        let codes = rule.status_codes->0@;
        if statuses_in_range(rule) {
            assert forall|i: int| 0 <= i < codes.len() implies 400 <= #[trigger] codes[i] <= 599 by {
                assert(is_error_status(codes[i]));
            }
        } else if !(exists|i: int| 0 <= i < codes.len() && !(400 <= #[trigger] codes[i] <= 599)) {
            assert forall|i: int| 0 <= i < codes.len() implies is_error_status(
                #[trigger] codes[i],
            ) by {}
        }
    }
}

/// What becomes of a rewrite rule: its pattern is trimmed, unless a status stopped it
/// first, and the rest stands.
pub proof fn rewrite_rules_keep_their_other_parts(
    rule: ErrorResponseRewriteRuleInput,
    new: ErrorResponseRewriteRuleInput,
)
    requires
        rewrite_rule_after(rule, new),
    ensures
        new.status_codes == rule.status_codes,
        new.http_status == rule.http_status,
        new.message == rule.message,
        new.error_type == rule.error_type,
        new.code == rule.code,
        new.body == rule.body,
        rule.body_pattern is None ==> new.body_pattern is None,
        rule.body_pattern is Some ==> new.body_pattern is Some,
        rule.body_pattern is Some && rule.status_codes is None && rule.http_status is None
            ==> new.body_pattern->0@ == trimmed(rule.body_pattern->0@),
        rule.body_pattern is Some && (rule.status_codes matches Some(codes) ==> forall|i: int|
            0 <= i < codes@.len() ==> 400 <= #[trigger] codes@[i] <= 599) && (
        rule.http_status matches Some(status) ==> 400 <= status <= 599) ==> new.body_pattern->0@
            == trimmed(rule.body_pattern->0@),
        rule.http_status is Some && !(400 <= rule.http_status->0 <= 599) ==> new.body_pattern
            == rule.body_pattern,
        rule.status_codes is Some && (exists|i: int|
            0 <= i < rule.status_codes->0@.len() && !(400 <= #[trigger] rule.status_codes->0@[i]
                <= 599)) ==> new.body_pattern == rule.body_pattern,
{
    if rule.status_codes is Some {
        let codes = rule.status_codes->0@;
        if forall|i: int| 0 <= i < codes.len() ==> 400 <= #[trigger] codes[i] <= 599 {
            assert forall|i: int| 0 <= i < codes.len() implies is_error_status(
                #[trigger] codes[i],
            ) by {}
        } else {
            let i = choose|i: int| 0 <= i < codes.len() && !(400 <= #[trigger] codes[i] <= 599);
            assert(!is_error_status(codes[i]));
        }
    }
}

/// The rules of a list are checked one after the other, each by its own position and
/// pattern: up to the first that is not in order they are normalised, and after it they
/// stand.
pub proof fn lists_of_mapping_rules_stop_at_the_first_fault(
    rules: Seq<AutoModelMappingRuleInput>,
    new: Seq<AutoModelMappingRuleInput>,
    i: int,
)
    requires
        mapping_rules_after(rules, new),
        0 <= i < rules.len(),
    ensures
        new.len() == rules.len(),
        mapping_error_at(rules, i) == mapping_rule_error(
            rules[i],
            (i + 1) as nat,
            regex_error(trimmed(rules[i].pattern@), usize::BITS as nat),
        ),
        (forall|j: int| 0 <= j < i ==> #[trigger] mapping_error_at(rules, j) is None)
            ==> mapping_rule_after(rules[i], new[i], mapping_error_at(rules, i)),
        (exists|j: int| 0 <= j < i && #[trigger] mapping_error_at(rules, j) is Some) ==> new[i]
            == rules[i],
{
    mappings_in_order(rules, 0);
    let bad = first_bad_mapping(rules, 0);
    mappings_before_the_first_fault(rules, 0);
    if forall|j: int| 0 <= j < i ==> #[trigger] mapping_error_at(rules, j) is None {
        if bad < i {
            assert(mapping_error_at(rules, bad) is None);
        }
    }
}

proof fn mappings_before_the_first_fault(rules: Seq<AutoModelMappingRuleInput>, from: int)
    requires
        0 <= from <= rules.len(),
    ensures
        forall|i: int|
            from <= i < first_bad_mapping(rules, from) ==> #[trigger] mapping_error_at(rules, i)
                is None,
    decreases rules.len() - from,
{
    if from < rules.len() && mapping_error_at(rules, from) is None {
        mappings_before_the_first_fault(rules, from + 1);
    }
}

proof fn rewrites_before_the_first_fault(rules: Seq<ErrorResponseRewriteRuleInput>, from: int)
    requires
        0 <= from <= rules.len(),
    ensures
        forall|i: int|
            from <= i < first_bad_rewrite(rules, from) ==> #[trigger] rewrite_error_at(rules, i)
                is None,
    decreases rules.len() - from,
{
    if from < rules.len() && rewrite_error_at(rules, from) is None {
        rewrites_before_the_first_fault(rules, from + 1);
    }
}

/// The same of rewrite rules.
pub proof fn lists_of_rewrite_rules_stop_at_the_first_fault(
    rules: Seq<ErrorResponseRewriteRuleInput>,
    new: Seq<ErrorResponseRewriteRuleInput>,
    i: int,
)
    requires
        rewrite_rules_after(rules, new),
        0 <= i < rules.len(),
    ensures
        new.len() == rules.len(),
        rules[i].body_pattern is Some && trimmed(rules[i].body_pattern->0@).len() > 0
            ==> rewrite_error_at(rules, i) == rewrite_rule_error(
            rules[i],
            (i + 1) as nat,
            regex_error(trimmed(rules[i].body_pattern->0@), usize::BITS as nat),
        ),
        rules[i].body_pattern is None || trimmed(rules[i].body_pattern->0@).len() == 0
            ==> rewrite_error_at(rules, i) == rewrite_rule_error(rules[i], (i + 1) as nat, None),
        (forall|j: int| 0 <= j < i ==> #[trigger] rewrite_error_at(rules, j) is None)
            ==> rewrite_rule_after(rules[i], new[i]),
        (exists|j: int| 0 <= j < i && #[trigger] rewrite_error_at(rules, j) is Some) ==> new[i]
            == rules[i],
{
    rewrites_in_order(rules, 0);
    let bad = first_bad_rewrite(rules, 0);
    rewrites_before_the_first_fault(rules, 0);
    if forall|j: int| 0 <= j < i ==> #[trigger] rewrite_error_at(rules, j) is None {
        if bad < i {
            assert(rewrite_error_at(rules, bad) is None);
        }
    }
}

/// What is reported of settings: an objection to the currency, else the first mapping rule
/// that is not in order, else the first such rewrite rule, else nothing.
pub proof fn settings_report_the_first_fault(
    settings: ChannelSettingsInput,
    billing: Result<Option<String>, String>,
    i: int,
)
    ensures
        billing matches Err(objection) ==> settings_error(settings, billing) == Some(objection@),
        billing is Ok && settings.auto_model_mapping_rules is Some ==> {
            let rules = settings.auto_model_mapping_rules->0@;
            0 <= i < rules.len() && mapping_error_at(rules, i) is Some && (forall|j: int|
                0 <= j < i ==> #[trigger] mapping_error_at(rules, j) is None) ==> settings_error(
                settings,
                billing,
            ) == mapping_error_at(rules, i)
        },
        billing is Ok && settings.error_response_rewrite_rules is Some && (
        settings.auto_model_mapping_rules matches Some(mappings) ==> forall|j: int|
            0 <= j < mappings@.len() ==> #[trigger] mapping_error_at(mappings@, j) is None) ==> {
            let rules = settings.error_response_rewrite_rules->0@;
            0 <= i < rules.len() && rewrite_error_at(rules, i) is Some && (forall|j: int|
                0 <= j < i ==> #[trigger] rewrite_error_at(rules, j) is None) ==> settings_error(
                settings,
                billing,
            ) == rewrite_error_at(rules, i)
        },
        billing is Ok && (settings.auto_model_mapping_rules matches Some(mappings) ==> forall|j: int|
            0 <= j < mappings@.len() ==> #[trigger] mapping_error_at(mappings@, j) is None) && (
        settings.error_response_rewrite_rules matches Some(rewrites) ==> forall|j: int|
            0 <= j < rewrites@.len() ==> #[trigger] rewrite_error_at(rewrites@, j) is None)
            ==> settings_error(settings, billing) is None,
{
    let mappings = mapping_rules(settings);
    let rewrites = rewrite_rules(settings);
    mappings_in_order(mappings, 0);
    mappings_before_the_first_fault(mappings, 0);
    rewrites_in_order(rewrites, 0);
    rewrites_before_the_first_fault(rewrites, 0);
    let bad_mapping = first_bad_mapping(mappings, 0);
    let bad_rewrite = first_bad_rewrite(rewrites, 0);
    if 0 <= i < mappings.len() && mapping_error_at(mappings, i) is Some && (forall|j: int|
        0 <= j < i ==> #[trigger] mapping_error_at(mappings, j) is None) {
        if bad_mapping < i {
            assert(mapping_error_at(mappings, bad_mapping) is None);
        }
        assert(bad_mapping == i);
    }
    if 0 <= i < rewrites.len() && rewrite_error_at(rewrites, i) is Some && (forall|j: int|
        0 <= j < i ==> #[trigger] rewrite_error_at(rewrites, j) is None) {
        if bad_rewrite < i {
            assert(rewrite_error_at(rewrites, bad_rewrite) is None);
        }
        assert(bad_rewrite == i);
    }
}

/// What becomes of settings: the currency is the one to store, the two lists of rules are
/// normalised as far as they are in order, and everything else stands. An objection to
/// the currency changes nothing.
pub proof fn settings_keep_their_other_parts(
    settings: ChannelSettingsInput,
    billing: Result<Option<String>, String>,
    new: ChannelSettingsInput,
)
    requires
        settings_after(settings, billing, new),
    ensures
        billing is Err ==> new == settings,
        billing matches Ok(currency) ==> new.billing_currency == currency,
        new.management_adapter == settings.management_adapter,
        new.recharge_multiplier == settings.recharge_multiplier,
        new.extra_model_prefix == settings.extra_model_prefix,
        new.model_mappings == settings.model_mappings,
        new.auto_trimed_model_prefixes == settings.auto_trimed_model_prefixes,
        new.hide_original_models == settings.hide_original_models,
        new.hide_mapped_models == settings.hide_mapped_models,
        new.lowercase_model_id == settings.lowercase_model_id,
        new.proxy == settings.proxy,
        new.transform_options == settings.transform_options,
        new.header_override_operations == settings.header_override_operations,
        new.body_override_operations == settings.body_override_operations,
        new.pass_through_user_agent == settings.pass_through_user_agent,
        new.pass_through_body == settings.pass_through_body,
        new.rate_limit == settings.rate_limit,
        new.retryable_status_codes == settings.retryable_status_codes,
        new.retryable_error_patterns == settings.retryable_error_patterns,
        new.auto_model_mapping_rules is Some <==> settings.auto_model_mapping_rules is Some,
        new.error_response_rewrite_rules is Some <==> settings.error_response_rewrite_rules is Some,
        billing is Ok && settings.auto_model_mapping_rules is Some ==> mapping_rules_after(
            settings.auto_model_mapping_rules->0@,
            new.auto_model_mapping_rules->0@,
        ),
        billing is Ok && settings.error_response_rewrite_rules is Some && (
        settings.auto_model_mapping_rules matches Some(mappings) ==> forall|j: int|
            0 <= j < mappings@.len() ==> #[trigger] mapping_error_at(mappings@, j) is None)
            ==> rewrite_rules_after(
            settings.error_response_rewrite_rules->0@,
            new.error_response_rewrite_rules->0@,
        ),
        settings.auto_model_mapping_rules matches Some(mappings) && (exists|j: int|
            0 <= j < mappings@.len() && #[trigger] mapping_error_at(mappings@, j) is Some)
            ==> new.error_response_rewrite_rules == settings.error_response_rewrite_rules,
{
    let mappings = mapping_rules(settings);
    mappings_in_order(mappings, 0);
}

} // verus!
