//! What is wrong with a channel, read from its last error and from the standing
//! of its provider account.
use vstd::prelude::*;

use crate::channel::{
    Channel, ChannelIssueCategory, ChannelIssueSeverity, ChannelOperationalIssue,
};
use crate::text::{chars_of, lowered, mentions, mentions_any, to_lower};

verus! {

// Each list holds the phrases that put an error message into one category.
pub const AUTH_PHRASES: [&'static str; 7] = [
    "unauthorized",
    "forbidden",
    "invalid api key",
    "invalid token",
    "authentication",
    "http 401",
    "http 403",
];

pub const QUOTA_PHRASES: [&'static str; 7] = [
    "insufficient quota",
    "quota exceeded",
    "quota exhausted",
    "insufficient balance",
    "credit balance",
    "额度不足",
    "余额不足",
];

pub const RATE_LIMIT_PHRASES: [&'static str; 3] = ["too many requests", "rate limit", "http 429"];

pub const MODEL_PHRASES: [&'static str; 4] = [
    "model not found",
    "unsupported model",
    "unknown model",
    "model mapping",
];

pub const UNREACHABLE_PHRASES: [&'static str; 8] = [
    "connection refused",
    "connection reset",
    "dns",
    "tls",
    "certificate",
    "timed out",
    "timeout",
    "unreachable",
];

pub const PROTOCOL_PHRASES: [&'static str; 6] = [
    "malformed sse",
    "invalid envelope",
    "decode response",
    "decode error",
    "invalid json",
    "protocol",
];

pub const UPSTREAM_PHRASES: [&'static str; 8] = [
    "bad gateway",
    "service unavailable",
    "gateway timeout",
    "internal server error",
    "http 500",
    "http 502",
    "http 503",
    "http 504",
];

/// The standing of a channel's provider account, as far as it is an issue.
#[derive(Debug, Clone, Copy, PartialEq, Eq, Structural)]
pub enum ProviderQuotaStanding {
    /// The allowance is used up.
    Exhausted,
    /// The allowance is running low.
    Warning,
    /// Anything that calls for no action.
    Other,
}

/// An issue as its parts.
pub struct Issue {
    pub category: ChannelIssueCategory,
    pub severity: ChannelIssueSeverity,
    pub code: Seq<char>,
    pub source: Seq<char>,
}

impl View for ChannelOperationalIssue {
    type V = Issue;

    open spec fn view(&self) -> Issue {
        Issue {
            category: self.category,
            severity: self.severity,
            code: self.code@,
            source: self.source@,
        }
    }
}

/// The category of an error message: the first list, in this order, with a
/// phrase that stands in the message, ASCII case aside.
pub open spec fn message_category(message: Seq<char>) -> ChannelIssueCategory {
    let text = lowered(message);
    if mentions(text, AUTH_PHRASES@) {
        ChannelIssueCategory::Auth
    } else if mentions(text, QUOTA_PHRASES@) {
        ChannelIssueCategory::Quota
    } else if mentions(text, RATE_LIMIT_PHRASES@) {
        ChannelIssueCategory::RateLimit
    } else if mentions(text, MODEL_PHRASES@) {
        ChannelIssueCategory::Model
    } else if mentions(text, UNREACHABLE_PHRASES@) {
        ChannelIssueCategory::Unreachable
    } else if mentions(text, PROTOCOL_PHRASES@) {
        ChannelIssueCategory::Protocol
    } else if mentions(text, UPSTREAM_PHRASES@) {
        ChannelIssueCategory::Upstream
    } else {
        ChannelIssueCategory::Unknown
    }
}

/// How urgent an error of a category is.
pub open spec fn category_severity(category: ChannelIssueCategory) -> ChannelIssueSeverity {
    match category {
        ChannelIssueCategory::Auth => ChannelIssueSeverity::Critical,
        ChannelIssueCategory::Quota => ChannelIssueSeverity::Critical,
        ChannelIssueCategory::RateLimit => ChannelIssueSeverity::Warning,
        _ => ChannelIssueSeverity::Error,
    }
}

/// The code of an error of a category.
pub open spec fn category_code(category: ChannelIssueCategory) -> Seq<char> {
    match category {
        ChannelIssueCategory::Auth => "authentication_failed"@,
        ChannelIssueCategory::Quota => "quota_exhausted"@,
        ChannelIssueCategory::RateLimit => "rate_limited"@,
        ChannelIssueCategory::Model => "model_unavailable"@,
        ChannelIssueCategory::Unreachable => "endpoint_unreachable"@,
        ChannelIssueCategory::Protocol => "protocol_incompatible"@,
        ChannelIssueCategory::Upstream => "upstream_server_error"@,
        ChannelIssueCategory::Unknown => "unknown_channel_error"@,
    }
}

/// The issue that an error message tells of.
pub open spec fn message_issue(message: Seq<char>) -> Issue {
    let category = message_category(message);
    Issue {
        category,
        severity: category_severity(category),
        code: category_code(category),
        source: "channel_error"@,
    }
}

/// Reads an error message: its category, urgency and code.
pub fn classify_channel_error_message(message: &str) -> (issue: ChannelOperationalIssue)
    ensures
        issue@ == message_issue(message@),
{
    let normalized = chars_of(to_lower(message).as_str());
    let (category, severity, code) = if mentions_any(&normalized, AUTH_PHRASES) {
        (ChannelIssueCategory::Auth, ChannelIssueSeverity::Critical, "authentication_failed")
    } else if mentions_any(&normalized, QUOTA_PHRASES) {
        (ChannelIssueCategory::Quota, ChannelIssueSeverity::Critical, "quota_exhausted")
    } else if mentions_any(&normalized, RATE_LIMIT_PHRASES) {
        (ChannelIssueCategory::RateLimit, ChannelIssueSeverity::Warning, "rate_limited")
    } else if mentions_any(&normalized, MODEL_PHRASES) {
        (ChannelIssueCategory::Model, ChannelIssueSeverity::Error, "model_unavailable")
    } else if mentions_any(&normalized, UNREACHABLE_PHRASES) {
        (ChannelIssueCategory::Unreachable, ChannelIssueSeverity::Error, "endpoint_unreachable")
    } else if mentions_any(&normalized, PROTOCOL_PHRASES) {
        (ChannelIssueCategory::Protocol, ChannelIssueSeverity::Error, "protocol_incompatible")
    } else if mentions_any(&normalized, UPSTREAM_PHRASES) {
        (ChannelIssueCategory::Upstream, ChannelIssueSeverity::Error, "upstream_server_error")
    } else {
        (ChannelIssueCategory::Unknown, ChannelIssueSeverity::Error, "unknown_channel_error")
    };
    ChannelOperationalIssue {
        category,
        severity,
        code: code.to_owned(),
        source: "channel_error".to_owned(),
    }
}

/// Which category is reported when there are two: the higher.
pub open spec fn category_rank(category: ChannelIssueCategory) -> nat {
    match category {
        ChannelIssueCategory::Auth => 8,
        ChannelIssueCategory::Quota => 7,
        ChannelIssueCategory::Protocol => 6,
        ChannelIssueCategory::Unreachable => 5,
        ChannelIssueCategory::Model => 4,
        ChannelIssueCategory::RateLimit => 3,
        ChannelIssueCategory::Upstream => 2,
        ChannelIssueCategory::Unknown => 1,
    }
}

/// Which category is reported when there are two: the higher.
pub fn issue_priority(category: ChannelIssueCategory) -> (priority: u8)
    ensures
        priority == category_rank(category),
{
    match category {
        ChannelIssueCategory::Auth => 8,
        ChannelIssueCategory::Quota => 7,
        ChannelIssueCategory::Protocol => 6,
        ChannelIssueCategory::Unreachable => 5,
        ChannelIssueCategory::Model => 4,
        ChannelIssueCategory::RateLimit => 3,
        ChannelIssueCategory::Upstream => 2,
        ChannelIssueCategory::Unknown => 1,
    }
}

/// The issue that the standing of the provider account tells of.
pub open spec fn quota_issue(standing: Option<ProviderQuotaStanding>) -> Option<Issue> {
    match standing {
        Some(ProviderQuotaStanding::Exhausted) => Some(
            Issue {
                category: ChannelIssueCategory::Quota,
                severity: ChannelIssueSeverity::Critical,
                code: "quota_exhausted"@,
                source: "provider_quota"@,
            },
        ),
        Some(ProviderQuotaStanding::Warning) => Some(
            Issue {
                category: ChannelIssueCategory::Quota,
                severity: ChannelIssueSeverity::Warning,
                code: "quota_warning"@,
                source: "provider_quota"@,
            },
        ),
        _ => None,
    }
}

/// The issue to report, of the one in the error message and the one in the
/// provider account: the one of higher rank, and on a tie the message's.
pub open spec fn reported_issue(
    message: Option<Seq<char>>,
    standing: Option<ProviderQuotaStanding>,
) -> Option<Issue> {
    match (message, quota_issue(standing)) {
        (Some(text), Some(quota)) => {
            let issue = message_issue(text);
            if category_rank(issue.category) >= category_rank(quota.category) {
                Some(issue)
            } else {
                Some(quota)
            }
        },
        (Some(text), None) => Some(message_issue(text)),
        (None, quota) => quota,
    }
}

/// The parts of an optional issue.
pub open spec fn optional_issue(issue: Option<ChannelOperationalIssue>) -> Option<Issue> {
    match issue {
        Some(found) => Some(found@),
        None => None,
    }
}

impl Channel {
    /// One summary for the operations view, from the channel's error message and
    /// the standing of its provider account. Traffic failures and the account
    /// are separate evidence; neither changes the channel's status.
    pub fn operational_issue(&self, standing: Option<ProviderQuotaStanding>) -> (issue: Option<
        ChannelOperationalIssue,
    >)
        ensures
            optional_issue(issue) == reported_issue(
                crate::text::optional_text(self.error_message),
                standing,
            ),
    {
        let quota = match standing {
            Some(ProviderQuotaStanding::Exhausted) => Some(
                ChannelOperationalIssue {
                    category: ChannelIssueCategory::Quota,
                    severity: ChannelIssueSeverity::Critical,
                    code: "quota_exhausted".to_owned(),
                    source: "provider_quota".to_owned(),
                },
            ),
            Some(ProviderQuotaStanding::Warning) => Some(
                ChannelOperationalIssue {
                    category: ChannelIssueCategory::Quota,
                    severity: ChannelIssueSeverity::Warning,
                    code: "quota_warning".to_owned(),
                    source: "provider_quota".to_owned(),
                },
            ),
            _ => None,
        };
        match (&self.error_message, quota) {
            (Some(message), Some(quota)) => {
                let issue = classify_channel_error_message(message.as_str());
                if issue_priority(issue.category) >= issue_priority(quota.category) {
                    Some(issue)
                } else {
                    Some(quota)
                }
            },
            (Some(message), None) => Some(classify_channel_error_message(message.as_str())),
            (None, quota) => quota,
        }
    }
}

// ---------------------------------------------------------------------------
// Laws
// ---------------------------------------------------------------------------

/// Messages that differ in ASCII case only tell of the same issue.
pub proof fn classification_ignores_ascii_case(a: Seq<char>, b: Seq<char>)
    requires
        lowered(a) == lowered(b),
    ensures
        message_issue(a) == message_issue(b),
{
}

/// No two categories share a rank, so which issue is reported is never a matter
/// of chance.
pub proof fn category_ranks_are_distinct(a: ChannelIssueCategory, b: ChannelIssueCategory)
    requires
        a != b,
    ensures
        category_rank(a) != category_rank(b),
{
}

/// Something is reported exactly where there is an error message or an account
/// that is exhausted or running low, and no issue at hand outranks it.
pub proof fn reported_issue_is_the_gravest(
    message: Option<Seq<char>>,
    standing: Option<ProviderQuotaStanding>,
)
    ensures
        reported_issue(message, standing) is None <==> message is None && quota_issue(
            standing,
        ) is None,
        message matches Some(text) ==> category_rank(
            reported_issue(message, standing)->0.category,
        ) >= category_rank(message_issue(text).category),
        quota_issue(standing) matches Some(quota) ==> category_rank(
            reported_issue(message, standing)->0.category,
        ) >= category_rank(quota.category),
{
}

/// An account warning never hides that the channel failed to authenticate.
pub proof fn failed_authentication_is_always_reported(
    message: Seq<char>,
    standing: Option<ProviderQuotaStanding>,
)
    requires
        mentions(lowered(message), AUTH_PHRASES@),
    ensures
        reported_issue(Some(message), standing) == Some(message_issue(message)),
        message_issue(message).category == ChannelIssueCategory::Auth,
{
}

// ---------------------------------------------------------------------------
// Phrases
// ---------------------------------------------------------------------------

/// Whether a message mentions a phrase, ASCII case aside.
pub open spec fn says(message: Seq<char>, phrase: Seq<char>) -> bool {
    crate::text::occurs_in(lowered(message), phrase)
}

/// Whether a message tells of failed authentication.
pub open spec fn tells_of_failed_authentication(message: Seq<char>) -> bool {
    ||| says(message, "unauthorized"@)
    ||| says(message, "forbidden"@)
    ||| says(message, "invalid api key"@)
    ||| says(message, "invalid token"@)
    ||| says(message, "authentication"@)
    ||| says(message, "http 401"@)
    ||| says(message, "http 403"@)
}

proof fn tells_of_failed_authentication_by_its_phrases(message: Seq<char>)
    ensures
        mentions(lowered(message), AUTH_PHRASES@) <==> tells_of_failed_authentication(message),
{
    let phrases = AUTH_PHRASES@;
    assert(phrases[0]@ == "unauthorized"@);
    assert(phrases[1]@ == "forbidden"@);
    assert(phrases[2]@ == "invalid api key"@);
    assert(phrases[3]@ == "invalid token"@);
    assert(phrases[4]@ == "authentication"@);
    assert(phrases[5]@ == "http 401"@);
    assert(phrases[6]@ == "http 403"@);
    if mentions(lowered(message), phrases) {
        let i = choose|i: int|
            0 <= i < phrases.len() && crate::text::occurs_in(
                lowered(message),
                (#[trigger] phrases[i])@,
            );
        assert(i == 0 || i == 1 || i == 2 || i == 3 || i == 4 || i == 5 || i == 6);
    }
}

/// Whether a message tells of a used-up quota.
pub open spec fn tells_of_a_used_up_quota(message: Seq<char>) -> bool {
    ||| says(message, "insufficient quota"@)
    ||| says(message, "quota exceeded"@)
    ||| says(message, "quota exhausted"@)
    ||| says(message, "insufficient balance"@)
    ||| says(message, "credit balance"@)
    ||| says(message, "额度不足"@)
    ||| says(message, "余额不足"@)
}

proof fn tells_of_a_used_up_quota_by_its_phrases(message: Seq<char>)
    ensures
        mentions(lowered(message), QUOTA_PHRASES@) <==> tells_of_a_used_up_quota(message),
{
    let phrases = QUOTA_PHRASES@;
    assert(phrases[0]@ == "insufficient quota"@);
    assert(phrases[1]@ == "quota exceeded"@);
    assert(phrases[2]@ == "quota exhausted"@);
    assert(phrases[3]@ == "insufficient balance"@);
    assert(phrases[4]@ == "credit balance"@);
    assert(phrases[5]@ == "额度不足"@);
    assert(phrases[6]@ == "余额不足"@);
    if mentions(lowered(message), phrases) {
        let i = choose|i: int|
            0 <= i < phrases.len() && crate::text::occurs_in(
                lowered(message),
                (#[trigger] phrases[i])@,
            );
        assert(i == 0 || i == 1 || i == 2 || i == 3 || i == 4 || i == 5 || i == 6);
    }
}

/// Whether a message tells of a rate limit.
pub open spec fn tells_of_a_rate_limit(message: Seq<char>) -> bool {
    ||| says(message, "too many requests"@)
    ||| says(message, "rate limit"@)
    ||| says(message, "http 429"@)
}

proof fn tells_of_a_rate_limit_by_its_phrases(message: Seq<char>)
    ensures
        mentions(lowered(message), RATE_LIMIT_PHRASES@) <==> tells_of_a_rate_limit(message),
{
    let phrases = RATE_LIMIT_PHRASES@;
    assert(phrases[0]@ == "too many requests"@);
    assert(phrases[1]@ == "rate limit"@);
    assert(phrases[2]@ == "http 429"@);
    if mentions(lowered(message), phrases) {
        let i = choose|i: int|
            0 <= i < phrases.len() && crate::text::occurs_in(
                lowered(message),
                (#[trigger] phrases[i])@,
            );
        assert(i == 0 || i == 1 || i == 2);
    }
}

/// Whether a message tells of a missing model.
pub open spec fn tells_of_a_missing_model(message: Seq<char>) -> bool {
    ||| says(message, "model not found"@)
    ||| says(message, "unsupported model"@)
    ||| says(message, "unknown model"@)
    ||| says(message, "model mapping"@)
}

proof fn tells_of_a_missing_model_by_its_phrases(message: Seq<char>)
    ensures
        mentions(lowered(message), MODEL_PHRASES@) <==> tells_of_a_missing_model(message),
{
    let phrases = MODEL_PHRASES@;
    assert(phrases[0]@ == "model not found"@);
    assert(phrases[1]@ == "unsupported model"@);
    assert(phrases[2]@ == "unknown model"@);
    assert(phrases[3]@ == "model mapping"@);
    if mentions(lowered(message), phrases) {
        let i = choose|i: int|
            0 <= i < phrases.len() && crate::text::occurs_in(
                lowered(message),
                (#[trigger] phrases[i])@,
            );
        assert(i == 0 || i == 1 || i == 2 || i == 3);
    }
}

/// Whether a message tells of an unreachable endpoint.
pub open spec fn tells_of_an_unreachable_endpoint(message: Seq<char>) -> bool {
    ||| says(message, "connection refused"@)
    ||| says(message, "connection reset"@)
    ||| says(message, "dns"@)
    ||| says(message, "tls"@)
    ||| says(message, "certificate"@)
    ||| says(message, "timed out"@)
    ||| says(message, "timeout"@)
    ||| says(message, "unreachable"@)
}

proof fn tells_of_an_unreachable_endpoint_by_its_phrases(message: Seq<char>)
    ensures
        mentions(lowered(message), UNREACHABLE_PHRASES@) <==> tells_of_an_unreachable_endpoint(message),
{
    let phrases = UNREACHABLE_PHRASES@;
    assert(phrases[0]@ == "connection refused"@);
    assert(phrases[1]@ == "connection reset"@);
    assert(phrases[2]@ == "dns"@);
    assert(phrases[3]@ == "tls"@);
    assert(phrases[4]@ == "certificate"@);
    assert(phrases[5]@ == "timed out"@);
    assert(phrases[6]@ == "timeout"@);
    assert(phrases[7]@ == "unreachable"@);
    if mentions(lowered(message), phrases) {
        let i = choose|i: int|
            0 <= i < phrases.len() && crate::text::occurs_in(
                lowered(message),
                (#[trigger] phrases[i])@,
            );
        assert(i == 0 || i == 1 || i == 2 || i == 3 || i == 4 || i == 5 || i == 6 || i == 7);
    }
}

/// Whether a message tells of another protocol.
pub open spec fn tells_of_another_protocol(message: Seq<char>) -> bool {
    ||| says(message, "malformed sse"@)
    ||| says(message, "invalid envelope"@)
    ||| says(message, "decode response"@)
    ||| says(message, "decode error"@)
    ||| says(message, "invalid json"@)
    ||| says(message, "protocol"@)
}

proof fn tells_of_another_protocol_by_its_phrases(message: Seq<char>)
    ensures
        mentions(lowered(message), PROTOCOL_PHRASES@) <==> tells_of_another_protocol(message),
{
    let phrases = PROTOCOL_PHRASES@;
    assert(phrases[0]@ == "malformed sse"@);
    assert(phrases[1]@ == "invalid envelope"@);
    assert(phrases[2]@ == "decode response"@);
    assert(phrases[3]@ == "decode error"@);
    assert(phrases[4]@ == "invalid json"@);
    assert(phrases[5]@ == "protocol"@);
    if mentions(lowered(message), phrases) {
        let i = choose|i: int|
            0 <= i < phrases.len() && crate::text::occurs_in(
                lowered(message),
                (#[trigger] phrases[i])@,
            );
        assert(i == 0 || i == 1 || i == 2 || i == 3 || i == 4 || i == 5);
    }
}

/// Whether a message tells of an upstream failure.
pub open spec fn tells_of_an_upstream_failure(message: Seq<char>) -> bool {
    ||| says(message, "bad gateway"@)
    ||| says(message, "service unavailable"@)
    ||| says(message, "gateway timeout"@)
    ||| says(message, "internal server error"@)
    ||| says(message, "http 500"@)
    ||| says(message, "http 502"@)
    ||| says(message, "http 503"@)
    ||| says(message, "http 504"@)
}

proof fn tells_of_an_upstream_failure_by_its_phrases(message: Seq<char>)
    ensures
        mentions(lowered(message), UPSTREAM_PHRASES@) <==> tells_of_an_upstream_failure(message),
{
    let phrases = UPSTREAM_PHRASES@;
    assert(phrases[0]@ == "bad gateway"@);
    assert(phrases[1]@ == "service unavailable"@);
    assert(phrases[2]@ == "gateway timeout"@);
    assert(phrases[3]@ == "internal server error"@);
    assert(phrases[4]@ == "http 500"@);
    assert(phrases[5]@ == "http 502"@);
    assert(phrases[6]@ == "http 503"@);
    assert(phrases[7]@ == "http 504"@);
    if mentions(lowered(message), phrases) {
        let i = choose|i: int|
            0 <= i < phrases.len() && crate::text::occurs_in(
                lowered(message),
                (#[trigger] phrases[i])@,
            );
        assert(i == 0 || i == 1 || i == 2 || i == 3 || i == 4 || i == 5 || i == 6 || i == 7);
    }
}

/// Which issue a message tells of, by the phrases in it. Where it has phrases of several
/// kinds the first kind counts, in the order given here.
pub proof fn messages_tell_of_issues_by_their_phrases(message: Seq<char>)
    ensures
        tells_of_failed_authentication(message) ==> message_issue(message) == (Issue {
            category: ChannelIssueCategory::Auth,
            severity: ChannelIssueSeverity::Critical,
            code: "authentication_failed"@,
            source: "channel_error"@,
        }),
        !tells_of_failed_authentication(message) && tells_of_a_used_up_quota(message) ==> message_issue(message) == (Issue {
            category: ChannelIssueCategory::Quota,
            severity: ChannelIssueSeverity::Critical,
            code: "quota_exhausted"@,
            source: "channel_error"@,
        }),
        !tells_of_failed_authentication(message) && !tells_of_a_used_up_quota(message) && tells_of_a_rate_limit(message) ==> message_issue(message) == (Issue {
            category: ChannelIssueCategory::RateLimit,
            severity: ChannelIssueSeverity::Warning,
            code: "rate_limited"@,
            source: "channel_error"@,
        }),
        !tells_of_failed_authentication(message) && !tells_of_a_used_up_quota(message) && !tells_of_a_rate_limit(message) && tells_of_a_missing_model(message) ==> message_issue(message) == (Issue {
            category: ChannelIssueCategory::Model,
            severity: ChannelIssueSeverity::Error,
            code: "model_unavailable"@,
            source: "channel_error"@,
        }),
        !tells_of_failed_authentication(message) && !tells_of_a_used_up_quota(message) && !tells_of_a_rate_limit(message) && !tells_of_a_missing_model(message) && tells_of_an_unreachable_endpoint(message) ==> message_issue(message) == (Issue {
            category: ChannelIssueCategory::Unreachable,
            severity: ChannelIssueSeverity::Error,
            code: "endpoint_unreachable"@,
            source: "channel_error"@,
        }),
        !tells_of_failed_authentication(message) && !tells_of_a_used_up_quota(message) && !tells_of_a_rate_limit(message) && !tells_of_a_missing_model(message) && !tells_of_an_unreachable_endpoint(message) && tells_of_another_protocol(message) ==> message_issue(message) == (Issue {
            category: ChannelIssueCategory::Protocol,
            severity: ChannelIssueSeverity::Error,
            code: "protocol_incompatible"@,
            source: "channel_error"@,
        }),
        !tells_of_failed_authentication(message) && !tells_of_a_used_up_quota(message) && !tells_of_a_rate_limit(message) && !tells_of_a_missing_model(message) && !tells_of_an_unreachable_endpoint(message) && !tells_of_another_protocol(message) && tells_of_an_upstream_failure(message) ==> message_issue(message) == (Issue {
            category: ChannelIssueCategory::Upstream,
            severity: ChannelIssueSeverity::Error,
            code: "upstream_server_error"@,
            source: "channel_error"@,
        }),
        !tells_of_failed_authentication(message) && !tells_of_a_used_up_quota(message) && !tells_of_a_rate_limit(message) && !tells_of_a_missing_model(message) && !tells_of_an_unreachable_endpoint(message) && !tells_of_another_protocol(message) && !tells_of_an_upstream_failure(message) ==> message_issue(message) == (Issue {
            category: ChannelIssueCategory::Unknown,
            severity: ChannelIssueSeverity::Error,
            code: "unknown_channel_error"@,
            source: "channel_error"@,
        }),
{
    tells_of_failed_authentication_by_its_phrases(message);
    tells_of_a_used_up_quota_by_its_phrases(message);
    tells_of_a_rate_limit_by_its_phrases(message);
    tells_of_a_missing_model_by_its_phrases(message);
    tells_of_an_unreachable_endpoint_by_its_phrases(message);
    tells_of_another_protocol_by_its_phrases(message);
    tells_of_an_upstream_failure_by_its_phrases(message);
}

/// The standing of the provider account alone: exhausted is critical, running low is a
/// warning, and anything else is no issue.
pub proof fn accounts_tell_of_quota_issues(standing: Option<ProviderQuotaStanding>)
    ensures
        standing == Some(ProviderQuotaStanding::Exhausted) ==> reported_issue(None, standing)
            == Some(
            Issue {
                category: ChannelIssueCategory::Quota,
                severity: ChannelIssueSeverity::Critical,
                code: "quota_exhausted"@,
                source: "provider_quota"@,
            },
        ),
        standing == Some(ProviderQuotaStanding::Warning) ==> reported_issue(None, standing)
            == Some(
            Issue {
                category: ChannelIssueCategory::Quota,
                severity: ChannelIssueSeverity::Warning,
                code: "quota_warning"@,
                source: "provider_quota"@,
            },
        ),
        standing is None || standing == Some(ProviderQuotaStanding::Other) ==> reported_issue(
            None,
            standing,
        ) is None,
{
}

/// Of an error message and a troubled account, the message is reported where it tells of
/// authentication or of a quota, and otherwise the account; with one of the two alone,
/// that one.
pub proof fn the_graver_of_two_issues_is_reported(
    message: Seq<char>,
    standing: Option<ProviderQuotaStanding>,
)
    ensures
        ({
            let troubled = standing == Some(ProviderQuotaStanding::Exhausted) || standing == Some(
                ProviderQuotaStanding::Warning,
            );
            let category = message_issue(message).category;
            if !troubled || category == ChannelIssueCategory::Auth || category
                == ChannelIssueCategory::Quota {
                reported_issue(Some(message), standing) == Some(message_issue(message))
            } else {
                reported_issue(Some(message), standing) == reported_issue(None, standing)
            }
        }),
{
}

/// The order of the categories: authentication, quota, protocol, reachability, model, rate
/// limit, upstream, unknown.
pub proof fn categories_rank_in_this_order()
    ensures
        category_rank(ChannelIssueCategory::Auth) == 8,
        category_rank(ChannelIssueCategory::Quota) == 7,
        category_rank(ChannelIssueCategory::Protocol) == 6,
        category_rank(ChannelIssueCategory::Unreachable) == 5,
        category_rank(ChannelIssueCategory::Model) == 4,
        category_rank(ChannelIssueCategory::RateLimit) == 3,
        category_rank(ChannelIssueCategory::Upstream) == 2,
        category_rank(ChannelIssueCategory::Unknown) == 1,
{
}

/// The parts of an issue are the fields of the reported object, and nothing is reported
/// where there is no issue.
pub proof fn reports_show_the_issue(
    issue: Option<ChannelOperationalIssue>,
    message: Option<Seq<char>>,
    standing: Option<ProviderQuotaStanding>,
)
    requires
        optional_issue(issue) == reported_issue(message, standing),
    ensures
        issue is Some <==> reported_issue(message, standing) is Some,
        issue matches Some(shown) ==> {
            let found = reported_issue(message, standing)->0;
            &&& shown.category == found.category
            &&& shown.severity == found.severity
            &&& shown.code@ == found.code
            &&& shown.source@ == found.source
        },
{
}

/// The same of a single message.
pub proof fn classified_messages_show_the_issue(issue: ChannelOperationalIssue, message: Seq<char>)
    requires
        issue@ == message_issue(message),
    ensures
        issue.category == message_issue(message).category,
        issue.severity == message_issue(message).severity,
        issue.code@ == message_issue(message).code,
        issue.source@ == message_issue(message).source,
{
}

} // verus!
