//! The counters of the dashboard.
use vstd::prelude::*;

use crate::scalars::{TimeScalar, ID};
use crate::text::joined;

verus! {

/// The `RequestStats` object.
#[derive(Debug, Clone, Default, PartialEq, Eq)]
pub struct RequestStats {
    pub requests_today: i32,
    pub requests_this_week: i32,
    pub requests_last_week: i32,
    pub requests_this_month: i32,
}

/// The `TokenStats` object.
#[derive(Debug, Clone, Default, PartialEq, Eq)]
pub struct TokenStats {
    pub total_input_tokens_today: i32,
    pub total_output_tokens_today: i32,
    pub total_cached_tokens_today: i32,
    pub total_input_tokens_this_week: i32,
    pub total_output_tokens_this_week: i32,
    pub total_cached_tokens_this_week: i32,
    pub total_input_tokens_this_month: i32,
    pub total_output_tokens_this_month: i32,
    pub total_cached_tokens_this_month: i32,
    pub total_input_tokens_all_time: i32,
    pub total_output_tokens_all_time: i32,
    pub total_cached_tokens_all_time: i32,
    pub last_updated: Option<TimeScalar>,
}

/// The `RequestStatsByChannel` object.
#[derive(Debug, Clone, Default, PartialEq)]
pub struct RequestStatsByChannel {
    pub channel_name: String,
    pub count: i32,
}

/// The `RequestStatsByModel` object.
#[derive(Debug, Clone, Default, PartialEq)]
pub struct RequestStatsByModel {
    pub model_id: String,
    pub count: i32,
}

/// The `RequestStatsByAPIKey` object.
#[derive(Debug, Clone, Default, PartialEq)]
pub struct RequestStatsByAPIKey {
    pub api_key_id: String,
    pub api_key_name: String,
    pub count: i32,
}

/// The `TokenStatsByAPIKey` object.
#[derive(Debug, Clone, Default, PartialEq)]
pub struct TokenStatsByAPIKey {
    pub api_key_id: ID,
    pub api_key_name: String,
    pub input_tokens: i32,
    pub output_tokens: i32,
    pub cached_tokens: i32,
    pub reasoning_tokens: i32,
    pub total_tokens: i32,
}

/// The `APIKeyTokenUsageStatsInput` input.
#[derive(Debug, Clone, Default, PartialEq)]
pub struct APIKeyTokenUsageStatsInput {
    pub api_key_ids: Option<Vec<i64>>,
    pub time_window: Option<String>,
}

/// The `APIKeyTokenUsageStats` object.
#[derive(Debug, Clone, Default, PartialEq)]
pub struct APIKeyTokenUsageStats {
    pub api_key_id: i64,
    pub api_key_name: String,
    pub total_input_tokens: i32,
    pub total_output_tokens: i32,
    pub total_cached_tokens: i32,
}

/// The `HourlyRequestStats` object.
#[derive(Debug, Clone, Default, PartialEq)]
pub struct HourlyRequestStats {
    pub hour: i32,
    pub count: i32,
}

/// The `TopRequestsProjects` object.
#[derive(Debug, Clone, Default, PartialEq)]
pub struct TopRequestsProjects {
    pub project_id: String,
    pub project_name: String,
    pub project_description: String,
    pub request_count: i32,
}

/// The `FastestChannelsInput` input.
#[derive(Debug, Clone, Default, PartialEq)]
pub struct FastestChannelsInput {
    pub time_window: Option<String>,
    pub limit: Option<i32>,
}

/// The `TokenStatsByChannel` object.
#[derive(Debug, Clone, Default, PartialEq)]
pub struct TokenStatsByChannel {
    pub channel_id: ID,
    pub channel_name: String,
    pub input_tokens: i32,
    pub output_tokens: i32,
    pub cached_tokens: i32,
    pub reasoning_tokens: i32,
    pub total_tokens: i32,
}

/// The `TokenStatsByModel` object.
#[derive(Debug, Clone, Default, PartialEq)]
pub struct TokenStatsByModel {
    pub model_id: String,
    pub input_tokens: i32,
    pub output_tokens: i32,
    pub cached_tokens: i32,
    pub reasoning_tokens: i32,
    pub total_tokens: i32,
}

/// How a request can fail.
#[derive(Debug, Clone)]
pub enum DashboardError {
    ServiceUnavailable,
    Overview(String),
    RequestStats(String),
    TokenStats(String),
}

impl DashboardError {
    /// What the error reads like.
    pub open spec fn text(&self) -> Seq<char> {
        match self {
            DashboardError::ServiceUnavailable => "dashboard service is not available"@,
            DashboardError::Overview(detail) => "failed to get dashboard overview: "@ + detail@,
            DashboardError::RequestStats(detail) => "failed to get request stats: "@ + detail@,
            DashboardError::TokenStats(detail) => "failed to get token stats: "@ + detail@,
        }
    }

    /// What the error reads like.
    pub fn message(&self) -> (message: String)
        ensures
            message@ == self.text(),
    {
        match self {
            DashboardError::ServiceUnavailable => "dashboard service is not available".to_owned(),
            DashboardError::Overview(detail) => joined(
                "failed to get dashboard overview: ",
                detail.as_str(),
            ),
            DashboardError::RequestStats(detail) => joined(
                "failed to get request stats: ",
                detail.as_str(),
            ),
            DashboardError::TokenStats(detail) => joined(
                "failed to get token stats: ",
                detail.as_str(),
            ),
        }
    }
}

/// What each `DashboardError` reads like.
pub proof fn dashboard_errors_read_like_this(error: DashboardError)
    ensures
        error is ServiceUnavailable ==> error.text() == "dashboard service is not available"@,
        error matches DashboardError::Overview(detail) ==> error.text() == "failed to get dashboard overview: "@ + detail@,
        error matches DashboardError::RequestStats(detail) ==> error.text() == "failed to get request stats: "@ + detail@,
        error matches DashboardError::TokenStats(detail) ==> error.text() == "failed to get token stats: "@ + detail@,
{
}

} // verus!
