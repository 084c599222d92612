//! API keys, their profiles and quotas.
use vstd::prelude::*;

use crate::channel::{ModelMapping, ModelMappingInput, OrderDirection};
use crate::edges::{first_of, present_node, NodeEdge};
use crate::policy::{selected_project, RequestContext};
use crate::scalars::{CursorScalar, DecimalInputScalar, DecimalScalar, PageInfo, TimeScalar, ID};
use crate::text::{joined, joined3};

verus! {

/// The `APIKeyStatus` values.
#[derive(Debug, Clone, Copy, PartialEq, Eq, Structural)]
pub enum APIKeyStatus {
    Enabled,
    Disabled,
    Archived,
}

/// The `APIKeyType` values.
#[derive(Debug, Clone, Copy, PartialEq, Eq, Structural)]
pub enum APIKeyType {
    User,
    ServiceAccount,
    Noauth,
}

/// The `APIKeyOrderField` values.
#[derive(Debug, Clone, Copy, PartialEq, Eq, Structural)]
pub enum APIKeyOrderField {
    CreatedAt,
    UpdatedAt,
}

/// The `ChannelTagsMatchMode` values.
#[derive(Debug, Clone, Copy, PartialEq, Eq, Structural)]
pub enum ChannelTagsMatchMode {
    Any,
    All,
    NoneOf,
}

/// The `APIKeyQuotaPeriodType` values.
#[derive(Debug, Clone, Copy, PartialEq, Eq, Structural)]
pub enum APIKeyQuotaPeriodType {
    AllTime,
    PastDuration,
    CalendarDuration,
}

/// The `APIKeyQuotaPastDurationUnit` values.
#[derive(Debug, Clone, Copy, PartialEq, Eq, Structural)]
pub enum APIKeyQuotaPastDurationUnit {
    Minute,
    Hour,
    Day,
}

/// The `APIKeyQuotaCalendarDurationUnit` values.
#[derive(Debug, Clone, Copy, PartialEq, Eq, Structural)]
pub enum APIKeyQuotaCalendarDurationUnit {
    Day,
    Month,
}

/// The `APIKeyQuotaPastDuration` object.
#[derive(Debug, Clone, Copy, PartialEq, Eq)]
pub struct APIKeyQuotaPastDuration {
    pub value: i64,
    pub unit: APIKeyQuotaPastDurationUnit,
}

/// The `APIKeyQuotaCalendarDuration` object.
#[derive(Debug, Clone, Copy, PartialEq, Eq)]
pub struct APIKeyQuotaCalendarDuration {
    pub unit: APIKeyQuotaCalendarDurationUnit,
}

/// The `APIKeyQuotaPeriod` object.
#[derive(Debug, Clone, Copy, PartialEq, Eq)]
pub struct APIKeyQuotaPeriod {
    pub period_type: APIKeyQuotaPeriodType,
    pub past_duration: Option<APIKeyQuotaPastDuration>,
    pub calendar_duration: Option<APIKeyQuotaCalendarDuration>,
}

/// The `APIKeyQuota` object.
#[derive(Debug, Clone, PartialEq, Eq)]
pub struct APIKeyQuota {
    pub requests: Option<i64>,
    pub total_tokens: Option<i64>,
    pub cost: Option<DecimalScalar>,
    pub period: APIKeyQuotaPeriod,
}

/// The `APIKeyProfile` object.
#[derive(Debug, Clone, Default, PartialEq)]
pub struct APIKeyProfile {
    pub name: String,
    pub model_mappings: Option<Vec<ModelMapping>>,
    pub channel_ids: Option<Vec<i64>>,
    pub channel_tags: Option<Vec<String>>,
    pub channel_tags_match_mode: Option<ChannelTagsMatchMode>,
    pub model_ids: Option<Vec<String>>,
    pub valid_from: Option<TimeScalar>,
    pub valid_until: Option<TimeScalar>,
    pub quota: Option<APIKeyQuota>,
    pub load_balance_strategy: Option<String>,
    pub max_concurrent_requests: Option<i64>,
}

/// The `APIKeyProfiles` object.
#[derive(Debug, Clone, Default, PartialEq)]
pub struct APIKeyProfiles {
    pub active_profile: String,
    pub profiles: Option<Vec<APIKeyProfile>>,
}

/// The `APIKey` object.
#[derive(Debug, Clone, PartialEq)]
pub struct APIKey {
    pub id: ID,
    pub created_at: TimeScalar,
    pub updated_at: TimeScalar,
    pub user_id: Option<ID>,
    pub project_id: ID,
    pub key: String,
    pub name: String,
    pub key_type: APIKeyType,
    pub status: APIKeyStatus,
    pub scopes: Option<Vec<String>>,
    pub profiles: Option<APIKeyProfiles>,
}

/// The `APIKeyEdge` object.
#[derive(Debug, Clone, PartialEq)]
pub struct APIKeyEdge {
    pub node: Option<APIKey>,
    pub cursor: CursorScalar,
}

/// The `APIKeyConnection` object.
#[derive(Debug, Clone, PartialEq)]
pub struct APIKeyConnection {
    pub edges: Option<Vec<Option<APIKeyEdge>>>,
    pub page_info: PageInfo,
    pub total_count: i64,
}

/// The `CreateAPIKeyInput` input.
#[derive(Debug, Clone, PartialEq, Eq)]
pub struct CreateAPIKeyInput {
    pub name: String,
    /// The type; a key without one is a `user` key.
    pub key_type: Option<APIKeyType>,
    /// Caller-supplied scopes; honored only for `service_account` keys.
    pub scopes: Option<Vec<String>>,
    pub project_id: ID,
    /// Optional initial policy, stored together with the key.
    pub profiles: Option<UpdateAPIKeyProfilesInput>,
}

/// The `UpdateAPIKeyInput` input.
#[derive(Debug, Clone, Default, PartialEq, Eq)]
pub struct UpdateAPIKeyInput {
    pub name: Option<String>,
    pub scopes: Option<Vec<String>>,
    pub append_scopes: Option<Vec<String>>,
    pub clear_scopes: Option<bool>,
}

/// The `APIKeyQuotaPastDurationInput` input.
#[derive(Debug, Clone, Copy, PartialEq, Eq)]
pub struct APIKeyQuotaPastDurationInput {
    pub value: i64,
    pub unit: APIKeyQuotaPastDurationUnit,
}

/// The `APIKeyQuotaCalendarDurationInput` input.
#[derive(Debug, Clone, Copy, PartialEq, Eq)]
pub struct APIKeyQuotaCalendarDurationInput {
    pub unit: APIKeyQuotaCalendarDurationUnit,
}

/// The `APIKeyQuotaPeriodInput` input.
#[derive(Debug, Clone, Copy, PartialEq, Eq)]
pub struct APIKeyQuotaPeriodInput {
    pub period_type: APIKeyQuotaPeriodType,
    pub past_duration: Option<APIKeyQuotaPastDurationInput>,
    pub calendar_duration: Option<APIKeyQuotaCalendarDurationInput>,
}

/// The `APIKeyQuotaInput` input.
#[derive(Debug, Clone, PartialEq, Eq)]
pub struct APIKeyQuotaInput {
    pub requests: Option<i64>,
    pub total_tokens: Option<i64>,
    pub cost: Option<DecimalInputScalar>,
    pub period: APIKeyQuotaPeriodInput,
}

/// The `APIKeyProfileInput` input.
#[derive(Debug, Clone, PartialEq, Eq)]
pub struct APIKeyProfileInput {
    pub name: String,
    pub model_mappings: Option<Vec<ModelMappingInput>>,
    pub channel_ids: Option<Vec<i64>>,
    pub channel_tags: Option<Vec<String>>,
    pub channel_tags_match_mode: Option<ChannelTagsMatchMode>,
    pub model_ids: Option<Vec<String>>,
    pub valid_from: Option<TimeScalar>,
    pub valid_until: Option<TimeScalar>,
    pub quota: Option<APIKeyQuotaInput>,
    pub load_balance_strategy: Option<String>,
    pub max_concurrent_requests: Option<i64>,
}

/// The `UpdateAPIKeyProfilesInput` input.
#[derive(Debug, Clone, Default, PartialEq, Eq)]
pub struct UpdateAPIKeyProfilesInput {
    pub active_profile: String,
    pub profiles: Option<Vec<APIKeyProfileInput>>,
}

/// The `APIKeyOrder` input.
#[derive(Debug, Clone, PartialEq, Eq)]
pub struct APIKeyOrder {
    pub direction: OrderDirection,
    pub field: APIKeyOrderField,
}

/// The `APIKeyWhereInput` input.
#[derive(Debug, Default, PartialEq)]
pub struct APIKeyWhereInput {
    pub not: Option<Box<APIKeyWhereInput>>,
    pub and: Option<Vec<APIKeyWhereInput>>,
    pub or: Option<Vec<APIKeyWhereInput>>,
    pub id: Option<ID>,
    pub id_neq: Option<ID>,
    pub id_in: Option<Vec<ID>>,
    pub id_not_in: Option<Vec<ID>>,
    pub id_gt: Option<ID>,
    pub id_gte: Option<ID>,
    pub id_lt: Option<ID>,
    pub id_lte: Option<ID>,
    pub created_at: Option<TimeScalar>,
    pub created_at_neq: Option<TimeScalar>,
    pub created_at_in: Option<Vec<TimeScalar>>,
    pub created_at_not_in: Option<Vec<TimeScalar>>,
    pub created_at_gt: Option<TimeScalar>,
    pub created_at_gte: Option<TimeScalar>,
    pub created_at_lt: Option<TimeScalar>,
    pub created_at_lte: Option<TimeScalar>,
    pub updated_at: Option<TimeScalar>,
    pub updated_at_neq: Option<TimeScalar>,
    pub updated_at_in: Option<Vec<TimeScalar>>,
    pub updated_at_not_in: Option<Vec<TimeScalar>>,
    pub updated_at_gt: Option<TimeScalar>,
    pub updated_at_gte: Option<TimeScalar>,
    pub updated_at_lt: Option<TimeScalar>,
    pub updated_at_lte: Option<TimeScalar>,
    pub user_id: Option<ID>,
    pub user_id_neq: Option<ID>,
    pub user_id_in: Option<Vec<ID>>,
    pub user_id_not_in: Option<Vec<ID>>,
    pub user_id_is_nil: Option<bool>,
    pub user_id_not_nil: Option<bool>,
    pub project_id: Option<ID>,
    pub project_id_neq: Option<ID>,
    pub project_id_in: Option<Vec<ID>>,
    pub project_id_not_in: Option<Vec<ID>>,
    pub key: Option<String>,
    pub key_neq: Option<String>,
    pub key_in: Option<Vec<String>>,
    pub key_not_in: Option<Vec<String>>,
    pub key_gt: Option<String>,
    pub key_gte: Option<String>,
    pub key_lt: Option<String>,
    pub key_lte: Option<String>,
    pub key_contains: Option<String>,
    pub key_has_prefix: Option<String>,
    pub key_has_suffix: Option<String>,
    pub key_equal_fold: Option<String>,
    pub key_contains_fold: Option<String>,
    pub name: Option<String>,
    pub name_neq: Option<String>,
    pub name_in: Option<Vec<String>>,
    pub name_not_in: Option<Vec<String>>,
    pub name_gt: Option<String>,
    pub name_gte: Option<String>,
    pub name_lt: Option<String>,
    pub name_lte: Option<String>,
    pub name_contains: Option<String>,
    pub name_has_prefix: Option<String>,
    pub name_has_suffix: Option<String>,
    pub name_equal_fold: Option<String>,
    pub name_contains_fold: Option<String>,
    pub key_type: Option<APIKeyType>,
    pub type_neq: Option<APIKeyType>,
    pub type_in: Option<Vec<APIKeyType>>,
    pub type_not_in: Option<Vec<APIKeyType>>,
    pub status: Option<APIKeyStatus>,
    pub status_neq: Option<APIKeyStatus>,
    pub status_in: Option<Vec<APIKeyStatus>>,
    pub status_not_in: Option<Vec<APIKeyStatus>>,
    pub has_user: Option<bool>,
    pub has_project: Option<bool>,
    pub has_requests: Option<bool>,
}

/// What a listing is ordered by.
#[derive(Debug, Clone, Copy, PartialEq, Eq, Structural)]
pub enum APIKeyOrderTerm {
    Id,
    UpdatedAt,
}

/// An ordering, as the service takes it.
#[derive(Debug, Clone, Copy, PartialEq, Eq)]
pub struct APIKeyOrderSelection {
    pub direction: OrderDirection,
    pub term: APIKeyOrderTerm,
}

/// How a request can fail.
#[derive(Debug, Clone)]
pub enum APIKeyServiceError {
    ServiceUnavailable,
    DuplicateName(String),
    NoauthReserved,
    NoauthNotUpdatable,
    NoauthStatusNotUpdatable,
    NoauthNotRotatable,
    UserTypeScopesImmutable,
    NotFound,
    Create(String),
    Update(String),
    UpdateStatus(String),
    Rotate(String),
    Query(String),
    BulkUpdate(String, String),
    NoauthProfilesNotUpdatable,
    UpdateProfiles(String),
    ProfileNameEmpty,
    DuplicateProfileName(String),
    ActiveProfileMissing(String),
}

/// The arguments of a listing, as the service takes them.
#[derive(Debug, Default)]
pub struct APIKeyConnectionArgs {
    pub after: Option<String>,
    pub first: Option<i32>,
    pub before: Option<String>,
    pub last: Option<i32>,
    pub order_by: Option<APIKeyOrderSelection>,
    pub where_filter: Option<APIKeyWhereInput>,
}

/// The project that a request for API keys must stay inside.
#[derive(Debug, Clone, PartialEq, Eq)]
pub struct APIKeyAccessScope {
    pub project_id: String,
}

// ---------------------------------------------------------------------------
// Ordering
// ---------------------------------------------------------------------------

/// The service term for a caller's order field: the creation time is ordered by
/// primary key.
pub open spec fn apikey_order_term(field: APIKeyOrderField) -> APIKeyOrderTerm {
    match field {
        APIKeyOrderField::CreatedAt => APIKeyOrderTerm::Id,
        APIKeyOrderField::UpdatedAt => APIKeyOrderTerm::UpdatedAt,
    }
}

/// Lowers a caller's ordering into the one the service takes. The direction
/// stands.
pub fn resolve_apikey_order(order_by: Option<APIKeyOrder>) -> (selection: Option<
    APIKeyOrderSelection,
>)
    ensures
        selection is Some <==> order_by is Some,
        order_by matches Some(order) ==> selection == Some(
            (APIKeyOrderSelection {
                direction: order.direction,
                term: apikey_order_term(order.field),
            }),
        ),
{
    match order_by {
        Some(order) => {
            let term = match order.field {
                APIKeyOrderField::CreatedAt => APIKeyOrderTerm::Id,
                APIKeyOrderField::UpdatedAt => APIKeyOrderTerm::UpdatedAt,
            };
            Some(APIKeyOrderSelection { direction: order.direction, term })
        },
        None => None,
    }
}

// ---------------------------------------------------------------------------
// Access and the creator
// ---------------------------------------------------------------------------

/// The project that a request for API keys must stay inside; a request without a
/// selected project is refused.
pub fn api_key_access_scope(context: Option<&RequestContext>) -> (result: Result<
    APIKeyAccessScope,
    String,
>)
    ensures
        match selected_project(context) {
            Some(project_id) => result matches Ok(scope) && scope.project_id@ == project_id@,
            None => result matches Err(refusal) && refusal@
                == "current project is required; send X-Project-ID"@,
        },
{
    if let Some(request) = context {
        if let Some(project_id) = &request.project_id {
            return Ok(APIKeyAccessScope { project_id: project_id.clone() });
        }
    }
    Err("current project is required; send X-Project-ID".to_owned())
}

/// The page of users that is asked for to find the creator of a key.
#[derive(Debug, Clone, PartialEq, Eq)]
pub struct CreatorLookup {
    pub first: i32,
    pub id: ID,
}

impl APIKey {
    /// What to ask the user service for to find the creator of the key: one user,
    /// by identifier. A key without a creator asks for nothing.
    pub fn creator_lookup(&self) -> (lookup: Option<CreatorLookup>)
        ensures
            match self.user_id {
                Some(user_id) => lookup == Some((CreatorLookup { first: 1, id: user_id })),
                None => lookup is None,
            },
    {
        match &self.user_id {
            Some(user_id) => Some(CreatorLookup { first: 1, id: user_id.copied() }),
            None => None,
        }
    }

    /// The creator of a key: the first user in the answer to its lookup.
    pub fn creator<U>(edges: Option<Vec<Option<NodeEdge<U>>>>) -> (user: Option<U>)
        ensures
            user == match edges {
                Some(list) => present_node(list@),
                None => None,
            },
    {
        match edges {
            Some(list) => first_of(list),
            None => None,
        }
    }
}

impl APIKeyServiceError {
    /// What the error reads like.
    pub open spec fn text(&self) -> Seq<char> {
        match self {
            APIKeyServiceError::ServiceUnavailable => "api key service is not available"@,
            APIKeyServiceError::DuplicateName(detail) => "API Key name '"@
                + detail@
                + "' already exists"@,
            APIKeyServiceError::NoauthReserved => "noauth type API key is reserved"@,
            APIKeyServiceError::NoauthNotUpdatable => "noauth type API key cannot be updated"@,
            APIKeyServiceError::NoauthStatusNotUpdatable =>
                "noauth type API key status cannot be updated"@,
            APIKeyServiceError::NoauthNotRotatable => "noauth type API key cannot be rotated"@,
            APIKeyServiceError::UserTypeScopesImmutable =>
                "user type API key cannot update scopes"@,
            APIKeyServiceError::NotFound => "ent: apikey not found"@,
            APIKeyServiceError::Create(detail) => "failed to create API key: "@ + detail@,
            APIKeyServiceError::Update(detail) => "failed to update API key: "@ + detail@,
            APIKeyServiceError::UpdateStatus(detail) => "failed to update API key status: "@
                + detail@,
            APIKeyServiceError::Rotate(detail) => "failed to rotate API key: "@ + detail@,
            APIKeyServiceError::Query(detail) => "failed to query API keys: "@ + detail@,
            APIKeyServiceError::BulkUpdate(first, second) => "failed to bulk "@
                + first@
                + " API keys: "@
                + second@,
            APIKeyServiceError::NoauthProfilesNotUpdatable =>
                "noauth type API key profiles cannot be updated"@,
            APIKeyServiceError::UpdateProfiles(detail) => "failed to update API key profiles: "@
                + detail@,
            APIKeyServiceError::ProfileNameEmpty => "profile name cannot be empty"@,
            APIKeyServiceError::DuplicateProfileName(detail) => "duplicate profile name: "@
                + detail@,
            APIKeyServiceError::ActiveProfileMissing(detail) => "active profile '"@
                + detail@
                + "' does not exist in the profiles list"@,
        }
    }

    /// What the error reads like.
    pub fn message(&self) -> (message: String)
        ensures
            message@ == self.text(),
    {
        match self {
            APIKeyServiceError::ServiceUnavailable => "api key service is not available".to_owned(),
            APIKeyServiceError::DuplicateName(detail) => joined3(
                "API Key name '",
                detail.as_str(),
                "' already exists",
            ),
            APIKeyServiceError::NoauthReserved => "noauth type API key is reserved".to_owned(),
            APIKeyServiceError::NoauthNotUpdatable =>
                "noauth type API key cannot be updated".to_owned(),
            APIKeyServiceError::NoauthStatusNotUpdatable =>
                "noauth type API key status cannot be updated".to_owned(),
            APIKeyServiceError::NoauthNotRotatable =>
                "noauth type API key cannot be rotated".to_owned(),
            APIKeyServiceError::UserTypeScopesImmutable =>
                "user type API key cannot update scopes".to_owned(),
            APIKeyServiceError::NotFound => "ent: apikey not found".to_owned(),
            APIKeyServiceError::Create(detail) => joined(
                "failed to create API key: ",
                detail.as_str(),
            ),
            APIKeyServiceError::Update(detail) => joined(
                "failed to update API key: ",
                detail.as_str(),
            ),
            APIKeyServiceError::UpdateStatus(detail) => joined(
                "failed to update API key status: ",
                detail.as_str(),
            ),
            APIKeyServiceError::Rotate(detail) => joined(
                "failed to rotate API key: ",
                detail.as_str(),
            ),
            APIKeyServiceError::Query(detail) => joined(
                "failed to query API keys: ",
                detail.as_str(),
            ),
            APIKeyServiceError::BulkUpdate(first, second) => joined(
                joined3("failed to bulk ", first.as_str(), " API keys: ").as_str(),
                second.as_str(),
            ),
            APIKeyServiceError::NoauthProfilesNotUpdatable =>
                "noauth type API key profiles cannot be updated".to_owned(),
            APIKeyServiceError::UpdateProfiles(detail) => joined(
                "failed to update API key profiles: ",
                detail.as_str(),
            ),
            APIKeyServiceError::ProfileNameEmpty => "profile name cannot be empty".to_owned(),
            APIKeyServiceError::DuplicateProfileName(detail) => joined(
                "duplicate profile name: ",
                detail.as_str(),
            ),
            APIKeyServiceError::ActiveProfileMissing(detail) => joined3(
                "active profile '",
                detail.as_str(),
                "' does not exist in the profiles list",
            ),
        }
    }
}

// ---------------------------------------------------------------------------
// Laws
// ---------------------------------------------------------------------------

/// Different order fields stay different orderings: lowering loses no choice.
pub proof fn apikey_order_terms_are_distinct(a: APIKeyOrderField, b: APIKeyOrderField)
    requires
        a != b,
    ensures
        apikey_order_term(a) != apikey_order_term(b),
{
}

/// Creation time is ordered by primary key and update time by itself.
pub proof fn apikey_orders_are_lowered(field: APIKeyOrderField)
    ensures
        field == APIKeyOrderField::CreatedAt <==> apikey_order_term(field) == APIKeyOrderTerm::Id,
        field == APIKeyOrderField::UpdatedAt <==> apikey_order_term(field)
            == APIKeyOrderTerm::UpdatedAt,
{
}

/// What each `APIKeyServiceError` reads like.
pub proof fn api_key_service_errors_read_like_this(error: APIKeyServiceError)
    ensures
        error is ServiceUnavailable ==> error.text() == "api key service is not available"@,
        error matches APIKeyServiceError::DuplicateName(detail) ==> error.text() == "API Key name '"@ + detail@ + "' already exists"@,
        error is NoauthReserved ==> error.text() == "noauth type API key is reserved"@,
        error is NoauthNotUpdatable ==> error.text() == "noauth type API key cannot be updated"@,
        error is NoauthStatusNotUpdatable ==> error.text() == "noauth type API key status cannot be updated"@,
        error is NoauthNotRotatable ==> error.text() == "noauth type API key cannot be rotated"@,
        error is UserTypeScopesImmutable ==> error.text() == "user type API key cannot update scopes"@,
        error is NotFound ==> error.text() == "ent: apikey not found"@,
        error matches APIKeyServiceError::Create(detail) ==> error.text() == "failed to create API key: "@ + detail@,
        error matches APIKeyServiceError::Update(detail) ==> error.text() == "failed to update API key: "@ + detail@,
        error matches APIKeyServiceError::UpdateStatus(detail) ==> error.text() == "failed to update API key status: "@ + detail@,
        error matches APIKeyServiceError::Rotate(detail) ==> error.text() == "failed to rotate API key: "@ + detail@,
        error matches APIKeyServiceError::Query(detail) ==> error.text() == "failed to query API keys: "@ + detail@,
        error matches APIKeyServiceError::BulkUpdate(first, second) ==> error.text() == "failed to bulk "@ + first@ + " API keys: "@ + second@,
        error is NoauthProfilesNotUpdatable ==> error.text() == "noauth type API key profiles cannot be updated"@,
        error matches APIKeyServiceError::UpdateProfiles(detail) ==> error.text() == "failed to update API key profiles: "@ + detail@,
        error is ProfileNameEmpty ==> error.text() == "profile name cannot be empty"@,
        error matches APIKeyServiceError::DuplicateProfileName(detail) ==> error.text() == "duplicate profile name: "@ + detail@,
        error matches APIKeyServiceError::ActiveProfileMissing(detail) ==> error.text() == "active profile '"@ + detail@ + "' does not exist in the profiles list"@,
{
}

} // verus!
