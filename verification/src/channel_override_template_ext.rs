//! Templates of overrides that can be applied to channels.
use vstd::prelude::*;

use crate::channel::{Channel, OrderDirection, OverrideOperation, OverrideOperationInput};
use crate::scalars::{CursorScalar, PageInfo, TimeScalar, ID};
use crate::text::joined;

verus! {

/// The `OverrideApplyMode` values.
#[derive(Debug, Clone, Copy, PartialEq, Eq, Structural)]
pub enum OverrideApplyMode {
    Merge,
    Replace,
}

/// The `ChannelOverrideTemplateOrderField` values.
#[derive(Debug, Clone, Copy, PartialEq, Eq, Structural)]
pub enum ChannelOverrideTemplateOrderField {
    CreatedAt,
    UpdatedAt,
}

/// The `ChannelOverrideTemplateOrder` input.
#[derive(Debug, Clone, PartialEq, Eq)]
pub struct ChannelOverrideTemplateOrder {
    pub direction: OrderDirection,
    pub field: ChannelOverrideTemplateOrderField,
}

/// The `ChannelOverrideTemplateWhereInput` input.
#[derive(Debug, Clone, Default, PartialEq, Eq)]
pub struct ChannelOverrideTemplateWhereInput {
    pub name: Option<String>,
    pub name_contains: Option<String>,
    pub name_contains_fold: Option<String>,
}

/// The `ChannelOverrideTemplate` object, with header entries that are an `H` and
/// users that are a `U`.
#[derive(Debug, Clone, PartialEq)]
pub struct ChannelOverrideTemplate<H, U> {
    pub id: ID,
    pub created_at: TimeScalar,
    pub updated_at: TimeScalar,
    pub user_id: Option<ID>,
    pub name: String,
    pub description: Option<String>,
    pub override_parameters: String,
    pub override_headers: Vec<H>,
    pub header_override_operations: Vec<OverrideOperation>,
    pub body_override_operations: Vec<OverrideOperation>,
    pub user: Option<U>,
}

/// The `ChannelOverrideTemplateEdge` object.
#[derive(Debug, Clone, PartialEq)]
pub struct ChannelOverrideTemplateEdge<H, U> {
    pub node: Option<ChannelOverrideTemplate<H, U>>,
    pub cursor: CursorScalar,
}

/// The `ChannelOverrideTemplateConnection` object.
#[derive(Debug, Clone, PartialEq)]
pub struct ChannelOverrideTemplateConnection<H, U> {
    pub edges: Option<Vec<Option<ChannelOverrideTemplateEdge<H, U>>>>,
    pub page_info: PageInfo,
    pub total_count: i64,
}

/// The `CreateChannelOverrideTemplateInput` input.
#[derive(Debug, Clone)]
pub struct CreateChannelOverrideTemplateInput {
    pub name: String,
    pub description: Option<String>,
    pub header_override_operations: Option<Vec<OverrideOperationInput>>,
    pub body_override_operations: Option<Vec<OverrideOperationInput>>,
}

/// The `UpdateChannelOverrideTemplateInput` input.
#[derive(Debug, Clone, Default)]
pub struct UpdateChannelOverrideTemplateInput {
    pub name: Option<String>,
    pub description: Option<String>,
    pub clear_description: Option<bool>,
    pub header_override_operations: Option<Vec<OverrideOperationInput>>,
    pub append_header_override_operations: Option<Vec<OverrideOperationInput>>,
    pub clear_header_override_operations: Option<bool>,
    pub body_override_operations: Option<Vec<OverrideOperationInput>>,
    pub append_body_override_operations: Option<Vec<OverrideOperationInput>>,
    pub clear_body_override_operations: Option<bool>,
}

/// The `ApplyChannelOverrideTemplateInput` input.
#[derive(Debug, Clone)]
pub struct ApplyChannelOverrideTemplateInput {
    pub template_id: ID,
    pub channel_ids: Vec<ID>,
    pub mode: Option<OverrideApplyMode>,
}

/// The `ClearChannelOverrideTemplatesInput` input.
#[derive(Debug, Clone)]
pub struct ClearChannelOverrideTemplatesInput {
    pub channel_ids: Vec<ID>,
}

/// The `ApplyChannelOverrideTemplatePayload` object.
#[derive(Debug, Clone, PartialEq)]
pub struct ApplyChannelOverrideTemplatePayload {
    pub success: bool,
    pub updated: i32,
    pub channels: Vec<Channel>,
}

/// The `ClearChannelOverrideTemplatesPayload` object.
#[derive(Debug, Clone, PartialEq)]
pub struct ClearChannelOverrideTemplatesPayload {
    pub success: bool,
    pub updated: i32,
    pub channels: Vec<Channel>,
}

/// The arguments of a listing, as the service takes them.
#[derive(Debug, Clone, Default)]
pub struct ChannelOverrideTemplateConnectionArgs {
    pub after: Option<String>,
    pub first: Option<i32>,
    pub before: Option<String>,
    pub last: Option<i32>,
    pub order_by: Option<ChannelOverrideTemplateOrder>,
    pub where_filter: Option<ChannelOverrideTemplateWhereInput>,
}

/// How a request can fail.
#[derive(Debug)]
pub enum ChannelOverrideTemplateExtError {
    ServiceUnavailable,
    Operation(String),
}

impl ChannelOverrideTemplateExtError {
    /// What the error reads like.
    pub open spec fn text(&self) -> Seq<char> {
        match self {
            ChannelOverrideTemplateExtError::ServiceUnavailable =>
                "channel override template service is not available"@,
            ChannelOverrideTemplateExtError::Operation(detail) =>
                "channel override template operation failed: "@ + detail@,
        }
    }

    /// What the error reads like.
    pub fn message(&self) -> (message: String)
        ensures
            message@ == self.text(),
    {
        match self {
            ChannelOverrideTemplateExtError::ServiceUnavailable =>
                "channel override template service is not available".to_owned(),
            ChannelOverrideTemplateExtError::Operation(detail) => joined(
                "channel override template operation failed: ",
                detail.as_str(),
            ),
        }
    }
}

/// What each `ChannelOverrideTemplateExtError` reads like.
pub proof fn channel_override_template_ext_errors_read_like_this(error: ChannelOverrideTemplateExtError)
    ensures
        error is ServiceUnavailable ==> error.text() == "channel override template service is not available"@,
        error matches ChannelOverrideTemplateExtError::Operation(detail) ==> error.text() == "channel override template operation failed: "@ + detail@,
{
}

} // verus!
