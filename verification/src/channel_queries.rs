//! Listings and counts of channels.
use vstd::prelude::*;

use crate::channel::{channel_order_term, resolve_channel_order, ChannelCredentials, ChannelOrder,
    ChannelOrderSelection, ChannelStatus, ChannelWhereInput, DisabledAPIKey};
use crate::scalars::CursorScalar;
use crate::text::joined;

verus! {

/// The `ChannelTypeCount` object.
#[derive(Debug, Clone, PartialEq, Eq)]
pub struct ChannelTypeCount {
    pub channel_type: String,
    pub count: i64,
}

/// The `CountChannelsByTypeInput` input.
#[derive(Debug, Clone, Default, PartialEq, Eq)]
pub struct CountChannelsByTypeInput {
    pub status_in: Option<Vec<ChannelStatus>>,
}

/// The `QueryChannelInput` input.
#[derive(Debug, Default, PartialEq)]
pub struct QueryChannelInput {
    pub after: Option<CursorScalar>,
    pub first: Option<i32>,
    pub before: Option<CursorScalar>,
    pub last: Option<i32>,
    pub order_by: Option<ChannelOrder>,
    pub where_filter: Option<ChannelWhereInput>,
    pub has_tag: Option<String>,
    pub model: Option<String>,
}

/// The arguments of a listing, as the service takes them.
#[derive(Debug, Clone, Default, PartialEq, Eq)]
pub struct CountChannelsByTypeArgs {
    pub status_in: Option<Vec<ChannelStatus>>,
}

/// The arguments of a listing, as the service takes them.
#[derive(Debug, Default, PartialEq)]
pub struct QueryChannelsArgs {
    pub after: Option<String>,
    pub first: Option<i32>,
    pub before: Option<String>,
    pub last: Option<i32>,
    pub order_by: Option<ChannelOrderSelection>,
    pub where_filter: Option<ChannelWhereInput>,
    pub has_tag: Option<String>,
    pub model: Option<String>,
}

/// How a request can fail.
#[derive(Debug, Clone)]
pub enum ChannelExtraQueryError {
    ServiceUnavailable,
    QueryChannels(String),
    GetProject(String),
    CountByType(String),
    Query(String),
}

/// What of a channel only its editors may see.
#[derive(Debug, Clone)]
pub struct ChannelSensitiveFields {
    pub credentials: Option<ChannelCredentials>,
    pub disabled_api_keys: Vec<DisabledAPIKey>,
}

// ---------------------------------------------------------------------------
// Lowering of inputs
// ---------------------------------------------------------------------------

impl vstd::std_specs::convert::FromSpecImpl<CountChannelsByTypeInput> for CountChannelsByTypeArgs {
    open spec fn obeys_from_spec() -> bool {
        true
    }

    open spec fn from_spec(input: CountChannelsByTypeInput) -> Self {
        CountChannelsByTypeArgs { status_in: input.status_in }
    }
}

impl From<CountChannelsByTypeInput> for CountChannelsByTypeArgs {
    fn from(input: CountChannelsByTypeInput) -> (args: Self) {
        CountChannelsByTypeArgs { status_in: input.status_in }
    }
}

/// The text of an optional cursor.
pub open spec fn cursor_text(cursor: Option<CursorScalar>) -> Option<String> {
    match cursor {
        Some(position) => Some(position.0),
        None => None,
    }
}

/// The text of an optional cursor.
pub fn cursor_string(cursor: Option<CursorScalar>) -> (text: Option<String>)
    ensures
        text == cursor_text(cursor),
{
    match cursor {
        Some(position) => Some(position.0),
        None => None,
    }
}

/// The arguments that a channel query is lowered into: cursors become their texts,
/// the creation time is ordered by primary key, and everything else stands.
pub open spec fn lowered_query(input: QueryChannelInput) -> QueryChannelsArgs {
    QueryChannelsArgs {
        after: cursor_text(input.after),
        first: input.first,
        before: cursor_text(input.before),
        last: input.last,
        order_by: match input.order_by {
            Some(order) => Some(
                ChannelOrderSelection {
                    direction: order.direction,
                    term: channel_order_term(order.field),
                },
            ),
            None => None,
        },
        where_filter: input.where_filter,
        has_tag: input.has_tag,
        model: input.model,
    }
}

impl vstd::std_specs::convert::FromSpecImpl<QueryChannelInput> for QueryChannelsArgs {
    open spec fn obeys_from_spec() -> bool {
        true
    }

    open spec fn from_spec(input: QueryChannelInput) -> Self {
        lowered_query(input)
    }
}

impl From<QueryChannelInput> for QueryChannelsArgs {
    fn from(input: QueryChannelInput) -> (args: Self) {
        QueryChannelsArgs {
            after: cursor_string(input.after),
            first: input.first,
            before: cursor_string(input.before),
            last: input.last,
            order_by: resolve_channel_order(input.order_by),
            where_filter: input.where_filter,
            has_tag: input.has_tag,
            model: input.model,
        }
    }
}

impl ChannelExtraQueryError {
    /// What the error reads like.
    pub open spec fn text(&self) -> Seq<char> {
        match self {
            ChannelExtraQueryError::ServiceUnavailable => "channel service is not available"@,
            ChannelExtraQueryError::QueryChannels(detail) => "failed to query channels: "@
                + detail@,
            ChannelExtraQueryError::GetProject(detail) => "failed to get project: "@ + detail@,
            ChannelExtraQueryError::CountByType(detail) => "failed to query channel type counts: "@
                + detail@,
            ChannelExtraQueryError::Query(detail) => detail@,
        }
    }

    /// What the error reads like.
    pub fn message(&self) -> (message: String)
        ensures
            message@ == self.text(),
    {
        match self {
            ChannelExtraQueryError::ServiceUnavailable =>
                "channel service is not available".to_owned(),
            ChannelExtraQueryError::QueryChannels(detail) => joined(
                "failed to query channels: ",
                detail.as_str(),
            ),
            ChannelExtraQueryError::GetProject(detail) => joined(
                "failed to get project: ",
                detail.as_str(),
            ),
            ChannelExtraQueryError::CountByType(detail) => joined(
                "failed to query channel type counts: ",
                detail.as_str(),
            ),
            ChannelExtraQueryError::Query(detail) => detail.clone(),
        }
    }
}

// ---------------------------------------------------------------------------
// Laws
// ---------------------------------------------------------------------------

/// A cursor is handed on as its text.
pub proof fn cursors_are_their_texts(cursor: Option<CursorScalar>)
    ensures
        cursor matches Some(position) ==> cursor_text(cursor) == Some(position.0),
        cursor is None ==> cursor_text(cursor) is None,
{
}

/// A query is handed on as it was made: its page, its conditions, its tag and its model
/// stand, and its order keeps its direction.
pub proof fn queries_are_handed_on(input: QueryChannelInput, args: QueryChannelsArgs)
    requires
        args == lowered_query(input),
    ensures
        input.after matches Some(position) ==> args.after == Some(position.0),
        input.after is None ==> args.after is None,
        input.before matches Some(position) ==> args.before == Some(position.0),
        input.before is None ==> args.before is None,
        args.first == input.first,
        args.last == input.last,
        args.where_filter == input.where_filter,
        args.has_tag == input.has_tag,
        args.model == input.model,
        args.order_by is Some <==> input.order_by is Some,
        input.order_by matches Some(order) ==> args.order_by->0.direction == order.direction
            && args.order_by->0.term == channel_order_term(order.field),
{
}

/// What each `ChannelExtraQueryError` reads like.
pub proof fn channel_extra_query_errors_read_like_this(error: ChannelExtraQueryError)
    ensures
        error is ServiceUnavailable ==> error.text() == "channel service is not available"@,
        error matches ChannelExtraQueryError::QueryChannels(detail) ==> error.text() == "failed to query channels: "@ + detail@,
        error matches ChannelExtraQueryError::GetProject(detail) ==> error.text() == "failed to get project: "@ + detail@,
        error matches ChannelExtraQueryError::CountByType(detail) ==> error.text() == "failed to query channel type counts: "@ + detail@,
        error matches ChannelExtraQueryError::Query(detail) ==> error.text() == detail@,
{
}

/// The arguments of a count and of a query are made from what was asked for, field by
/// field.
pub proof fn arguments_are_made_from_inputs(
    count: CountChannelsByTypeInput,
    query: QueryChannelInput,
)
    ensures
        <CountChannelsByTypeArgs as vstd::std_specs::convert::FromSpec<
            CountChannelsByTypeInput,
        >>::obeys_from_spec(),
        <CountChannelsByTypeArgs as vstd::std_specs::convert::FromSpec<
            CountChannelsByTypeInput,
        >>::from_spec(count).status_in == count.status_in,
        <QueryChannelsArgs as vstd::std_specs::convert::FromSpec<
            QueryChannelInput,
        >>::obeys_from_spec(),
        <QueryChannelsArgs as vstd::std_specs::convert::FromSpec<QueryChannelInput>>::from_spec(
            query,
        ) == lowered_query(query),
{
}

} // verus!
