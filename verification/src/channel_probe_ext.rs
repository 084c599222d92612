//! Probing of channels.
use vstd::prelude::*;

use crate::scalars::ID;
use crate::text::joined;

verus! {

/// The `GetChannelProbeDataInput` input.
#[derive(Debug, Clone, PartialEq, Eq)]
pub struct GetChannelProbeDataInput {
    pub channel_ids: Vec<ID>,
}

/// The `PublicChannelHealthSettings` object.
#[derive(Debug, Clone, Copy, PartialEq, Eq)]
pub struct PublicChannelHealthSettings {
    pub enabled: bool,
}

/// The `UpdatePublicChannelHealthSettingsInput` input.
#[derive(Debug, Clone, Copy, PartialEq, Eq)]
pub struct UpdatePublicChannelHealthSettingsInput {
    pub enabled: bool,
}

/// How a request can fail.
#[derive(Debug)]
pub enum ChannelProbeError {
    Unavailable,
    InvalidChannelId(String),
    Query(String),
}

impl ChannelProbeError {
    /// What the error reads like.
    pub open spec fn text(&self) -> Seq<char> {
        match self {
            ChannelProbeError::Unavailable => "channel probe service is not available"@,
            ChannelProbeError::InvalidChannelId(detail) => "invalid channel id: "@ + detail@,
            ChannelProbeError::Query(detail) => "channel probe query failed: "@ + detail@,
        }
    }

    /// What the error reads like.
    pub fn message(&self) -> (message: String)
        ensures
            message@ == self.text(),
    {
        match self {
            ChannelProbeError::Unavailable => "channel probe service is not available".to_owned(),
            ChannelProbeError::InvalidChannelId(detail) => joined(
                "invalid channel id: ",
                detail.as_str(),
            ),
            ChannelProbeError::Query(detail) => joined(
                "channel probe query failed: ",
                detail.as_str(),
            ),
        }
    }
}

/// What each `ChannelProbeError` reads like.
pub proof fn channel_probe_errors_read_like_this(error: ChannelProbeError)
    ensures
        error is Unavailable ==> error.text() == "channel probe service is not available"@,
        error matches ChannelProbeError::InvalidChannelId(detail) ==> error.text() == "invalid channel id: "@ + detail@,
        error matches ChannelProbeError::Query(detail) ==> error.text() == "channel probe query failed: "@ + detail@,
{
}

} // verus!
