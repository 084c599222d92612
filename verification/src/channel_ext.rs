//! Tests of a channel, its model list and its endpoints.
use vstd::prelude::*;

use crate::channel::{ChannelEndpointInput, ProxyConfigInput};
use crate::scalars::ID;

verus! {

/// The `SyncChannelModelsPayload` object.
#[derive(Debug, Clone, PartialEq)]
pub struct SyncChannelModelsPayload {
    pub channel_id: ID,
    pub supported_models: Vec<String>,
}

/// The `TestChannelInput` input.
#[derive(Debug, Clone, PartialEq, Eq)]
pub struct TestChannelInput {
    pub channel_id: ID,
    pub model_id: Option<String>,
    pub proxy: Option<ProxyConfigInput>,
}

/// The `SaveChannelEndpointsInput` input.
#[derive(Debug, Clone, PartialEq, Eq)]
pub struct SaveChannelEndpointsInput {
    pub channel_id: ID,
    pub endpoints: Vec<ChannelEndpointInput>,
}

} // verus!
