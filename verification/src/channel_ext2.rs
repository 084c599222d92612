//! Changes of many channels at once.
use vstd::prelude::*;

use crate::channel::{Channel, ChannelPoliciesInput, ChannelSettingsInput, ChannelType};
use crate::scalars::ID;

verus! {

/// The `BulkCreateChannelsInput` input.
#[derive(Debug, Clone, PartialEq, Eq)]
pub struct BulkCreateChannelsInput {
    pub channel_type: ChannelType,
    pub name: String,
    pub tags: Option<Vec<String>>,
    pub base_url: Option<String>,
    pub api_keys: Vec<String>,
    pub supported_models: Vec<String>,
    pub auto_sync_supported_models: Option<bool>,
    pub default_test_model: String,
    pub settings: Option<ChannelSettingsInput>,
    pub policies: Option<ChannelPoliciesInput>,
    pub ordering_weight: Option<i64>,
    pub remark: Option<String>,
}

/// The `BulkImportChannelItem` input.
#[derive(Debug, Clone, PartialEq, Eq)]
pub struct BulkImportChannelItem {
    pub channel_type: String,
    pub name: String,
    pub base_url: Option<String>,
    pub api_key: Option<String>,
    pub supported_models: Vec<String>,
    pub default_test_model: String,
}

/// The `BulkImportChannelsInput` input.
#[derive(Debug, Clone, PartialEq, Eq)]
pub struct BulkImportChannelsInput {
    pub channels: Vec<BulkImportChannelItem>,
}

/// The `BulkImportChannelsResult` object.
#[derive(Debug, Clone, PartialEq)]
pub struct BulkImportChannelsResult {
    pub success: bool,
    pub created: i32,
    pub failed: i32,
    pub errors: Option<Vec<String>>,
    pub channels: Vec<Channel>,
}

/// The `ChannelOrderingItem` input.
#[derive(Debug, Clone, PartialEq, Eq)]
pub struct ChannelOrderingItem {
    pub id: ID,
    pub ordering_weight: i64,
}

/// The `BulkUpdateChannelOrderingInput` input.
#[derive(Debug, Clone, PartialEq, Eq)]
pub struct BulkUpdateChannelOrderingInput {
    pub channels: Vec<ChannelOrderingItem>,
}

/// The `BulkUpdateChannelOrderingResult` object.
#[derive(Debug, Clone, PartialEq)]
pub struct BulkUpdateChannelOrderingResult {
    pub success: bool,
    pub updated: i32,
    pub channels: Vec<Channel>,
}

/// The `DeleteDisabledApiKeysPayload` object.
#[derive(Debug, Clone, PartialEq, Eq)]
pub struct DeleteDisabledApiKeysPayload {
    pub success: bool,
    pub message: Option<String>,
}

} // verus!
