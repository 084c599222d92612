//! Backups and their restoration.
use vstd::prelude::*;

use crate::text::joined;

verus! {

/// The `BackupOptionsInput` input.
#[derive(Debug, Clone, Copy, PartialEq, Eq)]
pub struct BackupOptionsInput {
    pub include_channels: bool,
    pub include_model_prices: bool,
    pub include_models: bool,
    pub include_api_keys: bool,
    pub include_usage_stats: bool,
    pub include_request_logs: bool,
}

/// The `BackupPayload` object.
#[derive(Debug, Clone, PartialEq, Eq)]
pub struct BackupPayload {
    pub success: bool,
    pub data: Option<String>,
    pub message: Option<String>,
}

/// The `BackupConflictStrategy` values.
#[derive(Debug, Clone, Copy, PartialEq, Eq, Structural)]
pub enum BackupConflictStrategy {
    Skip,
    Overwrite,
    Error,
}

/// The `RestoreOptionsInput` input.
#[derive(Debug, Clone, Copy, PartialEq, Eq)]
pub struct RestoreOptionsInput {
    pub include_channels: bool,
    pub include_model_prices: bool,
    pub include_models: bool,
    pub include_api_keys: bool,
    pub include_usage_stats: bool,
    pub include_request_logs: bool,
    pub channel_conflict_strategy: BackupConflictStrategy,
    pub model_conflict_strategy: BackupConflictStrategy,
    pub model_price_conflict_strategy: BackupConflictStrategy,
    pub api_key_conflict_strategy: BackupConflictStrategy,
}

/// The `RestorePayload` object.
#[derive(Debug, Clone, PartialEq, Eq)]
pub struct RestorePayload {
    pub success: bool,
    pub message: Option<String>,
}

/// The `TriggerBackupPayload` object.
#[derive(Debug, Clone, PartialEq, Eq)]
pub struct TriggerBackupPayload {
    pub success: bool,
    pub message: Option<String>,
}

/// How a request can fail.
#[derive(Debug)]
pub enum BackupExtError {
    ServiceUnavailable,
    Backup(String),
    Restore(String),
}

impl BackupExtError {
    /// What the error reads like.
    pub open spec fn text(&self) -> Seq<char> {
        match self {
            BackupExtError::ServiceUnavailable => "backup service is not available"@,
            BackupExtError::Backup(detail) => "backup failed: "@ + detail@,
            BackupExtError::Restore(detail) => "restore failed: "@ + detail@,
        }
    }

    /// What the error reads like.
    pub fn message(&self) -> (message: String)
        ensures
            message@ == self.text(),
    {
        match self {
            BackupExtError::ServiceUnavailable => "backup service is not available".to_owned(),
            BackupExtError::Backup(detail) => joined("backup failed: ", detail.as_str()),
            BackupExtError::Restore(detail) => joined("restore failed: ", detail.as_str()),
        }
    }
}

/// What each `BackupExtError` reads like.
pub proof fn backup_ext_errors_read_like_this(error: BackupExtError)
    ensures
        error is ServiceUnavailable ==> error.text() == "backup service is not available"@,
        error matches BackupExtError::Backup(detail) ==> error.text() == "backup failed: "@ + detail@,
        error matches BackupExtError::Restore(detail) ==> error.text() == "restore failed: "@ + detail@,
{
}

} // verus!
