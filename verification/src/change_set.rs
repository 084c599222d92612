//! Reviewed sets of changes to prices and model mappings.
use vstd::prelude::*;

use crate::scalars::{JsonText, TimeScalar, ID};
use crate::text::joined;

verus! {

/// The `ChangeSetKind` values.
#[derive(Debug, Clone, Copy, PartialEq, Eq, Structural)]
pub enum ChangeSetKind {
    ProviderPrice,
    ModelMapping,
    RetailPrice,
}

/// The `ChangeSetStatus` values.
#[derive(Debug, Clone, Copy, PartialEq, Eq, Structural)]
pub enum ChangeSetStatus {
    Draft,
    PendingReview,
    Applied,
    Rejected,
    Superseded,
    Invalid,
}

/// The `ChangeSetAction` values.
#[derive(Debug, Clone, Copy, PartialEq, Eq, Structural)]
pub enum ChangeSetAction {
    Create,
    Update,
    Delete,
}

/// The `ChangeSetItem` object.
#[derive(Debug, Clone)]
pub struct ChangeSetItem {
    pub id: ID,
    pub item_key: String,
    pub action: ChangeSetAction,
    pub before_snapshot: Option<JsonText>,
    pub after_snapshot: Option<JsonText>,
    pub source_snapshot: Option<JsonText>,
    pub validation_error: Option<String>,
    pub created_at: TimeScalar,
    pub updated_at: TimeScalar,
}

/// The `ChangeSetEvent` object.
#[derive(Debug, Clone)]
pub struct ChangeSetEvent {
    pub id: ID,
    pub event_type: String,
    pub actor_type: String,
    pub actor_id: Option<ID>,
    pub detail: JsonText,
    pub created_at: TimeScalar,
}

/// The `ChangeSet` object.
#[derive(Debug, Clone)]
pub struct ChangeSet {
    pub id: ID,
    pub kind: ChangeSetKind,
    pub scope_type: String,
    pub scope_id: String,
    pub title: String,
    pub status: ChangeSetStatus,
    pub base_revision: String,
    pub source_revision: String,
    pub applied_target_type: Option<String>,
    pub applied_target_id: Option<String>,
    pub validation_error: Option<String>,
    pub created_by: Option<ID>,
    pub submitted_by: Option<ID>,
    pub reviewed_by: Option<ID>,
    pub review_note: Option<String>,
    pub created_at: TimeScalar,
    pub updated_at: TimeScalar,
    pub submitted_at: Option<TimeScalar>,
    pub reviewed_at: Option<TimeScalar>,
    pub applied_at: Option<TimeScalar>,
    pub items: Vec<ChangeSetItem>,
    pub events: Vec<ChangeSetEvent>,
}

/// The `SaveRetailPriceChangeSetItemInput` input.
#[derive(Debug, Clone)]
pub struct SaveRetailPriceChangeSetItemInput {
    pub change_set_id: ID,
    pub public_model_id: ID,
    pub price: JsonText,
}

/// How a change set operation can fail.
#[derive(Debug)]
pub enum ChangeSetError {
    Query(String),
    Invalid(String),
    Storage(String),
}

/// The stored name of a kind of change set.
pub open spec fn kind_name(kind: ChangeSetKind) -> Seq<char> {
    match kind {
        ChangeSetKind::ProviderPrice => "provider_price"@,
        ChangeSetKind::ModelMapping => "model_mapping"@,
        ChangeSetKind::RetailPrice => "retail_price"@,
    }
}

impl ChangeSetKind {
    /// The stored name.
    pub fn as_str(self) -> (name: &'static str)
        ensures
            name@ == kind_name(self),
    {
        match self {
            ChangeSetKind::ProviderPrice => "provider_price",
            ChangeSetKind::ModelMapping => "model_mapping",
            ChangeSetKind::RetailPrice => "retail_price",
        }
    }
}

/// The stored name of a change set's status.
pub open spec fn status_name(status: ChangeSetStatus) -> Seq<char> {
    match status {
        ChangeSetStatus::Draft => "draft"@,
        ChangeSetStatus::PendingReview => "pending_review"@,
        ChangeSetStatus::Applied => "applied"@,
        ChangeSetStatus::Rejected => "rejected"@,
        ChangeSetStatus::Superseded => "superseded"@,
        ChangeSetStatus::Invalid => "invalid"@,
    }
}

impl ChangeSetStatus {
    /// The stored name.
    pub fn as_str(self) -> (name: &'static str)
        ensures
            name@ == status_name(self),
    {
        match self {
            ChangeSetStatus::Draft => "draft",
            ChangeSetStatus::PendingReview => "pending_review",
            ChangeSetStatus::Applied => "applied",
            ChangeSetStatus::Rejected => "rejected",
            ChangeSetStatus::Superseded => "superseded",
            ChangeSetStatus::Invalid => "invalid",
        }
    }
}

impl ChangeSetError {
    /// What the error reads like.
    pub open spec fn text(&self) -> Seq<char> {
        match self {
            ChangeSetError::Query(detail) => "change set query failed: "@ + detail@,
            ChangeSetError::Invalid(detail) => "invalid change set operation: "@ + detail@,
            ChangeSetError::Storage(detail) => "change set operation failed: "@ + detail@,
        }
    }

    /// What the error reads like.
    pub fn message(&self) -> (message: String)
        ensures
            message@ == self.text(),
    {
        match self {
            ChangeSetError::Query(detail) => joined("change set query failed: ", detail.as_str()),
            ChangeSetError::Invalid(detail) => joined(
                "invalid change set operation: ",
                detail.as_str(),
            ),
            ChangeSetError::Storage(detail) => joined(
                "change set operation failed: ",
                detail.as_str(),
            ),
        }
    }
}

// ---------------------------------------------------------------------------
// Laws
// ---------------------------------------------------------------------------

/// A stored name stands for one kind only.
pub proof fn kind_names_are_distinct(a: ChangeSetKind, b: ChangeSetKind)
    requires
        kind_name(a) == kind_name(b),
    ensures
        a == b,
{
    reveal_strlit("provider_price");
    reveal_strlit("model_mapping");
    reveal_strlit("retail_price");
    assert("provider_price"@[0] == 'p');
    assert("model_mapping"@[0] == 'm');
    assert("retail_price"@[0] == 'r');
}

/// A stored name stands for one status only.
pub proof fn status_names_are_distinct(a: ChangeSetStatus, b: ChangeSetStatus)
    requires
        status_name(a) == status_name(b),
    ensures
        a == b,
{
    reveal_strlit("draft");
    reveal_strlit("pending_review");
    reveal_strlit("applied");
    reveal_strlit("rejected");
    reveal_strlit("superseded");
    reveal_strlit("invalid");
    assert("draft"@[0] == 'd');
    assert("pending_review"@[0] == 'p');
    assert("applied"@[0] == 'a');
    assert("rejected"@[0] == 'r');
    assert("superseded"@[0] == 's');
    assert("invalid"@[0] == 'i');
}

/// What each `ChangeSetError` reads like.
pub proof fn change_set_errors_read_like_this(error: ChangeSetError)
    ensures
        error matches ChangeSetError::Query(detail) ==> error.text() == "change set query failed: "@ + detail@,
        error matches ChangeSetError::Invalid(detail) ==> error.text() == "invalid change set operation: "@ + detail@,
        error matches ChangeSetError::Storage(detail) ==> error.text() == "change set operation failed: "@ + detail@,
{
}

/// The stored names of kinds and statuses.
pub proof fn kinds_and_statuses_have_these_names(kind: ChangeSetKind, status: ChangeSetStatus)
    ensures
        kind is ProviderPrice ==> kind_name(kind) == "provider_price"@,
        kind is ModelMapping ==> kind_name(kind) == "model_mapping"@,
        kind is RetailPrice ==> kind_name(kind) == "retail_price"@,
        status is Draft ==> status_name(status) == "draft"@,
        status is PendingReview ==> status_name(status) == "pending_review"@,
        status is Applied ==> status_name(status) == "applied"@,
        status is Rejected ==> status_name(status) == "rejected"@,
        status is Superseded ==> status_name(status) == "superseded"@,
        status is Invalid ==> status_name(status) == "invalid"@,
{
}

} // verus!
