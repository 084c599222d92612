//! Credits, redemption codes and subscription allowances.
use vstd::prelude::*;

use crate::credit_amount::{
    amount_fault, clock_reads, is_after, read_clock, read_rfc3339, rfc3339_instant, validate_amount,
};
use crate::policy::{caller, RequestContext};
use crate::scalars::{TimeScalar, ID};
use crate::text::{chars_of, joined, lowered, optional_text, to_upper, trim, trimmed, uppered};

verus! {

pub const DEFAULT_CREDIT_REDEMPTION_PAGE_LIMIT: i32 = 50;

pub const MAX_CREDIT_REDEMPTION_PAGE_LIMIT: i32 = 200;

pub const MAX_CREDIT_REDEMPTION_QUANTITY: i32 = 1_000;

pub const DEFAULT_CREDIT_REDEMPTIONS_PER_CODE: i32 = 1;

pub const MAX_CREDIT_REDEMPTIONS_PER_CODE: i32 = 100_000;

pub const MAX_CREDIT_REDEMPTION_DESCRIPTION_CHARS: usize = 500;

pub const CREDIT_REDEMPTION_CODE_MIN_CHARS: usize = 8;

pub const CREDIT_REDEMPTION_CODE_MAX_CHARS: usize = 128;

/// The `BillingStatus` values.
#[derive(Debug, Clone, Copy, PartialEq, Eq, Structural)]
pub enum BillingStatus {
    Enabled,
    Disabled,
    Archived,
}

/// The `SubscriptionIntervalUnit` values.
#[derive(Debug, Clone, Copy, PartialEq, Eq, Structural)]
pub enum SubscriptionIntervalUnit {
    Day,
    Month,
    Year,
}

/// The `RolloverMode` values.
#[derive(Debug, Clone, Copy, PartialEq, Eq, Structural)]
pub enum RolloverMode {
    NoRollover,
    Capped,
}

/// The `QuotaClass` values.
#[derive(Debug, Clone, Copy, PartialEq, Eq, Structural)]
pub enum QuotaClass {
    General,
    Dedicated,
}

/// The `SubscriptionQuotaRule` object.
#[derive(Debug, Clone)]
pub struct SubscriptionQuotaRule {
    pub id: ID,
    pub name: String,
    pub quota_class: QuotaClass,
    pub allowance: String,
    pub rollover_mode: RolloverMode,
    pub rollover_cap: Option<String>,
    pub carryover_days: Option<i32>,
    pub access_plans: Vec<SubscriptionAccessPlan>,
}

/// The `SubscriptionAllowanceBucket` object.
#[derive(Debug, Clone)]
pub struct SubscriptionAllowanceBucket {
    pub id: ID,
    pub name: String,
    pub quota_class: QuotaClass,
    pub source_type: String,
    pub period_start: String,
    pub period_end: String,
    pub expires_at: String,
    pub granted_allowance: String,
    pub consumed_allowance: String,
    pub reserved_allowance: String,
    pub remaining_allowance: String,
    pub status: String,
    pub access_plans: Vec<SubscriptionAccessPlan>,
    pub model_ids: Vec<String>,
    pub source_bucket_id: Option<ID>,
}

/// The `CreditLedgerEntry` object.
#[derive(Debug, Clone)]
pub struct CreditLedgerEntry {
    pub id: ID,
    pub amount: String,
    pub entry_type: String,
    pub description: Option<String>,
    pub created_at: String,
}

/// The `CreditRedemptionCodeStatus` values.
#[derive(Debug, Clone, Copy, PartialEq, Eq, Structural)]
pub enum CreditRedemptionCodeStatus {
    Active,
    Redeemed,
    Revoked,
    Expired,
}

/// A redemption code as an administrator sees it. The code itself is absent: it
/// is shown once, in `GeneratedCreditRedemptionCode`.
#[derive(Debug, Clone)]
pub struct CreditRedemptionCode {
    pub id: ID,
    pub batch_id: ID,
    pub code_hint: String,
    pub amount: String,
    pub currency: String,
    pub description: Option<String>,
    pub max_redemptions: i32,
    pub redemption_count: i32,
    pub remaining_redemptions: i32,
    pub status: CreditRedemptionCodeStatus,
    pub expires_at: Option<String>,
    pub redeemed_at: Option<String>,
    pub revoked_at: Option<String>,
    pub created_at: String,
}

/// The `CreditRedemptionCodePage` object.
#[derive(Debug, Clone)]
pub struct CreditRedemptionCodePage {
    pub items: Vec<CreditRedemptionCode>,
    pub total: i32,
    pub limit: i32,
    pub offset: i32,
}

/// A fresh code, shown once. It has no `Debug`, so that it does not end up in
/// logs.
#[derive(Clone)]
pub struct GeneratedCreditRedemptionCode {
    pub id: ID,
    pub code: String,
    pub code_hint: String,
}

/// The `CreateCreditRedemptionCodesPayload` object.
#[derive(Clone)]
pub struct CreateCreditRedemptionCodesPayload {
    pub batch_id: ID,
    pub amount: String,
    pub currency: String,
    pub quantity: i32,
    pub max_redemptions: i32,
    pub expires_at: Option<String>,
    pub codes: Vec<GeneratedCreditRedemptionCode>,
}

/// The `CreditRedemptionReceipt` object.
#[derive(Debug, Clone)]
pub struct CreditRedemptionReceipt {
    pub id: ID,
    pub code_id: ID,
    pub project_id: ID,
    pub user_id: ID,
    pub amount: String,
    pub currency: String,
    pub redeemed_at: String,
}

/// The `CreateCreditRedemptionCodesInput` input.
#[derive(Debug, Clone)]
pub struct CreateCreditRedemptionCodesInput {
    pub amount: String,
    pub quantity: i32,
    pub max_redemptions: i32,
    pub expires_at: Option<String>,
    pub description: Option<String>,
}

/// The caller behind a change of redemption codes, as it is written into the
/// audit row. It holds no code and no other secret.
#[derive(Debug, Clone, PartialEq, Eq)]
pub struct CreditRedemptionActor {
    pub actor_type: String,
    pub actor_id: Option<String>,
}

/// The `UserBalance` object.
#[derive(Debug, Clone)]
pub struct UserBalance {
    pub user_id: ID,
    pub currency: String,
    pub credit_balance: String,
    pub subscription_balance: String,
    pub general_subscription_balance: String,
    pub dedicated_subscription_balance: String,
    pub reserved_balance: String,
    pub available_balance: String,
    pub ledger_entries: Vec<CreditLedgerEntry>,
}

/// The balance of a project: its own ledger and the subscriptions linked to it.
#[derive(Debug, Clone)]
pub struct ProjectBalance {
    pub project_id: ID,
    pub currency: String,
    pub wallet_status: String,
    pub credit_balance: String,
    pub subscription_balance: String,
    pub general_subscription_balance: String,
    pub dedicated_subscription_balance: String,
    pub reserved_balance: String,
    pub available_balance: String,
    pub ledger_entries: Vec<CreditLedgerEntry>,
}

/// The funds of a project in both ledgers, side by side.
#[derive(Debug, Clone)]
pub struct ProjectWalletComparison {
    pub project_id: ID,
    pub owner_user_id: Option<ID>,
    pub status: String,
    pub legacy_credit_balance: String,
    pub project_credit_balance: String,
    pub legacy_subscription_balance: String,
    pub project_subscription_balance: String,
    pub legacy_available_balance: String,
    pub project_available_balance: String,
    pub available_delta: String,
    pub generated_at: String,
}

/// The `SubscriptionAccessPlan` object.
#[derive(Debug, Clone)]
pub struct SubscriptionAccessPlan {
    pub id: ID,
    pub name: String,
}

/// The `SubscriptionPlan` object.
#[derive(Debug, Clone)]
pub struct SubscriptionPlan {
    pub id: ID,
    pub name: String,
    pub currency: String,
    pub allowance: String,
    pub interval_unit: SubscriptionIntervalUnit,
    pub interval_count: i32,
    pub rollover_mode: RolloverMode,
    pub rollover_cap: Option<String>,
    /// Model groups are represented internally by their Access Plans. A
    /// subscription plan may grant any number of them.
    pub access_plans: Vec<SubscriptionAccessPlan>,
    pub quota_rules: Vec<SubscriptionQuotaRule>,
    pub status: BillingStatus,
}

/// The `UserSubscription` object.
#[derive(Debug, Clone)]
pub struct UserSubscription {
    pub id: ID,
    pub user_id: ID,
    pub plan: SubscriptionPlan,
    pub status: String,
    pub current_period_start: String,
    pub current_period_end: String,
    pub auto_renew: bool,
    pub interval_unit: SubscriptionIntervalUnit,
    pub interval_count: i32,
    pub project_id: Option<ID>,
    pub granted_access_plans: Vec<SubscriptionAccessPlan>,
    /// Simple-mode Group names backed by the granted Access Plan. Enterprise
    /// Access Plans that are not wrapped by a Group legitimately return none.
    pub granted_group_names: Vec<String>,
    /// Public model keys from the exact published Access Plan version granted
    /// to this subscription.
    pub granted_model_ids: Vec<String>,
    pub granted_allowance: String,
    pub consumed_allowance: String,
    pub reserved_allowance: String,
    pub remaining_allowance: String,
    pub allowance_buckets: Vec<SubscriptionAllowanceBucket>,
    pub general_remaining_allowance: String,
    pub dedicated_remaining_allowance: String,
}

/// The `SubscriptionProjectOption` object.
#[derive(Debug, Clone)]
pub struct SubscriptionProjectOption {
    pub id: ID,
    pub name: String,
    pub status: String,
    pub commercial_policy_active: bool,
}

/// The `GrantUserCreditInput` input.
#[derive(Debug, Clone)]
pub struct GrantUserCreditInput {
    pub user_id: ID,
    pub amount: String,
    pub currency: Option<String>,
    pub description: Option<String>,
    pub idempotency_key: String,
}

/// The `GrantProjectCreditInput` input.
#[derive(Debug, Clone)]
pub struct GrantProjectCreditInput {
    pub project_id: ID,
    pub amount: String,
    pub description: Option<String>,
    pub idempotency_key: String,
}

/// The `CreateSubscriptionPlanInput` input.
#[derive(Debug, Clone)]
pub struct CreateSubscriptionPlanInput {
    pub name: String,
    pub interval_unit: SubscriptionIntervalUnit,
    pub interval_count: Option<i32>,
    pub access_plan_ids: Vec<ID>,
    pub quota_rules: Vec<SubscriptionQuotaRuleInput>,
}

/// The `SubscriptionQuotaRuleInput` input.
#[derive(Debug, Clone)]
pub struct SubscriptionQuotaRuleInput {
    pub id: Option<ID>,
    pub name: String,
    pub quota_class: QuotaClass,
    pub allowance: String,
    pub rollover_mode: Option<RolloverMode>,
    pub rollover_cap: Option<String>,
    pub carryover_days: Option<i32>,
    pub access_plan_ids: Vec<ID>,
}

/// The `UpdateSubscriptionPlanInput` input.
#[derive(Debug, Clone)]
pub struct UpdateSubscriptionPlanInput {
    pub id: ID,
    pub name: String,
    pub interval_unit: SubscriptionIntervalUnit,
    pub interval_count: i32,
    pub access_plan_ids: Vec<ID>,
    pub quota_rules: Vec<SubscriptionQuotaRuleInput>,
    pub status: BillingStatus,
}

/// The `AssignUserSubscriptionInput` input.
#[derive(Debug, Clone)]
pub struct AssignUserSubscriptionInput {
    pub user_id: ID,
    pub plan_id: ID,
    pub project_id: ID,
    pub idempotency_key: String,
    pub auto_renew: Option<bool>,
    pub interval_unit: Option<SubscriptionIntervalUnit>,
    pub interval_count: Option<i32>,
}

/// The `SetSubscriptionAutoRenewInput` input.
#[derive(Debug, Clone)]
pub struct SetSubscriptionAutoRenewInput {
    pub subscription_id: ID,
    pub auto_renew: bool,
}

/// The audit record of a billing change. Identifiers are kept as they stand on
/// the wire, so that a request with an invalid one can be recorded too.
#[derive(Debug, Clone, PartialEq, Eq)]
pub struct CommercialOperationAudit {
    pub actor_type: String,
    pub actor_id: Option<String>,
    pub operation: String,
    pub target_project_id: Option<String>,
    pub target_user_id: Option<String>,
    pub amount: Option<String>,
    pub currency: Option<String>,
    pub plan_id: Option<String>,
    pub plan_name: Option<String>,
    pub subscription_id: Option<String>,
    pub idempotency_key: Option<String>,
    pub result: String,
    pub error_message: Option<String>,
}

/// How a billing request can fail.
#[derive(Debug)]
pub enum BillingError {
    Unavailable,
    NotFound(String),
    Invalid(String),
    /// Unknown, expired, redeemed and revoked codes give this one answer, so that
    /// codes cannot be told apart by it.
    RedemptionCodeUnavailable,
    Storage(String),
}

// ---------------------------------------------------------------------------
// Messages
// ---------------------------------------------------------------------------

impl BillingError {
    /// What the error reads like.
    pub open spec fn text(&self) -> Seq<char> {
        match self {
            BillingError::Unavailable => "billing service is unavailable"@,
            BillingError::NotFound(object) => "billing object not found: "@ + object@,
            BillingError::Invalid(reason) => "invalid billing input: "@ + reason@,
            BillingError::RedemptionCodeUnavailable =>
                "credit redemption code is invalid or unavailable"@,
            BillingError::Storage(cause) => "billing operation failed: "@ + cause@,
        }
    }

    /// What the error reads like.
    pub fn message(&self) -> (message: String)
        ensures
            message@ == self.text(),
    {
        match self {
            BillingError::Unavailable => "billing service is unavailable".to_owned(),
            BillingError::NotFound(object) => joined("billing object not found: ", object.as_str()),
            BillingError::Invalid(reason) => joined("invalid billing input: ", reason.as_str()),
            BillingError::RedemptionCodeUnavailable =>
                "credit redemption code is invalid or unavailable".to_owned(),
            BillingError::Storage(cause) => joined("billing operation failed: ", cause.as_str()),
        }
    }
}

/// Whether `result` reports this fault: none, or an invalid input with that reason.
pub open spec fn reports(result: Result<(), BillingError>, fault: Option<Seq<char>>) -> bool {
    match fault {
        None => result is Ok,
        Some(reason) => result matches Err(BillingError::Invalid(given)) && given@ == reason,
    }
}

fn invalid(reason: &str) -> (result: Result<(), BillingError>)
    ensures
        reports(result, Some(reason@)),
{
    Err(BillingError::Invalid(reason.to_owned()))
}

// ---------------------------------------------------------------------------
// Callers
// ---------------------------------------------------------------------------

impl CreditRedemptionActor {
    /// The caller of a request; a request without one is refused.
    pub fn for_request(context: Option<&RequestContext>) -> (result: Result<Self, String>)
        ensures
            match caller(context) {
                Some(principal) => result matches Ok(actor) && actor.actor_type@ == principal.kind@
                    && optional_text(actor.actor_id) == optional_text(principal.id),
                None => result matches Err(refusal) && refusal@ == "authentication required"@,
            },
    {
        if let Some(request) = context {
            if let Some(principal) = &request.principal {
                let actor_id = match &principal.id {
                    Some(id) => Some(id.clone()),
                    None => None,
                };
                return Ok(CreditRedemptionActor { actor_type: principal.kind.clone(), actor_id });
            }
        }
        Err("authentication required".to_owned())
    }
}

impl CommercialOperationAudit {
    /// The pending record of an operation, with its caller where there is one and
    /// with no target yet.
    pub fn for_request(context: Option<&RequestContext>, operation: String) -> (audit: Self)
        ensures
            match caller(context) {
                Some(principal) => audit.actor_type@ == principal.kind@ && optional_text(
                    audit.actor_id,
                ) == optional_text(principal.id),
                None => audit.actor_type@ == "unknown"@ && audit.actor_id is None,
            },
            audit.operation == operation,
            audit.result@ == "pending"@,
            audit.target_project_id is None,
            audit.target_user_id is None,
            audit.amount is None,
            audit.currency is None,
            audit.plan_id is None,
            audit.plan_name is None,
            audit.subscription_id is None,
            audit.idempotency_key is None,
            audit.error_message is None,
    {
        let (actor_type, actor_id) = match CreditRedemptionActor::for_request(context) {
            Ok(actor) => (actor.actor_type, actor.actor_id),
            Err(_) => ("unknown".to_owned(), None),
        };
        CommercialOperationAudit {
            actor_type,
            actor_id,
            operation,
            target_project_id: None,
            target_user_id: None,
            amount: None,
            currency: None,
            plan_id: None,
            plan_name: None,
            subscription_id: None,
            idempotency_key: None,
            result: "pending".to_owned(),
            error_message: None,
        }
    }
}

// ---------------------------------------------------------------------------
// Redemption codes
// ---------------------------------------------------------------------------

/// What is wrong with a page of redemption codes, if anything is.
pub open spec fn pagination_fault(limit: int, offset: int) -> Option<Seq<char>> {
    if !(1 <= limit <= MAX_CREDIT_REDEMPTION_PAGE_LIMIT) {
        Some("limit must be between 1 and 200"@)
    } else if offset < 0 {
        Some("offset cannot be negative"@)
    } else {
        None
    }
}

/// Checks the page of a listing of redemption codes.
pub fn validate_credit_redemption_pagination(limit: i32, offset: i32) -> (result: Result<
    (),
    BillingError,
>)
    ensures
        reports(result, pagination_fault(limit as int, offset as int)),
{
    if limit < 1 || limit > MAX_CREDIT_REDEMPTION_PAGE_LIMIT {
        return invalid("limit must be between 1 and 200");
    }
    if offset < 0 {
        return invalid("offset cannot be negative");
    }
    Ok(())
}

/// Checks an amount of credit: a plain positive decimal without sign or exponent,
/// with at most six fractional digits, that fits a ledger of millionths.
pub fn validate_credit_redemption_amount(value: &str) -> (result: Result<(), BillingError>)
    ensures
        reports(result, amount_fault(value@)),
{
    match validate_amount(value) {
        None => Ok(()),
        Some(reason) => Err(BillingError::Invalid(reason)),
    }
}

/// What is wrong with an order for redemption codes apart from its expiry, if
/// anything is.
pub open spec fn order_fault(input: CreateCreditRedemptionCodesInput) -> Option<Seq<char>> {
    if amount_fault(input.amount@) is Some {
        amount_fault(input.amount@)
    } else if !(1 <= input.quantity <= MAX_CREDIT_REDEMPTION_QUANTITY) {
        Some("quantity must be between 1 and 1000"@)
    } else if !(1 <= input.max_redemptions <= MAX_CREDIT_REDEMPTIONS_PER_CODE) {
        Some("maxRedemptions must be between 1 and 100000"@)
    } else if input.description is Some && input.description->0@.len()
        > MAX_CREDIT_REDEMPTION_DESCRIPTION_CHARS {
        Some("description cannot exceed 500 characters"@)
    } else {
        None
    }
}

/// What is wrong with an expiry, given the instant that it was read as and the
/// current time.
pub open spec fn expiry_fault(expiry: Option<(i64, u32)>, now: TimeScalar) -> Option<Seq<char>> {
    match expiry {
        None => Some("expiresAt must be RFC 3339"@),
        Some((seconds, nanos)) => if crate::credit_amount::later(
            (TimeScalar { seconds, nanos }),
            now,
        ) {
            None
        } else {
            Some("expiresAt must be in the future"@)
        },
    }
}

/// Checks an order for redemption codes, apart from its expiry.
pub fn validate_credit_redemption_order(input: &CreateCreditRedemptionCodesInput) -> (result:
    Result<(), BillingError>)
    ensures
        reports(result, order_fault(*input)),
{
    if let Some(reason) = validate_amount(input.amount.as_str()) {
        return Err(BillingError::Invalid(reason));
    }
    if input.quantity < 1 || input.quantity > MAX_CREDIT_REDEMPTION_QUANTITY {
        return invalid("quantity must be between 1 and 1000");
    }
    if input.max_redemptions < 1 || input.max_redemptions > MAX_CREDIT_REDEMPTIONS_PER_CODE {
        return invalid("maxRedemptions must be between 1 and 100000");
    }
    if let Some(description) = &input.description {
        if chars_of(description.as_str()).len() > MAX_CREDIT_REDEMPTION_DESCRIPTION_CHARS {
            return invalid("description cannot exceed 500 characters");
        }
    }
    Ok(())
}

/// Checks an expiry, given the instant that it was read as and the current time.
pub fn validate_credit_redemption_expiry(expiry: Option<(i64, u32)>, now: TimeScalar) -> (result:
    Result<(), BillingError>)
    ensures
        reports(result, expiry_fault(expiry, now)),
{
    match expiry {
        None => invalid("expiresAt must be RFC 3339"),
        Some((seconds, nanos)) => {
            if is_after(TimeScalar { seconds, nanos }, now) {
                Ok(())
            } else {
                invalid("expiresAt must be in the future")
            }
        },
    }
}

/// Checks an order for redemption codes. An expiry has to be an RFC 3339 instant
/// that is later than the time at which the check is made.
pub fn validate_create_credit_redemption_codes_input(
    input: &CreateCreditRedemptionCodesInput,
) -> (result: Result<(), BillingError>)
    ensures
        order_fault(*input) is Some ==> reports(result, order_fault(*input)),
        order_fault(*input) is None && input.expires_at is None ==> result is Ok,
        order_fault(*input) is None && input.expires_at is Some ==> exists|now: TimeScalar|
            clock_reads(now) && reports(
                result,
                #[trigger] expiry_fault(rfc3339_instant(trimmed(input.expires_at->0@)), now),
            ),
{
    match validate_credit_redemption_order(input) {
        Err(error) => Err(error),
        Ok(()) => match &input.expires_at {
            None => Ok(()),
            Some(expires_at) => {
                let expiry = read_rfc3339(trim(expires_at.as_str()).as_str());
                let now = read_clock();
                let result = validate_credit_redemption_expiry(expiry, now);
                assert(reports(
                    result,
                    expiry_fault(rfc3339_instant(trimmed(input.expires_at->0@)), now),
                ));
                result
            },
        },
    }
}

/// Whether a character may stand in a normalized code.
pub open spec fn code_char(c: char) -> bool {
    ('A' <= c && c <= 'Z') || ('0' <= c && c <= '9') || c == '-'
}

/// Whether a text is a normalized code.
pub open spec fn is_code(s: Seq<char>) -> bool {
    &&& CREDIT_REDEMPTION_CODE_MIN_CHARS <= s.len() <= CREDIT_REDEMPTION_CODE_MAX_CHARS
    &&& forall|i: int| 0 <= i < s.len() ==> code_char(#[trigger] s[i])
}

/// A code as it was typed in, without the white space around it and in upper case.
pub open spec fn typed_code(value: Seq<char>) -> Seq<char> {
    uppered(trimmed(value))
}

/// Normalizes a code as it was typed in. Whatever is wrong with it, the answer is
/// the one that unknown and used codes get.
pub fn normalize_credit_redemption_code(value: &str) -> (result: Result<String, BillingError>)
    ensures
        match result {
            Ok(code) => code@ == typed_code(value@) && is_code(code@),
            Err(error) => error is RedemptionCodeUnavailable && !is_code(typed_code(value@)),
        },
{
    let code = to_upper(trim(value).as_str());
    let chars = chars_of(code.as_str());
    if chars.len() < CREDIT_REDEMPTION_CODE_MIN_CHARS || chars.len()
        > CREDIT_REDEMPTION_CODE_MAX_CHARS {
        return Err(BillingError::RedemptionCodeUnavailable);
    }
    let mut i: usize = 0;
    while i < chars.len()
        invariant
            i <= chars@.len(),
            chars@ == code@,
            code@ == typed_code(value@),
            forall|j: int| 0 <= j < i ==> code_char(#[trigger] chars@[j]),
        decreases chars@.len() - i,
    {
        let c = chars[i];
        if !(('A' <= c && c <= 'Z') || ('0' <= c && c <= '9') || c == '-') {
            assert(!code_char(typed_code(value@)[i as int]));
            return Err(BillingError::RedemptionCodeUnavailable);
        }
        i += 1;
    }
    Ok(code)
}

// ---------------------------------------------------------------------------
// Laws
// ---------------------------------------------------------------------------

/// A normalized code stays as it is when it is normalized again.
pub proof fn normalized_codes_are_stable(value: Seq<char>)
    requires
        is_code(typed_code(value)),
    ensures
        typed_code(typed_code(value)) == typed_code(value),
{
    let code = typed_code(value);
    assert forall|i: int| 0 <= i < code.len() implies !crate::text::is_white_space(
        #[trigger] code[i],
    ) by {
        assert(code_char(code[i]));
    }
    crate::text::trim_keeps_text_without_white_space(code);
    crate::text::upper_is_idempotent(trimmed(value));
}

/// ASCII case and the white space around a code make no difference.
pub proof fn codes_are_typed_in_any_case(value: Seq<char>)
    ensures
        typed_code(trimmed(value)) == typed_code(value),
        typed_code(lowered(value)) == typed_code(value),
{
    crate::text::trim_is_idempotent(value);
    crate::text::trim_and_lower_commute(value);
    assert(uppered(lowered(trimmed(value))) =~= uppered(trimmed(value)));
}

/// An expiry that is accepted at one time was acceptable at every earlier time, and
/// one that is refused as past stays refused.
pub proof fn expiries_only_run_out(expiry: Option<(i64, u32)>, earlier: TimeScalar, now: TimeScalar)
    requires
        earlier == now || crate::credit_amount::later(now, earlier),
    ensures
        expiry_fault(expiry, now) is None ==> expiry_fault(expiry, earlier) is None,
        expiry_fault(expiry, earlier) is Some ==> expiry_fault(expiry, now) is Some,
{
}

/// A page is accepted with a limit from 1 to 200 and an offset that is not negative; the
/// limit is looked at first.
pub proof fn pages_are_bounded(result: Result<(), BillingError>, limit: int, offset: int)
    requires
        reports(result, pagination_fault(limit, offset)),
    ensures
        result is Ok <==> 1 <= limit <= 200 && 0 <= offset,
        !(1 <= limit <= 200) ==> result is Err && result->Err_0 is Invalid
            && result->Err_0->Invalid_0@ == "limit must be between 1 and 200"@,
        1 <= limit <= 200 && offset < 0 ==> result is Err && result->Err_0 is Invalid
            && result->Err_0->Invalid_0@ == "offset cannot be negative"@,
{
}

/// An order is accepted with an acceptable amount, a quantity from 1 to 1000, from 1 to
/// 100000 redemptions and a description of at most 500 characters. The first of these that
/// fails, in this order, is reported.
pub proof fn orders_are_bounded(
    result: Result<(), BillingError>,
    input: CreateCreditRedemptionCodesInput,
)
    requires
        reports(result, order_fault(input)),
    ensures
        result is Ok <==> {
            &&& amount_fault(input.amount@) is None
            &&& 1 <= input.quantity <= 1000
            &&& 1 <= input.max_redemptions <= 100_000
            &&& input.description matches Some(description) ==> description@.len() <= 500
        },
        result is Err ==> result->Err_0 is Invalid,
        amount_fault(input.amount@) matches Some(reason) ==> result->Err_0->Invalid_0@ == reason,
        amount_fault(input.amount@) is None && !(1 <= input.quantity <= 1000)
            ==> result->Err_0->Invalid_0@ == "quantity must be between 1 and 1000"@,
        amount_fault(input.amount@) is None && 1 <= input.quantity <= 1000 && !(1
            <= input.max_redemptions <= 100_000) ==> result->Err_0->Invalid_0@
            == "maxRedemptions must be between 1 and 100000"@,
        amount_fault(input.amount@) is None && 1 <= input.quantity <= 1000 && 1
            <= input.max_redemptions <= 100_000 && result is Err ==> result->Err_0->Invalid_0@
            == "description cannot exceed 500 characters"@,
{
}

/// An expiry is accepted exactly when it could be read and is later than the given time,
/// by its seconds or, within one second, by its nanoseconds.
pub proof fn expiries_lie_in_the_future(
    result: Result<(), BillingError>,
    expiry: Option<(i64, u32)>,
    now: TimeScalar,
)
    requires
        reports(result, expiry_fault(expiry, now)),
    ensures
        expiry is None ==> result is Err && result->Err_0 is Invalid && result->Err_0->Invalid_0@
            == "expiresAt must be RFC 3339"@,
        expiry matches Some((seconds, nanos)) ==> {
            &&& result is Ok <==> seconds > now.seconds || (seconds == now.seconds && nanos
                > now.nanos)
            &&& result is Err ==> result->Err_0 is Invalid && result->Err_0->Invalid_0@
                == "expiresAt must be in the future"@
        },
{
}

/// The time that the expiry of an order is held against is a reading of the clock: an
/// expiry that is not later than that reading is refused, and a later one is accepted.
pub proof fn orders_expire_by_the_clock(
    result: Result<(), BillingError>,
    expires_at: Seq<char>,
) -> (now: TimeScalar)
    requires
        exists|now: TimeScalar|
            clock_reads(now) && reports(
                result,
                #[trigger] expiry_fault(rfc3339_instant(trimmed(expires_at)), now),
            ),
    ensures
        clock_reads(now),
        result is Ok <==> (rfc3339_instant(trimmed(expires_at)) matches Some((seconds, nanos))
            && (seconds > now.seconds || (seconds == now.seconds && nanos > now.nanos))),
{
    choose|now: TimeScalar|
        clock_reads(now) && reports(
            result,
            #[trigger] expiry_fault(rfc3339_instant(trimmed(expires_at)), now),
        )
}

/// A code is accepted exactly when, without the white space around it, it has from 8 to
/// 128 characters, each of them an ASCII letter, a digit or a hyphen.
pub proof fn codes_are_letters_digits_and_hyphens(value: Seq<char>)
    ensures
        is_code(typed_code(value)) <==> {
            &&& 8 <= trimmed(value).len() <= 128
            &&& forall|i: int|
                0 <= i < trimmed(value).len() ==> {
                    let c = #[trigger] trimmed(value)[i];
                    'A' <= c <= 'Z' || 'a' <= c <= 'z' || '0' <= c <= '9' || c == '-'
                }
        },
        typed_code(value).len() == trimmed(value).len(),
        forall|i: int|
            0 <= i < trimmed(value).len() ==> #[trigger] typed_code(value)[i] as int == if 'a'
                <= trimmed(value)[i] <= 'z' {
                trimmed(value)[i] as int - 32
            } else {
                trimmed(value)[i] as int
            },
{
    let t = trimmed(value);
    let code = typed_code(value);
    assert(code.len() == t.len());
    assert forall|i: int| 0 <= i < t.len() implies #[trigger] code[i] as int == if 'a' <= t[i]
        <= 'z' {
        t[i] as int - 32
    } else {
        t[i] as int
    } by {
        crate::text::case_moves_ascii_letters_only(t, i);
    }
    if is_code(code) {
        assert forall|i: int| 0 <= i < t.len() implies {
            let c = #[trigger] t[i];
            'A' <= c <= 'Z' || 'a' <= c <= 'z' || '0' <= c <= '9' || c == '-'
        } by {
            assert(code_char(code[i]));
        }
    }
    if 8 <= t.len() <= 128 && forall|i: int|
        0 <= i < t.len() ==> {
            let c = #[trigger] t[i];
            'A' <= c <= 'Z' || 'a' <= c <= 'z' || '0' <= c <= '9' || c == '-'
        } {
        assert forall|i: int| 0 <= i < code.len() implies code_char(#[trigger] code[i]) by {
            let c = t[i];
            assert('A' <= c <= 'Z' || 'a' <= c <= 'z' || '0' <= c <= '9' || c == '-');
        }
    }
}

/// What each `BillingError` reads like.
pub proof fn billing_errors_read_like_this(error: BillingError)
    ensures
        error is Unavailable ==> error.text() == "billing service is unavailable"@,
        error matches BillingError::NotFound(object) ==> error.text() == "billing object not found: "@ + object@,
        error matches BillingError::Invalid(reason) ==> error.text() == "invalid billing input: "@ + reason@,
        error is RedemptionCodeUnavailable ==> error.text() == "credit redemption code is invalid or unavailable"@,
        error matches BillingError::Storage(cause) ==> error.text() == "billing operation failed: "@ + cause@,
{
}

/// What is assumed where a caller says nothing is itself acceptable: fifty codes on a page,
/// and one redemption per code.
pub proof fn defaults_are_acceptable()
    ensures
        DEFAULT_CREDIT_REDEMPTION_PAGE_LIMIT == 50,
        pagination_fault(DEFAULT_CREDIT_REDEMPTION_PAGE_LIMIT as int, 0) is None,
        DEFAULT_CREDIT_REDEMPTIONS_PER_CODE == 1,
{
}

} // verus!
