use conduit_admin_graphql::billing::{
    normalize_credit_redemption_code, validate_create_credit_redemption_codes_input,
    validate_credit_redemption_amount, validate_credit_redemption_expiry,
    validate_credit_redemption_order, validate_credit_redemption_pagination, BillingError,
    CommercialOperationAudit, CreateCreditRedemptionCodesInput, CreditRedemptionActor,
    DEFAULT_CREDIT_REDEMPTIONS_PER_CODE, DEFAULT_CREDIT_REDEMPTION_PAGE_LIMIT,
    MAX_CREDIT_REDEMPTIONS_PER_CODE, MAX_CREDIT_REDEMPTION_DESCRIPTION_CHARS,
    MAX_CREDIT_REDEMPTION_PAGE_LIMIT, MAX_CREDIT_REDEMPTION_QUANTITY,
};
use conduit_admin_graphql::credit_amount::{fits_credit_ledger, is_after};
use conduit_admin_graphql::policy::{Principal, RequestContext};
use conduit_admin_graphql::scalars::TimeScalar;

#[test]
fn redemption_amount_matches_exact_micros_contract() {
    for valid in ["1", "0.000001", "12.340000", " 7.5 "] {
        assert!(
            validate_credit_redemption_amount(valid).is_ok(),
            "{valid:?} must be valid"
        );
    }
    for invalid in [
        "",
        "0",
        "-1",
        "+1",
        ".5",
        "1.",
        "1.0000000",
        "1e2",
        "1_000",
        "9223372036854.775808",
    ] {
        assert!(
            validate_credit_redemption_amount(invalid).is_err(),
            "{invalid:?} must be rejected"
        );
    }
}

#[test]
fn redemption_creation_bounds_quantity_description_and_expiry() {
    let mut input = CreateCreditRedemptionCodesInput {
        amount: "10.25".into(),
        quantity: MAX_CREDIT_REDEMPTION_QUANTITY,
        max_redemptions: DEFAULT_CREDIT_REDEMPTIONS_PER_CODE,
        expires_at: Some("2999-01-01T00:00:00Z".into()),
        description: Some("campaign".into()),
    };
    assert!(validate_create_credit_redemption_codes_input(&input).is_ok());

    input.quantity = MAX_CREDIT_REDEMPTION_QUANTITY + 1;
    assert!(validate_create_credit_redemption_codes_input(&input).is_err());
    input.quantity = 1;
    input.max_redemptions = MAX_CREDIT_REDEMPTIONS_PER_CODE;
    assert!(validate_create_credit_redemption_codes_input(&input).is_ok());
    input.max_redemptions = 0;
    assert!(validate_create_credit_redemption_codes_input(&input).is_err());
    input.max_redemptions = MAX_CREDIT_REDEMPTIONS_PER_CODE + 1;
    assert!(validate_create_credit_redemption_codes_input(&input).is_err());
    input.max_redemptions = DEFAULT_CREDIT_REDEMPTIONS_PER_CODE;
    input.description = Some("x".repeat(MAX_CREDIT_REDEMPTION_DESCRIPTION_CHARS + 1));
    assert!(validate_create_credit_redemption_codes_input(&input).is_err());
    input.description = None;
    input.expires_at = Some("2020-01-01T00:00:00Z".into());
    assert!(validate_create_credit_redemption_codes_input(&input).is_err());
}

#[test]
fn redemption_code_normalization_is_bounded_and_uses_one_public_error() {
    assert_eq!(
        normalize_credit_redemption_code("  cr-ab12-cd34  ").expect("valid normalized code"),
        "CR-AB12-CD34"
    );
    for invalid in [
        "short",
        "contains space",
        "兑换码-12345678",
        "A/B/C/12345678",
    ] {
        assert!(matches!(
            normalize_credit_redemption_code(invalid),
            Err(BillingError::RedemptionCodeUnavailable)
        ));
    }
}

#[test]
fn redemption_pagination_is_strictly_bounded() {
    assert!(validate_credit_redemption_pagination(1, 0).is_ok());
    assert!(
        validate_credit_redemption_pagination(MAX_CREDIT_REDEMPTION_PAGE_LIMIT, 10).is_ok()
    );
    assert!(validate_credit_redemption_pagination(0, 0).is_err());
    assert!(
        validate_credit_redemption_pagination(MAX_CREDIT_REDEMPTION_PAGE_LIMIT + 1, 0).is_err()
    );
    assert!(validate_credit_redemption_pagination(1, -1).is_err());
}

fn reason(result: Result<(), BillingError>) -> String {
    match result {
        Err(BillingError::Invalid(reason)) => reason,
        Err(other) => other.message(),
        Ok(()) => "ok".to_owned(),
    }
}

const SHAPE: &str = "amount must be a positive decimal with at most 6 fractional digits";

const RANGE: &str = "amount must be positive and fit the credit ledger range";

#[test]
fn amounts_are_refused_by_shape_or_by_range() {
    for shapeless in [
        "", "   ", ".", "1.", ".5", "1.2.3", "1.1234567", "-1", "+1", "1e2", "1_000", "1,5", "\u{661}",
        "1 2", "0x1", "NaN",
    ] {
        assert_eq!(reason(validate_credit_redemption_amount(shapeless)), SHAPE, "{shapeless:?}");
    }
    for outside in [
        "0",
        "0.000000",
        "000",
        "9223372036854.775808",
        "9223372036855",
        "79228162514264337593543950335",
        "79228162514264337593543950334.999999",
    ] {
        assert_eq!(reason(validate_credit_redemption_amount(outside)), RANGE, "{outside:?}");
    }
}

#[test]
fn the_largest_and_the_smallest_amount_fit() {
    for fitting in [
        "9223372036854.775807",
        "0.000001",
        "0000000000000000000000000000000000001",
        "\t1.5\n",
        "00.10",
    ] {
        assert_eq!(reason(validate_credit_redemption_amount(fitting)), "ok", "{fitting:?}");
    }
}

#[test]
fn amounts_that_no_decimal_can_hold_are_refused_by_shape() {
    assert_eq!(
        reason(validate_credit_redemption_amount("79228162514264337593543950336")),
        SHAPE
    );
    assert_eq!(
        reason(validate_credit_redemption_amount("99999999999999999999999999999999999999999")),
        SHAPE
    );
}

#[test]
fn the_ledger_counts_millionths() {
    assert!(fits_credit_ledger(9_223_372_036_854_775_807, 6));
    assert!(!fits_credit_ledger(9_223_372_036_854_775_808, 6));
    assert!(fits_credit_ledger(9_223_372_036_854, 0));
    assert!(!fits_credit_ledger(9_223_372_036_855, 0));
    assert!(fits_credit_ledger(92_233_720_368_547_758_070, 7));
    assert!(!fits_credit_ledger(92_233_720_368_547_758_071, 7));
    assert!(fits_credit_ledger(1, 28));
    assert!(fits_credit_ledger(i128::MAX, u32::MAX));
    assert!(!fits_credit_ledger(0, 3));
    assert!(!fits_credit_ledger(-5, 0));
    assert!(!fits_credit_ledger(i128::MAX, 0));
}

fn order() -> CreateCreditRedemptionCodesInput {
    CreateCreditRedemptionCodesInput {
        amount: "10.25".to_owned(),
        quantity: 1,
        max_redemptions: 1,
        expires_at: None,
        description: None,
    }
}

#[test]
fn orders_are_refused_for_their_first_fault() {
    let mut input = order();
    input.amount = "x".to_owned();
    input.quantity = 0;
    input.max_redemptions = 0;
    input.description = Some("y".repeat(501));
    input.expires_at = Some("tomorrow".to_owned());
    assert_eq!(reason(validate_create_credit_redemption_codes_input(&input)), SHAPE);
    input.amount = "1".to_owned();
    assert_eq!(
        reason(validate_create_credit_redemption_codes_input(&input)),
        "quantity must be between 1 and 1000"
    );
    input.quantity = 1000;
    assert_eq!(
        reason(validate_create_credit_redemption_codes_input(&input)),
        "maxRedemptions must be between 1 and 100000"
    );
    input.max_redemptions = 100_000;
    assert_eq!(
        reason(validate_create_credit_redemption_codes_input(&input)),
        "description cannot exceed 500 characters"
    );
    input.description = Some("\u{5151}".repeat(500));
    assert_eq!(
        reason(validate_create_credit_redemption_codes_input(&input)),
        "expiresAt must be RFC 3339"
    );
    input.expires_at = Some(" 2020-01-01T00:00:00+08:00 ".to_owned());
    assert_eq!(
        reason(validate_create_credit_redemption_codes_input(&input)),
        "expiresAt must be in the future"
    );
    input.expires_at = Some(" 2999-01-01T00:00:00.5-08:00 ".to_owned());
    assert_eq!(reason(validate_create_credit_redemption_codes_input(&input)), "ok");
}

#[test]
fn orders_without_expiry_are_judged_without_a_clock() {
    assert_eq!(reason(validate_credit_redemption_order(&order())), "ok");
    let mut input = order();
    input.quantity = 1001;
    assert_eq!(
        reason(validate_credit_redemption_order(&input)),
        "quantity must be between 1 and 1000"
    );
}

#[test]
fn expiries_have_to_be_later_than_now() {
    let now = TimeScalar { seconds: 100, nanos: 5 };
    assert_eq!(reason(validate_credit_redemption_expiry(Some((100, 6)), now)), "ok");
    assert_eq!(
        reason(validate_credit_redemption_expiry(Some((100, 5)), now)),
        "expiresAt must be in the future"
    );
    assert_eq!(
        reason(validate_credit_redemption_expiry(Some((99, 999_999_999)), now)),
        "expiresAt must be in the future"
    );
    assert_eq!(
        reason(validate_credit_redemption_expiry(None, now)),
        "expiresAt must be RFC 3339"
    );
    assert!(is_after(TimeScalar { seconds: 101, nanos: 0 }, now));
    assert!(!is_after(now, now));
}

#[test]
fn pages_are_refused_with_their_bounds() {
    assert_eq!(
        reason(validate_credit_redemption_pagination(201, -1)),
        "limit must be between 1 and 200"
    );
    assert_eq!(
        reason(validate_credit_redemption_pagination(DEFAULT_CREDIT_REDEMPTION_PAGE_LIMIT, -1)),
        "offset cannot be negative"
    );
}

#[test]
fn codes_have_bounded_length_and_are_stable() {
    let longest = "a".repeat(128);
    let code = normalize_credit_redemption_code(&longest).expect("a code of the longest length");
    assert_eq!(code, "A".repeat(128));
    assert_eq!(
        normalize_credit_redemption_code(&code).expect("a normalized code"),
        code
    );
    assert!(normalize_credit_redemption_code(&"a".repeat(129)).is_err());
    assert!(normalize_credit_redemption_code("ABCDEF7").is_err());
    assert!(normalize_credit_redemption_code("ABCDEF78").is_ok());
    assert!(normalize_credit_redemption_code("abcdef_78").is_err());
}

#[test]
fn the_caller_is_recorded() {
    let request = RequestContext {
        principal: Some(Principal {
            kind: "user".to_owned(),
            id: Some("42".to_owned()),
            is_owner: false,
        }),
        project_id: None,
    };
    assert_eq!(
        CreditRedemptionActor::for_request(Some(&request)),
        Ok(CreditRedemptionActor {
            actor_type: "user".to_owned(),
            actor_id: Some("42".to_owned()),
        })
    );
    assert_eq!(
        CreditRedemptionActor::for_request(None),
        Err("authentication required".to_owned())
    );
    let audit = CommercialOperationAudit::for_request(Some(&request), "grant".to_owned());
    assert_eq!(audit.actor_type, "user");
    assert_eq!(audit.actor_id.as_deref(), Some("42"));
    assert_eq!(audit.operation, "grant");
    assert_eq!(audit.result, "pending");
    let anonymous =
        CommercialOperationAudit::for_request(Some(&RequestContext::default()), "grant".to_owned());
    assert_eq!(anonymous.actor_type, "unknown");
    assert_eq!(anonymous.actor_id, None);
}

#[test]
fn billing_errors_read_as_promised() {
    assert_eq!(BillingError::Unavailable.message(), "billing service is unavailable");
    assert_eq!(
        BillingError::NotFound("plan".to_owned()).message(),
        "billing object not found: plan"
    );
    assert_eq!(
        BillingError::Invalid("x".to_owned()).message(),
        "invalid billing input: x"
    );
    assert_eq!(
        BillingError::RedemptionCodeUnavailable.message(),
        "credit redemption code is invalid or unavailable"
    );
    assert_eq!(
        BillingError::Storage("down".to_owned()).message(),
        "billing operation failed: down"
    );
}
