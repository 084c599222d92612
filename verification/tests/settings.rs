use conduit_admin_graphql::channel::{
    AutoModelMappingRuleInput, ChannelSettings, ChannelSettingsInput, ErrorResponseRewriteRuleInput,
};
use conduit_admin_graphql::channel_settings::{
    apply_mapping_rule, apply_rewrite_rule, validate_and_normalize_channel_settings_input,
};
use conduit_admin_graphql::scalars::{DecimalInputScalar, JsonText};

fn mapping_rule(pattern: &str, template: &str) -> AutoModelMappingRuleInput {
    AutoModelMappingRuleInput {
        pattern: pattern.to_owned(),
        public_model_id_template: template.to_owned(),
        ..AutoModelMappingRuleInput::default()
    }
}

fn rewrite_rule() -> ErrorResponseRewriteRuleInput {
    ErrorResponseRewriteRuleInput {
        message: Some("try later".to_owned()),
        ..ErrorResponseRewriteRuleInput::default()
    }
}

fn with_mapping(rules: Vec<AutoModelMappingRuleInput>) -> ChannelSettingsInput {
    ChannelSettingsInput {
        auto_model_mapping_rules: Some(rules),
        ..ChannelSettingsInput::default()
    }
}

fn with_rewrite(rules: Vec<ErrorResponseRewriteRuleInput>) -> ChannelSettingsInput {
    ChannelSettingsInput {
        error_response_rewrite_rules: Some(rules),
        ..ChannelSettingsInput::default()
    }
}

fn check(settings: &mut ChannelSettingsInput) -> Result<(), String> {
    validate_and_normalize_channel_settings_input(Some(settings), Ok(None))
}

#[test]
fn absent_settings_pass() {
    assert_eq!(validate_and_normalize_channel_settings_input(None, Ok(None)), Ok(()));
}

#[test]
fn the_billing_answer_is_taken_over() {
    let mut settings = ChannelSettingsInput {
        billing_currency: Some(" usd ".to_owned()),
        recharge_multiplier: Some(DecimalInputScalar { mantissa: 10, scale: 0 }),
        ..ChannelSettingsInput::default()
    };
    assert_eq!(
        settings.billing_metadata(),
        (Some(" usd ".to_owned()), Some(DecimalInputScalar { mantissa: 10, scale: 0 }))
    );
    assert_eq!(
        validate_and_normalize_channel_settings_input(
            Some(&mut settings),
            Ok(Some("USD".to_owned()))
        ),
        Ok(())
    );
    assert_eq!(settings.billing_currency.as_deref(), Some("USD"));
    let untouched = settings.clone();
    assert_eq!(
        validate_and_normalize_channel_settings_input(
            Some(&mut settings),
            Err("billing_currency and recharge_multiplier must be provided together".to_owned())
        ),
        Err("billing_currency and recharge_multiplier must be provided together".to_owned())
    );
    assert_eq!(settings, untouched);
}

#[test]
fn mapping_rules_are_trimmed_and_typed() {
    let mut rules = vec![mapping_rule("  ^gpt-(.*)$ ", " $1 "), mapping_rule("a", "b")];
    rules[1].model_type = Some(" Image_Generation ".to_owned());
    let mut settings = with_mapping(rules);
    assert_eq!(check(&mut settings), Ok(()));
    let rules = settings.auto_model_mapping_rules.clone().unwrap_or_default();
    assert_eq!(rules[0].pattern, "^gpt-(.*)$");
    assert_eq!(rules[0].public_model_id_template, "$1");
    assert_eq!(rules[0].model_type.as_deref(), Some("chat"));
    assert_eq!(rules[1].model_type.as_deref(), Some("image_generation"));
    let once = settings.clone();
    assert_eq!(check(&mut settings), Ok(()));
    assert_eq!(settings, once);
}

#[test]
fn mapping_rules_need_a_pattern_and_a_template() {
    for rule in [mapping_rule("  ", "t"), mapping_rule("p", "\t")] {
        assert_eq!(
            check(&mut with_mapping(vec![mapping_rule("x", "y"), rule])),
            Err("auto model mapping rule 2 requires pattern and publicModelIDTemplate".to_owned())
        );
    }
}

#[test]
fn mapping_rules_need_a_pattern_that_compiles() {
    let refused = check(&mut with_mapping(vec![mapping_rule(" (a ", "t")]));
    let expected = format!(
        "auto model mapping rule 1 has invalid regex: {}",
        regex::Regex::new("(a").err().map(|error| error.to_string()).unwrap_or_default()
    );
    assert_eq!(refused, Err(expected));
    assert!(check(&mut with_mapping(vec![mapping_rule("(a)", "t")])).is_ok());
}

#[test]
fn mapping_rules_need_a_known_model_type() {
    let mut rule = mapping_rule("p", "t");
    rule.model_type = Some("video".to_owned());
    assert_eq!(
        check(&mut with_mapping(vec![rule])),
        Err("auto model mapping rule 1 has unsupported model type".to_owned())
    );
}

#[test]
fn rules_after_the_first_bad_one_are_left_alone() {
    let mut settings =
        with_mapping(vec![mapping_rule(" a ", " b "), mapping_rule("", "t"), mapping_rule(" c ", "d")]);
    assert!(check(&mut settings).is_err());
    let rules = settings.auto_model_mapping_rules.unwrap_or_default();
    assert_eq!(rules[0].pattern, "a");
    assert_eq!(rules[0].model_type.as_deref(), Some("chat"));
    assert_eq!(rules[2].pattern, " c ");
    assert_eq!(rules[2].model_type, None);
}

#[test]
fn rewrite_rules_take_error_statuses_only() {
    for status in [399, 600, -1] {
        let mut matched = rewrite_rule();
        matched.status_codes = Some(vec![400, status]);
        let mut sent = rewrite_rule();
        sent.http_status = Some(status);
        for rule in [matched, sent] {
            assert_eq!(
                check(&mut with_rewrite(vec![rule])),
                Err("error response rewrite rule 1 uses a status outside 400..599".to_owned())
            );
        }
    }
    let mut edge = rewrite_rule();
    edge.status_codes = Some(vec![400, 599]);
    edge.http_status = Some(400);
    assert_eq!(check(&mut with_rewrite(vec![edge])), Ok(()));
}

#[test]
fn rewrite_rules_need_something_to_rewrite() {
    let mut rule = rewrite_rule();
    rule.message = None;
    assert_eq!(
        check(&mut with_rewrite(vec![rewrite_rule(), rule.clone()])),
        Err("error response rewrite rule 2 has no rewrite fields".to_owned())
    );
    rule.body = Some(JsonText("{}".to_owned()));
    assert_eq!(check(&mut with_rewrite(vec![rule])), Ok(()));
}

#[test]
fn rewrite_patterns_are_trimmed_and_compiled() {
    let mut rule = rewrite_rule();
    rule.body_pattern = Some("  quota.* ".to_owned());
    let mut settings = with_rewrite(vec![rule.clone()]);
    assert_eq!(check(&mut settings), Ok(()));
    assert_eq!(
        settings.error_response_rewrite_rules.unwrap_or_default()[0].body_pattern.as_deref(),
        Some("quota.*")
    );
    rule.body_pattern = Some("[".to_owned());
    let refused = check(&mut with_rewrite(vec![rule.clone()])).unwrap_err();
    assert!(
        refused.starts_with("error response rewrite rule 1 has invalid regex: "),
        "{refused}"
    );
    rule.body_pattern = Some("   ".to_owned());
    assert_eq!(check(&mut with_rewrite(vec![rule])), Ok(()));
}

#[test]
fn rules_are_judged_by_the_given_pattern_error() {
    let mut rule = mapping_rule(" p ", " t ");
    assert_eq!(
        apply_mapping_rule(&mut rule, 3, Some("no".to_owned())),
        Err("auto model mapping rule 3 has invalid regex: no".to_owned())
    );
    assert_eq!(rule.pattern, "p");
    assert_eq!(rule.model_type, None);
    assert_eq!(apply_mapping_rule(&mut rule, 3, None), Ok(()));
    let mut rewrite = rewrite_rule();
    rewrite.body_pattern = Some("x".to_owned());
    assert_eq!(
        apply_rewrite_rule(&mut rewrite, 9, Some("no".to_owned())),
        Err("error response rewrite rule 9 has invalid regex: no".to_owned())
    );
    assert_eq!(apply_rewrite_rule(&mut rewrite, 9, None), Ok(()));
}

#[test]
fn accepted_rules_are_stored_with_their_type() {
    let mut settings = with_mapping(vec![mapping_rule("p", "t")]);
    assert_eq!(check(&mut settings), Ok(()));
    let stored = ChannelSettings::from(settings);
    let rules = stored.auto_model_mapping_rules.unwrap_or_default();
    assert_eq!(rules[0].model_type, "chat");
    assert!(!rules[0].create_draft);
}

#[test]
fn drafts_are_created_only_on_demand() {
    for (given, stored) in [(None, false), (Some(false), false), (Some(true), true)] {
        let mut rule = mapping_rule("a", "b");
        rule.create_draft = given;
        let settings = ChannelSettings::from(with_mapping(vec![rule]));
        let rules = settings.auto_model_mapping_rules.unwrap_or_default();
        assert_eq!(rules[0].create_draft, stored, "{given:?}");
    }
}

#[test]
fn a_second_validation_changes_nothing() {
    let mut typed = mapping_rule(" p ", " t ");
    typed.model_type = Some(" Embedding ".to_owned());
    let mut rewrite = rewrite_rule();
    rewrite.body_pattern = Some(" x+ ".to_owned());
    let mut settings = ChannelSettingsInput {
        billing_currency: Some(" usd ".to_owned()),
        auto_model_mapping_rules: Some(vec![typed, mapping_rule("a", "b")]),
        error_response_rewrite_rules: Some(vec![rewrite]),
        ..ChannelSettingsInput::default()
    };
    let billing = || Ok(Some("USD".to_owned()));
    assert_eq!(
        validate_and_normalize_channel_settings_input(Some(&mut settings), billing()),
        Ok(())
    );
    let once = settings.clone();
    assert_eq!(
        validate_and_normalize_channel_settings_input(Some(&mut settings), billing()),
        Ok(())
    );
    assert_eq!(settings, once);
}
