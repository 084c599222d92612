use conduit_admin_graphql::authz_extension::{
    authorize_resolution, enforce_field, field_authz, is_gated, scope_check, FieldAuthz,
    AUTHENTICATED_FIELDS, NO_PRINCIPAL, OWNER_FIELDS, OWNER_REQUIRED, PUBLIC_FIELDS,
    READ_DASHBOARD_FIELDS, WRITE_CHANNELS_FIELDS,
};
use conduit_admin_graphql::policy::{Principal, RequestContext};
use conduit_admin_graphql::scopes;

#[test]
fn table_maps_entities_to_the_right_scopes() {
    assert_eq!(
        field_authz("createChannel"),
        FieldAuthz::Scope(scopes::WRITE_CHANNELS)
    );
    assert_eq!(
        field_authz("createModel"),
        FieldAuthz::Scope(scopes::WRITE_CHANNELS)
    );
    assert_eq!(
        field_authz("fetchModels"),
        FieldAuthz::Scope(scopes::WRITE_CHANNELS)
    );
    assert_eq!(
        field_authz("createAPIKey"),
        FieldAuthz::Scope(scopes::WRITE_API_KEYS)
    );
    assert_eq!(
        field_authz("updateUser"),
        FieldAuthz::Scope(scopes::WRITE_USERS)
    );
    assert_eq!(
        field_authz("updateProjectUser"),
        FieldAuthz::Scope(scopes::WRITE_USERS)
    );
    assert_eq!(
        field_authz("updateRetryPolicy"),
        FieldAuthz::Scope(scopes::WRITE_SETTINGS)
    );
    assert_eq!(
        field_authz("storagePolicy"),
        FieldAuthz::Scope(scopes::READ_SETTINGS)
    );
    assert_eq!(
        field_authz("dashboardOverview"),
        FieldAuthz::Scope(scopes::READ_DASHBOARD)
    );
    assert_eq!(
        field_authz("apiKeyTokenUsageStats"),
        FieldAuthz::Scope(scopes::READ_API_KEYS)
    );
    assert_eq!(
        field_authz("apiKeys"),
        FieldAuthz::Scope(scopes::READ_API_KEYS)
    );
    assert_eq!(
        field_authz("updateAutoBackupSettings"),
        FieldAuthz::OwnerOnly
    );
    assert_eq!(field_authz("backup"), FieldAuthz::OwnerOnly);
    assert_eq!(field_authz("restore"), FieldAuthz::OwnerOnly);
    assert_eq!(field_authz("me"), FieldAuthz::Authenticated);
    assert_eq!(field_authz("myBalance"), FieldAuthz::Authenticated);
    assert_eq!(field_authz("myPrimaryProject"), FieldAuthz::Authenticated);
    assert_eq!(field_authz("myProjectBalance"), FieldAuthz::Authenticated);
    assert_eq!(
        field_authz("myProjectWalletComparison"),
        FieldAuthz::Authenticated
    );
    assert_eq!(field_authz("mySubscriptions"), FieldAuthz::Authenticated);
    assert_eq!(field_authz("myModelCatalog"), FieldAuthz::Authenticated);
    assert_eq!(field_authz("systemStatus"), FieldAuthz::Authenticated);
    assert_eq!(
        field_authz("systemGeneralSettings"),
        FieldAuthz::Authenticated
    );
    assert_eq!(
        field_authz("updateSystemGeneralSettings"),
        FieldAuthz::Scope(scopes::WRITE_SETTINGS)
    );
    assert_eq!(
        field_authz("productExperienceSettings"),
        FieldAuthz::Authenticated
    );
    assert_eq!(
        field_authz("updateProductExperienceSettings"),
        FieldAuthz::OwnerOnly
    );
    assert_eq!(
        field_authz("subscriptionProjects"),
        FieldAuthz::Scope(scopes::READ_SUBSCRIPTIONS)
    );
    assert_eq!(
        field_authz("projectBalance"),
        FieldAuthz::Scope(scopes::READ_BILLING)
    );
    assert_eq!(
        field_authz("projectWalletComparison"),
        FieldAuthz::Scope(scopes::READ_BILLING)
    );
    assert_eq!(
        field_authz("grantProjectCredit"),
        FieldAuthz::Scope(scopes::GRANT_CREDIT)
    );
    assert_eq!(
        field_authz("updateSubscriptionPlan"),
        FieldAuthz::Scope(scopes::WRITE_SUBSCRIPTIONS)
    );
    assert_eq!(
        field_authz("simpleGroups"),
        FieldAuthz::Scope(scopes::READ_GROUPS)
    );
    assert_eq!(
        field_authz("createSimpleGroup"),
        FieldAuthz::Scope(scopes::WRITE_GROUPS)
    );
    assert_eq!(
        field_authz("updateSimpleGroup"),
        FieldAuthz::Scope(scopes::WRITE_GROUPS)
    );
    assert_eq!(
        field_authz("assignSimpleGroupUsers"),
        FieldAuthz::Scope(scopes::WRITE_GROUPS)
    );
    assert_eq!(
        field_authz("updateSimpleGroupModels"),
        FieldAuthz::Scope(scopes::WRITE_GROUPS)
    );
    assert_eq!(
        field_authz("updateSimpleGroupPrice"),
        FieldAuthz::Scope(scopes::WRITE_GROUPS)
    );
    assert_eq!(
        field_authz("deleteSimpleGroup"),
        FieldAuthz::Scope(scopes::WRITE_GROUPS)
    );
    assert_eq!(
        field_authz("previewPromptProtectionRule"),
        FieldAuthz::Authenticated
    );
    assert_eq!(field_authz("health"), FieldAuthz::Public);
    assert_eq!(field_authz("somethingNew"), FieldAuthz::Deny);
}

#[test]
fn internal_admin_documented_operation_scope_contract_is_stable() {
    let documented = [
        ("users", FieldAuthz::Scope(scopes::READ_USERS)),
        ("createUser", FieldAuthz::Scope(scopes::WRITE_USERS)),
        ("updateUser", FieldAuthz::Scope(scopes::WRITE_USERS)),
        ("simpleGroups", FieldAuthz::Scope(scopes::READ_GROUPS)),
        ("createSimpleGroup", FieldAuthz::Scope(scopes::WRITE_GROUPS)),
        (
            "subscriptionPlans",
            FieldAuthz::Scope(scopes::READ_SUBSCRIPTIONS),
        ),
        (
            "assignUserSubscription",
            FieldAuthz::Scope(scopes::WRITE_SUBSCRIPTIONS),
        ),
        (
            "cancelUserSubscription",
            FieldAuthz::Scope(scopes::WRITE_SUBSCRIPTIONS),
        ),
        ("projectBalance", FieldAuthz::Scope(scopes::READ_BILLING)),
        ("grantProjectCredit", FieldAuthz::Scope(scopes::GRANT_CREDIT)),
        ("apiKeys", FieldAuthz::Scope(scopes::READ_API_KEYS)),
        (
            "updateAPIKeyProfiles",
            FieldAuthz::Scope(scopes::WRITE_API_KEYS),
        ),
        ("channels", FieldAuthz::Scope(scopes::READ_CHANNELS)),
        ("models", FieldAuthz::Scope(scopes::READ_CHANNELS)),
    ];

    for (field, expected) in documented {
        assert_eq!(field_authz(field), expected, "scope drift for {field}");
    }
}

fn caller(is_owner: bool, project_id: Option<&str>) -> RequestContext {
    RequestContext {
        principal: Some(Principal {
            kind: "user".to_owned(),
            id: Some("1".to_owned()),
            is_owner,
        }),
        project_id: project_id.map(str::to_owned),
    }
}

fn denied() -> Result<(), String> {
    Err("missing scope".to_owned())
}

#[test]
fn callers_without_a_principal_get_public_fields_only() {
    assert!(enforce_field(None, "createChannel", Ok(())).is_err());
    assert!(enforce_field(Some(&RequestContext::default()), "me", Ok(())).is_err());
    assert!(enforce_field(None, "updateAutoBackupSettings", Ok(())).is_err());
    assert_eq!(enforce_field(None, "health", denied()), Ok(()));
}

#[test]
fn owners_need_no_scope() {
    let owner = caller(true, None);
    assert_eq!(scope_check(Some(&owner), "createChannel"), None);
    assert_eq!(enforce_field(Some(&owner), "createChannel", denied()), Ok(()));
    assert_eq!(enforce_field(Some(&owner), "updateAutoBackupSettings", denied()), Ok(()));
}

#[test]
fn the_policy_layer_decides_on_scopes() {
    let user = caller(false, Some("project-1"));
    let check = scope_check(Some(&user), "requests").expect("a scope has to be checked");
    assert_eq!(check.scope, scopes::READ_REQUESTS);
    assert_eq!(check.project_id.as_deref(), Some("project-1"));
    assert_eq!(enforce_field(Some(&user), "requests", Ok(())), Ok(()));
    assert_eq!(enforce_field(Some(&user), "requests", denied()), denied());
    assert_eq!(scope_check(Some(&user), "me"), None);
    assert_eq!(scope_check(None, "requests"), None);
}

#[test]
fn signed_in_callers_read_accounting_settings() {
    let user = caller(false, None);
    assert_eq!(enforce_field(Some(&user), "systemGeneralSettings", denied()), Ok(()));
    assert_eq!(enforce_field(Some(&user), "me", denied()), Ok(()));
    assert_eq!(
        enforce_field(Some(&user), "updateSystemGeneralSettings", denied()),
        denied()
    );
}

#[test]
fn owner_only_fields_are_refused_to_others() {
    let user = caller(false, None);
    assert_eq!(
        enforce_field(Some(&user), "backup", Ok(())),
        Err("authz: this operation requires owner".to_owned())
    );
    assert_eq!(
        enforce_field(None, "backup", Ok(())),
        Err("authz: request carries no authenticated principal".to_owned())
    );
    assert_eq!(OWNER_REQUIRED, "authz: this operation requires owner");
    assert_eq!(NO_PRINCIPAL, "authz: request carries no authenticated principal");
}

#[test]
fn fields_without_a_requirement_are_refused_to_everyone() {
    assert_eq!(
        enforce_field(Some(&caller(true, None)), "somethingNew", Ok(())),
        Err("authz: field `somethingNew` is not authorized".to_owned())
    );
}

#[test]
fn only_root_fields_are_gated() {
    assert!(is_gated("QueryRoot", false));
    assert!(is_gated("MutationRoot", false));
    assert!(!is_gated("QueryRoot", true));
    assert!(!is_gated("Channel", false));
    assert_eq!(authorize_resolution("Channel", false, None, "createChannel", denied()), Ok(()));
    assert_eq!(authorize_resolution("QueryRoot", true, None, "__typename", denied()), Ok(()));
    assert!(authorize_resolution("QueryRoot", false, None, "createChannel", Ok(())).is_err());
}

#[test]
fn listed_fields_have_the_requirement_of_their_list() {
    for field in PUBLIC_FIELDS {
        assert_eq!(field_authz(field), FieldAuthz::Public, "{field}");
    }
    for field in AUTHENTICATED_FIELDS {
        assert_eq!(field_authz(field), FieldAuthz::Authenticated, "{field}");
    }
    for field in OWNER_FIELDS {
        assert_eq!(field_authz(field), FieldAuthz::OwnerOnly, "{field}");
    }
    for field in WRITE_CHANNELS_FIELDS {
        assert_eq!(field_authz(field), FieldAuthz::Scope(scopes::WRITE_CHANNELS), "{field}");
    }
    for field in READ_DASHBOARD_FIELDS {
        assert_eq!(field_authz(field), FieldAuthz::Scope(scopes::READ_DASHBOARD), "{field}");
    }
}

#[test]
fn channel_model_prices_take_the_channel_scope() {
    assert_eq!(
        field_authz("saveChannelModelPrices"),
        FieldAuthz::Scope(scopes::WRITE_CHANNELS)
    );
}
