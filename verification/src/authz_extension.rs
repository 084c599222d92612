//! Who may call a root field.
//!
//! Every root field of a query or mutation has one requirement, looked up by its
//! GraphQL name; a field without one is refused. Nested fields and introspection
//! are not gated.
//!
//! Models, channel prices and prompt-protection rules take the channel scopes,
//! api-key profile templates the api-key scopes, project-user edits the user
//! scopes and system settings the settings scopes.
use vstd::prelude::*;

use crate::policy::{Principal, RequestContext};
use crate::scopes;
use crate::text::{is_listed, joined3, listed, optional_text, same_text};

verus! {

/// What a root field asks of its caller.
#[derive(Debug, Clone, Copy, PartialEq, Eq)]
pub enum FieldAuthz {
    /// Nothing.
    Public,
    /// To be signed in.
    Authenticated,
    /// To hold a system scope. Owners need none.
    Scope(&'static str),
    /// To be an owner.
    OwnerOnly,
    /// The field has no requirement on record: nobody may call it.
    Deny,
}

/// Root fields open to everyone.
pub const PUBLIC_FIELDS: [&'static str; 2] = [
    "health",
    "version",
];

/// Root fields open to any signed-in caller.
pub const AUTHENTICATED_FIELDS: [&'static str; 28] = [
    "enumCasingProbe",
    "connectionProbe",
    "me",
    "myProjects",
    "updateMe",
    "updateMyPassword",
    "unlinkOIDCIdentity",
    "systemStatus",
    "brandSettings",
    "onboardingInfo",
    "systemModelSettings",
    "systemVersion",
    "checkForUpdate",
    "allScopes",
    "systemGeneralSettings",
    "productExperienceSettings",
    "node",
    "nodes",
    "previewPromptProtectionRule",
    "checkProviderQuotas",
    "manualCheck",
    "publicChannelHealth",
    "myModelCatalog",
    "myBalance",
    "mySubscriptions",
    "myProjectBalance",
    "myProjectWalletComparison",
    "myPrimaryProject",
];

/// Root fields kept to owners.
pub const OWNER_FIELDS: [&'static str; 7] = [
    "backup",
    "restore",
    "clearCache",
    "getCacheDiagnostics",
    "updateProductExperienceSettings",
    "updateAutoBackupSettings",
    "triggerAutoBackup",
];

/// Root fields that take the scope `write_channels`.
pub const WRITE_CHANNELS_FIELDS: [&'static str; 51] = [
    "createChannel",
    "updateChannel",
    "deleteChannel",
    "updateChannelStatus",
    "duplicateChannel",
    "saveChannelEndpoints",
    "bulkArchiveChannels",
    "bulkDisableChannels",
    "bulkEnableChannels",
    "bulkRecoverChannels",
    "bulkDeleteChannels",
    "bulkCreateChannels",
    "bulkImportChannels",
    "bulkUpdateChannelOrdering",
    "syncChannelModels",
    "disableChannelAPIKey",
    "enableChannelAPIKey",
    "enableAllChannelAPIKeys",
    "enableSelectedChannelAPIKeys",
    "deleteDisabledChannelAPIKeys",
    "createChannelOverrideTemplate",
    "updateChannelOverrideTemplate",
    "deleteChannelOverrideTemplate",
    "applyChannelOverrideTemplate",
    "clearChannelOverrideTemplates",
    "upsertModelRoute",
    "createPublicModelWithRoutes",
    "applyChannelModelMappings",
    "setChannelModelMappingAutomation",
    "createModel",
    "updateModel",
    "deleteModel",
    "updateModelStatus",
    "bulkCreateModels",
    "bulkArchiveModels",
    "bulkDisableModels",
    "bulkEnableModels",
    "bulkDeleteModels",
    "saveChannelModelPrices",
    "createPromptProtectionRule",
    "updatePromptProtectionRule",
    "deletePromptProtectionRule",
    "updatePromptProtectionRuleStatus",
    "bulkDeletePromptProtectionRules",
    "bulkEnablePromptProtectionRules",
    "bulkDisablePromptProtectionRules",
    "resetChannelQuotaNow",
    "probeChannelQuota",
    "confirmChannelQuotaProbe",
    "probeNewApiPricing",
    "fetchModels",
];

/// Root fields that take the scope `read_channels`.
pub const READ_CHANNELS_FIELDS: [&'static str; 19] = [
    "testChannel",
    "testChannelAPIKey",
    "testChannelAPIKeys",
    "channels",
    "models",
    "promptProtectionRules",
    "allChannelSummarys",
    "allChannelTags",
    "countChannelsByType",
    "queryChannels",
    "queryModels",
    "queryModelChannelConnections",
    "queryUnassociatedChannels",
    "channelOverrideTemplates",
    "channelProbeData",
    "upstreamModelDeployments",
    "modelRoutes",
    "previewChannelModelMappings",
    "channelModelMappingAutomationSettings",
];

/// Root fields that take the scope `write_api_keys`.
pub const WRITE_API_KEYS_FIELDS: [&'static str; 12] = [
    "createAPIKey",
    "updateAPIKey",
    "updateAPIKeyStatus",
    "rotateAPIKey",
    "updateAPIKeyProfiles",
    "bulkDisableAPIKeys",
    "bulkEnableAPIKeys",
    "bulkArchiveAPIKeys",
    "createApiKeyProfileTemplate",
    "updateApiKeyProfileTemplate",
    "deleteApiKeyProfileTemplate",
    "loadApiKeyProfileTemplate",
];

/// Root fields that take the scope `read_api_keys`.
pub const READ_API_KEYS_FIELDS: [&'static str; 5] = [
    "apiKeys",
    "apiKeyAssignableGroups",
    "apiKeyProfileTemplates",
    "apiKeyQuotaUsages",
    "apiKeyTokenUsageStats",
];

/// Root fields that take the scope `write_projects`.
pub const WRITE_PROJECTS_FIELDS: [&'static str; 5] = [
    "createProject",
    "updateProject",
    "updateProjectStatus",
    "updateProjectProfiles",
    "deleteProject",
];

/// Root fields that take the scope `read_projects`.
pub const READ_PROJECTS_FIELDS: [&'static str; 1] = [
    "projects",
];

/// Root fields that take the scope `write_users`.
pub const WRITE_USERS_FIELDS: [&'static str; 7] = [
    "createUser",
    "updateUser",
    "updateUserStatus",
    "deleteUser",
    "addUserToProject",
    "removeUserFromProject",
    "updateProjectUser",
];

/// Root fields that take the scope `read_users`.
pub const READ_USERS_FIELDS: [&'static str; 1] = [
    "users",
];

/// Root fields that take the scope `write_groups`.
pub const WRITE_GROUPS_FIELDS: [&'static str; 6] = [
    "createSimpleGroup",
    "updateSimpleGroup",
    "assignSimpleGroupUsers",
    "updateSimpleGroupModels",
    "updateSimpleGroupPrice",
    "deleteSimpleGroup",
];

/// Root fields that take the scope `read_groups`.
pub const READ_GROUPS_FIELDS: [&'static str; 1] = [
    "simpleGroups",
];

/// Root fields that take the scope `read_settings`.
pub const READ_SETTINGS_FIELDS: [&'static str; 14] = [
    "publicChannelHealthSettings",
    "storagePolicy",
    "retryPolicy",
    "webhookNotifierConfig",
    "systemChannelSettings",
    "videoStorageSettings",
    "quotaEnforcementSettings",
    "securitySettings",
    "proxyPresets",
    "userAgentPassThroughSettings",
    "passThroughSettings",
    "defaultDataStorageID",
    "autoBackupSettings",
    "previewGcCleanup",
];

/// Root fields that take the scope `write_settings`.
pub const WRITE_SETTINGS_FIELDS: [&'static str; 21] = [
    "updatePublicChannelHealthSettings",
    "updateBrandSettings",
    "updateStoragePolicy",
    "updateRetryPolicy",
    "updateWebhookNotifierConfig",
    "updateSystemModelSettings",
    "updateSystemChannelSettings",
    "updateSystemGeneralSettings",
    "updateDefaultDataStorage",
    "updateSecuritySettings",
    "updateQuotaEnforcementSettings",
    "setQuotaEnforcementSettings",
    "updateUserAgentPassThroughSettings",
    "updatePassThroughSettings",
    "updateVideoStorageSettings",
    "saveProxyPreset",
    "deleteProxyPreset",
    "completeOnboarding",
    "completeSystemModelSettingOnboarding",
    "completeAutoDisableChannelOnboarding",
    "triggerGcCleanup",
];

/// Root fields that take the scope `read_billing`.
pub const READ_BILLING_FIELDS: [&'static str; 3] = [
    "userBalance",
    "projectBalance",
    "projectWalletComparison",
];

/// Root fields that take the scope `read_subscriptions`.
pub const READ_SUBSCRIPTIONS_FIELDS: [&'static str; 3] = [
    "userSubscriptions",
    "subscriptionProjects",
    "subscriptionPlans",
];

/// Root fields that take the scope `grant_credit`.
pub const GRANT_CREDIT_FIELDS: [&'static str; 2] = [
    "grantUserCredit",
    "grantProjectCredit",
];

/// Root fields that take the scope `write_subscriptions`.
pub const WRITE_SUBSCRIPTIONS_FIELDS: [&'static str; 9] = [
    "createSubscriptionPlan",
    "updateSubscriptionPlan",
    "assignUserSubscription",
    "refreshSubscriptionAllowance",
    "pauseUserSubscription",
    "resumeUserSubscription",
    "cancelUserSubscription",
    "renewUserSubscription",
    "setSubscriptionAutoRenew",
];

/// Root fields that take the scope `write_roles`.
pub const WRITE_ROLES_FIELDS: [&'static str; 4] = [
    "createRole",
    "updateRole",
    "deleteRole",
    "bulkDeleteRoles",
];

/// Root fields that take the scope `read_roles`.
pub const READ_ROLES_FIELDS: [&'static str; 1] = [
    "roles",
];

/// Root fields that take the scope `write_prompts`.
pub const WRITE_PROMPTS_FIELDS: [&'static str; 7] = [
    "createPrompt",
    "updatePrompt",
    "deletePrompt",
    "updatePromptStatus",
    "bulkDeletePrompts",
    "bulkEnablePrompts",
    "bulkDisablePrompts",
];

/// Root fields that take the scope `read_prompts`.
pub const READ_PROMPTS_FIELDS: [&'static str; 1] = [
    "prompts",
];

/// Root fields that take the scope `write_data_storages`.
pub const WRITE_DATA_STORAGES_FIELDS: [&'static str; 2] = [
    "createDataStorage",
    "updateDataStorage",
];

/// Root fields that take the scope `read_data_storages`.
pub const READ_DATA_STORAGES_FIELDS: [&'static str; 1] = [
    "dataStorages",
];

/// Root fields that take the scope `read_requests`.
pub const READ_REQUESTS_FIELDS: [&'static str; 5] = [
    "requests",
    "usageLogs",
    "threads",
    "traces",
    "requestRouteExplanation",
];

/// Root fields that take the scope `write_commercialization`.
pub const WRITE_COMMERCIALIZATION_FIELDS: [&'static str; 7] = [
    "createPriceBook",
    "createProviderPriceChangeSet",
    "createRetailPriceChangeSet",
    "saveRetailPriceChangeSetItem",
    "submitChangeSet",
    "approveChangeSet",
    "rejectChangeSet",
];

/// Root fields that take the scope `read_commercialization`.
pub const READ_COMMERCIALIZATION_FIELDS: [&'static str; 3] = [
    "priceBooks",
    "previewCustomerCharge",
    "changeSets",
];

/// Root fields that take the scope `read_dashboard`.
pub const READ_DASHBOARD_FIELDS: [&'static str; 24] = [
    "dashboardOverview",
    "requestStats",
    "tokenStats",
    "requestStatsByChannel",
    "requestStatsByModel",
    "requestStatsByAPIKey",
    "tokenStatsByAPIKey",
    "tokenStatsByChannel",
    "tokenStatsByModel",
    "costStatsByChannel",
    "costStatsByModel",
    "costStatsByAPIKey",
    "dailyRequestStats",
    "hourlyRequestStats",
    "topRequestsProjects",
    "channelSuccessRates",
    "fastestChannels",
    "fastestModels",
    "modelPerformanceStats",
    "channelPerformanceStats",
    "operationsLedger",
    "operationsFlow",
    "operationsModelSeries",
    "providerObservationHistory",
];

/// The requirement of a root field.
pub open spec fn required(field: Seq<char>) -> FieldAuthz {
    if listed(PUBLIC_FIELDS@, field) {
        FieldAuthz::Public
    } else if listed(AUTHENTICATED_FIELDS@, field) {
        FieldAuthz::Authenticated
    } else if listed(OWNER_FIELDS@, field) {
        FieldAuthz::OwnerOnly
    } else if listed(WRITE_CHANNELS_FIELDS@, field) {
        FieldAuthz::Scope(scopes::WRITE_CHANNELS)
    } else if listed(READ_CHANNELS_FIELDS@, field) {
        FieldAuthz::Scope(scopes::READ_CHANNELS)
    } else if listed(WRITE_API_KEYS_FIELDS@, field) {
        FieldAuthz::Scope(scopes::WRITE_API_KEYS)
    } else if listed(READ_API_KEYS_FIELDS@, field) {
        FieldAuthz::Scope(scopes::READ_API_KEYS)
    } else if listed(WRITE_PROJECTS_FIELDS@, field) {
        FieldAuthz::Scope(scopes::WRITE_PROJECTS)
    } else if listed(READ_PROJECTS_FIELDS@, field) {
        FieldAuthz::Scope(scopes::READ_PROJECTS)
    } else if listed(WRITE_USERS_FIELDS@, field) {
        FieldAuthz::Scope(scopes::WRITE_USERS)
    } else if listed(READ_USERS_FIELDS@, field) {
        FieldAuthz::Scope(scopes::READ_USERS)
    } else if listed(WRITE_GROUPS_FIELDS@, field) {
        FieldAuthz::Scope(scopes::WRITE_GROUPS)
    } else if listed(READ_GROUPS_FIELDS@, field) {
        FieldAuthz::Scope(scopes::READ_GROUPS)
    } else if listed(READ_SETTINGS_FIELDS@, field) {
        FieldAuthz::Scope(scopes::READ_SETTINGS)
    } else if listed(WRITE_SETTINGS_FIELDS@, field) {
        FieldAuthz::Scope(scopes::WRITE_SETTINGS)
    } else if listed(READ_BILLING_FIELDS@, field) {
        FieldAuthz::Scope(scopes::READ_BILLING)
    } else if listed(READ_SUBSCRIPTIONS_FIELDS@, field) {
        FieldAuthz::Scope(scopes::READ_SUBSCRIPTIONS)
    } else if listed(GRANT_CREDIT_FIELDS@, field) {
        FieldAuthz::Scope(scopes::GRANT_CREDIT)
    } else if listed(WRITE_SUBSCRIPTIONS_FIELDS@, field) {
        FieldAuthz::Scope(scopes::WRITE_SUBSCRIPTIONS)
    } else if listed(WRITE_ROLES_FIELDS@, field) {
        FieldAuthz::Scope(scopes::WRITE_ROLES)
    } else if listed(READ_ROLES_FIELDS@, field) {
        FieldAuthz::Scope(scopes::READ_ROLES)
    } else if listed(WRITE_PROMPTS_FIELDS@, field) {
        FieldAuthz::Scope(scopes::WRITE_PROMPTS)
    } else if listed(READ_PROMPTS_FIELDS@, field) {
        FieldAuthz::Scope(scopes::READ_PROMPTS)
    } else if listed(WRITE_DATA_STORAGES_FIELDS@, field) {
        FieldAuthz::Scope(scopes::WRITE_DATA_STORAGES)
    } else if listed(READ_DATA_STORAGES_FIELDS@, field) {
        FieldAuthz::Scope(scopes::READ_DATA_STORAGES)
    } else if listed(READ_REQUESTS_FIELDS@, field) {
        FieldAuthz::Scope(scopes::READ_REQUESTS)
    } else if listed(WRITE_COMMERCIALIZATION_FIELDS@, field) {
        FieldAuthz::Scope(scopes::WRITE_COMMERCIALIZATION)
    } else if listed(READ_COMMERCIALIZATION_FIELDS@, field) {
        FieldAuthz::Scope(scopes::READ_COMMERCIALIZATION)
    } else if listed(READ_DASHBOARD_FIELDS@, field) {
        FieldAuthz::Scope(scopes::READ_DASHBOARD)
    } else {
        FieldAuthz::Deny
    }
}

/// The requirement of a root field, by its GraphQL name.
pub fn field_authz(field: &str) -> (authz: FieldAuthz)
    ensures
        authz == required(field@),
{
    if is_listed(PUBLIC_FIELDS, field) {
        FieldAuthz::Public
    } else if is_listed(AUTHENTICATED_FIELDS, field) {
        FieldAuthz::Authenticated
    } else if is_listed(OWNER_FIELDS, field) {
        FieldAuthz::OwnerOnly
    } else if is_listed(WRITE_CHANNELS_FIELDS, field) {
        FieldAuthz::Scope(scopes::WRITE_CHANNELS)
    } else if is_listed(READ_CHANNELS_FIELDS, field) {
        FieldAuthz::Scope(scopes::READ_CHANNELS)
    } else if is_listed(WRITE_API_KEYS_FIELDS, field) {
        FieldAuthz::Scope(scopes::WRITE_API_KEYS)
    } else if is_listed(READ_API_KEYS_FIELDS, field) {
        FieldAuthz::Scope(scopes::READ_API_KEYS)
    } else if is_listed(WRITE_PROJECTS_FIELDS, field) {
        FieldAuthz::Scope(scopes::WRITE_PROJECTS)
    } else if is_listed(READ_PROJECTS_FIELDS, field) {
        FieldAuthz::Scope(scopes::READ_PROJECTS)
    } else if is_listed(WRITE_USERS_FIELDS, field) {
        FieldAuthz::Scope(scopes::WRITE_USERS)
    } else if is_listed(READ_USERS_FIELDS, field) {
        FieldAuthz::Scope(scopes::READ_USERS)
    } else if is_listed(WRITE_GROUPS_FIELDS, field) {
        FieldAuthz::Scope(scopes::WRITE_GROUPS)
    } else if is_listed(READ_GROUPS_FIELDS, field) {
        FieldAuthz::Scope(scopes::READ_GROUPS)
    } else if is_listed(READ_SETTINGS_FIELDS, field) {
        FieldAuthz::Scope(scopes::READ_SETTINGS)
    } else if is_listed(WRITE_SETTINGS_FIELDS, field) {
        FieldAuthz::Scope(scopes::WRITE_SETTINGS)
    } else if is_listed(READ_BILLING_FIELDS, field) {
        FieldAuthz::Scope(scopes::READ_BILLING)
    } else if is_listed(READ_SUBSCRIPTIONS_FIELDS, field) {
        FieldAuthz::Scope(scopes::READ_SUBSCRIPTIONS)
    } else if is_listed(GRANT_CREDIT_FIELDS, field) {
        FieldAuthz::Scope(scopes::GRANT_CREDIT)
    } else if is_listed(WRITE_SUBSCRIPTIONS_FIELDS, field) {
        FieldAuthz::Scope(scopes::WRITE_SUBSCRIPTIONS)
    } else if is_listed(WRITE_ROLES_FIELDS, field) {
        FieldAuthz::Scope(scopes::WRITE_ROLES)
    } else if is_listed(READ_ROLES_FIELDS, field) {
        FieldAuthz::Scope(scopes::READ_ROLES)
    } else if is_listed(WRITE_PROMPTS_FIELDS, field) {
        FieldAuthz::Scope(scopes::WRITE_PROMPTS)
    } else if is_listed(READ_PROMPTS_FIELDS, field) {
        FieldAuthz::Scope(scopes::READ_PROMPTS)
    } else if is_listed(WRITE_DATA_STORAGES_FIELDS, field) {
        FieldAuthz::Scope(scopes::WRITE_DATA_STORAGES)
    } else if is_listed(READ_DATA_STORAGES_FIELDS, field) {
        FieldAuthz::Scope(scopes::READ_DATA_STORAGES)
    } else if is_listed(READ_REQUESTS_FIELDS, field) {
        FieldAuthz::Scope(scopes::READ_REQUESTS)
    } else if is_listed(WRITE_COMMERCIALIZATION_FIELDS, field) {
        FieldAuthz::Scope(scopes::WRITE_COMMERCIALIZATION)
    } else if is_listed(READ_COMMERCIALIZATION_FIELDS, field) {
        FieldAuthz::Scope(scopes::READ_COMMERCIALIZATION)
    } else if is_listed(READ_DASHBOARD_FIELDS, field) {
        FieldAuthz::Scope(scopes::READ_DASHBOARD)
    } else {
        FieldAuthz::Deny
    }
}

pub const NO_PRINCIPAL: &'static str = "authz: request carries no authenticated principal";

pub const OWNER_REQUIRED: &'static str = "authz: this operation requires owner";

/// The check that the policy layer is asked to make for a field: that the caller
/// holds `scope`, in the selected project where there is one.
#[derive(Debug, Clone, PartialEq, Eq)]
pub struct ScopeCheck {
    pub scope: &'static str,
    pub project_id: Option<String>,
}

/// Whether a field has to be checked by the policy layer: it takes a scope, and
/// its caller is signed in and no owner.
pub open spec fn needs_scope_check(caller: Option<Principal>, field: Seq<char>) -> bool {
    required(field) is Scope && caller is Some && !caller->0.is_owner
}

/// The check that the policy layer has to make before `field` is answered, if
/// there is one.
pub fn scope_check(context: Option<&RequestContext>, field: &str) -> (check: Option<ScopeCheck>)
    ensures
        check is Some <==> needs_scope_check(crate::policy::caller(context), field@),
        check matches Some(asked) ==> required(field@) == FieldAuthz::Scope(asked.scope)
            && optional_text(asked.project_id) == optional_text(
            crate::policy::selected_project(context),
        ),
{
    match (field_authz(field), context) {
        (FieldAuthz::Scope(scope), Some(request)) => match &request.principal {
            Some(principal) => if principal.is_owner {
                None
            } else {
                let project_id = match &request.project_id {
                    Some(id) => Some(id.clone()),
                    None => None,
                };
                Some(ScopeCheck { scope, project_id })
            },
            None => None,
        },
        _ => None,
    }
}

/// Why a caller may not call a field; nothing where the caller may. `verdict` is
/// the policy layer's answer to the scope check, where one is needed.
pub open spec fn refusal(
    caller: Option<Principal>,
    field: Seq<char>,
    verdict: Result<(), String>,
) -> Option<Seq<char>> {
    match required(field) {
        FieldAuthz::Public => None,
        FieldAuthz::Deny => Some("authz: field `"@ + field + "` is not authorized"@),
        FieldAuthz::Authenticated => if caller is Some {
            None
        } else {
            Some(NO_PRINCIPAL@)
        },
        FieldAuthz::OwnerOnly => match caller {
            None => Some(NO_PRINCIPAL@),
            Some(principal) => if principal.is_owner {
                None
            } else {
                Some(OWNER_REQUIRED@)
            },
        },
        FieldAuthz::Scope(_) => match caller {
            None => Some(NO_PRINCIPAL@),
            Some(principal) => if principal.is_owner {
                None
            } else {
                match verdict {
                    Ok(_) => None,
                    Err(objection) => Some(objection@),
                }
            },
        },
    }
}

/// `outcome` is what a refusal, or the lack of one, comes to.
pub open spec fn answers(outcome: Result<(), String>, refusal: Option<Seq<char>>) -> bool {
    &&& outcome is Ok <==> refusal is None
    &&& outcome matches Err(message) ==> Some(message@) == refusal
}

/// Decides whether a root field may be called. `verdict` is the policy layer's
/// answer to `scope_check`; it counts only where that asks for one.
pub fn enforce_field(
    context: Option<&RequestContext>,
    field: &str,
    verdict: Result<(), String>,
) -> (outcome: Result<(), String>)
    ensures
        answers(outcome, refusal(crate::policy::caller(context), field@, verdict)),
{
    let principal = match context {
        Some(request) => request.principal.as_ref(),
        None => None,
    };
    match field_authz(field) {
        FieldAuthz::Public => Ok(()),
        FieldAuthz::Authenticated => if principal.is_some() {
            Ok(())
        } else {
            Err(NO_PRINCIPAL.to_owned())
        },
        FieldAuthz::Scope(_) => match principal {
            None => Err(NO_PRINCIPAL.to_owned()),
            Some(caller) => if caller.is_owner {
                Ok(())
            } else {
                verdict
            },
        },
        FieldAuthz::OwnerOnly => match principal {
            None => Err(NO_PRINCIPAL.to_owned()),
            Some(caller) => if caller.is_owner {
                Ok(())
            } else {
                Err(OWNER_REQUIRED.to_owned())
            },
        },
        FieldAuthz::Deny => Err(joined3("authz: field `", field, "` is not authorized")),
    }
}

/// Whether a field of `parent_type` is gated: it is a root field and no
/// introspection.
pub open spec fn gated(parent_type: Seq<char>, is_for_introspection: bool) -> bool {
    (parent_type == "QueryRoot"@ || parent_type == "MutationRoot"@) && !is_for_introspection
}

/// Whether a field of `parent_type` is gated: it is a root field and no
/// introspection.
pub fn is_gated(parent_type: &str, is_for_introspection: bool) -> (answer: bool)
    ensures
        answer == gated(parent_type@, is_for_introspection),
{
    !is_for_introspection && (same_text(parent_type, "QueryRoot") || same_text(
        parent_type,
        "MutationRoot",
    ))
}

/// Decides whether a field may be resolved: gated fields by their requirement,
/// all others without condition.
pub fn authorize_resolution(
    parent_type: &str,
    is_for_introspection: bool,
    context: Option<&RequestContext>,
    field: &str,
    verdict: Result<(), String>,
) -> (outcome: Result<(), String>)
    ensures
        answers(
            outcome,
            if gated(parent_type@, is_for_introspection) {
                refusal(crate::policy::caller(context), field@, verdict)
            } else {
                None
            },
        ),
{
    if is_gated(parent_type, is_for_introspection) {
        enforce_field(context, field, verdict)
    } else {
        Ok(())
    }
}

// ---------------------------------------------------------------------------
// Laws
// ---------------------------------------------------------------------------

/// A field without a requirement on record is refused to everyone, owners
/// included, whatever the policy layer says.
pub proof fn unmapped_fields_are_refused(
    caller: Option<Principal>,
    field: Seq<char>,
    verdict: Result<(), String>,
)
    requires
        required(field) == FieldAuthz::Deny,
    ensures
        refusal(caller, field, verdict) is Some,
{
}

/// An owner may call every field that has a requirement on record.
pub proof fn owners_bypass_every_requirement(
    caller: Principal,
    field: Seq<char>,
    verdict: Result<(), String>,
)
    requires
        caller.is_owner,
    ensures
        refusal(Some(caller), field, verdict) is None <==> required(field) != FieldAuthz::Deny,
{
}

/// A request without a caller gets at public fields only.
pub proof fn anonymous_requests_get_public_fields_only(
    field: Seq<char>,
    verdict: Result<(), String>,
)
    ensures
        refusal(None, field, verdict) is None <==> required(field) == FieldAuthz::Public,
{
}

/// Whoever is no owner is refused the owners' fields, whatever scopes they hold.
pub proof fn owner_fields_are_kept_to_owners(
    caller: Option<Principal>,
    field: Seq<char>,
    verdict: Result<(), String>,
)
    requires
        required(field) == FieldAuthz::OwnerOnly,
    ensures
        refusal(caller, field, verdict) is None <==> caller is Some && caller->0.is_owner,
{
}

/// Where a scope check is needed its verdict decides, and nowhere else does it
/// matter.
pub proof fn verdicts_count_where_asked_for(
    caller: Option<Principal>,
    field: Seq<char>,
    verdict: Result<(), String>,
    other: Result<(), String>,
)
    ensures
        needs_scope_check(caller, field) ==> (refusal(caller, field, verdict) is None
            <==> verdict is Ok),
        !needs_scope_check(caller, field) ==> refusal(caller, field, verdict) == refusal(
            caller,
            field,
            other,
        ),
{
}

/// A field that takes a signed-in caller is answered for each of them and for nobody
/// else, whoever they are and whatever the policy layer says.
pub proof fn signed_in_callers_get_their_fields(
    caller: Option<Principal>,
    field: Seq<char>,
    verdict: Result<(), String>,
)
    requires
        required(field) == FieldAuthz::Authenticated,
    ensures
        refusal(caller, field, verdict) is None <==> caller is Some,
        caller is None ==> refusal(caller, field, verdict) == Some(
            "authz: request carries no authenticated principal"@,
        ),
{
}

/// Public fields are answered for everyone.
pub proof fn public_fields_are_answered(
    caller: Option<Principal>,
    field: Seq<char>,
    verdict: Result<(), String>,
)
    requires
        required(field) == FieldAuthz::Public,
    ensures
        refusal(caller, field, verdict) is None,
{
}

/// What the refusals read like: a missing caller and a missing right to own are named as
/// such, an objection of the policy layer is handed on, and a field without a
/// requirement is named.
pub proof fn refusals_say_why(
    caller: Option<Principal>,
    field: Seq<char>,
    verdict: Result<(), String>,
)
    ensures
        required(field) == FieldAuthz::Deny ==> refusal(caller, field, verdict) == Some(
            "authz: field `"@ + field + "` is not authorized"@,
        ),
        caller is None && required(field) != FieldAuthz::Deny && required(field)
            != FieldAuthz::Public ==> refusal(caller, field, verdict) == Some(
            "authz: request carries no authenticated principal"@,
        ),
        caller is Some && !caller->0.is_owner && required(field) == FieldAuthz::OwnerOnly
            ==> refusal(caller, field, verdict) == Some("authz: this operation requires owner"@),
{
}

/// A field that takes a scope is answered for owners, and for others as the policy layer
/// says; its objection is the refusal.
pub proof fn scoped_fields_follow_the_policy(
    caller: Principal,
    field: Seq<char>,
    verdict: Result<(), String>,
)
    requires
        required(field) is Scope,
    ensures
        caller.is_owner ==> refusal(Some(caller), field, verdict) is None,
        !caller.is_owner && verdict is Ok ==> refusal(Some(caller), field, verdict) is None,
        !caller.is_owner && verdict is Err ==> refusal(Some(caller), field, verdict) == Some(
            verdict->Err_0@,
        ),
{
}

/// The policy layer is asked about scoped fields only, and only for callers that are
/// signed in and no owners.
pub proof fn the_policy_is_asked_about_scopes(
    context: Option<&RequestContext>,
    field: Seq<char>,
)
    ensures
        needs_scope_check(crate::policy::caller(context), field) <==> {
            &&& required(field) is Scope
            &&& context is Some
            &&& context->0.principal is Some
            &&& !context->0.principal->0.is_owner
        },
        context matches Some(request) ==> crate::policy::selected_project(context)
            == request.project_id,
        context is None ==> crate::policy::selected_project(context) is None,
{
}

/// An outcome is a success exactly where there is no refusal, and otherwise the refusal
/// itself.
pub proof fn outcomes_hand_refusals_on(
    outcome: Result<(), String>,
    context: Option<&RequestContext>,
    field: Seq<char>,
    verdict: Result<(), String>,
)
    requires
        answers(outcome, refusal(crate::policy::caller(context), field, verdict)),
    ensures
        required(field) == FieldAuthz::Authenticated ==> (outcome is Ok <==> context is Some
            && context->0.principal is Some),
        required(field) == FieldAuthz::Public ==> outcome is Ok,
        required(field) == FieldAuthz::Deny ==> outcome is Err,
        required(field) == FieldAuthz::OwnerOnly ==> (outcome is Ok <==> context is Some
            && context->0.principal is Some && context->0.principal->0.is_owner),
        required(field) is Scope ==> (outcome is Ok <==> context is Some && context->0.principal
            is Some && (context->0.principal->0.is_owner || verdict is Ok)),
        outcome matches Err(message) ==> refusal(crate::policy::caller(context), field, verdict)
            == Some(message@),
{
}

/// Fields of the two root types are gated, unless the document asks about the schema;
/// fields of other types are answered without condition.
pub proof fn root_types_are_gated(
    parent_type: Seq<char>,
    is_for_introspection: bool,
    outcome: Result<(), String>,
    caller: Option<Principal>,
    field: Seq<char>,
    verdict: Result<(), String>,
)
    requires
        answers(
            outcome,
            if gated(parent_type, is_for_introspection) {
                refusal(caller, field, verdict)
            } else {
                None
            },
        ),
    ensures
        gated("QueryRoot"@, false),
        gated("MutationRoot"@, false),
        is_for_introspection ==> outcome is Ok,
        parent_type != "QueryRoot"@ && parent_type != "MutationRoot"@ ==> outcome is Ok,
        !is_for_introspection && (parent_type == "QueryRoot"@ || parent_type == "MutationRoot"@)
            ==> answers(outcome, refusal(caller, field, verdict)),
{
}

} // verus!
