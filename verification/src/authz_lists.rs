//! Every root field stands on one list: its requirement does not depend on the order
//! in which the lists are looked through.
use vstd::prelude::*;

use crate::authz_extension::{required, FieldAuthz};
use crate::authz_extension::{
    AUTHENTICATED_FIELDS,
    GRANT_CREDIT_FIELDS,
    OWNER_FIELDS,
    PUBLIC_FIELDS,
    READ_API_KEYS_FIELDS,
    READ_BILLING_FIELDS,
    READ_CHANNELS_FIELDS,
    READ_COMMERCIALIZATION_FIELDS,
    READ_DASHBOARD_FIELDS,
    READ_DATA_STORAGES_FIELDS,
    READ_GROUPS_FIELDS,
    READ_PROJECTS_FIELDS,
    READ_PROMPTS_FIELDS,
    READ_REQUESTS_FIELDS,
    READ_ROLES_FIELDS,
    READ_SETTINGS_FIELDS,
    READ_SUBSCRIPTIONS_FIELDS,
    READ_USERS_FIELDS,
    WRITE_API_KEYS_FIELDS,
    WRITE_CHANNELS_FIELDS,
    WRITE_COMMERCIALIZATION_FIELDS,
    WRITE_DATA_STORAGES_FIELDS,
    WRITE_GROUPS_FIELDS,
    WRITE_PROJECTS_FIELDS,
    WRITE_PROMPTS_FIELDS,
    WRITE_ROLES_FIELDS,
    WRITE_SETTINGS_FIELDS,
    WRITE_SUBSCRIPTIONS_FIELDS,
    WRITE_USERS_FIELDS,
};
use crate::scopes;
use crate::text::listed;

verus! {

/// The number of a character, or zero where the text is too short.
spec fn char_at(s: Seq<char>, i: int) -> int {
    if i < s.len() {
        s[i] as int
    } else {
        0
    }
}

/// A number that tells the names of root fields apart.
spec fn mark(s: Seq<char>) -> int {
    1000 * s.len() + char_at(s, 0) + 3 * char_at(s, 1) + 31 * char_at(s, 7) + char_at(s, 12)
}

proof fn marks_of_public_fields(field: Seq<char>)
    requires
        listed(PUBLIC_FIELDS@, field),
    ensures
        ({
            let m = mark(field);
            m == 6407 || m == 7421
        }),
{
    reveal_strlit("health");
    reveal_strlit("version");
    assert(mark("health"@) == 6407);
    assert(mark("version"@) == 7421);
    let i = choose|i: int|
        0 <= i < PUBLIC_FIELDS@.len() && (#[trigger] PUBLIC_FIELDS@[i])@ == field;
    assert(
        i == 0 || i == 1
    );
}

proof fn marks_of_authenticated_fields(field: Seq<char>)
    requires
        listed(AUTHENTICATED_FIELDS@, field),
    ensures
        ({
            let m = mark(field);
            m == 18797 || m == 18798 || m == 2412 || m == 13541 || m == 11584 || m == 20323
            || m == 20811 || m == 16074 || m == 17151 || m == 17798 || m == 23020
            || m == 16719 || m == 18061 || m == 12552 || m == 24717 || m == 27698
            || m == 4443 || m == 5443 || m == 30050 || m == 22966 || m == 14624
            || m == 22795 || m == 16660 || m == 12541 || m == 19117 || m == 19638
            || m == 28649 || m == 20112
        }),
{
    reveal_strlit("enumCasingProbe");
    reveal_strlit("connectionProbe");
    reveal_strlit("me");
    reveal_strlit("myProjects");
    reveal_strlit("updateMe");
    reveal_strlit("updateMyPassword");
    reveal_strlit("unlinkOIDCIdentity");
    reveal_strlit("systemStatus");
    reveal_strlit("brandSettings");
    reveal_strlit("onboardingInfo");
    reveal_strlit("systemModelSettings");
    reveal_strlit("systemVersion");
    reveal_strlit("checkForUpdate");
    reveal_strlit("allScopes");
    reveal_strlit("systemGeneralSettings");
    reveal_strlit("productExperienceSettings");
    reveal_strlit("node");
    reveal_strlit("nodes");
    reveal_strlit("previewPromptProtectionRule");
    reveal_strlit("checkProviderQuotas");
    reveal_strlit("manualCheck");
    reveal_strlit("publicChannelHealth");
    reveal_strlit("myModelCatalog");
    reveal_strlit("myBalance");
    reveal_strlit("mySubscriptions");
    reveal_strlit("myProjectBalance");
    reveal_strlit("myProjectWalletComparison");
    reveal_strlit("myPrimaryProject");
    assert(mark("enumCasingProbe"@) == 18797);
    assert(mark("connectionProbe"@) == 18798);
    assert(mark("me"@) == 2412);
    assert(mark("myProjects"@) == 13541);
    assert(mark("updateMe"@) == 11584);
    assert(mark("updateMyPassword"@) == 20323);
    assert(mark("unlinkOIDCIdentity"@) == 20811);
    assert(mark("systemStatus"@) == 16074);
    assert(mark("brandSettings"@) == 17151);
    assert(mark("onboardingInfo"@) == 17798);
    assert(mark("systemModelSettings"@) == 23020);
    assert(mark("systemVersion"@) == 16719);
    assert(mark("checkForUpdate"@) == 18061);
    assert(mark("allScopes"@) == 12552);
    assert(mark("systemGeneralSettings"@) == 24717);
    assert(mark("productExperienceSettings"@) == 27698);
    assert(mark("node"@) == 4443);
    assert(mark("nodes"@) == 5443);
    assert(mark("previewPromptProtectionRule"@) == 30050);
    assert(mark("checkProviderQuotas"@) == 22966);
    assert(mark("manualCheck"@) == 14624);
    assert(mark("publicChannelHealth"@) == 22795);
    assert(mark("myModelCatalog"@) == 16660);
    assert(mark("myBalance"@) == 12541);
    assert(mark("mySubscriptions"@) == 19117);
    assert(mark("myProjectBalance"@) == 19638);
    assert(mark("myProjectWalletComparison"@) == 28649);
    assert(mark("myPrimaryProject"@) == 20112);
    let i = choose|i: int|
        0 <= i < AUTHENTICATED_FIELDS@.len() && (#[trigger] AUTHENTICATED_FIELDS@[i])@ == field;
    assert(
        i == 0 || i == 1 || i == 2 || i == 3 || i == 4 || i == 5 || i == 6 || i == 7
        || i == 8 || i == 9 || i == 10 || i == 11 || i == 12 || i == 13 || i == 14
        || i == 15 || i == 16 || i == 17 || i == 18 || i == 19 || i == 20 || i == 21
        || i == 22 || i == 23 || i == 24 || i == 25 || i == 26 || i == 27
    );
}

proof fn marks_of_owner_fields(field: Seq<char>)
    requires
        listed(OWNER_FIELDS@, field),
    ensures
        ({
            let m = mark(field);
            m == 6389 || m == 7417 || m == 13492 || m == 22647 || m == 35103 || m == 28179
            || m == 19570
        }),
{
    reveal_strlit("backup");
    reveal_strlit("restore");
    reveal_strlit("clearCache");
    reveal_strlit("getCacheDiagnostics");
    reveal_strlit("updateProductExperienceSettings");
    reveal_strlit("updateAutoBackupSettings");
    reveal_strlit("triggerAutoBackup");
    assert(mark("backup"@) == 6389);
    assert(mark("restore"@) == 7417);
    assert(mark("clearCache"@) == 13492);
    assert(mark("getCacheDiagnostics"@) == 22647);
    assert(mark("updateProductExperienceSettings"@) == 35103);
    assert(mark("updateAutoBackupSettings"@) == 28179);
    assert(mark("triggerAutoBackup"@) == 19570);
    let i = choose|i: int|
        0 <= i < OWNER_FIELDS@.len() && (#[trigger] OWNER_FIELDS@[i])@ == field;
    assert(
        i == 0 || i == 1 || i == 2 || i == 3 || i == 4 || i == 5 || i == 6
    );
}

proof fn marks_of_write_channels_fields(field: Seq<char>)
    requires
        listed(WRITE_CHANNELS_FIELDS@, field),
    ensures
        ({
            let m = mark(field);
            m == 16773 || m == 16785 || m == 16735 || m == 22785 || m == 20157 || m == 23926
            || m == 22777 || m == 22560 || m == 21584 || m == 22994 || m == 21677
            || m == 21553 || m == 21987 || m == 28553 || m == 20999 || m == 22593
            || m == 22763 || m == 26889 || m == 31663 || m == 31759 || m == 32773
            || m == 32785 || m == 32735 || m == 31519 || m == 32509 || m == 20005
            || m == 31145 || m == 28517 || m == 35928 || m == 14882 || m == 14894
            || m == 14844 || m == 21010 || m == 19556 || m == 20784 || m == 20567
            || m == 19587 || m == 19680 || m == 25927 || m == 30055 || m == 30067
            || m == 30017 || m == 36067 || m == 34691 || m == 34598 || m == 35570
            || m == 23505 || m == 20542 || m == 26610 || m == 22257 || m == 14505
        }),
{
    reveal_strlit("createChannel");
    reveal_strlit("updateChannel");
    reveal_strlit("deleteChannel");
    reveal_strlit("updateChannelStatus");
    reveal_strlit("duplicateChannel");
    reveal_strlit("saveChannelEndpoints");
    reveal_strlit("bulkArchiveChannels");
    reveal_strlit("bulkDisableChannels");
    reveal_strlit("bulkEnableChannels");
    reveal_strlit("bulkRecoverChannels");
    reveal_strlit("bulkDeleteChannels");
    reveal_strlit("bulkCreateChannels");
    reveal_strlit("bulkImportChannels");
    reveal_strlit("bulkUpdateChannelOrdering");
    reveal_strlit("syncChannelModels");
    reveal_strlit("disableChannelAPIKey");
    reveal_strlit("enableChannelAPIKey");
    reveal_strlit("enableAllChannelAPIKeys");
    reveal_strlit("enableSelectedChannelAPIKeys");
    reveal_strlit("deleteDisabledChannelAPIKeys");
    reveal_strlit("createChannelOverrideTemplate");
    reveal_strlit("updateChannelOverrideTemplate");
    reveal_strlit("deleteChannelOverrideTemplate");
    reveal_strlit("applyChannelOverrideTemplate");
    reveal_strlit("clearChannelOverrideTemplates");
    reveal_strlit("upsertModelRoute");
    reveal_strlit("createPublicModelWithRoutes");
    reveal_strlit("applyChannelModelMappings");
    reveal_strlit("setChannelModelMappingAutomation");
    reveal_strlit("createModel");
    reveal_strlit("updateModel");
    reveal_strlit("deleteModel");
    reveal_strlit("updateModelStatus");
    reveal_strlit("bulkCreateModels");
    reveal_strlit("bulkArchiveModels");
    reveal_strlit("bulkDisableModels");
    reveal_strlit("bulkEnableModels");
    reveal_strlit("bulkDeleteModels");
    reveal_strlit("saveChannelModelPrices");
    reveal_strlit("createPromptProtectionRule");
    reveal_strlit("updatePromptProtectionRule");
    reveal_strlit("deletePromptProtectionRule");
    reveal_strlit("updatePromptProtectionRuleStatus");
    reveal_strlit("bulkDeletePromptProtectionRules");
    reveal_strlit("bulkEnablePromptProtectionRules");
    reveal_strlit("bulkDisablePromptProtectionRules");
    reveal_strlit("resetChannelQuotaNow");
    reveal_strlit("probeChannelQuota");
    reveal_strlit("confirmChannelQuotaProbe");
    reveal_strlit("probeNewApiPricing");
    reveal_strlit("fetchModels");
    assert(mark("createChannel"@) == 16773);
    assert(mark("updateChannel"@) == 16785);
    assert(mark("deleteChannel"@) == 16735);
    assert(mark("updateChannelStatus"@) == 22785);
    assert(mark("duplicateChannel"@) == 20157);
    assert(mark("saveChannelEndpoints"@) == 23926);
    assert(mark("bulkArchiveChannels"@) == 22777);
    assert(mark("bulkDisableChannels"@) == 22560);
    assert(mark("bulkEnableChannels"@) == 21584);
    assert(mark("bulkRecoverChannels"@) == 22994);
    assert(mark("bulkDeleteChannels"@) == 21677);
    assert(mark("bulkCreateChannels"@) == 21553);
    assert(mark("bulkImportChannels"@) == 21987);
    assert(mark("bulkUpdateChannelOrdering"@) == 28553);
    assert(mark("syncChannelModels"@) == 20999);
    assert(mark("disableChannelAPIKey"@) == 22593);
    assert(mark("enableChannelAPIKey"@) == 22763);
    assert(mark("enableAllChannelAPIKeys"@) == 26889);
    assert(mark("enableSelectedChannelAPIKeys"@) == 31663);
    assert(mark("deleteDisabledChannelAPIKeys"@) == 31759);
    assert(mark("createChannelOverrideTemplate"@) == 32773);
    assert(mark("updateChannelOverrideTemplate"@) == 32785);
    assert(mark("deleteChannelOverrideTemplate"@) == 32735);
    assert(mark("applyChannelOverrideTemplate"@) == 31519);
    assert(mark("clearChannelOverrideTemplates"@) == 32509);
    assert(mark("upsertModelRoute"@) == 20005);
    assert(mark("createPublicModelWithRoutes"@) == 31145);
    assert(mark("applyChannelModelMappings"@) == 28517);
    assert(mark("setChannelModelMappingAutomation"@) == 35928);
    assert(mark("createModel"@) == 14882);
    assert(mark("updateModel"@) == 14894);
    assert(mark("deleteModel"@) == 14844);
    assert(mark("updateModelStatus"@) == 21010);
    assert(mark("bulkCreateModels"@) == 19556);
    assert(mark("bulkArchiveModels"@) == 20784);
    assert(mark("bulkDisableModels"@) == 20567);
    assert(mark("bulkEnableModels"@) == 19587);
    assert(mark("bulkDeleteModels"@) == 19680);
    assert(mark("saveChannelModelPrices"@) == 25927);
    assert(mark("createPromptProtectionRule"@) == 30055);
    assert(mark("updatePromptProtectionRule"@) == 30067);
    assert(mark("deletePromptProtectionRule"@) == 30017);
    assert(mark("updatePromptProtectionRuleStatus"@) == 36067);
    assert(mark("bulkDeletePromptProtectionRules"@) == 34691);
    assert(mark("bulkEnablePromptProtectionRules"@) == 34598);
    assert(mark("bulkDisablePromptProtectionRules"@) == 35570);
    assert(mark("resetChannelQuotaNow"@) == 23505);
    assert(mark("probeChannelQuota"@) == 20542);
    assert(mark("confirmChannelQuotaProbe"@) == 26610);
    assert(mark("probeNewApiPricing"@) == 22257);
    assert(mark("fetchModels"@) == 14505);
    let i = choose|i: int|
        0 <= i < WRITE_CHANNELS_FIELDS@.len() && (#[trigger] WRITE_CHANNELS_FIELDS@[i])@ == field;
    assert(
        i == 0 || i == 1 || i == 2 || i == 3 || i == 4 || i == 5 || i == 6 || i == 7
        || i == 8 || i == 9 || i == 10 || i == 11 || i == 12 || i == 13 || i == 14
        || i == 15 || i == 16 || i == 17 || i == 18 || i == 19 || i == 20 || i == 21
        || i == 22 || i == 23 || i == 24 || i == 25 || i == 26 || i == 27 || i == 28
        || i == 29 || i == 30 || i == 31 || i == 32 || i == 33 || i == 34 || i == 35
        || i == 36 || i == 37 || i == 38 || i == 39 || i == 40 || i == 41 || i == 42
        || i == 43 || i == 44 || i == 45 || i == 46 || i == 47 || i == 48 || i == 49
        || i == 50
    );
}

proof fn marks_of_read_channels_fields(field: Seq<char>)
    requires
        listed(READ_CHANNELS_FIELDS@, field),
    ensures
        ({
            let m = mark(field);
            m == 14829 || m == 20909 || m == 21909 || m == 11976 || m == 6442 || m == 25104
            || m == 21940 || m == 17934 || m == 22554 || m == 16586 || m == 14564
            || m == 31661 || m == 28576 || m == 26965 || m == 18959 || m == 27940
            || m == 15069 || m == 29632 || m == 39875
        }),
{
    reveal_strlit("testChannel");
    reveal_strlit("testChannelAPIKey");
    reveal_strlit("testChannelAPIKeys");
    reveal_strlit("channels");
    reveal_strlit("models");
    reveal_strlit("promptProtectionRules");
    reveal_strlit("allChannelSummarys");
    reveal_strlit("allChannelTags");
    reveal_strlit("countChannelsByType");
    reveal_strlit("queryChannels");
    reveal_strlit("queryModels");
    reveal_strlit("queryModelChannelConnections");
    reveal_strlit("queryUnassociatedChannels");
    reveal_strlit("channelOverrideTemplates");
    reveal_strlit("channelProbeData");
    reveal_strlit("upstreamModelDeployments");
    reveal_strlit("modelRoutes");
    reveal_strlit("previewChannelModelMappings");
    reveal_strlit("channelModelMappingAutomationSettings");
    assert(mark("testChannel"@) == 14829);
    assert(mark("testChannelAPIKey"@) == 20909);
    assert(mark("testChannelAPIKeys"@) == 21909);
    assert(mark("channels"@) == 11976);
    assert(mark("models"@) == 6442);
    assert(mark("promptProtectionRules"@) == 25104);
    assert(mark("allChannelSummarys"@) == 21940);
    assert(mark("allChannelTags"@) == 17934);
    assert(mark("countChannelsByType"@) == 22554);
    assert(mark("queryChannels"@) == 16586);
    assert(mark("queryModels"@) == 14564);
    assert(mark("queryModelChannelConnections"@) == 31661);
    assert(mark("queryUnassociatedChannels"@) == 28576);
    assert(mark("channelOverrideTemplates"@) == 26965);
    assert(mark("channelProbeData"@) == 18959);
    assert(mark("upstreamModelDeployments"@) == 27940);
    assert(mark("modelRoutes"@) == 15069);
    assert(mark("previewChannelModelMappings"@) == 29632);
    assert(mark("channelModelMappingAutomationSettings"@) == 39875);
    let i = choose|i: int|
        0 <= i < READ_CHANNELS_FIELDS@.len() && (#[trigger] READ_CHANNELS_FIELDS@[i])@ == field;
    assert(
        i == 0 || i == 1 || i == 2 || i == 3 || i == 4 || i == 5 || i == 6 || i == 7
        || i == 8 || i == 9 || i == 10 || i == 11 || i == 12 || i == 13 || i == 14
        || i == 15 || i == 16 || i == 17 || i == 18
    );
}

proof fn marks_of_write_api_keys_fields(field: Seq<char>)
    requires
        listed(WRITE_API_KEYS_FIELDS@, field),
    ensures
        ({
            let m = mark(field);
            m == 14921 || m == 14933 || m == 21016 || m == 14927 || m == 23013 || m == 21536
            || m == 20560 || m == 21753 || m == 30993 || m == 31005 || m == 30955
            || m == 27877
        }),
{
    reveal_strlit("createAPIKey");
    reveal_strlit("updateAPIKey");
    reveal_strlit("updateAPIKeyStatus");
    reveal_strlit("rotateAPIKey");
    reveal_strlit("updateAPIKeyProfiles");
    reveal_strlit("bulkDisableAPIKeys");
    reveal_strlit("bulkEnableAPIKeys");
    reveal_strlit("bulkArchiveAPIKeys");
    reveal_strlit("createApiKeyProfileTemplate");
    reveal_strlit("updateApiKeyProfileTemplate");
    reveal_strlit("deleteApiKeyProfileTemplate");
    reveal_strlit("loadApiKeyProfileTemplate");
    assert(mark("createAPIKey"@) == 14921);
    assert(mark("updateAPIKey"@) == 14933);
    assert(mark("updateAPIKeyStatus"@) == 21016);
    assert(mark("rotateAPIKey"@) == 14927);
    assert(mark("updateAPIKeyProfiles"@) == 23013);
    assert(mark("bulkDisableAPIKeys"@) == 21536);
    assert(mark("bulkEnableAPIKeys"@) == 20560);
    assert(mark("bulkArchiveAPIKeys"@) == 21753);
    assert(mark("createApiKeyProfileTemplate"@) == 30993);
    assert(mark("updateApiKeyProfileTemplate"@) == 31005);
    assert(mark("deleteApiKeyProfileTemplate"@) == 30955);
    assert(mark("loadApiKeyProfileTemplate"@) == 27877);
    let i = choose|i: int|
        0 <= i < WRITE_API_KEYS_FIELDS@.len() && (#[trigger] WRITE_API_KEYS_FIELDS@[i])@ == field;
    assert(
        i == 0 || i == 1 || i == 2 || i == 3 || i == 4 || i == 5 || i == 6 || i == 7
        || i == 8 || i == 9 || i == 10 || i == 11
    );
}

proof fn marks_of_read_api_keys_fields(field: Seq<char>)
    requires
        listed(READ_API_KEYS_FIELDS@, field),
    ensures
        ({
            let m = mark(field);
            m == 7433 || m == 26095 || m == 26068 || m == 21175 || m == 24989
        }),
{
    reveal_strlit("apiKeys");
    reveal_strlit("apiKeyAssignableGroups");
    reveal_strlit("apiKeyProfileTemplates");
    reveal_strlit("apiKeyQuotaUsages");
    reveal_strlit("apiKeyTokenUsageStats");
    assert(mark("apiKeys"@) == 7433);
    assert(mark("apiKeyAssignableGroups"@) == 26095);
    assert(mark("apiKeyProfileTemplates"@) == 26068);
    assert(mark("apiKeyQuotaUsages"@) == 21175);
    assert(mark("apiKeyTokenUsageStats"@) == 24989);
    let i = choose|i: int|
        0 <= i < READ_API_KEYS_FIELDS@.len() && (#[trigger] READ_API_KEYS_FIELDS@[i])@ == field;
    assert(
        i == 0 || i == 1 || i == 2 || i == 3 || i == 4
    );
}

proof fn marks_of_write_projects_fields(field: Seq<char>)
    requires
        listed(WRITE_PROJECTS_FIELDS@, field),
    ensures
        ({
            let m = mark(field);
            m == 17091 || m == 17103 || m == 23103 || m == 25103 || m == 17053
        }),
{
    reveal_strlit("createProject");
    reveal_strlit("updateProject");
    reveal_strlit("updateProjectStatus");
    reveal_strlit("updateProjectProfiles");
    reveal_strlit("deleteProject");
    assert(mark("createProject"@) == 17091);
    assert(mark("updateProject"@) == 17103);
    assert(mark("updateProjectStatus"@) == 23103);
    assert(mark("updateProjectProfiles"@) == 25103);
    assert(mark("deleteProject"@) == 17053);
    let i = choose|i: int|
        0 <= i < WRITE_PROJECTS_FIELDS@.len() && (#[trigger] WRITE_PROJECTS_FIELDS@[i])@ == field;
    assert(
        i == 0 || i == 1 || i == 2 || i == 3 || i == 4
    );
}

proof fn marks_of_read_projects_fields(field: Seq<char>)
    requires
        listed(READ_PROJECTS_FIELDS@, field),
    ensures
        ({
            let m = mark(field);
            m == 12019
        }),
{
    reveal_strlit("projects");
    assert(mark("projects"@) == 12019);
    let i = choose|i: int|
        0 <= i < READ_PROJECTS_FIELDS@.len() && (#[trigger] READ_PROJECTS_FIELDS@[i])@ == field;
    assert(
        i == 0
    );
}

proof fn marks_of_write_users_fields(field: Seq<char>)
    requires
        listed(WRITE_USERS_FIELDS@, field),
    ensures
        ({
            let m = mark(field);
            m == 14006 || m == 14018 || m == 20115 || m == 13968 || m == 19107 || m == 25093
            || m == 21103
        }),
{
    reveal_strlit("createUser");
    reveal_strlit("updateUser");
    reveal_strlit("updateUserStatus");
    reveal_strlit("deleteUser");
    reveal_strlit("addUserToProject");
    reveal_strlit("removeUserFromProject");
    reveal_strlit("updateProjectUser");
    assert(mark("createUser"@) == 14006);
    assert(mark("updateUser"@) == 14018);
    assert(mark("updateUserStatus"@) == 20115);
    assert(mark("deleteUser"@) == 13968);
    assert(mark("addUserToProject"@) == 19107);
    assert(mark("removeUserFromProject"@) == 25093);
    assert(mark("updateProjectUser"@) == 21103);
    let i = choose|i: int|
        0 <= i < WRITE_USERS_FIELDS@.len() && (#[trigger] WRITE_USERS_FIELDS@[i])@ == field;
    assert(
        i == 0 || i == 1 || i == 2 || i == 3 || i == 4 || i == 5 || i == 6
    );
}

proof fn marks_of_read_users_fields(field: Seq<char>)
    requires
        listed(READ_USERS_FIELDS@, field),
    ensures
        ({
            let m = mark(field);
            m == 5462
        }),
{
    reveal_strlit("users");
    assert(mark("users"@) == 5462);
    let i = choose|i: int|
        0 <= i < READ_USERS_FIELDS@.len() && (#[trigger] READ_USERS_FIELDS@[i])@ == field;
    assert(
        i == 0
    );
}

proof fn marks_of_write_groups_fields(field: Seq<char>)
    requires
        listed(WRITE_GROUPS_FIELDS@, field),
    ensures
        ({
            let m = mark(field);
            m == 20767 || m == 20779 || m == 25768 || m == 26779 || m == 25779 || m == 20729
        }),
{
    reveal_strlit("createSimpleGroup");
    reveal_strlit("updateSimpleGroup");
    reveal_strlit("assignSimpleGroupUsers");
    reveal_strlit("updateSimpleGroupModels");
    reveal_strlit("updateSimpleGroupPrice");
    reveal_strlit("deleteSimpleGroup");
    assert(mark("createSimpleGroup"@) == 20767);
    assert(mark("updateSimpleGroup"@) == 20779);
    assert(mark("assignSimpleGroupUsers"@) == 25768);
    assert(mark("updateSimpleGroupModels"@) == 26779);
    assert(mark("updateSimpleGroupPrice"@) == 25779);
    assert(mark("deleteSimpleGroup"@) == 20729);
    let i = choose|i: int|
        0 <= i < WRITE_GROUPS_FIELDS@.len() && (#[trigger] WRITE_GROUPS_FIELDS@[i])@ == field;
    assert(
        i == 0 || i == 1 || i == 2 || i == 3 || i == 4 || i == 5
    );
}

proof fn marks_of_read_groups_fields(field: Seq<char>)
    requires
        listed(READ_GROUPS_FIELDS@, field),
    ensures
        ({
            let m = mark(field);
            m == 15964
        }),
{
    reveal_strlit("simpleGroups");
    assert(mark("simpleGroups"@) == 15964);
    let i = choose|i: int|
        0 <= i < READ_GROUPS_FIELDS@.len() && (#[trigger] READ_GROUPS_FIELDS@[i])@ == field;
    assert(
        i == 0
    );
}

proof fn marks_of_read_settings_fields(field: Seq<char>)
    requires
        listed(READ_SETTINGS_FIELDS@, field),
    ensures
        ({
            let m = mark(field);
            m == 30795 || m == 16064 || m == 14765 || m == 23945 || m == 24810 || m == 23957
            || m == 27735 || m == 20274 || m == 15585 || m == 31987 || m == 22945
            || m == 22627 || m == 21881 || m == 18752
        }),
{
    reveal_strlit("publicChannelHealthSettings");
    reveal_strlit("storagePolicy");
    reveal_strlit("retryPolicy");
    reveal_strlit("webhookNotifierConfig");
    reveal_strlit("systemChannelSettings");
    reveal_strlit("videoStorageSettings");
    reveal_strlit("quotaEnforcementSettings");
    reveal_strlit("securitySettings");
    reveal_strlit("proxyPresets");
    reveal_strlit("userAgentPassThroughSettings");
    reveal_strlit("passThroughSettings");
    reveal_strlit("defaultDataStorageID");
    reveal_strlit("autoBackupSettings");
    reveal_strlit("previewGcCleanup");
    assert(mark("publicChannelHealthSettings"@) == 30795);
    assert(mark("storagePolicy"@) == 16064);
    assert(mark("retryPolicy"@) == 14765);
    assert(mark("webhookNotifierConfig"@) == 23945);
    assert(mark("systemChannelSettings"@) == 24810);
    assert(mark("videoStorageSettings"@) == 23957);
    assert(mark("quotaEnforcementSettings"@) == 27735);
    assert(mark("securitySettings"@) == 20274);
    assert(mark("proxyPresets"@) == 15585);
    assert(mark("userAgentPassThroughSettings"@) == 31987);
    assert(mark("passThroughSettings"@) == 22945);
    assert(mark("defaultDataStorageID"@) == 22627);
    assert(mark("autoBackupSettings"@) == 21881);
    assert(mark("previewGcCleanup"@) == 18752);
    let i = choose|i: int|
        0 <= i < READ_SETTINGS_FIELDS@.len() && (#[trigger] READ_SETTINGS_FIELDS@[i])@ == field;
    assert(
        i == 0 || i == 1 || i == 2 || i == 3 || i == 4 || i == 5 || i == 6 || i == 7
        || i == 8 || i == 9 || i == 10 || i == 11 || i == 12 || i == 13
    );
}

proof fn marks_of_write_settings_fields(field: Seq<char>)
    requires
        listed(WRITE_SETTINGS_FIELDS@, field),
    ensures
        ({
            let m = mark(field);
            m == 37147 || m == 23088 || m == 23150 || m == 20695 || m == 30691 || m == 29281
            || m == 31271 || m == 31275 || m == 27700 || m == 25700 || m == 34190
            || m == 30539 || m == 38119 || m == 28574 || m == 29824 || m == 19241
            || m == 21051 || m == 21660 || m == 39664 || m == 39631 || m == 18756
        }),
{
    reveal_strlit("updatePublicChannelHealthSettings");
    reveal_strlit("updateBrandSettings");
    reveal_strlit("updateStoragePolicy");
    reveal_strlit("updateRetryPolicy");
    reveal_strlit("updateWebhookNotifierConfig");
    reveal_strlit("updateSystemModelSettings");
    reveal_strlit("updateSystemChannelSettings");
    reveal_strlit("updateSystemGeneralSettings");
    reveal_strlit("updateDefaultDataStorage");
    reveal_strlit("updateSecuritySettings");
    reveal_strlit("updateQuotaEnforcementSettings");
    reveal_strlit("setQuotaEnforcementSettings");
    reveal_strlit("updateUserAgentPassThroughSettings");
    reveal_strlit("updatePassThroughSettings");
    reveal_strlit("updateVideoStorageSettings");
    reveal_strlit("saveProxyPreset");
    reveal_strlit("deleteProxyPreset");
    reveal_strlit("completeOnboarding");
    reveal_strlit("completeSystemModelSettingOnboarding");
    reveal_strlit("completeAutoDisableChannelOnboarding");
    reveal_strlit("triggerGcCleanup");
    assert(mark("updatePublicChannelHealthSettings"@) == 37147);
    assert(mark("updateBrandSettings"@) == 23088);
    assert(mark("updateStoragePolicy"@) == 23150);
    assert(mark("updateRetryPolicy"@) == 20695);
    assert(mark("updateWebhookNotifierConfig"@) == 30691);
    assert(mark("updateSystemModelSettings"@) == 29281);
    assert(mark("updateSystemChannelSettings"@) == 31271);
    assert(mark("updateSystemGeneralSettings"@) == 31275);
    assert(mark("updateDefaultDataStorage"@) == 27700);
    assert(mark("updateSecuritySettings"@) == 25700);
    assert(mark("updateQuotaEnforcementSettings"@) == 34190);
    assert(mark("setQuotaEnforcementSettings"@) == 30539);
    assert(mark("updateUserAgentPassThroughSettings"@) == 38119);
    assert(mark("updatePassThroughSettings"@) == 28574);
    assert(mark("updateVideoStorageSettings"@) == 29824);
    assert(mark("saveProxyPreset"@) == 19241);
    assert(mark("deleteProxyPreset"@) == 21051);
    assert(mark("completeOnboarding"@) == 21660);
    assert(mark("completeSystemModelSettingOnboarding"@) == 39664);
    assert(mark("completeAutoDisableChannelOnboarding"@) == 39631);
    assert(mark("triggerGcCleanup"@) == 18756);
    let i = choose|i: int|
        0 <= i < WRITE_SETTINGS_FIELDS@.len() && (#[trigger] WRITE_SETTINGS_FIELDS@[i])@ == field;
    assert(
        i == 0 || i == 1 || i == 2 || i == 3 || i == 4 || i == 5 || i == 6 || i == 7
        || i == 8 || i == 9 || i == 10 || i == 11 || i == 12 || i == 13 || i == 14
        || i == 15 || i == 16 || i == 17 || i == 18 || i == 19 || i == 20
    );
}

proof fn marks_of_read_billing_fields(field: Seq<char>)
    requires
        listed(READ_BILLING_FIELDS@, field),
    ensures
        ({
            let m = mark(field);
            m == 14469 || m == 16599 || m == 26267
        }),
{
    reveal_strlit("userBalance");
    reveal_strlit("projectBalance");
    reveal_strlit("projectWalletComparison");
    assert(mark("userBalance"@) == 14469);
    assert(mark("projectBalance"@) == 16599);
    assert(mark("projectWalletComparison"@) == 26267);
    let i = choose|i: int|
        0 <= i < READ_BILLING_FIELDS@.len() && (#[trigger] READ_BILLING_FIELDS@[i])@ == field;
    assert(
        i == 0 || i == 1 || i == 2
    );
}

proof fn marks_of_read_subscriptions_fields(field: Seq<char>)
    requires
        listed(READ_SUBSCRIPTIONS_FIELDS@, field),
    ensures
        ({
            let m = mark(field);
            m == 21143 || m == 24018 || m == 21018
        }),
{
    reveal_strlit("userSubscriptions");
    reveal_strlit("subscriptionProjects");
    reveal_strlit("subscriptionPlans");
    assert(mark("userSubscriptions"@) == 21143);
    assert(mark("subscriptionProjects"@) == 24018);
    assert(mark("subscriptionPlans"@) == 21018);
    let i = choose|i: int|
        0 <= i < READ_SUBSCRIPTIONS_FIELDS@.len() && (#[trigger] READ_SUBSCRIPTIONS_FIELDS@[i])@ == field;
    assert(
        i == 0 || i == 1 || i == 2
    );
}

proof fn marks_of_grant_credit_fields(field: Seq<char>)
    requires
        listed(GRANT_CREDIT_FIELDS@, field),
    ensures
        ({
            let m = mark(field);
            m == 18676 || m == 21953
        }),
{
    reveal_strlit("grantUserCredit");
    reveal_strlit("grantProjectCredit");
    assert(mark("grantUserCredit"@) == 18676);
    assert(mark("grantProjectCredit"@) == 21953);
    let i = choose|i: int|
        0 <= i < GRANT_CREDIT_FIELDS@.len() && (#[trigger] GRANT_CREDIT_FIELDS@[i])@ == field;
    assert(
        i == 0 || i == 1
    );
}

proof fn marks_of_write_subscriptions_fields(field: Seq<char>)
    requires
        listed(WRITE_SUBSCRIPTIONS_FIELDS@, field),
    ensures
        ({
            let m = mark(field);
            m == 26173 || m == 26185 || m == 26105 || m == 31104 || m == 24649 || m == 26080
            || m == 26053 || m == 24663 || m == 27592
        }),
{
    reveal_strlit("createSubscriptionPlan");
    reveal_strlit("updateSubscriptionPlan");
    reveal_strlit("assignUserSubscription");
    reveal_strlit("refreshSubscriptionAllowance");
    reveal_strlit("pauseUserSubscription");
    reveal_strlit("resumeUserSubscription");
    reveal_strlit("cancelUserSubscription");
    reveal_strlit("renewUserSubscription");
    reveal_strlit("setSubscriptionAutoRenew");
    assert(mark("createSubscriptionPlan"@) == 26173);
    assert(mark("updateSubscriptionPlan"@) == 26185);
    assert(mark("assignUserSubscription"@) == 26105);
    assert(mark("refreshSubscriptionAllowance"@) == 31104);
    assert(mark("pauseUserSubscription"@) == 24649);
    assert(mark("resumeUserSubscription"@) == 26080);
    assert(mark("cancelUserSubscription"@) == 26053);
    assert(mark("renewUserSubscription"@) == 24663);
    assert(mark("setSubscriptionAutoRenew"@) == 27592);
    let i = choose|i: int|
        0 <= i < WRITE_SUBSCRIPTIONS_FIELDS@.len() && (#[trigger] WRITE_SUBSCRIPTIONS_FIELDS@[i])@ == field;
    assert(
        i == 0 || i == 1 || i == 2 || i == 3 || i == 4 || i == 5 || i == 6 || i == 7
        || i == 8
    );
}

proof fn marks_of_write_roles_fields(field: Seq<char>)
    requires
        listed(WRITE_ROLES_FIELDS@, field),
    ensures
        ({
            let m = mark(field);
            m == 13882 || m == 13894 || m == 13844 || m == 18688
        }),
{
    reveal_strlit("createRole");
    reveal_strlit("updateRole");
    reveal_strlit("deleteRole");
    reveal_strlit("bulkDeleteRoles");
    assert(mark("createRole"@) == 13882);
    assert(mark("updateRole"@) == 13894);
    assert(mark("deleteRole"@) == 13844);
    assert(mark("bulkDeleteRoles"@) == 18688);
    let i = choose|i: int|
        0 <= i < WRITE_ROLES_FIELDS@.len() && (#[trigger] WRITE_ROLES_FIELDS@[i])@ == field;
    assert(
        i == 0 || i == 1 || i == 2 || i == 3
    );
}

proof fn marks_of_read_roles_fields(field: Seq<char>)
    requires
        listed(READ_ROLES_FIELDS@, field),
    ensures
        ({
            let m = mark(field);
            m == 5447
        }),
{
    reveal_strlit("roles");
    assert(mark("roles"@) == 5447);
    let i = choose|i: int|
        0 <= i < READ_ROLES_FIELDS@.len() && (#[trigger] READ_ROLES_FIELDS@[i])@ == field;
    assert(
        i == 0
    );
}

proof fn marks_of_write_prompts_fields(field: Seq<char>)
    requires
        listed(WRITE_PROMPTS_FIELDS@, field),
    ensures
        ({
            let m = mark(field);
            m == 15975 || m == 15987 || m == 15937 || m == 22070 || m == 20691 || m == 20598
            || m == 21570
        }),
{
    reveal_strlit("createPrompt");
    reveal_strlit("updatePrompt");
    reveal_strlit("deletePrompt");
    reveal_strlit("updatePromptStatus");
    reveal_strlit("bulkDeletePrompts");
    reveal_strlit("bulkEnablePrompts");
    reveal_strlit("bulkDisablePrompts");
    assert(mark("createPrompt"@) == 15975);
    assert(mark("updatePrompt"@) == 15987);
    assert(mark("deletePrompt"@) == 15937);
    assert(mark("updatePromptStatus"@) == 22070);
    assert(mark("bulkDeletePrompts"@) == 20691);
    assert(mark("bulkEnablePrompts"@) == 20598);
    assert(mark("bulkDisablePrompts"@) == 21570);
    let i = choose|i: int|
        0 <= i < WRITE_PROMPTS_FIELDS@.len() && (#[trigger] WRITE_PROMPTS_FIELDS@[i])@ == field;
    assert(
        i == 0 || i == 1 || i == 2 || i == 3 || i == 4 || i == 5 || i == 6
    );
}

proof fn marks_of_read_prompts_fields(field: Seq<char>)
    requires
        listed(READ_PROMPTS_FIELDS@, field),
    ensures
        ({
            let m = mark(field);
            m == 7454
        }),
{
    reveal_strlit("prompts");
    assert(mark("prompts"@) == 7454);
    let i = choose|i: int|
        0 <= i < READ_PROMPTS_FIELDS@.len() && (#[trigger] READ_PROMPTS_FIELDS@[i])@ == field;
    assert(
        i == 0
    );
}

proof fn marks_of_write_data_storages_fields(field: Seq<char>)
    requires
        listed(WRITE_DATA_STORAGES_FIELDS@, field),
    ensures
        ({
            let m = mark(field);
            m == 20559 || m == 20571
        }),
{
    reveal_strlit("createDataStorage");
    reveal_strlit("updateDataStorage");
    assert(mark("createDataStorage"@) == 20559);
    assert(mark("updateDataStorage"@) == 20571);
    let i = choose|i: int|
        0 <= i < WRITE_DATA_STORAGES_FIELDS@.len() && (#[trigger] WRITE_DATA_STORAGES_FIELDS@[i])@ == field;
    assert(
        i == 0 || i == 1
    );
}

proof fn marks_of_read_data_storages_fields(field: Seq<char>)
    requires
        listed(READ_DATA_STORAGES_FIELDS@, field),
    ensures
        ({
            let m = mark(field);
            m == 15925
        }),
{
    reveal_strlit("dataStorages");
    assert(mark("dataStorages"@) == 15925);
    let i = choose|i: int|
        0 <= i < READ_DATA_STORAGES_FIELDS@.len() && (#[trigger] READ_DATA_STORAGES_FIELDS@[i])@ == field;
    assert(
        i == 0
    );
}

proof fn marks_of_read_requests_fields(field: Seq<char>)
    requires
        listed(READ_REQUESTS_FIELDS@, field),
    ensures
        ({
            let m = mark(field);
            m == 11982 || m == 12655 || m == 7428 || m == 6458 || m == 26028
        }),
{
    reveal_strlit("requests");
    reveal_strlit("usageLogs");
    reveal_strlit("threads");
    reveal_strlit("traces");
    reveal_strlit("requestRouteExplanation");
    assert(mark("requests"@) == 11982);
    assert(mark("usageLogs"@) == 12655);
    assert(mark("threads"@) == 7428);
    assert(mark("traces"@) == 6458);
    assert(mark("requestRouteExplanation"@) == 26028);
    let i = choose|i: int|
        0 <= i < READ_REQUESTS_FIELDS@.len() && (#[trigger] READ_REQUESTS_FIELDS@[i])@ == field;
    assert(
        i == 0 || i == 1 || i == 2 || i == 3 || i == 4
    );
}

proof fn marks_of_write_commercialization_fields(field: Seq<char>)
    requires
        listed(WRITE_COMMERCIALIZATION_FIELDS@, field),
    ensures
        ({
            let m = mark(field);
            m == 19086 || m == 32076 || m == 29652 || m == 31518 || m == 18773 || m == 18611
            || m == 18724
        }),
{
    reveal_strlit("createPriceBook");
    reveal_strlit("createProviderPriceChangeSet");
    reveal_strlit("createRetailPriceChangeSet");
    reveal_strlit("saveRetailPriceChangeSetItem");
    reveal_strlit("submitChangeSet");
    reveal_strlit("approveChangeSet");
    reveal_strlit("rejectChangeSet");
    assert(mark("createPriceBook"@) == 19086);
    assert(mark("createProviderPriceChangeSet"@) == 32076);
    assert(mark("createRetailPriceChangeSet"@) == 29652);
    assert(mark("saveRetailPriceChangeSetItem"@) == 31518);
    assert(mark("submitChangeSet"@) == 18773);
    assert(mark("approveChangeSet"@) == 18611);
    assert(mark("rejectChangeSet"@) == 18724);
    let i = choose|i: int|
        0 <= i < WRITE_COMMERCIALIZATION_FIELDS@.len() && (#[trigger] WRITE_COMMERCIALIZATION_FIELDS@[i])@ == field;
    assert(
        i == 0 || i == 1 || i == 2 || i == 3 || i == 4 || i == 5 || i == 6
    );
}

proof fn marks_of_read_commercialization_fields(field: Seq<char>)
    requires
        listed(READ_COMMERCIALIZATION_FIELDS@, field),
    ensures
        ({
            let m = mark(field);
            m == 13895 || m == 23640 || m == 13542
        }),
{
    reveal_strlit("priceBooks");
    reveal_strlit("previewCustomerCharge");
    reveal_strlit("changeSets");
    assert(mark("priceBooks"@) == 13895);
    assert(mark("previewCustomerCharge"@) == 23640);
    assert(mark("changeSets"@) == 13542);
    let i = choose|i: int|
        0 <= i < READ_COMMERCIALIZATION_FIELDS@.len() && (#[trigger] READ_COMMERCIALIZATION_FIELDS@[i])@ == field;
    assert(
        i == 0 || i == 1 || i == 2
    );
}

proof fn marks_of_read_dashboard_fields(field: Seq<char>)
    requires
        listed(READ_DASHBOARD_FIELDS@, field),
    ensures
        ({
            let m = mark(field);
            m == 21039 || m == 14990 || m == 13456 || m == 24056 || m == 22056 || m == 23056
            || m == 21521 || m == 22523 || m == 20533 || m == 22132 || m == 20139
            || m == 21108 || m == 20977 || m == 21684 || m == 22694 || m == 22099
            || m == 17571 || m == 15895 || m == 25073 || m == 26005 || m == 19988
            || m == 17999 || m == 24988 || m == 30102
        }),
{
    reveal_strlit("dashboardOverview");
    reveal_strlit("requestStats");
    reveal_strlit("tokenStats");
    reveal_strlit("requestStatsByChannel");
    reveal_strlit("requestStatsByModel");
    reveal_strlit("requestStatsByAPIKey");
    reveal_strlit("tokenStatsByAPIKey");
    reveal_strlit("tokenStatsByChannel");
    reveal_strlit("tokenStatsByModel");
    reveal_strlit("costStatsByChannel");
    reveal_strlit("costStatsByModel");
    reveal_strlit("costStatsByAPIKey");
    reveal_strlit("dailyRequestStats");
    reveal_strlit("hourlyRequestStats");
    reveal_strlit("topRequestsProjects");
    reveal_strlit("channelSuccessRates");
    reveal_strlit("fastestChannels");
    reveal_strlit("fastestModels");
    reveal_strlit("modelPerformanceStats");
    reveal_strlit("channelPerformanceStats");
    reveal_strlit("operationsLedger");
    reveal_strlit("operationsFlow");
    reveal_strlit("operationsModelSeries");
    reveal_strlit("providerObservationHistory");
    assert(mark("dashboardOverview"@) == 21039);
    assert(mark("requestStats"@) == 14990);
    assert(mark("tokenStats"@) == 13456);
    assert(mark("requestStatsByChannel"@) == 24056);
    assert(mark("requestStatsByModel"@) == 22056);
    assert(mark("requestStatsByAPIKey"@) == 23056);
    assert(mark("tokenStatsByAPIKey"@) == 21521);
    assert(mark("tokenStatsByChannel"@) == 22523);
    assert(mark("tokenStatsByModel"@) == 20533);
    assert(mark("costStatsByChannel"@) == 22132);
    assert(mark("costStatsByModel"@) == 20139);
    assert(mark("costStatsByAPIKey"@) == 21108);
    assert(mark("dailyRequestStats"@) == 20977);
    assert(mark("hourlyRequestStats"@) == 21684);
    assert(mark("topRequestsProjects"@) == 22694);
    assert(mark("channelSuccessRates"@) == 22099);
    assert(mark("fastestChannels"@) == 17571);
    assert(mark("fastestModels"@) == 15895);
    assert(mark("modelPerformanceStats"@) == 25073);
    assert(mark("channelPerformanceStats"@) == 26005);
    assert(mark("operationsLedger"@) == 19988);
    assert(mark("operationsFlow"@) == 17999);
    assert(mark("operationsModelSeries"@) == 24988);
    assert(mark("providerObservationHistory"@) == 30102);
    let i = choose|i: int|
        0 <= i < READ_DASHBOARD_FIELDS@.len() && (#[trigger] READ_DASHBOARD_FIELDS@[i])@ == field;
    assert(
        i == 0 || i == 1 || i == 2 || i == 3 || i == 4 || i == 5 || i == 6 || i == 7
        || i == 8 || i == 9 || i == 10 || i == 11 || i == 12 || i == 13 || i == 14
        || i == 15 || i == 16 || i == 17 || i == 18 || i == 19 || i == 20 || i == 21
        || i == 22 || i == 23
    );
}

// ---------------------------------------------------------------------------
// Laws
// ---------------------------------------------------------------------------

/// A field that stands on a list has the requirement of that list.
pub proof fn listed_fields_have_the_requirement_of_their_list(field: Seq<char>)
    ensures
        listed(PUBLIC_FIELDS@, field) ==> required(field)
            == FieldAuthz::Public,
        listed(AUTHENTICATED_FIELDS@, field) ==> required(field)
            == FieldAuthz::Authenticated,
        listed(OWNER_FIELDS@, field) ==> required(field)
            == FieldAuthz::OwnerOnly,
        listed(WRITE_CHANNELS_FIELDS@, field) ==> required(field)
            == FieldAuthz::Scope(scopes::WRITE_CHANNELS),
        listed(READ_CHANNELS_FIELDS@, field) ==> required(field)
            == FieldAuthz::Scope(scopes::READ_CHANNELS),
        listed(WRITE_API_KEYS_FIELDS@, field) ==> required(field)
            == FieldAuthz::Scope(scopes::WRITE_API_KEYS),
        listed(READ_API_KEYS_FIELDS@, field) ==> required(field)
            == FieldAuthz::Scope(scopes::READ_API_KEYS),
        listed(WRITE_PROJECTS_FIELDS@, field) ==> required(field)
            == FieldAuthz::Scope(scopes::WRITE_PROJECTS),
        listed(READ_PROJECTS_FIELDS@, field) ==> required(field)
            == FieldAuthz::Scope(scopes::READ_PROJECTS),
        listed(WRITE_USERS_FIELDS@, field) ==> required(field)
            == FieldAuthz::Scope(scopes::WRITE_USERS),
        listed(READ_USERS_FIELDS@, field) ==> required(field)
            == FieldAuthz::Scope(scopes::READ_USERS),
        listed(WRITE_GROUPS_FIELDS@, field) ==> required(field)
            == FieldAuthz::Scope(scopes::WRITE_GROUPS),
        listed(READ_GROUPS_FIELDS@, field) ==> required(field)
            == FieldAuthz::Scope(scopes::READ_GROUPS),
        listed(READ_SETTINGS_FIELDS@, field) ==> required(field)
            == FieldAuthz::Scope(scopes::READ_SETTINGS),
        listed(WRITE_SETTINGS_FIELDS@, field) ==> required(field)
            == FieldAuthz::Scope(scopes::WRITE_SETTINGS),
        listed(READ_BILLING_FIELDS@, field) ==> required(field)
            == FieldAuthz::Scope(scopes::READ_BILLING),
        listed(READ_SUBSCRIPTIONS_FIELDS@, field) ==> required(field)
            == FieldAuthz::Scope(scopes::READ_SUBSCRIPTIONS),
        listed(GRANT_CREDIT_FIELDS@, field) ==> required(field)
            == FieldAuthz::Scope(scopes::GRANT_CREDIT),
        listed(WRITE_SUBSCRIPTIONS_FIELDS@, field) ==> required(field)
            == FieldAuthz::Scope(scopes::WRITE_SUBSCRIPTIONS),
        listed(WRITE_ROLES_FIELDS@, field) ==> required(field)
            == FieldAuthz::Scope(scopes::WRITE_ROLES),
        listed(READ_ROLES_FIELDS@, field) ==> required(field)
            == FieldAuthz::Scope(scopes::READ_ROLES),
        listed(WRITE_PROMPTS_FIELDS@, field) ==> required(field)
            == FieldAuthz::Scope(scopes::WRITE_PROMPTS),
        listed(READ_PROMPTS_FIELDS@, field) ==> required(field)
            == FieldAuthz::Scope(scopes::READ_PROMPTS),
        listed(WRITE_DATA_STORAGES_FIELDS@, field) ==> required(field)
            == FieldAuthz::Scope(scopes::WRITE_DATA_STORAGES),
        listed(READ_DATA_STORAGES_FIELDS@, field) ==> required(field)
            == FieldAuthz::Scope(scopes::READ_DATA_STORAGES),
        listed(READ_REQUESTS_FIELDS@, field) ==> required(field)
            == FieldAuthz::Scope(scopes::READ_REQUESTS),
        listed(WRITE_COMMERCIALIZATION_FIELDS@, field) ==> required(field)
            == FieldAuthz::Scope(scopes::WRITE_COMMERCIALIZATION),
        listed(READ_COMMERCIALIZATION_FIELDS@, field) ==> required(field)
            == FieldAuthz::Scope(scopes::READ_COMMERCIALIZATION),
        listed(READ_DASHBOARD_FIELDS@, field) ==> required(field)
            == FieldAuthz::Scope(scopes::READ_DASHBOARD),
{
    if listed(PUBLIC_FIELDS@, field) {
        marks_of_public_fields(field);
    }
    if listed(AUTHENTICATED_FIELDS@, field) {
        marks_of_authenticated_fields(field);
    }
    if listed(OWNER_FIELDS@, field) {
        marks_of_owner_fields(field);
    }
    if listed(WRITE_CHANNELS_FIELDS@, field) {
        marks_of_write_channels_fields(field);
    }
    if listed(READ_CHANNELS_FIELDS@, field) {
        marks_of_read_channels_fields(field);
    }
    if listed(WRITE_API_KEYS_FIELDS@, field) {
        marks_of_write_api_keys_fields(field);
    }
    if listed(READ_API_KEYS_FIELDS@, field) {
        marks_of_read_api_keys_fields(field);
    }
    if listed(WRITE_PROJECTS_FIELDS@, field) {
        marks_of_write_projects_fields(field);
    }
    if listed(READ_PROJECTS_FIELDS@, field) {
        marks_of_read_projects_fields(field);
    }
    if listed(WRITE_USERS_FIELDS@, field) {
        marks_of_write_users_fields(field);
    }
    if listed(READ_USERS_FIELDS@, field) {
        marks_of_read_users_fields(field);
    }
    if listed(WRITE_GROUPS_FIELDS@, field) {
        marks_of_write_groups_fields(field);
    }
    if listed(READ_GROUPS_FIELDS@, field) {
        marks_of_read_groups_fields(field);
    }
    if listed(READ_SETTINGS_FIELDS@, field) {
        marks_of_read_settings_fields(field);
    }
    if listed(WRITE_SETTINGS_FIELDS@, field) {
        marks_of_write_settings_fields(field);
    }
    if listed(READ_BILLING_FIELDS@, field) {
        marks_of_read_billing_fields(field);
    }
    if listed(READ_SUBSCRIPTIONS_FIELDS@, field) {
        marks_of_read_subscriptions_fields(field);
    }
    if listed(GRANT_CREDIT_FIELDS@, field) {
        marks_of_grant_credit_fields(field);
    }
    if listed(WRITE_SUBSCRIPTIONS_FIELDS@, field) {
        marks_of_write_subscriptions_fields(field);
    }
    if listed(WRITE_ROLES_FIELDS@, field) {
        marks_of_write_roles_fields(field);
    }
    if listed(READ_ROLES_FIELDS@, field) {
        marks_of_read_roles_fields(field);
    }
    if listed(WRITE_PROMPTS_FIELDS@, field) {
        marks_of_write_prompts_fields(field);
    }
    if listed(READ_PROMPTS_FIELDS@, field) {
        marks_of_read_prompts_fields(field);
    }
    if listed(WRITE_DATA_STORAGES_FIELDS@, field) {
        marks_of_write_data_storages_fields(field);
    }
    if listed(READ_DATA_STORAGES_FIELDS@, field) {
        marks_of_read_data_storages_fields(field);
    }
    if listed(READ_REQUESTS_FIELDS@, field) {
        marks_of_read_requests_fields(field);
    }
    if listed(WRITE_COMMERCIALIZATION_FIELDS@, field) {
        marks_of_write_commercialization_fields(field);
    }
    if listed(READ_COMMERCIALIZATION_FIELDS@, field) {
        marks_of_read_commercialization_fields(field);
    }
    if listed(READ_DASHBOARD_FIELDS@, field) {
        marks_of_read_dashboard_fields(field);
    }
}

// ---------------------------------------------------------------------------
// The lists, name by name
// ---------------------------------------------------------------------------

/// The names on `PUBLIC_FIELDS`.
pub open spec fn on_public_fields(field: Seq<char>) -> bool {
    ||| field == "health"@
    ||| field == "version"@
}

proof fn names_of_public_fields(field: Seq<char>)
    ensures
        listed(PUBLIC_FIELDS@, field) <==> on_public_fields(field),
{
    let names = PUBLIC_FIELDS@;
    assert(names[0]@ == "health"@);
    assert(names[1]@ == "version"@);
    if listed(names, field) {
        let i = choose|i: int| 0 <= i < names.len() && (#[trigger] names[i])@ == field;
        assert(i == 0 || i == 1);
    }
}

/// The names on `AUTHENTICATED_FIELDS`.
pub open spec fn on_authenticated_fields(field: Seq<char>) -> bool {
    ||| field == "enumCasingProbe"@
    ||| field == "connectionProbe"@
    ||| field == "me"@
    ||| field == "myProjects"@
    ||| field == "updateMe"@
    ||| field == "updateMyPassword"@
    ||| field == "unlinkOIDCIdentity"@
    ||| field == "systemStatus"@
    ||| field == "brandSettings"@
    ||| field == "onboardingInfo"@
    ||| field == "systemModelSettings"@
    ||| field == "systemVersion"@
    ||| field == "checkForUpdate"@
    ||| field == "allScopes"@
    ||| field == "systemGeneralSettings"@
    ||| field == "productExperienceSettings"@
    ||| field == "node"@
    ||| field == "nodes"@
    ||| field == "previewPromptProtectionRule"@
    ||| field == "checkProviderQuotas"@
    ||| field == "manualCheck"@
    ||| field == "publicChannelHealth"@
    ||| field == "myModelCatalog"@
    ||| field == "myBalance"@
    ||| field == "mySubscriptions"@
    ||| field == "myProjectBalance"@
    ||| field == "myProjectWalletComparison"@
    ||| field == "myPrimaryProject"@
}

proof fn names_of_authenticated_fields(field: Seq<char>)
    ensures
        listed(AUTHENTICATED_FIELDS@, field) <==> on_authenticated_fields(field),
{
    let names = AUTHENTICATED_FIELDS@;
    assert(names[0]@ == "enumCasingProbe"@);
    assert(names[1]@ == "connectionProbe"@);
    assert(names[2]@ == "me"@);
    assert(names[3]@ == "myProjects"@);
    assert(names[4]@ == "updateMe"@);
    assert(names[5]@ == "updateMyPassword"@);
    assert(names[6]@ == "unlinkOIDCIdentity"@);
    assert(names[7]@ == "systemStatus"@);
    assert(names[8]@ == "brandSettings"@);
    assert(names[9]@ == "onboardingInfo"@);
    assert(names[10]@ == "systemModelSettings"@);
    assert(names[11]@ == "systemVersion"@);
    assert(names[12]@ == "checkForUpdate"@);
    assert(names[13]@ == "allScopes"@);
    assert(names[14]@ == "systemGeneralSettings"@);
    assert(names[15]@ == "productExperienceSettings"@);
    assert(names[16]@ == "node"@);
    assert(names[17]@ == "nodes"@);
    assert(names[18]@ == "previewPromptProtectionRule"@);
    assert(names[19]@ == "checkProviderQuotas"@);
    assert(names[20]@ == "manualCheck"@);
    assert(names[21]@ == "publicChannelHealth"@);
    assert(names[22]@ == "myModelCatalog"@);
    assert(names[23]@ == "myBalance"@);
    assert(names[24]@ == "mySubscriptions"@);
    assert(names[25]@ == "myProjectBalance"@);
    assert(names[26]@ == "myProjectWalletComparison"@);
    assert(names[27]@ == "myPrimaryProject"@);
    if listed(names, field) {
        let i = choose|i: int| 0 <= i < names.len() && (#[trigger] names[i])@ == field;
        assert(i == 0 || i == 1 || i == 2 || i == 3 || i == 4 || i == 5 || i == 6 || i == 7 || i == 8 || i == 9 || i == 10 || i == 11 || i == 12 || i == 13 || i == 14 || i == 15 || i == 16 || i == 17 || i == 18 || i == 19 || i == 20 || i == 21 || i == 22 || i == 23 || i == 24 || i == 25 || i == 26 || i == 27);
    }
}

/// The names on `OWNER_FIELDS`.
pub open spec fn on_owner_fields(field: Seq<char>) -> bool {
    ||| field == "backup"@
    ||| field == "restore"@
    ||| field == "clearCache"@
    ||| field == "getCacheDiagnostics"@
    ||| field == "updateProductExperienceSettings"@
    ||| field == "updateAutoBackupSettings"@
    ||| field == "triggerAutoBackup"@
}

proof fn names_of_owner_fields(field: Seq<char>)
    ensures
        listed(OWNER_FIELDS@, field) <==> on_owner_fields(field),
{
    let names = OWNER_FIELDS@;
    assert(names[0]@ == "backup"@);
    assert(names[1]@ == "restore"@);
    assert(names[2]@ == "clearCache"@);
    assert(names[3]@ == "getCacheDiagnostics"@);
    assert(names[4]@ == "updateProductExperienceSettings"@);
    assert(names[5]@ == "updateAutoBackupSettings"@);
    assert(names[6]@ == "triggerAutoBackup"@);
    if listed(names, field) {
        let i = choose|i: int| 0 <= i < names.len() && (#[trigger] names[i])@ == field;
        assert(i == 0 || i == 1 || i == 2 || i == 3 || i == 4 || i == 5 || i == 6);
    }
}

/// The names on `WRITE_CHANNELS_FIELDS`.
pub open spec fn on_write_channels_fields(field: Seq<char>) -> bool {
    ||| field == "createChannel"@
    ||| field == "updateChannel"@
    ||| field == "deleteChannel"@
    ||| field == "updateChannelStatus"@
    ||| field == "duplicateChannel"@
    ||| field == "saveChannelEndpoints"@
    ||| field == "bulkArchiveChannels"@
    ||| field == "bulkDisableChannels"@
    ||| field == "bulkEnableChannels"@
    ||| field == "bulkRecoverChannels"@
    ||| field == "bulkDeleteChannels"@
    ||| field == "bulkCreateChannels"@
    ||| field == "bulkImportChannels"@
    ||| field == "bulkUpdateChannelOrdering"@
    ||| field == "syncChannelModels"@
    ||| field == "disableChannelAPIKey"@
    ||| field == "enableChannelAPIKey"@
    ||| field == "enableAllChannelAPIKeys"@
    ||| field == "enableSelectedChannelAPIKeys"@
    ||| field == "deleteDisabledChannelAPIKeys"@
    ||| field == "createChannelOverrideTemplate"@
    ||| field == "updateChannelOverrideTemplate"@
    ||| field == "deleteChannelOverrideTemplate"@
    ||| field == "applyChannelOverrideTemplate"@
    ||| field == "clearChannelOverrideTemplates"@
    ||| field == "upsertModelRoute"@
    ||| field == "createPublicModelWithRoutes"@
    ||| field == "applyChannelModelMappings"@
    ||| field == "setChannelModelMappingAutomation"@
    ||| field == "createModel"@
    ||| field == "updateModel"@
    ||| field == "deleteModel"@
    ||| field == "updateModelStatus"@
    ||| field == "bulkCreateModels"@
    ||| field == "bulkArchiveModels"@
    ||| field == "bulkDisableModels"@
    ||| field == "bulkEnableModels"@
    ||| field == "bulkDeleteModels"@
    ||| field == "saveChannelModelPrices"@
    ||| field == "createPromptProtectionRule"@
    ||| field == "updatePromptProtectionRule"@
    ||| field == "deletePromptProtectionRule"@
    ||| field == "updatePromptProtectionRuleStatus"@
    ||| field == "bulkDeletePromptProtectionRules"@
    ||| field == "bulkEnablePromptProtectionRules"@
    ||| field == "bulkDisablePromptProtectionRules"@
    ||| field == "resetChannelQuotaNow"@
    ||| field == "probeChannelQuota"@
    ||| field == "confirmChannelQuotaProbe"@
    ||| field == "probeNewApiPricing"@
    ||| field == "fetchModels"@
}

proof fn names_of_write_channels_fields(field: Seq<char>)
    ensures
        listed(WRITE_CHANNELS_FIELDS@, field) <==> on_write_channels_fields(field),
{
    let names = WRITE_CHANNELS_FIELDS@;
    assert(names[0]@ == "createChannel"@);
    assert(names[1]@ == "updateChannel"@);
    assert(names[2]@ == "deleteChannel"@);
    assert(names[3]@ == "updateChannelStatus"@);
    assert(names[4]@ == "duplicateChannel"@);
    assert(names[5]@ == "saveChannelEndpoints"@);
    assert(names[6]@ == "bulkArchiveChannels"@);
    assert(names[7]@ == "bulkDisableChannels"@);
    assert(names[8]@ == "bulkEnableChannels"@);
    assert(names[9]@ == "bulkRecoverChannels"@);
    assert(names[10]@ == "bulkDeleteChannels"@);
    assert(names[11]@ == "bulkCreateChannels"@);
    assert(names[12]@ == "bulkImportChannels"@);
    assert(names[13]@ == "bulkUpdateChannelOrdering"@);
    assert(names[14]@ == "syncChannelModels"@);
    assert(names[15]@ == "disableChannelAPIKey"@);
    assert(names[16]@ == "enableChannelAPIKey"@);
    assert(names[17]@ == "enableAllChannelAPIKeys"@);
    assert(names[18]@ == "enableSelectedChannelAPIKeys"@);
    assert(names[19]@ == "deleteDisabledChannelAPIKeys"@);
    assert(names[20]@ == "createChannelOverrideTemplate"@);
    assert(names[21]@ == "updateChannelOverrideTemplate"@);
    assert(names[22]@ == "deleteChannelOverrideTemplate"@);
    assert(names[23]@ == "applyChannelOverrideTemplate"@);
    assert(names[24]@ == "clearChannelOverrideTemplates"@);
    assert(names[25]@ == "upsertModelRoute"@);
    assert(names[26]@ == "createPublicModelWithRoutes"@);
    assert(names[27]@ == "applyChannelModelMappings"@);
    assert(names[28]@ == "setChannelModelMappingAutomation"@);
    assert(names[29]@ == "createModel"@);
    assert(names[30]@ == "updateModel"@);
    assert(names[31]@ == "deleteModel"@);
    assert(names[32]@ == "updateModelStatus"@);
    assert(names[33]@ == "bulkCreateModels"@);
    assert(names[34]@ == "bulkArchiveModels"@);
    assert(names[35]@ == "bulkDisableModels"@);
    assert(names[36]@ == "bulkEnableModels"@);
    assert(names[37]@ == "bulkDeleteModels"@);
    assert(names[38]@ == "saveChannelModelPrices"@);
    assert(names[39]@ == "createPromptProtectionRule"@);
    assert(names[40]@ == "updatePromptProtectionRule"@);
    assert(names[41]@ == "deletePromptProtectionRule"@);
    assert(names[42]@ == "updatePromptProtectionRuleStatus"@);
    assert(names[43]@ == "bulkDeletePromptProtectionRules"@);
    assert(names[44]@ == "bulkEnablePromptProtectionRules"@);
    assert(names[45]@ == "bulkDisablePromptProtectionRules"@);
    assert(names[46]@ == "resetChannelQuotaNow"@);
    assert(names[47]@ == "probeChannelQuota"@);
    assert(names[48]@ == "confirmChannelQuotaProbe"@);
    assert(names[49]@ == "probeNewApiPricing"@);
    assert(names[50]@ == "fetchModels"@);
    if listed(names, field) {
        let i = choose|i: int| 0 <= i < names.len() && (#[trigger] names[i])@ == field;
        assert(i == 0 || i == 1 || i == 2 || i == 3 || i == 4 || i == 5 || i == 6 || i == 7 || i == 8 || i == 9 || i == 10 || i == 11 || i == 12 || i == 13 || i == 14 || i == 15 || i == 16 || i == 17 || i == 18 || i == 19 || i == 20 || i == 21 || i == 22 || i == 23 || i == 24 || i == 25 || i == 26 || i == 27 || i == 28 || i == 29 || i == 30 || i == 31 || i == 32 || i == 33 || i == 34 || i == 35 || i == 36 || i == 37 || i == 38 || i == 39 || i == 40 || i == 41 || i == 42 || i == 43 || i == 44 || i == 45 || i == 46 || i == 47 || i == 48 || i == 49 || i == 50);
    }
}

/// The names on `READ_CHANNELS_FIELDS`.
pub open spec fn on_read_channels_fields(field: Seq<char>) -> bool {
    ||| field == "testChannel"@
    ||| field == "testChannelAPIKey"@
    ||| field == "testChannelAPIKeys"@
    ||| field == "channels"@
    ||| field == "models"@
    ||| field == "promptProtectionRules"@
    ||| field == "allChannelSummarys"@
    ||| field == "allChannelTags"@
    ||| field == "countChannelsByType"@
    ||| field == "queryChannels"@
    ||| field == "queryModels"@
    ||| field == "queryModelChannelConnections"@
    ||| field == "queryUnassociatedChannels"@
    ||| field == "channelOverrideTemplates"@
    ||| field == "channelProbeData"@
    ||| field == "upstreamModelDeployments"@
    ||| field == "modelRoutes"@
    ||| field == "previewChannelModelMappings"@
    ||| field == "channelModelMappingAutomationSettings"@
}

proof fn names_of_read_channels_fields(field: Seq<char>)
    ensures
        listed(READ_CHANNELS_FIELDS@, field) <==> on_read_channels_fields(field),
{
    let names = READ_CHANNELS_FIELDS@;
    assert(names[0]@ == "testChannel"@);
    assert(names[1]@ == "testChannelAPIKey"@);
    assert(names[2]@ == "testChannelAPIKeys"@);
    assert(names[3]@ == "channels"@);
    assert(names[4]@ == "models"@);
    assert(names[5]@ == "promptProtectionRules"@);
    assert(names[6]@ == "allChannelSummarys"@);
    assert(names[7]@ == "allChannelTags"@);
    assert(names[8]@ == "countChannelsByType"@);
    assert(names[9]@ == "queryChannels"@);
    assert(names[10]@ == "queryModels"@);
    assert(names[11]@ == "queryModelChannelConnections"@);
    assert(names[12]@ == "queryUnassociatedChannels"@);
    assert(names[13]@ == "channelOverrideTemplates"@);
    assert(names[14]@ == "channelProbeData"@);
    assert(names[15]@ == "upstreamModelDeployments"@);
    assert(names[16]@ == "modelRoutes"@);
    assert(names[17]@ == "previewChannelModelMappings"@);
    assert(names[18]@ == "channelModelMappingAutomationSettings"@);
    if listed(names, field) {
        let i = choose|i: int| 0 <= i < names.len() && (#[trigger] names[i])@ == field;
        assert(i == 0 || i == 1 || i == 2 || i == 3 || i == 4 || i == 5 || i == 6 || i == 7 || i == 8 || i == 9 || i == 10 || i == 11 || i == 12 || i == 13 || i == 14 || i == 15 || i == 16 || i == 17 || i == 18);
    }
}

/// The names on `WRITE_API_KEYS_FIELDS`.
pub open spec fn on_write_api_keys_fields(field: Seq<char>) -> bool {
    ||| field == "createAPIKey"@
    ||| field == "updateAPIKey"@
    ||| field == "updateAPIKeyStatus"@
    ||| field == "rotateAPIKey"@
    ||| field == "updateAPIKeyProfiles"@
    ||| field == "bulkDisableAPIKeys"@
    ||| field == "bulkEnableAPIKeys"@
    ||| field == "bulkArchiveAPIKeys"@
    ||| field == "createApiKeyProfileTemplate"@
    ||| field == "updateApiKeyProfileTemplate"@
    ||| field == "deleteApiKeyProfileTemplate"@
    ||| field == "loadApiKeyProfileTemplate"@
}

proof fn names_of_write_api_keys_fields(field: Seq<char>)
    ensures
        listed(WRITE_API_KEYS_FIELDS@, field) <==> on_write_api_keys_fields(field),
{
    let names = WRITE_API_KEYS_FIELDS@;
    assert(names[0]@ == "createAPIKey"@);
    assert(names[1]@ == "updateAPIKey"@);
    assert(names[2]@ == "updateAPIKeyStatus"@);
    assert(names[3]@ == "rotateAPIKey"@);
    assert(names[4]@ == "updateAPIKeyProfiles"@);
    assert(names[5]@ == "bulkDisableAPIKeys"@);
    assert(names[6]@ == "bulkEnableAPIKeys"@);
    assert(names[7]@ == "bulkArchiveAPIKeys"@);
    assert(names[8]@ == "createApiKeyProfileTemplate"@);
    assert(names[9]@ == "updateApiKeyProfileTemplate"@);
    assert(names[10]@ == "deleteApiKeyProfileTemplate"@);
    assert(names[11]@ == "loadApiKeyProfileTemplate"@);
    if listed(names, field) {
        let i = choose|i: int| 0 <= i < names.len() && (#[trigger] names[i])@ == field;
        assert(i == 0 || i == 1 || i == 2 || i == 3 || i == 4 || i == 5 || i == 6 || i == 7 || i == 8 || i == 9 || i == 10 || i == 11);
    }
}

/// The names on `READ_API_KEYS_FIELDS`.
pub open spec fn on_read_api_keys_fields(field: Seq<char>) -> bool {
    ||| field == "apiKeys"@
    ||| field == "apiKeyAssignableGroups"@
    ||| field == "apiKeyProfileTemplates"@
    ||| field == "apiKeyQuotaUsages"@
    ||| field == "apiKeyTokenUsageStats"@
}

proof fn names_of_read_api_keys_fields(field: Seq<char>)
    ensures
        listed(READ_API_KEYS_FIELDS@, field) <==> on_read_api_keys_fields(field),
{
    let names = READ_API_KEYS_FIELDS@;
    assert(names[0]@ == "apiKeys"@);
    assert(names[1]@ == "apiKeyAssignableGroups"@);
    assert(names[2]@ == "apiKeyProfileTemplates"@);
    assert(names[3]@ == "apiKeyQuotaUsages"@);
    assert(names[4]@ == "apiKeyTokenUsageStats"@);
    if listed(names, field) {
        let i = choose|i: int| 0 <= i < names.len() && (#[trigger] names[i])@ == field;
        assert(i == 0 || i == 1 || i == 2 || i == 3 || i == 4);
    }
}

/// The names on `WRITE_PROJECTS_FIELDS`.
pub open spec fn on_write_projects_fields(field: Seq<char>) -> bool {
    ||| field == "createProject"@
    ||| field == "updateProject"@
    ||| field == "updateProjectStatus"@
    ||| field == "updateProjectProfiles"@
    ||| field == "deleteProject"@
}

proof fn names_of_write_projects_fields(field: Seq<char>)
    ensures
        listed(WRITE_PROJECTS_FIELDS@, field) <==> on_write_projects_fields(field),
{
    let names = WRITE_PROJECTS_FIELDS@;
    assert(names[0]@ == "createProject"@);
    assert(names[1]@ == "updateProject"@);
    assert(names[2]@ == "updateProjectStatus"@);
    assert(names[3]@ == "updateProjectProfiles"@);
    assert(names[4]@ == "deleteProject"@);
    if listed(names, field) {
        let i = choose|i: int| 0 <= i < names.len() && (#[trigger] names[i])@ == field;
        assert(i == 0 || i == 1 || i == 2 || i == 3 || i == 4);
    }
}

/// The names on `READ_PROJECTS_FIELDS`.
pub open spec fn on_read_projects_fields(field: Seq<char>) -> bool {
    ||| field == "projects"@
}

proof fn names_of_read_projects_fields(field: Seq<char>)
    ensures
        listed(READ_PROJECTS_FIELDS@, field) <==> on_read_projects_fields(field),
{
    let names = READ_PROJECTS_FIELDS@;
    assert(names[0]@ == "projects"@);
    if listed(names, field) {
        let i = choose|i: int| 0 <= i < names.len() && (#[trigger] names[i])@ == field;
        assert(i == 0);
    }
}

/// The names on `WRITE_USERS_FIELDS`.
pub open spec fn on_write_users_fields(field: Seq<char>) -> bool {
    ||| field == "createUser"@
    ||| field == "updateUser"@
    ||| field == "updateUserStatus"@
    ||| field == "deleteUser"@
    ||| field == "addUserToProject"@
    ||| field == "removeUserFromProject"@
    ||| field == "updateProjectUser"@
}

proof fn names_of_write_users_fields(field: Seq<char>)
    ensures
        listed(WRITE_USERS_FIELDS@, field) <==> on_write_users_fields(field),
{
    let names = WRITE_USERS_FIELDS@;
    assert(names[0]@ == "createUser"@);
    assert(names[1]@ == "updateUser"@);
    assert(names[2]@ == "updateUserStatus"@);
    assert(names[3]@ == "deleteUser"@);
    assert(names[4]@ == "addUserToProject"@);
    assert(names[5]@ == "removeUserFromProject"@);
    assert(names[6]@ == "updateProjectUser"@);
    if listed(names, field) {
        let i = choose|i: int| 0 <= i < names.len() && (#[trigger] names[i])@ == field;
        assert(i == 0 || i == 1 || i == 2 || i == 3 || i == 4 || i == 5 || i == 6);
    }
}

/// The names on `READ_USERS_FIELDS`.
pub open spec fn on_read_users_fields(field: Seq<char>) -> bool {
    ||| field == "users"@
}

proof fn names_of_read_users_fields(field: Seq<char>)
    ensures
        listed(READ_USERS_FIELDS@, field) <==> on_read_users_fields(field),
{
    let names = READ_USERS_FIELDS@;
    assert(names[0]@ == "users"@);
    if listed(names, field) {
        let i = choose|i: int| 0 <= i < names.len() && (#[trigger] names[i])@ == field;
        assert(i == 0);
    }
}

/// The names on `WRITE_GROUPS_FIELDS`.
pub open spec fn on_write_groups_fields(field: Seq<char>) -> bool {
    ||| field == "createSimpleGroup"@
    ||| field == "updateSimpleGroup"@
    ||| field == "assignSimpleGroupUsers"@
    ||| field == "updateSimpleGroupModels"@
    ||| field == "updateSimpleGroupPrice"@
    ||| field == "deleteSimpleGroup"@
}

proof fn names_of_write_groups_fields(field: Seq<char>)
    ensures
        listed(WRITE_GROUPS_FIELDS@, field) <==> on_write_groups_fields(field),
{
    let names = WRITE_GROUPS_FIELDS@;
    assert(names[0]@ == "createSimpleGroup"@);
    assert(names[1]@ == "updateSimpleGroup"@);
    assert(names[2]@ == "assignSimpleGroupUsers"@);
    assert(names[3]@ == "updateSimpleGroupModels"@);
    assert(names[4]@ == "updateSimpleGroupPrice"@);
    assert(names[5]@ == "deleteSimpleGroup"@);
    if listed(names, field) {
        let i = choose|i: int| 0 <= i < names.len() && (#[trigger] names[i])@ == field;
        assert(i == 0 || i == 1 || i == 2 || i == 3 || i == 4 || i == 5);
    }
}

/// The names on `READ_GROUPS_FIELDS`.
pub open spec fn on_read_groups_fields(field: Seq<char>) -> bool {
    ||| field == "simpleGroups"@
}

proof fn names_of_read_groups_fields(field: Seq<char>)
    ensures
        listed(READ_GROUPS_FIELDS@, field) <==> on_read_groups_fields(field),
{
    let names = READ_GROUPS_FIELDS@;
    assert(names[0]@ == "simpleGroups"@);
    if listed(names, field) {
        let i = choose|i: int| 0 <= i < names.len() && (#[trigger] names[i])@ == field;
        assert(i == 0);
    }
}

/// The names on `READ_SETTINGS_FIELDS`.
pub open spec fn on_read_settings_fields(field: Seq<char>) -> bool {
    ||| field == "publicChannelHealthSettings"@
    ||| field == "storagePolicy"@
    ||| field == "retryPolicy"@
    ||| field == "webhookNotifierConfig"@
    ||| field == "systemChannelSettings"@
    ||| field == "videoStorageSettings"@
    ||| field == "quotaEnforcementSettings"@
    ||| field == "securitySettings"@
    ||| field == "proxyPresets"@
    ||| field == "userAgentPassThroughSettings"@
    ||| field == "passThroughSettings"@
    ||| field == "defaultDataStorageID"@
    ||| field == "autoBackupSettings"@
    ||| field == "previewGcCleanup"@
}

proof fn names_of_read_settings_fields(field: Seq<char>)
    ensures
        listed(READ_SETTINGS_FIELDS@, field) <==> on_read_settings_fields(field),
{
    let names = READ_SETTINGS_FIELDS@;
    assert(names[0]@ == "publicChannelHealthSettings"@);
    assert(names[1]@ == "storagePolicy"@);
    assert(names[2]@ == "retryPolicy"@);
    assert(names[3]@ == "webhookNotifierConfig"@);
    assert(names[4]@ == "systemChannelSettings"@);
    assert(names[5]@ == "videoStorageSettings"@);
    assert(names[6]@ == "quotaEnforcementSettings"@);
    assert(names[7]@ == "securitySettings"@);
    assert(names[8]@ == "proxyPresets"@);
    assert(names[9]@ == "userAgentPassThroughSettings"@);
    assert(names[10]@ == "passThroughSettings"@);
    assert(names[11]@ == "defaultDataStorageID"@);
    assert(names[12]@ == "autoBackupSettings"@);
    assert(names[13]@ == "previewGcCleanup"@);
    if listed(names, field) {
        let i = choose|i: int| 0 <= i < names.len() && (#[trigger] names[i])@ == field;
        assert(i == 0 || i == 1 || i == 2 || i == 3 || i == 4 || i == 5 || i == 6 || i == 7 || i == 8 || i == 9 || i == 10 || i == 11 || i == 12 || i == 13);
    }
}

/// The names on `WRITE_SETTINGS_FIELDS`.
pub open spec fn on_write_settings_fields(field: Seq<char>) -> bool {
    ||| field == "updatePublicChannelHealthSettings"@
    ||| field == "updateBrandSettings"@
    ||| field == "updateStoragePolicy"@
    ||| field == "updateRetryPolicy"@
    ||| field == "updateWebhookNotifierConfig"@
    ||| field == "updateSystemModelSettings"@
    ||| field == "updateSystemChannelSettings"@
    ||| field == "updateSystemGeneralSettings"@
    ||| field == "updateDefaultDataStorage"@
    ||| field == "updateSecuritySettings"@
    ||| field == "updateQuotaEnforcementSettings"@
    ||| field == "setQuotaEnforcementSettings"@
    ||| field == "updateUserAgentPassThroughSettings"@
    ||| field == "updatePassThroughSettings"@
    ||| field == "updateVideoStorageSettings"@
    ||| field == "saveProxyPreset"@
    ||| field == "deleteProxyPreset"@
    ||| field == "completeOnboarding"@
    ||| field == "completeSystemModelSettingOnboarding"@
    ||| field == "completeAutoDisableChannelOnboarding"@
    ||| field == "triggerGcCleanup"@
}

proof fn names_of_write_settings_fields(field: Seq<char>)
    ensures
        listed(WRITE_SETTINGS_FIELDS@, field) <==> on_write_settings_fields(field),
{
    let names = WRITE_SETTINGS_FIELDS@;
    assert(names[0]@ == "updatePublicChannelHealthSettings"@);
    assert(names[1]@ == "updateBrandSettings"@);
    assert(names[2]@ == "updateStoragePolicy"@);
    assert(names[3]@ == "updateRetryPolicy"@);
    assert(names[4]@ == "updateWebhookNotifierConfig"@);
    assert(names[5]@ == "updateSystemModelSettings"@);
    assert(names[6]@ == "updateSystemChannelSettings"@);
    assert(names[7]@ == "updateSystemGeneralSettings"@);
    assert(names[8]@ == "updateDefaultDataStorage"@);
    assert(names[9]@ == "updateSecuritySettings"@);
    assert(names[10]@ == "updateQuotaEnforcementSettings"@);
    assert(names[11]@ == "setQuotaEnforcementSettings"@);
    assert(names[12]@ == "updateUserAgentPassThroughSettings"@);
    assert(names[13]@ == "updatePassThroughSettings"@);
    assert(names[14]@ == "updateVideoStorageSettings"@);
    assert(names[15]@ == "saveProxyPreset"@);
    assert(names[16]@ == "deleteProxyPreset"@);
    assert(names[17]@ == "completeOnboarding"@);
    assert(names[18]@ == "completeSystemModelSettingOnboarding"@);
    assert(names[19]@ == "completeAutoDisableChannelOnboarding"@);
    assert(names[20]@ == "triggerGcCleanup"@);
    if listed(names, field) {
        let i = choose|i: int| 0 <= i < names.len() && (#[trigger] names[i])@ == field;
        assert(i == 0 || i == 1 || i == 2 || i == 3 || i == 4 || i == 5 || i == 6 || i == 7 || i == 8 || i == 9 || i == 10 || i == 11 || i == 12 || i == 13 || i == 14 || i == 15 || i == 16 || i == 17 || i == 18 || i == 19 || i == 20);
    }
}

/// The names on `READ_BILLING_FIELDS`.
pub open spec fn on_read_billing_fields(field: Seq<char>) -> bool {
    ||| field == "userBalance"@
    ||| field == "projectBalance"@
    ||| field == "projectWalletComparison"@
}

proof fn names_of_read_billing_fields(field: Seq<char>)
    ensures
        listed(READ_BILLING_FIELDS@, field) <==> on_read_billing_fields(field),
{
    let names = READ_BILLING_FIELDS@;
    assert(names[0]@ == "userBalance"@);
    assert(names[1]@ == "projectBalance"@);
    assert(names[2]@ == "projectWalletComparison"@);
    if listed(names, field) {
        let i = choose|i: int| 0 <= i < names.len() && (#[trigger] names[i])@ == field;
        assert(i == 0 || i == 1 || i == 2);
    }
}

/// The names on `READ_SUBSCRIPTIONS_FIELDS`.
pub open spec fn on_read_subscriptions_fields(field: Seq<char>) -> bool {
    ||| field == "userSubscriptions"@
    ||| field == "subscriptionProjects"@
    ||| field == "subscriptionPlans"@
}

proof fn names_of_read_subscriptions_fields(field: Seq<char>)
    ensures
        listed(READ_SUBSCRIPTIONS_FIELDS@, field) <==> on_read_subscriptions_fields(field),
{
    let names = READ_SUBSCRIPTIONS_FIELDS@;
    assert(names[0]@ == "userSubscriptions"@);
    assert(names[1]@ == "subscriptionProjects"@);
    assert(names[2]@ == "subscriptionPlans"@);
    if listed(names, field) {
        let i = choose|i: int| 0 <= i < names.len() && (#[trigger] names[i])@ == field;
        assert(i == 0 || i == 1 || i == 2);
    }
}

/// The names on `GRANT_CREDIT_FIELDS`.
pub open spec fn on_grant_credit_fields(field: Seq<char>) -> bool {
    ||| field == "grantUserCredit"@
    ||| field == "grantProjectCredit"@
}

proof fn names_of_grant_credit_fields(field: Seq<char>)
    ensures
        listed(GRANT_CREDIT_FIELDS@, field) <==> on_grant_credit_fields(field),
{
    let names = GRANT_CREDIT_FIELDS@;
    assert(names[0]@ == "grantUserCredit"@);
    assert(names[1]@ == "grantProjectCredit"@);
    if listed(names, field) {
        let i = choose|i: int| 0 <= i < names.len() && (#[trigger] names[i])@ == field;
        assert(i == 0 || i == 1);
    }
}

/// The names on `WRITE_SUBSCRIPTIONS_FIELDS`.
pub open spec fn on_write_subscriptions_fields(field: Seq<char>) -> bool {
    ||| field == "createSubscriptionPlan"@
    ||| field == "updateSubscriptionPlan"@
    ||| field == "assignUserSubscription"@
    ||| field == "refreshSubscriptionAllowance"@
    ||| field == "pauseUserSubscription"@
    ||| field == "resumeUserSubscription"@
    ||| field == "cancelUserSubscription"@
    ||| field == "renewUserSubscription"@
    ||| field == "setSubscriptionAutoRenew"@
}

proof fn names_of_write_subscriptions_fields(field: Seq<char>)
    ensures
        listed(WRITE_SUBSCRIPTIONS_FIELDS@, field) <==> on_write_subscriptions_fields(field),
{
    let names = WRITE_SUBSCRIPTIONS_FIELDS@;
    assert(names[0]@ == "createSubscriptionPlan"@);
    assert(names[1]@ == "updateSubscriptionPlan"@);
    assert(names[2]@ == "assignUserSubscription"@);
    assert(names[3]@ == "refreshSubscriptionAllowance"@);
    assert(names[4]@ == "pauseUserSubscription"@);
    assert(names[5]@ == "resumeUserSubscription"@);
    assert(names[6]@ == "cancelUserSubscription"@);
    assert(names[7]@ == "renewUserSubscription"@);
    assert(names[8]@ == "setSubscriptionAutoRenew"@);
    if listed(names, field) {
        let i = choose|i: int| 0 <= i < names.len() && (#[trigger] names[i])@ == field;
        assert(i == 0 || i == 1 || i == 2 || i == 3 || i == 4 || i == 5 || i == 6 || i == 7 || i == 8);
    }
}

/// The names on `WRITE_ROLES_FIELDS`.
pub open spec fn on_write_roles_fields(field: Seq<char>) -> bool {
    ||| field == "createRole"@
    ||| field == "updateRole"@
    ||| field == "deleteRole"@
    ||| field == "bulkDeleteRoles"@
}

proof fn names_of_write_roles_fields(field: Seq<char>)
    ensures
        listed(WRITE_ROLES_FIELDS@, field) <==> on_write_roles_fields(field),
{
    let names = WRITE_ROLES_FIELDS@;
    assert(names[0]@ == "createRole"@);
    assert(names[1]@ == "updateRole"@);
    assert(names[2]@ == "deleteRole"@);
    assert(names[3]@ == "bulkDeleteRoles"@);
    if listed(names, field) {
        let i = choose|i: int| 0 <= i < names.len() && (#[trigger] names[i])@ == field;
        assert(i == 0 || i == 1 || i == 2 || i == 3);
    }
}

/// The names on `READ_ROLES_FIELDS`.
pub open spec fn on_read_roles_fields(field: Seq<char>) -> bool {
    ||| field == "roles"@
}

proof fn names_of_read_roles_fields(field: Seq<char>)
    ensures
        listed(READ_ROLES_FIELDS@, field) <==> on_read_roles_fields(field),
{
    let names = READ_ROLES_FIELDS@;
    assert(names[0]@ == "roles"@);
    if listed(names, field) {
        let i = choose|i: int| 0 <= i < names.len() && (#[trigger] names[i])@ == field;
        assert(i == 0);
    }
}

/// The names on `WRITE_PROMPTS_FIELDS`.
pub open spec fn on_write_prompts_fields(field: Seq<char>) -> bool {
    ||| field == "createPrompt"@
    ||| field == "updatePrompt"@
    ||| field == "deletePrompt"@
    ||| field == "updatePromptStatus"@
    ||| field == "bulkDeletePrompts"@
    ||| field == "bulkEnablePrompts"@
    ||| field == "bulkDisablePrompts"@
}

proof fn names_of_write_prompts_fields(field: Seq<char>)
    ensures
        listed(WRITE_PROMPTS_FIELDS@, field) <==> on_write_prompts_fields(field),
{
    let names = WRITE_PROMPTS_FIELDS@;
    assert(names[0]@ == "createPrompt"@);
    assert(names[1]@ == "updatePrompt"@);
    assert(names[2]@ == "deletePrompt"@);
    assert(names[3]@ == "updatePromptStatus"@);
    assert(names[4]@ == "bulkDeletePrompts"@);
    assert(names[5]@ == "bulkEnablePrompts"@);
    assert(names[6]@ == "bulkDisablePrompts"@);
    if listed(names, field) {
        let i = choose|i: int| 0 <= i < names.len() && (#[trigger] names[i])@ == field;
        assert(i == 0 || i == 1 || i == 2 || i == 3 || i == 4 || i == 5 || i == 6);
    }
}

/// The names on `READ_PROMPTS_FIELDS`.
pub open spec fn on_read_prompts_fields(field: Seq<char>) -> bool {
    ||| field == "prompts"@
}

proof fn names_of_read_prompts_fields(field: Seq<char>)
    ensures
        listed(READ_PROMPTS_FIELDS@, field) <==> on_read_prompts_fields(field),
{
    let names = READ_PROMPTS_FIELDS@;
    assert(names[0]@ == "prompts"@);
    if listed(names, field) {
        let i = choose|i: int| 0 <= i < names.len() && (#[trigger] names[i])@ == field;
        assert(i == 0);
    }
}

/// The names on `WRITE_DATA_STORAGES_FIELDS`.
pub open spec fn on_write_data_storages_fields(field: Seq<char>) -> bool {
    ||| field == "createDataStorage"@
    ||| field == "updateDataStorage"@
}

proof fn names_of_write_data_storages_fields(field: Seq<char>)
    ensures
        listed(WRITE_DATA_STORAGES_FIELDS@, field) <==> on_write_data_storages_fields(field),
{
    let names = WRITE_DATA_STORAGES_FIELDS@;
    assert(names[0]@ == "createDataStorage"@);
    assert(names[1]@ == "updateDataStorage"@);
    if listed(names, field) {
        let i = choose|i: int| 0 <= i < names.len() && (#[trigger] names[i])@ == field;
        assert(i == 0 || i == 1);
    }
}

/// The names on `READ_DATA_STORAGES_FIELDS`.
pub open spec fn on_read_data_storages_fields(field: Seq<char>) -> bool {
    ||| field == "dataStorages"@
}

proof fn names_of_read_data_storages_fields(field: Seq<char>)
    ensures
        listed(READ_DATA_STORAGES_FIELDS@, field) <==> on_read_data_storages_fields(field),
{
    let names = READ_DATA_STORAGES_FIELDS@;
    assert(names[0]@ == "dataStorages"@);
    if listed(names, field) {
        let i = choose|i: int| 0 <= i < names.len() && (#[trigger] names[i])@ == field;
        assert(i == 0);
    }
}

/// The names on `READ_REQUESTS_FIELDS`.
pub open spec fn on_read_requests_fields(field: Seq<char>) -> bool {
    ||| field == "requests"@
    ||| field == "usageLogs"@
    ||| field == "threads"@
    ||| field == "traces"@
    ||| field == "requestRouteExplanation"@
}

proof fn names_of_read_requests_fields(field: Seq<char>)
    ensures
        listed(READ_REQUESTS_FIELDS@, field) <==> on_read_requests_fields(field),
{
    let names = READ_REQUESTS_FIELDS@;
    assert(names[0]@ == "requests"@);
    assert(names[1]@ == "usageLogs"@);
    assert(names[2]@ == "threads"@);
    assert(names[3]@ == "traces"@);
    assert(names[4]@ == "requestRouteExplanation"@);
    if listed(names, field) {
        let i = choose|i: int| 0 <= i < names.len() && (#[trigger] names[i])@ == field;
        assert(i == 0 || i == 1 || i == 2 || i == 3 || i == 4);
    }
}

/// The names on `WRITE_COMMERCIALIZATION_FIELDS`.
pub open spec fn on_write_commercialization_fields(field: Seq<char>) -> bool {
    ||| field == "createPriceBook"@
    ||| field == "createProviderPriceChangeSet"@
    ||| field == "createRetailPriceChangeSet"@
    ||| field == "saveRetailPriceChangeSetItem"@
    ||| field == "submitChangeSet"@
    ||| field == "approveChangeSet"@
    ||| field == "rejectChangeSet"@
}

proof fn names_of_write_commercialization_fields(field: Seq<char>)
    ensures
        listed(WRITE_COMMERCIALIZATION_FIELDS@, field) <==> on_write_commercialization_fields(field),
{
    let names = WRITE_COMMERCIALIZATION_FIELDS@;
    assert(names[0]@ == "createPriceBook"@);
    assert(names[1]@ == "createProviderPriceChangeSet"@);
    assert(names[2]@ == "createRetailPriceChangeSet"@);
    assert(names[3]@ == "saveRetailPriceChangeSetItem"@);
    assert(names[4]@ == "submitChangeSet"@);
    assert(names[5]@ == "approveChangeSet"@);
    assert(names[6]@ == "rejectChangeSet"@);
    if listed(names, field) {
        let i = choose|i: int| 0 <= i < names.len() && (#[trigger] names[i])@ == field;
        assert(i == 0 || i == 1 || i == 2 || i == 3 || i == 4 || i == 5 || i == 6);
    }
}

/// The names on `READ_COMMERCIALIZATION_FIELDS`.
pub open spec fn on_read_commercialization_fields(field: Seq<char>) -> bool {
    ||| field == "priceBooks"@
    ||| field == "previewCustomerCharge"@
    ||| field == "changeSets"@
}

proof fn names_of_read_commercialization_fields(field: Seq<char>)
    ensures
        listed(READ_COMMERCIALIZATION_FIELDS@, field) <==> on_read_commercialization_fields(field),
{
    let names = READ_COMMERCIALIZATION_FIELDS@;
    assert(names[0]@ == "priceBooks"@);
    assert(names[1]@ == "previewCustomerCharge"@);
    assert(names[2]@ == "changeSets"@);
    if listed(names, field) {
        let i = choose|i: int| 0 <= i < names.len() && (#[trigger] names[i])@ == field;
        assert(i == 0 || i == 1 || i == 2);
    }
}

/// The names on `READ_DASHBOARD_FIELDS`.
pub open spec fn on_read_dashboard_fields(field: Seq<char>) -> bool {
    ||| field == "dashboardOverview"@
    ||| field == "requestStats"@
    ||| field == "tokenStats"@
    ||| field == "requestStatsByChannel"@
    ||| field == "requestStatsByModel"@
    ||| field == "requestStatsByAPIKey"@
    ||| field == "tokenStatsByAPIKey"@
    ||| field == "tokenStatsByChannel"@
    ||| field == "tokenStatsByModel"@
    ||| field == "costStatsByChannel"@
    ||| field == "costStatsByModel"@
    ||| field == "costStatsByAPIKey"@
    ||| field == "dailyRequestStats"@
    ||| field == "hourlyRequestStats"@
    ||| field == "topRequestsProjects"@
    ||| field == "channelSuccessRates"@
    ||| field == "fastestChannels"@
    ||| field == "fastestModels"@
    ||| field == "modelPerformanceStats"@
    ||| field == "channelPerformanceStats"@
    ||| field == "operationsLedger"@
    ||| field == "operationsFlow"@
    ||| field == "operationsModelSeries"@
    ||| field == "providerObservationHistory"@
}

proof fn names_of_read_dashboard_fields(field: Seq<char>)
    ensures
        listed(READ_DASHBOARD_FIELDS@, field) <==> on_read_dashboard_fields(field),
{
    let names = READ_DASHBOARD_FIELDS@;
    assert(names[0]@ == "dashboardOverview"@);
    assert(names[1]@ == "requestStats"@);
    assert(names[2]@ == "tokenStats"@);
    assert(names[3]@ == "requestStatsByChannel"@);
    assert(names[4]@ == "requestStatsByModel"@);
    assert(names[5]@ == "requestStatsByAPIKey"@);
    assert(names[6]@ == "tokenStatsByAPIKey"@);
    assert(names[7]@ == "tokenStatsByChannel"@);
    assert(names[8]@ == "tokenStatsByModel"@);
    assert(names[9]@ == "costStatsByChannel"@);
    assert(names[10]@ == "costStatsByModel"@);
    assert(names[11]@ == "costStatsByAPIKey"@);
    assert(names[12]@ == "dailyRequestStats"@);
    assert(names[13]@ == "hourlyRequestStats"@);
    assert(names[14]@ == "topRequestsProjects"@);
    assert(names[15]@ == "channelSuccessRates"@);
    assert(names[16]@ == "fastestChannels"@);
    assert(names[17]@ == "fastestModels"@);
    assert(names[18]@ == "modelPerformanceStats"@);
    assert(names[19]@ == "channelPerformanceStats"@);
    assert(names[20]@ == "operationsLedger"@);
    assert(names[21]@ == "operationsFlow"@);
    assert(names[22]@ == "operationsModelSeries"@);
    assert(names[23]@ == "providerObservationHistory"@);
    if listed(names, field) {
        let i = choose|i: int| 0 <= i < names.len() && (#[trigger] names[i])@ == field;
        assert(i == 0 || i == 1 || i == 2 || i == 3 || i == 4 || i == 5 || i == 6 || i == 7 || i == 8 || i == 9 || i == 10 || i == 11 || i == 12 || i == 13 || i == 14 || i == 15 || i == 16 || i == 17 || i == 18 || i == 19 || i == 20 || i == 21 || i == 22 || i == 23);
    }
}

/// Whether a root field takes the scope of this name.
pub open spec fn takes_scope(field: Seq<char>, scope: Seq<char>) -> bool {
    match required(field) {
        FieldAuthz::Scope(name) => name@ == scope,
        _ => false,
    }
}

/// Which requirement each root field has, by its name. Whatever is not named here is
/// denied.
pub proof fn root_fields_have_their_requirements(field: Seq<char>)
    ensures
        on_public_fields(field) ==> required(field) == FieldAuthz::Public,
        on_authenticated_fields(field) ==> required(field) == FieldAuthz::Authenticated,
        on_owner_fields(field) ==> required(field) == FieldAuthz::OwnerOnly,
        on_write_channels_fields(field) ==> takes_scope(field, "write_channels"@),
        on_read_channels_fields(field) ==> takes_scope(field, "read_channels"@),
        on_write_api_keys_fields(field) ==> takes_scope(field, "write_api_keys"@),
        on_read_api_keys_fields(field) ==> takes_scope(field, "read_api_keys"@),
        on_write_projects_fields(field) ==> takes_scope(field, "write_projects"@),
        on_read_projects_fields(field) ==> takes_scope(field, "read_projects"@),
        on_write_users_fields(field) ==> takes_scope(field, "write_users"@),
        on_read_users_fields(field) ==> takes_scope(field, "read_users"@),
        on_write_groups_fields(field) ==> takes_scope(field, "write_groups"@),
        on_read_groups_fields(field) ==> takes_scope(field, "read_groups"@),
        on_read_settings_fields(field) ==> takes_scope(field, "read_settings"@),
        on_write_settings_fields(field) ==> takes_scope(field, "write_settings"@),
        on_read_billing_fields(field) ==> takes_scope(field, "read_billing"@),
        on_read_subscriptions_fields(field) ==> takes_scope(field, "read_subscriptions"@),
        on_grant_credit_fields(field) ==> takes_scope(field, "grant_credit"@),
        on_write_subscriptions_fields(field) ==> takes_scope(field, "write_subscriptions"@),
        on_write_roles_fields(field) ==> takes_scope(field, "write_roles"@),
        on_read_roles_fields(field) ==> takes_scope(field, "read_roles"@),
        on_write_prompts_fields(field) ==> takes_scope(field, "write_prompts"@),
        on_read_prompts_fields(field) ==> takes_scope(field, "read_prompts"@),
        on_write_data_storages_fields(field) ==> takes_scope(field, "write_data_storages"@),
        on_read_data_storages_fields(field) ==> takes_scope(field, "read_data_storages"@),
        on_read_requests_fields(field) ==> takes_scope(field, "read_requests"@),
        on_write_commercialization_fields(field) ==> takes_scope(field, "write_commercialization"@),
        on_read_commercialization_fields(field) ==> takes_scope(field, "read_commercialization"@),
        on_read_dashboard_fields(field) ==> takes_scope(field, "read_dashboard"@),
        required(field) == FieldAuthz::Deny <==> !(on_public_fields(field) || on_authenticated_fields(field) || on_owner_fields(field) || on_write_channels_fields(field) || on_read_channels_fields(field) || on_write_api_keys_fields(field) || on_read_api_keys_fields(field) || on_write_projects_fields(field) || on_read_projects_fields(field) || on_write_users_fields(field) || on_read_users_fields(field) || on_write_groups_fields(field) || on_read_groups_fields(field) || on_read_settings_fields(field) || on_write_settings_fields(field) || on_read_billing_fields(field) || on_read_subscriptions_fields(field) || on_grant_credit_fields(field) || on_write_subscriptions_fields(field) || on_write_roles_fields(field) || on_read_roles_fields(field) || on_write_prompts_fields(field) || on_read_prompts_fields(field) || on_write_data_storages_fields(field) || on_read_data_storages_fields(field) || on_read_requests_fields(field) || on_write_commercialization_fields(field) || on_read_commercialization_fields(field) || on_read_dashboard_fields(field)),
{
    names_of_public_fields(field);
    names_of_authenticated_fields(field);
    names_of_owner_fields(field);
    names_of_write_channels_fields(field);
    names_of_read_channels_fields(field);
    names_of_write_api_keys_fields(field);
    names_of_read_api_keys_fields(field);
    names_of_write_projects_fields(field);
    names_of_read_projects_fields(field);
    names_of_write_users_fields(field);
    names_of_read_users_fields(field);
    names_of_write_groups_fields(field);
    names_of_read_groups_fields(field);
    names_of_read_settings_fields(field);
    names_of_write_settings_fields(field);
    names_of_read_billing_fields(field);
    names_of_read_subscriptions_fields(field);
    names_of_grant_credit_fields(field);
    names_of_write_subscriptions_fields(field);
    names_of_write_roles_fields(field);
    names_of_read_roles_fields(field);
    names_of_write_prompts_fields(field);
    names_of_read_prompts_fields(field);
    names_of_write_data_storages_fields(field);
    names_of_read_data_storages_fields(field);
    names_of_read_requests_fields(field);
    names_of_write_commercialization_fields(field);
    names_of_read_commercialization_fields(field);
    names_of_read_dashboard_fields(field);
    listed_fields_have_the_requirement_of_their_list(field);
}

} // verus!
