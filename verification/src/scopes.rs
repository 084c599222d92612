//! The names of the system scopes.
use vstd::prelude::*;

verus! {

pub const GRANT_CREDIT: &'static str = "grant_credit";

pub const READ_API_KEYS: &'static str = "read_api_keys";

pub const READ_BILLING: &'static str = "read_billing";

pub const READ_CHANNELS: &'static str = "read_channels";

pub const READ_COMMERCIALIZATION: &'static str = "read_commercialization";

pub const READ_DASHBOARD: &'static str = "read_dashboard";

pub const READ_DATA_STORAGES: &'static str = "read_data_storages";

pub const READ_GROUPS: &'static str = "read_groups";

pub const READ_PROJECTS: &'static str = "read_projects";

pub const READ_PROMPTS: &'static str = "read_prompts";

pub const READ_REQUESTS: &'static str = "read_requests";

pub const READ_ROLES: &'static str = "read_roles";

pub const READ_SETTINGS: &'static str = "read_settings";

pub const READ_SUBSCRIPTIONS: &'static str = "read_subscriptions";

pub const READ_USERS: &'static str = "read_users";

pub const WRITE_API_KEYS: &'static str = "write_api_keys";

pub const WRITE_CHANNELS: &'static str = "write_channels";

pub const WRITE_COMMERCIALIZATION: &'static str = "write_commercialization";

pub const WRITE_DATA_STORAGES: &'static str = "write_data_storages";

pub const WRITE_GROUPS: &'static str = "write_groups";

pub const WRITE_PROJECTS: &'static str = "write_projects";

pub const WRITE_PROMPTS: &'static str = "write_prompts";

pub const WRITE_ROLES: &'static str = "write_roles";

pub const WRITE_SETTINGS: &'static str = "write_settings";

pub const WRITE_SUBSCRIPTIONS: &'static str = "write_subscriptions";

pub const WRITE_USERS: &'static str = "write_users";

} // verus!
