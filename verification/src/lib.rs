//! The decisions behind the admin GraphQL surface: who may call a root field,
//! which inputs are accepted and how they are normalised, how lists are
//! ordered, batched, merged and converted, and what every error reads like.
//!
//! Nothing here does I/O, apart from a look at the clock when an expiry is checked.
//! Resolvers, services and the schema itself live around the library and hand it
//! plain values.

pub mod apikey;
pub mod authz_extension;
pub mod authz_lists;
pub mod backup_ext;
pub mod billing;
pub mod change_set;
pub mod channel;
pub mod channel_convert;
pub mod channel_endpoints;
pub mod channel_ext;
pub mod channel_ext2;
pub mod channel_issues;
pub mod channel_models;
pub mod channel_override_template_ext;
pub mod channel_probe_ext;
pub mod channel_queries;
pub mod channel_settings;
pub mod commercialization;
pub mod credit_amount;
pub mod dashboard;
pub mod data_storage;
pub mod dataloader;
pub mod edges;
pub mod input;
pub mod policy;
pub mod scalars;
pub mod scopes;
pub mod text;
pub mod text_map;
