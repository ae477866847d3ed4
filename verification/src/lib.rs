//! Dynamic plugin registration and event dispatch.
//!
//! Provider modules register operation handlers under a three-part
//! event key (provider, feature, method) with a central registry; a
//! host dispatches calls by key with a JSON payload and receives a
//! JSON result or a structured error.

pub mod builder;
pub mod events;
pub mod feature;
pub mod json;
pub mod keys;
pub mod loader;
pub mod provider;
pub mod registry;
pub mod sync_map;
pub mod vbox_config;
pub mod vbox_error;
pub mod vbox_handlers;
pub mod vbox_ops;
pub mod vbox_plugin;
pub mod vbox_utils;
pub mod vm_feature;
