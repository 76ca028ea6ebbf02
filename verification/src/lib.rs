//! The decision logic of the plugin command-line tool: paths, manifests,
//! packaging rules, store responses and the publish workflow.

pub mod command;
pub mod config;
pub mod create;
pub mod package;
pub mod paths;
pub mod publish;
pub mod store_api;
pub mod template;
pub mod text;
