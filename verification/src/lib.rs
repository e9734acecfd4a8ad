//! Building blocks for assembling Windows Installer (MSI) databases: the
//! table rows, the identifiers that key them, and the builder that keeps the
//! tables consistent with each other.

pub mod error;
pub mod text;
pub mod value;
pub mod identifier;
pub mod tables;
pub mod constants;
pub mod types;
pub mod system_folder;
pub mod registry;
pub mod cabinet;
pub mod builder;
pub mod resolve;
pub mod config;
pub mod command;
pub mod models;
pub mod cfb;
