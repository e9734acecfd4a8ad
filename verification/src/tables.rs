//! The installer tables: their columns, their rows, and the containers that
//! keep their entries free of conflicts.

pub mod column;
pub mod dao;
pub mod feature;
pub mod directory;
pub mod component;
pub mod file;
pub mod media;
pub mod property;
pub mod registry;
pub mod icon;
pub mod search;
pub mod launch_condition;
pub mod custom_action;
pub mod binary;
pub mod lock_permissions;
pub mod service;
pub mod shortcut;
pub mod sequence;
pub mod meta;
