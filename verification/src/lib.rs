//! Verified core of a small tool that rebuilds PostgreSQL tables from JSON
//! descriptions: the messages shown to the user, the handling of loaded
//! files, the selection logic of the drop-down menus, the SQL text, and the
//! step-by-step decisions of a table rebuild.

pub mod messages;
pub mod tools;
pub mod json;
pub mod rebuild;
pub mod rebuild_steps;
pub mod rebuild_laws;
pub mod modal_machines;
pub mod edit;
pub mod data_base_mod_app;
