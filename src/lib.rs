//! Release checking and dependency provisioning for the desktop shell: version
//! comparison, release asset selection, update decisions, the stored version
//! record, archive layout fixes, updater scripts and user configuration.

pub mod text;
pub mod version;
pub mod release;
pub mod store;
pub mod update;
pub mod install;
pub mod pass;
pub mod script;
pub mod config;
