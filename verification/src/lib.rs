//! A backup-agent plugin library.
//!
//! An external orchestrator invokes the plugin with a subcommand and a local
//! path; the plugin copies bytes between that path and a content-addressed
//! backup store laid out as `<root>/<day bucket>/<item bucket>/<file name>`.
//! This crate holds the verified core: the path-derivation scheme that maps a
//! local path to its backup-store location, the command dispatch, and the
//! fault-injection decisions. The result of planning an invocation is a plan
//! that says exactly which filesystem action to perform; the unverified binary
//! around the library carries the action out.

pub mod command;
pub mod errors;
pub mod fault;
pub mod laws;
pub mod paths;

pub use command::Action;
pub use command::Plan;
pub use command::Settings;
pub use command::Subcommand;
pub use command::backup_data;
pub use command::backup_file;
pub use command::cleanup_plugin_for_backup;
pub use command::cleanup_plugin_for_restore;
pub use command::delete_backup;
pub use command::parse_subcommand;
pub use command::plan_invocation;
pub use command::plugin_api_version;
pub use command::restore_data;
pub use command::restore_file;
pub use command::setup_plugin_for_backup;
pub use command::setup_plugin_for_restore;
pub use command::version;
pub use errors::PluginError;
pub use errors::error_message;
pub use fault::Rng;
pub use fault::rand;
pub use fault::randomly_fail;
pub use paths::daydir_of_bucket;
pub use paths::split_daydir_dir;
pub use paths::split_daydir_dir_file;
pub use paths::store_dir;
pub use paths::store_path;
