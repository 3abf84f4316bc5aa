//! A local-content library provider: a catalog of application bundles found
//! on local and removable storage, an install/uninstall state machine, a
//! single-slot account session and the key pair that protects secrets sent
//! to this process.

pub mod constants;
pub mod errors;
pub mod types;
pub mod paths;
pub mod disks;
pub mod catalog;
pub mod install;
pub mod keys;
pub mod auth;
pub mod service;
pub mod dates;
pub mod plugin;
