use vstd::prelude::*;

verus! {

pub const BUS_NAME: &'static str = "one.playtron.LocalPlugin";

pub const CLIENT_PATH: &'static str = "/one/playtron/LocalPlugin/PluginClient0";

pub const PLUGIN_ID: &'static str = "local";

pub const NAME: &'static str = "Local games";

pub const VERSION: &'static str = "0.1.0";

pub const MINIMUM_API_VERSION: &'static str = "0.1.1";

pub const LIBRARY_PROVIDER_NAME: &'static str = "Local games";

pub const LIBRARY_PROVIDER_ID: &'static str = "local";

/// Directory, below a storage root, that holds the application bundles.
pub const LIBRARY_SUBDIR: &'static str = "playtron/apps/local";

/// Descriptor file that every application bundle carries.
pub const METADATA_FILE: &'static str = "gameinfo.yaml";

/// Platform assumed when neither the descriptor nor the caller names one.
pub const DEFAULT_PLATFORM: &'static str = "windows";

/// Version recorded for an app found on disk, which carries no install bookkeeping.
pub const DEFAULT_VERSION: &'static str = "1.0";

/// Byte counts recorded for an app found on disk, which carries no install bookkeeping.
pub const DEFAULT_SIZE: u64 = 1;

/// Label of the key scheme that callers encrypt secrets with.
pub const KEY_TYPE: &'static str = "RSA-SHA256";

} // verus!
