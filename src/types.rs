use vstd::prelude::*;

verus! {

#[derive(Debug, Clone)]
pub struct EulaEntry {
    pub id: String,
    pub name: String,
    pub version: i32,
    pub url: String,
    pub body: String,
    pub country: String,
    pub language: String,
}

/// One locally present, installed application.
#[derive(Debug, Clone)]
pub struct InstalledApp {
    pub app_id: String,
    pub installed_path: String,
    pub downloaded_bytes: u64,
    pub total_download_size: u64,
    pub disk_size: u64,
    pub version: String,
    pub latest_version: String,
    pub update_pending: bool,
    pub os: String,
    pub language: String,
    pub disabled_dlc: Vec<String>,
}

/// The mathematical value of an `InstalledApp`.
pub struct InstalledAppView {
    pub app_id: Seq<char>,
    pub installed_path: Seq<char>,
    pub downloaded_bytes: u64,
    pub total_download_size: u64,
    pub disk_size: u64,
    pub version: Seq<char>,
    pub latest_version: Seq<char>,
    pub update_pending: bool,
    pub os: Seq<char>,
    pub language: Seq<char>,
    pub disabled_dlc: Seq<Seq<char>>,
}

impl View for InstalledApp {
    type V = InstalledAppView;

    open spec fn view(&self) -> InstalledAppView {
        InstalledAppView {
            app_id: self.app_id@,
            installed_path: self.installed_path@,
            downloaded_bytes: self.downloaded_bytes,
            total_download_size: self.total_download_size,
            disk_size: self.disk_size,
            version: self.version@,
            latest_version: self.latest_version@,
            update_pending: self.update_pending,
            os: self.os@,
            language: self.language@,
            disabled_dlc: self.disabled_dlc@.map_values(|s: String| s@),
        }
    }
}

#[derive(Debug, Clone, Copy, PartialEq, Eq, Structural)]
pub enum LaunchType {
    Unknown,
    Launcher,
    Game,
    Tool,
    Document,
    Other,
}

/// Platforms an app can be downloaded for.
#[derive(Debug, Clone, Copy, PartialEq, Eq, Structural)]
pub enum Platform {
    Linux,
    Windows,
    MacOS,
}

impl Platform {
    pub open spec fn spec_name(self) -> Seq<char> {
        match self {
            Platform::Linux => "Linux"@,
            Platform::Windows => "Windows"@,
            Platform::MacOS => "MacOS"@,
        }
    }

    /// The variant's name, as it is shown to users.
    pub fn name(&self) -> (r: &'static str)
        ensures
            r@ == self.spec_name(),
    {
        match self {
            Platform::Linux => "Linux",
            Platform::Windows => "Windows",
            Platform::MacOS => "MacOS",
        }
    }
}

/// Kinds of catalog entries; only games and applications matter here.
#[derive(Debug, Clone, Copy, PartialEq, Eq, Structural)]
pub enum AppType {
    Game,
    Application,
    Tool,
    Dlc,
    Music,
    Config,
    Demo,
    Beta,
}

impl Default for AppType {
    fn default() -> (r: AppType)
        ensures
            r == AppType::Game,
    {
        AppType::Game
    }
}

#[derive(Debug, Clone, Copy, PartialEq, Eq, Structural)]
pub enum UpdateStage {
    Idle,
    Error,
    Preallocating,
    Downloading,
    Verifying,
    Installing,
    Done,
}

impl Default for UpdateStage {
    fn default() -> (r: UpdateStage)
        ensures
            r == UpdateStage::Idle,
    {
        UpdateStage::Idle
    }
}

#[derive(Debug, Clone)]
pub struct ProviderItem {
    pub id: String,
    pub name: String,
    pub provider: String,
    pub app_type: AppType,
}

#[derive(Debug, Clone)]
pub struct LaunchOption {
    /// The name of the option; empty when the option is not special.
    pub description: String,
    /// Executable to start, usually relative to the working directory.
    pub executable: String,
    /// Arguments handed to the executable.
    pub arguments: String,
    /// Absolute path of the directory the app is started from.
    pub working_directory: String,
    /// Extra environment variables, as key and value.
    pub environment: Vec<(String, String)>,
    /// What the target is, if known.
    pub launch_type: LaunchType,
    /// Hardware on which this option is preferred.
    pub hardware_tags: Vec<String>,
}

#[derive(Debug, Clone)]
pub struct InstallOptionDescription {
    /// Library-agnostic identifier ("language", "branch", "version", "os", ...).
    pub id: String,
    /// Provider-specific name of the option.
    pub name: String,
    /// Name shown in a user interface.
    pub human_readable_name: String,
    /// Values that may be passed for this option.
    pub values: Vec<String>,
}

/// Authentication state of the provider, as callers see it.
#[derive(Debug, Clone, Copy, PartialEq, Eq, Structural)]
pub enum ProviderStatus {
    Unauthorized,
    Requires2fa,
    Authorized,
}

impl ProviderStatus {
    pub open spec fn spec_code(self) -> i32 {
        match self {
            ProviderStatus::Unauthorized => 0,
            ProviderStatus::Requires2fa => 1,
            ProviderStatus::Authorized => 2,
        }
    }

    /// Reads a wire code; codes other than 0, 1 and 2 read as `Unauthorized`.
    pub fn from_i32(value: i32) -> (r: ProviderStatus)
        ensures
            0 <= value <= 2 ==> r.spec_code() == value,
            !(0 <= value <= 2) ==> r == ProviderStatus::Unauthorized,
    {
        match value {
            0 => ProviderStatus::Unauthorized,
            1 => ProviderStatus::Requires2fa,
            2 => ProviderStatus::Authorized,
            _ => ProviderStatus::Unauthorized,
        }
    }

    /// The wire code of the status.
    pub fn to_i32(&self) -> (r: i32)
        ensures
            r == self.spec_code(),
    {
        match self {
            ProviderStatus::Unauthorized => 0,
            ProviderStatus::Requires2fa => 1,
            ProviderStatus::Authorized => 2,
        }
    }
}

#[derive(Debug, Clone)]
pub struct ArtworkImage {
    pub url: String,
    pub image_type: String,
}

#[derive(Debug, Clone)]
pub struct ArtworkMetadata {
    pub item_id: String,
    pub provider: String,
    pub images: Vec<ArtworkImage>,
}

#[derive(Debug, Clone, Copy, PartialEq, Eq, Structural)]
pub enum PlaytronAppType {
    Game,
    Dlc,
}

impl Default for PlaytronAppType {
    fn default() -> (r: PlaytronAppType)
        ensures
            r == PlaytronAppType::Game,
    {
        PlaytronAppType::Game
    }
}

#[derive(Debug, Clone)]
pub struct PlaytronImage {
    pub image_type: String,
    pub url: String,
    pub alt: String,
    pub source: String,
}

/// Stage of a download, as reported in progress notifications.
#[derive(Debug, Clone, Copy, PartialEq, Eq, Structural)]
pub enum DownloadStage {
    Preallocating,
    Downloading,
    Verifying,
}

impl DownloadStage {
    pub open spec fn spec_code(self) -> u32 {
        match self {
            DownloadStage::Preallocating => 0,
            DownloadStage::Downloading => 1,
            DownloadStage::Verifying => 2,
        }
    }

    /// The wire code of the stage.
    pub fn to_u32(&self) -> (r: u32)
        ensures
            r == self.spec_code(),
    {
        match self {
            DownloadStage::Preallocating => 0,
            DownloadStage::Downloading => 1,
            DownloadStage::Verifying => 2,
        }
    }
}

/// A point in time, in whole seconds and nanoseconds since the Unix epoch (UTC).
#[derive(Debug, Clone, Copy, PartialEq, Eq, Structural)]
pub struct Timestamp {
    pub seconds: i64,
    pub nanos: u32,
}

#[derive(Debug, Clone)]
pub struct PlaytronProvider {
    pub provider: String,
    pub provider_app_id: String,
    pub store_id: String,
    pub parent_store_id: Option<String>,
    pub last_imported_timestamp: Option<Timestamp>,
    pub known_dlc_store_ids: Vec<String>,
    pub namespace: String,
    pub product_store_link: String,
}

#[derive(Debug, Clone)]
pub struct PlaytronTag {
    pub tag: String,
    pub tag_type: String,
    pub source: String,
}

/// The document that describes one catalog entry to callers.
#[derive(Debug, Clone)]
pub struct ItemMetadata {
    pub id: String,
    pub name: String,
    pub providers: Vec<PlaytronProvider>,
    pub slug: String,
    pub summary: String,
    pub description: String,
    pub tags: Vec<PlaytronTag>,
    pub images: Vec<PlaytronImage>,
    pub publishers: Vec<String>,
    pub developers: Vec<String>,
    pub app_type: PlaytronAppType,
    pub use_container_runtime: bool,
}

#[derive(Debug, Clone, Default)]
pub struct RegistryEntry {
    pub language: Option<String>,
    pub group: String,
    pub key: String,
    pub value: String,
}

#[derive(Debug, Clone, Default)]
pub struct Registry {
    pub dword: Option<Vec<RegistryEntry>>,
    pub string: Option<Vec<RegistryEntry>>,
}

#[derive(Debug, Clone, Default)]
pub struct RequirementOSConfig {
    pub is_64_bit_windows: Option<bool>,
    pub os_type: Option<String>,
}

#[derive(Debug, Clone, Default)]
pub struct RunProcessParams {
    pub name: String,
    pub has_run_key: Option<String>,
    pub process: String,
    pub command: Option<String>,
    pub no_clean_up: Option<bool>,
    pub minimum_has_run_value: Option<String>,
    pub requirement_os: RequirementOSConfig,
}

#[derive(Debug, Clone, Default)]
pub struct InstallScript {
    pub path: String,
    pub registry: Registry,
    pub run_process: Vec<RunProcessParams>,
}

/// The options a caller may pass to an install.
#[derive(Debug, Clone, Default)]
pub struct InstallOption {
    /// Locale of the content to install.
    pub language: Option<String>,
    /// Target platform tag.
    pub os: Option<String>,
    /// Whether to check the installed files afterwards.
    pub verify: Option<bool>,
}

#[derive(Debug, Clone, Copy, PartialEq, Eq, Structural)]
pub enum CloudSyncOperation {
    Download,
    Upload,
}

#[derive(Debug, Clone, Copy, PartialEq, Eq, Structural)]
pub enum CloudFailureReason {
    /// No space on the drive.
    Disk { needed: u64 },
    /// No space in the cloud.
    Quota { total: u64, quota: u64 },
    /// Local and remote timestamps disagree.
    Conflict { local: u64, remote: u64 },
}

#[derive(Debug, Clone, Copy, PartialEq, Eq, Structural)]
pub enum SaveSyncState {
    Progress,
    Failure,
    Success,
}

#[derive(Debug, Clone)]
pub struct CloudSyncParams {
    pub user_id: String,
    pub provider_app_id: String,
    pub operation: CloudSyncOperation,
    /// Whether the operation is enforced over a conflict.
    pub conflict_resolution: bool,
}

#[derive(Debug, Clone)]
pub struct AppSaveSyncRequest {
    pub owned_app_id: String,
    pub operation: CloudSyncOperation,
    pub conflict_resolution: bool,
}

#[derive(Debug, Clone)]
pub struct CloudSyncFailed {
    pub app_id: String,
    pub error: String,
    pub local: u64,
    pub remote: u64,
    pub usage: u64,
    pub quota: u64,
}

#[derive(Debug, Clone)]
pub struct CloudPath {
    pub alias: String,
    pub path: String,
    pub pattern: String,
    pub recursive: bool,
    pub platforms: Vec<String>,
}

} // verus!
