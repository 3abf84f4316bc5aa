use vstd::prelude::*;

verus! {

/// Errors that a plugin reports to its host, each with a stable bus name.
#[derive(Debug, Clone, Copy, PartialEq, Eq, Structural)]
pub enum PluginError {
    DiskNotFound,
    DownloadInProgress,
    DownloadFailed,
    ContentNotFound,
    AppNotInstalled,
    InvalidAppId,
    NotLoggedIn,
    MissingDirectory,
    InvalidPassword,
    AuthenticationError,
    TfaTimedOut,
    RateLimitExceeded,
    AppUpdateRequired,
    DependencyUpdateRequired,
    Timeout,
    DependencyError,
    PreLaunchError,
    CloudConflict,
    CloudQuota,
    CloudFileDownload,
    CloudFileUpload,
    AppNotOwned,
    PlayingBlocked,
    NotEnoughSpace,
    Permission,
    NetworkRequired,
}

impl PluginError {
    /// The error's name on the bus.
    pub open spec fn spec_bus_name(self) -> Seq<char> {
        match self {
            PluginError::DiskNotFound => "one.playtron.Error.DiskNotFound"@,
            PluginError::DownloadInProgress => "one.playtron.Error.DownloadInProgress"@,
            PluginError::DownloadFailed => "one.playtron.Error.DownloadFailed"@,
            PluginError::ContentNotFound => "one.playtron.Error.ContentNotFound"@,
            PluginError::AppNotInstalled => "one.playtron.Error.AppNotInstalled"@,
            PluginError::InvalidAppId => "one.playtron.Error.InvalidAppId"@,
            PluginError::NotLoggedIn => "one.playtron.Error.NotLoggedIn"@,
            PluginError::MissingDirectory => "one.playtron.Error.MissingDirectory"@,
            PluginError::InvalidPassword => "one.playtron.Error.InvalidPassword"@,
            PluginError::AuthenticationError => "one.playtron.Error.AuthenticationError"@,
            PluginError::TfaTimedOut => "one.playtron.Error.TfaTimedOut"@,
            PluginError::RateLimitExceeded => "one.playtron.Error.RateLimitExceeded"@,
            PluginError::AppUpdateRequired => "one.playtron.Error.AppUpdateRequired"@,
            PluginError::DependencyUpdateRequired => "one.playtron.Error.DependencyUpdateRequired"@,
            PluginError::Timeout => "one.playtron.Error.Timeout"@,
            PluginError::DependencyError => "one.playtron.Error.DependencyError"@,
            PluginError::PreLaunchError => "one.playtron.Error.PreLaunchError"@,
            PluginError::CloudConflict => "one.playtron.Error.CloudConflict"@,
            PluginError::CloudQuota => "one.playtron.Error.CloudQuota"@,
            PluginError::CloudFileDownload => "one.playtron.Error.CloudFileDownload"@,
            PluginError::CloudFileUpload => "one.playtron.Error.CloudFileUpload"@,
            PluginError::AppNotOwned => "one.playtron.Error.AppNotOwned"@,
            PluginError::PlayingBlocked => "one.playtron.Error.PlayingBlocked"@,
            PluginError::NotEnoughSpace => "one.playtron.Error.NotEnoughSpace"@,
            PluginError::Permission => "one.playtron.Error.Permission"@,
            PluginError::NetworkRequired => "one.playtron.Error.NetworkRequired"@,
        }
    }

    /// The error's name on the bus, which callers match on.
    pub fn bus_name(&self) -> (r: &'static str)
        ensures
            r@ == self.spec_bus_name(),
    {
        match self {
            PluginError::DiskNotFound => "one.playtron.Error.DiskNotFound",
            PluginError::DownloadInProgress => "one.playtron.Error.DownloadInProgress",
            PluginError::DownloadFailed => "one.playtron.Error.DownloadFailed",
            PluginError::ContentNotFound => "one.playtron.Error.ContentNotFound",
            PluginError::AppNotInstalled => "one.playtron.Error.AppNotInstalled",
            PluginError::InvalidAppId => "one.playtron.Error.InvalidAppId",
            PluginError::NotLoggedIn => "one.playtron.Error.NotLoggedIn",
            PluginError::MissingDirectory => "one.playtron.Error.MissingDirectory",
            PluginError::InvalidPassword => "one.playtron.Error.InvalidPassword",
            PluginError::AuthenticationError => "one.playtron.Error.AuthenticationError",
            PluginError::TfaTimedOut => "one.playtron.Error.TfaTimedOut",
            PluginError::RateLimitExceeded => "one.playtron.Error.RateLimitExceeded",
            PluginError::AppUpdateRequired => "one.playtron.Error.AppUpdateRequired",
            PluginError::DependencyUpdateRequired => "one.playtron.Error.DependencyUpdateRequired",
            PluginError::Timeout => "one.playtron.Error.Timeout",
            PluginError::DependencyError => "one.playtron.Error.DependencyError",
            PluginError::PreLaunchError => "one.playtron.Error.PreLaunchError",
            PluginError::CloudConflict => "one.playtron.Error.CloudConflict",
            PluginError::CloudQuota => "one.playtron.Error.CloudQuota",
            PluginError::CloudFileDownload => "one.playtron.Error.CloudFileDownload",
            PluginError::CloudFileUpload => "one.playtron.Error.CloudFileUpload",
            PluginError::AppNotOwned => "one.playtron.Error.AppNotOwned",
            PluginError::PlayingBlocked => "one.playtron.Error.PlayingBlocked",
            PluginError::NotEnoughSpace => "one.playtron.Error.NotEnoughSpace",
            PluginError::Permission => "one.playtron.Error.Permission",
            PluginError::NetworkRequired => "one.playtron.Error.NetworkRequired",
        }
    }
}

} // verus!
