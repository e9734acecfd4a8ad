//! The configuration from which a package is built: its summary, its
//! properties, the paths it installs, and the shortcuts, services and
//! permissions it sets up.

use vstd::prelude::*;
use crate::tables::lock_permissions::LockPermissions;
use crate::tables::service::{ErrorControl, ServiceType, StartType};

verus! {

/// The summary of the package.
pub struct SummaryConfigInfo {
    pub subject: String,
    pub author: String,
    pub comments: Option<String>,
}

/// When a service operation runs: never, on installation, on
/// uninstallation, or on both.
#[derive(Clone, Copy, Debug, PartialEq, Eq, Structural)]
pub enum ControlCondition {
    Never,
    Install,
    Uninstall,
    InstallAndUninstall,
}

/// When a service is started, stopped and removed, and whether the
/// installer waits for these operations.
pub struct ServiceControlConfigInfo {
    pub start: ControlCondition,
    pub stop: ControlCondition,
    pub remove: ControlCondition,
    pub wait: bool,
}

/// A service to install, run from the file that `executable` names.
pub struct ServiceInstallConfigInfo {
    pub name: String,
    pub description: String,
    pub executable: String,
    pub start_time: StartType,
    pub typ: ServiceType,
    pub interactive: bool,
    pub error_control: ErrorControl,
    pub vital: bool,
    pub control: Option<ServiceControlConfigInfo>,
}

/// A permission of a user.
pub struct Permission {
    pub user: String,
    pub level: LockPermissions,
}

/// A shortcut at `location` that points at `target`, with an icon read
/// from `icon_path`.
pub struct ShortcutConfigInfo {
    pub target: String,
    pub location: String,
    pub working_directory: Option<String>,
    pub icon_path: Option<String>,
}

/// The whole configuration. The properties, paths and permissions are
/// (key, value) pairs, keys unique.
pub struct MsiConfig {
    pub summary: SummaryConfigInfo,
    pub properties: Vec<(String, String)>,
    pub paths: Vec<(String, String)>,
    pub permissions: Vec<(String, Permission)>,
    pub shortcuts: Vec<ShortcutConfigInfo>,
    pub service_installs: Vec<ServiceInstallConfigInfo>,
}

} // verus!
