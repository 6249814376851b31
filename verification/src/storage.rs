//! Where the stores are kept: the names that locate the persisted files.

use vstd::prelude::*;

verus! {

/// The qualifier part of the application identifier.
pub const APP_QUALIFIER: &'static str = "com";

/// The organisation part of the application identifier.
pub const APP_ORGANIZATION: &'static str = "moebius";

/// The application's own name, which also names its autostart entry.
pub const APP_NAME: &'static str = "vitray-widget";

/// The file of the settings, inside the application's configuration
/// directory.
pub const SETTINGS_FILE: &'static str = "settings.json";

/// The file of the shortcuts, inside the application's configuration
/// directory.
pub const SHORTCUTS_FILE: &'static str = "shortcuts.json";

} // verus!
