//! Names and defaults that the whole shell shares.

use vstd::prelude::*;

verus! {

/// Directory under the user's home that holds the application's files.
pub const ROOT: &'static str = ".hackdesk";

/// File name of the settings document inside [`ROOT`].
pub const SETTINGS_NAME: &'static str = "settings.json";

/// Label of the window that shows the embedded page.
pub const MAIN_WINDOW_LABEL: &'static str = "main";

/// Label of the command palette.
pub const COMMAND_PALETTE_WINDOW_LABEL: &'static str = "command-palette";

/// Label of the settings window.
pub const SETTINGS_WINDOW_LABEL: &'static str = "settings";

/// Title shown where the settings document gives none.
pub const DEFAULT_TITLE: &'static str = "HackDesk";

/// Page that the main window loads.
pub const DEFAULT_URL: &'static str = "https://hackmd.io/login";

/// The settings document that a first run writes to disk.
pub const DEFAULT_SETTINGS: &'static str =
    "{\n  \"title\": \"HackDesk\",\n  \"shortcut.command-palette\": \"CmdOrCtrl+K\",\n  \"shortcut.settings\": \"CmdOrCtrl+,\"\n}\n";

/// Key of the display title in the settings document.
pub const TITLE_KEY: &'static str = "title";

/// Key of the accelerator that opens the command palette.
pub const COMMAND_PALETTE_SHORTCUT_KEY: &'static str = "shortcut.command-palette";

/// Key of the accelerator that opens the settings window.
pub const SETTINGS_SHORTCUT_KEY: &'static str = "shortcut.settings";

} // verus!
