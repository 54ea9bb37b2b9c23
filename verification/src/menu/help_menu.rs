//! Identifiers of the help menu. The frontend listens for these strings on
//! its menu-event channel.

use vstd::prelude::*;

verus! {

/// Open the welcome tutorial.
pub const TUTORIAL: &'static str = "tutorial";

/// Show the keyboard shortcuts.
pub const KEYBOARD_SHORTCUTS: &'static str = "keyboard_shortcuts";

/// Open the user guide.
pub const USER_GUIDE: &'static str = "user_guide";

/// Open the data-management dialog.
pub const MANAGE_DATA: &'static str = "manage_data";

/// Check for application updates.
pub const CHECK_UPDATES: &'static str = "check_updates";

/// Show the about dialog.
pub const ABOUT: &'static str = "about";

} // verus!
