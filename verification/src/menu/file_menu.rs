//! Identifiers of the file menu. The frontend listens for these strings on
//! its menu-event channel.

use vstd::prelude::*;

verus! {

/// Create a new project.
pub const NEW_PROJECT: &'static str = "new_project";

/// Open an existing project.
pub const OPEN_PROJECT: &'static str = "open_project";

/// Close the current project.
pub const CLOSE_PROJECT: &'static str = "close_project";

/// Import a manuscript.
pub const IMPORT: &'static str = "import";

/// Export a report.
pub const EXPORT: &'static str = "export";

/// Open the settings dialog.
pub const SETTINGS: &'static str = "settings";

} // verus!
