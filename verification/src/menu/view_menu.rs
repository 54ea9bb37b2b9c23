//! Identifiers of the view menu. The frontend listens for these strings on
//! its menu-event channel.

use vstd::prelude::*;

verus! {

/// Show the text tab.
pub const CHAPTERS: &'static str = "view_chapters";

/// Show the entities tab.
pub const ENTITIES: &'static str = "view_entities";

/// Show the relationships tab.
pub const RELATIONSHIPS: &'static str = "view_relationships";

/// Show the review tab.
pub const ALERTS: &'static str = "view_alerts";

/// Show the timeline tab.
pub const TIMELINE: &'static str = "view_timeline";

/// Show the writing-style tab.
pub const STYLE: &'static str = "view_style";

/// Show the glossary tab.
pub const GLOSSARY: &'static str = "view_glossary";

/// Show the summary tab.
pub const SUMMARY: &'static str = "view_summary";

/// Show or hide the inspector pane.
pub const TOGGLE_INSPECTOR: &'static str = "toggle_inspector";

/// Show or hide the sidebar.
pub const TOGGLE_SIDEBAR: &'static str = "toggle_sidebar";

/// Show or hide the change history.
pub const TOGGLE_HISTORY: &'static str = "toggle_history";

/// Switch between light and dark theme.
pub const TOGGLE_THEME: &'static str = "toggle_theme";

} // verus!
