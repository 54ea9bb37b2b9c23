//! Identifiers of the analysis menu. The frontend listens for these strings
//! on its menu-event channel.

use vstd::prelude::*;

verus! {

/// Run the manuscript analysis.
pub const RUN: &'static str = "run_analysis";

} // verus!
