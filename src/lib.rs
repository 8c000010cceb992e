//! Runtime coordination for a multi-window browser shell: the resolution of
//! location-bar text into addresses, the per-window collection of views, the
//! window model with its command buffer, and the coordinator that owns the
//! windows and decides when the application exits.

pub mod address;
pub mod text;
pub mod parser;
pub mod webview_collection;
pub mod prefs;
pub mod window;
pub mod running_app_state;
pub mod app_state;
pub mod browser_tab;

use vstd::prelude::*;

verus! {

/// Platform hook run once at process end; no platform state needs tearing
/// down on this target.
pub fn deinit(_clean_shutdown: bool) {
}

} // verus!
