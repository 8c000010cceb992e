//! Shell settings fixed at start-up.

use vstd::prelude::*;

verus! {

/// The page that a new view opens on.
pub const NEW_TAB_PAGE_URL: &'static str = "resource:///newtab.html";

/// Settings of the shell itself, apart from the engine's own preferences.
pub struct ServoShellPreferences {
    /// The search engine page, with `%s` standing for the search terms; for
    /// example `https://duckduckgo.com/html/?q=%s`.
    pub searchpage: String,
}

impl ServoShellPreferences {
    /// A second set of the same settings.
    pub fn duplicate(&self) -> (r: Self)
        ensures
            r.searchpage@ == self.searchpage@,
    {
        ServoShellPreferences { searchpage: self.searchpage.clone() }
    }
}

impl Default for ServoShellPreferences {
    fn default() -> (r: Self)
        ensures
            r.searchpage@ == "https://duckduckgo.com/html/?q=%s"@,
    {
        ServoShellPreferences { searchpage: String::from_str("https://duckduckgo.com/html/?q=%s") }
    }
}

} // verus!
