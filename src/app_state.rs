//! The lifecycle of the application: it starts once the host loop first
//! activates it, runs while ticks report more work, and then shuts down.

use vstd::prelude::*;
use crate::address::Address;
use crate::prefs::ServoShellPreferences;
use crate::running_app_state::{tick_end, RunningAppState};
use crate::webview_collection::WebViewId;
use crate::window::{ServoShellWindow, ServoShellWindowId};

verus! {

/// Where the application stands in its lifecycle.
pub enum AppState<V> {
    /// The host loop has not activated the application yet; no window exists.
    Initializing,
    /// The engine is attached and the coordinator runs.
    Running(RunningAppState<V>),
    /// The run is over; no further tick is processed.
    ShuttingDown,
}

impl<V> AppState<V> {
    /// The state before the host loop's first activation.
    pub fn new() -> (r: Self)
        ensures
            r is Initializing,
    {
        AppState::Initializing
    }

    /// Whether the coordinator runs.
    pub fn is_running(&self) -> (r: bool)
        ensures
            r == (self is Running),
    {
        match self {
            AppState::Running(_) => true,
            _ => false,
        }
    }

    /// Starts the run with `running`, on the host loop's first activation.
    pub fn start(&mut self, running: RunningAppState<V>)
        requires
            *old(self) is Initializing,
        ensures
            *final(self) == AppState::Running(running),
    {
        *self = AppState::Running(running);
    }

    /// Ends a tick of a running application and returns whether the host loop
    /// is to go on; once a tick reports no further work the application shuts
    /// down. Outside a run no tick is processed.
    pub fn finish_tick(&mut self) -> (r: bool)
        requires
            *old(self) matches AppState::Running(s) ==> s.wf(),
        ensures
            match *old(self) {
                AppState::Running(s) => {
                    &&& r == !tick_end(s@).exit_scheduled
                    &&& r ==> (*final(self) matches AppState::Running(t) && t.wf() && t@ == tick_end(s@))
                    &&& !r ==> *final(self) is ShuttingDown
                },
                _ => !r && *final(self) == *old(self),
            },
    {
        let go_on = match self {
            AppState::Running(state) => state.finish_tick(),
            _ => return false,
        };
        if !go_on {
            *self = AppState::ShuttingDown;
        }
        go_on
    }
}

/// The application: its settings, the page it opens on, and where it stands
/// in its lifecycle.
pub struct App<V> {
    pub servoshell_preferences: ServoShellPreferences,
    /// The page that the first view and every new view open on.
    pub initial_url: Address,
    pub state: AppState<V>,
}

impl<V> App<V> {
    /// The search page template the application was made with.
    pub open spec fn searchpage(&self) -> Seq<char> {
        self.servoshell_preferences.searchpage@
    }

    /// An application not yet activated by the host loop.
    pub fn new(servoshell_preferences: ServoShellPreferences, initial_url: Address) -> (r: Self)
        ensures
            r.state is Initializing,
            r.searchpage() == servoshell_preferences.searchpage@,
            r.initial_url@ == initial_url@,
    {
        App { servoshell_preferences, initial_url, state: AppState::new() }
    }

    /// On the host loop's first activation: the run starts with one window,
    /// `window_id`, holding one view, `webview` under `id`, which the engine
    /// created on `initial_url`; that view is the active one.
    pub fn init(&mut self, window_id: ServoShellWindowId, id: WebViewId, webview: V)
        requires
            old(self).state is Initializing,
        ensures
            final(self).searchpage() == old(self).searchpage(),
            final(self).initial_url@ == old(self).initial_url@,
            final(self).state matches AppState::Running(s) && s.wf() && !s@.exit_scheduled
                && s@.searchpage == old(self).searchpage()
                && s@.new_tab_page == old(self).initial_url@
                && s@.windows.len() == 1
                && s@.windows[0].id == window_id
                && s@.windows[0].collection.entries() == seq![(id, webview)]
                && s@.windows[0].collection.active_spec() == Some(id)
                && !s@.windows[0].close_scheduled
                && s@.windows[0].needs_update && s@.windows[0].needs_repaint
                && s@.windows[0].pending_favicon_loads.len() == 0
                && s@.windows[0].pending_commands.len() == 0,
    {
        let mut window = ServoShellWindow::new(window_id);
        assert(!window@.collection.has(id));
        window.create_and_activate_toplevel_webview(id, webview);
        assert(window@.collection.entries() =~= seq![(id, webview)]);
        let ghost w = window@;
        let mut running = RunningAppState::new(
            self.servoshell_preferences.duplicate(),
            self.initial_url.duplicate(),
        );
        running.open_window(window);
        assert(running@.windows =~= seq![w]);
        self.state.start(running);
    }

    /// Ends a tick; see [`AppState::finish_tick`].
    pub fn finish_tick(&mut self) -> (r: bool)
        requires
            old(self).state matches AppState::Running(s) ==> s.wf(),
        ensures
            final(self).searchpage() == old(self).searchpage(),
            final(self).initial_url@ == old(self).initial_url@,
            match old(self).state {
                AppState::Running(s) => {
                    &&& r == !tick_end(s@).exit_scheduled
                    &&& r ==> (final(self).state matches AppState::Running(t) && t.wf() && t@ == tick_end(s@))
                    &&& !r ==> final(self).state is ShuttingDown
                },
                _ => !r && final(self).state == old(self).state,
            },
    {
        self.state.finish_tick()
    }
}

} // verus!
