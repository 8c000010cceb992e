//! The coordinator: it owns every window, routes the engine's notifications
//! to the window that holds the view they name, applies queued commands, and
//! decides at the end of each tick which windows close and whether the
//! application exits.

use vstd::prelude::*;
use crate::address::Address;
use crate::prefs::ServoShellPreferences;
use crate::webview_collection::WebViewId;
use crate::window::{
    closed_in, closing, command_applied, CommandOutcome, ServoShellWindow, ServoShellWindowId,
    UserInterfaceCommand, WindowState,
};

verus! {

/// A notification from the engine about one view.
#[derive(Clone, Copy, Debug, PartialEq, Eq, Structural)]
pub enum WebViewEvent {
    /// The platform is asked for the screen's geometry.
    ScreenGeometry,
    StatusTextChanged,
    HistoryChanged,
    PageTitleChanged,
    /// The platform window is asked to move.
    MoveTo,
    /// The platform window is asked to resize.
    ResizeTo,
    /// The platform is to ask the user for credentials.
    AuthenticationRequested,
    /// The engine closed the view.
    Closed,
    InputEventHandled,
    CursorChanged,
    LoadStatusChanged,
    FullscreenStateChanged,
    /// The platform is to offer a choice of bluetooth devices.
    BluetoothDeviceDialog,
    /// The platform is to ask the user for a permission.
    PermissionRequested,
    NewFrameReady,
    FaviconChanged,
    MediaSessionEvent,
    Crashed,
    /// The platform now shows a control (a select box, a color picker) for the view.
    ShowEmbedderControl,
    /// The platform no longer shows a control for the view.
    HideEmbedderControl,
}

/// `after` is the window `before` once the notification `event` about the
/// view `id` is taken into account. Notifications that only the platform acts
/// on leave the window as it is.
pub open spec fn event_applied<V>(
    before: WindowState<V>,
    after: WindowState<V>,
    event: WebViewEvent,
    id: WebViewId,
) -> bool {
    match event {
        WebViewEvent::StatusTextChanged | WebViewEvent::HistoryChanged
        | WebViewEvent::PageTitleChanged | WebViewEvent::LoadStatusChanged => after == (
        WindowState { needs_update: true, ..before }),
        WebViewEvent::NewFrameReady => after == (WindowState { needs_repaint: true, ..before }),
        WebViewEvent::Closed => closed_in(before, after, id),
        WebViewEvent::FaviconChanged => after == (WindowState {
            pending_favicon_loads: before.pending_favicon_loads.push(id),
            needs_repaint: true,
            ..before
        }),
        WebViewEvent::ShowEmbedderControl | WebViewEvent::HideEmbedderControl => after == (
        WindowState { needs_update: true, needs_repaint: true, ..before }),
        _ => after == before,
    }
}

/// The state of the coordinator.
pub ghost struct AppModel<V> {
    pub windows: Seq<WindowState<V>>,
    pub exit_scheduled: bool,
    pub searchpage: Seq<char>,
    pub new_tab_page: Seq<char>,
}

/// The windows of `ws` that stay open, in order.
pub open spec fn open_windows<V>(ws: Seq<WindowState<V>>) -> Seq<WindowState<V>>
    decreases ws.len(),
{
    if ws.len() == 0 {
        ws
    } else if closing(ws.last()) {
        open_windows(ws.drop_last())
    } else {
        open_windows(ws.drop_last()).push(ws.last())
    }
}

/// The coordinator once a tick ends: unless exit is already scheduled, the
/// windows to be closed are dropped, and exit is scheduled once none is left.
pub open spec fn tick_end<V>(m: AppModel<V>) -> AppModel<V> {
    let windows = if m.exit_scheduled {
        m.windows
    } else {
        open_windows(m.windows)
    };
    AppModel { windows, exit_scheduled: m.exit_scheduled || windows.len() == 0, ..m }
}

/// Whether the window at `i` holds `id` and no window before it does.
pub open spec fn first_owner<V>(m: AppModel<V>, id: WebViewId, i: int) -> bool {
    &&& 0 <= i < m.windows.len()
    &&& m.windows[i].collection.has(id)
    &&& forall|j: int| 0 <= j < i ==> !m.windows[j].collection.has(id)
}

/// Whether some window holds `id`.
pub open spec fn owned<V>(m: AppModel<V>, id: WebViewId) -> bool {
    exists|i: int| 0 <= i < m.windows.len() && m.windows[i].collection.has(id)
}

/// Whether some window has the identity `wid`.
pub open spec fn has_window<V>(m: AppModel<V>, wid: ServoShellWindowId) -> bool {
    exists|i: int| 0 <= i < m.windows.len() && m.windows[i].id == wid
}

/// `after` is `before` with, at most, the window at `i` changed.
pub open spec fn only_window_changed<V>(before: AppModel<V>, after: AppModel<V>, i: int) -> bool {
    &&& 0 <= i < before.windows.len()
    &&& after == (AppModel { windows: before.windows.update(i, after.windows[i]), ..before })
    &&& after.windows[i].id == before.windows[i].id
}

/// Every window's views are well formed and no two windows share an identity.
pub open spec fn model_wf<V>(m: AppModel<V>) -> bool {
    &&& forall|i: int| 0 <= i < m.windows.len() ==> #[trigger] m.windows[i].collection.wf()
    &&& forall|i: int, j: int|
        0 <= i < m.windows.len() && 0 <= j < m.windows.len() && i != j ==> m.windows[i].id
            != m.windows[j].id
}

/// The position of the window `wid`.
pub open spec fn window_index_of<V>(m: AppModel<V>, wid: ServoShellWindowId) -> int {
    choose|i: int| 0 <= i < m.windows.len() && m.windows[i].id == wid
}

/// The window `wid`.
pub open spec fn window_of<V>(m: AppModel<V>, wid: ServoShellWindowId) -> WindowState<V> {
    m.windows[window_index_of(m, wid)]
}

/// Identities being unique, the window at `i` is the one that
/// [`window_index_of`] names.
pub proof fn lemma_window_index<V>(m: AppModel<V>, wid: ServoShellWindowId, i: int)
    requires
        model_wf(m),
        0 <= i < m.windows.len(),
        m.windows[i].id == wid,
    ensures
        window_index_of(m, wid) == i,
{
    let k = window_index_of(m, wid);
    assert(0 <= k < m.windows.len() && m.windows[k].id == wid);
}

/// Each window that stays open is one of the windows it was kept from.
pub proof fn lemma_open_windows_from<V>(ws: Seq<WindowState<V>>)
    ensures
        open_windows(ws).len() <= ws.len(),
        forall|k: int|
            0 <= k < open_windows(ws).len() ==> exists|j: int|
                0 <= j < ws.len() && #[trigger] open_windows(ws)[k] == ws[j],
    decreases ws.len(),
{
    if ws.len() > 0 {
        let rest = ws.drop_last();
        lemma_open_windows_from(rest);
        assert forall|k: int| 0 <= k < open_windows(ws).len() implies exists|j: int|
            0 <= j < ws.len() && #[trigger] open_windows(ws)[k] == ws[j] by {
            if k < open_windows(rest).len() {
                let j = choose|j: int| 0 <= j < rest.len() && open_windows(rest)[k] == rest[j];
                assert(ws[j] == rest[j]);
            } else {
                assert(open_windows(ws)[k] == ws[ws.len() - 1]);
            }
        }
    }
}

/// Windows that stay open keep their identities apart, and their views well formed.
pub proof fn lemma_open_windows_wf<V>(m: AppModel<V>)
    requires
        model_wf(m),
    ensures
        model_wf(AppModel { windows: open_windows(m.windows), ..m }),
    decreases m.windows.len(),
{
    let ws = m.windows;
    lemma_open_windows_from(ws);
    if ws.len() > 0 {
        let rest = AppModel { windows: ws.drop_last(), ..m };
        assert(model_wf(rest)) by {
            assert forall|i: int| 0 <= i < rest.windows.len() implies #[trigger] rest.windows[i].collection.wf() by {
                assert(rest.windows[i] == ws[i]);
            }
        }
        lemma_open_windows_wf(rest);
        lemma_open_windows_from(rest.windows);
        let o = open_windows(ws);
        let orest = open_windows(rest.windows);
        assert forall|a: int, b: int| 0 <= a < o.len() && 0 <= b < o.len() && a != b implies o[a].id != o[b].id by {
            if !closing(ws.last()) && (a == o.len() - 1 || b == o.len() - 1) {
                let other = if a == o.len() - 1 { b } else { a };
                assert(o[other] == orest[other]);
                let j = choose|j: int| 0 <= j < rest.windows.len() && orest[other] == rest.windows[j];
                assert(rest.windows[j] == ws[j]);
                assert(ws[j].id != ws[ws.len() - 1].id);
            } else {
                let mo = AppModel { windows: orest, ..rest };
                assert(o[a] == orest[a]);
                assert(o[b] == orest[b]);
                assert(mo.windows[a].id != mo.windows[b].id);
            }
        }
        assert forall|k: int| 0 <= k < o.len() implies #[trigger] o[k].collection.wf() by {
            let j = choose|j: int| 0 <= j < ws.len() && o[k] == ws[j];
        }
    }
}

/// Where every window is to be closed, none stays open.
pub proof fn lemma_all_closing<V>(ws: Seq<WindowState<V>>)
    requires
        forall|i: int| 0 <= i < ws.len() ==> closing(#[trigger] ws[i]),
    ensures
        open_windows(ws).len() == 0,
    decreases ws.len(),
{
    if ws.len() > 0 {
        assert(closing(ws[ws.len() - 1]));
        lemma_all_closing(ws.drop_last());
    }
}

/// A tick at whose end every window is to be closed schedules exit, and every
/// later tick reports that the run is over: nothing but [`tick_end`] and
/// [`RunningAppState::schedule_exit`] changes whether exit is scheduled.
pub proof fn lemma_exit_after_last_window<V>(m: AppModel<V>, later: AppModel<V>)
    requires
        forall|i: int| 0 <= i < m.windows.len() ==> closing(#[trigger] m.windows[i]),
        later.exit_scheduled == tick_end(m).exit_scheduled,
    ensures
        tick_end(m).exit_scheduled,
        !m.exit_scheduled ==> tick_end(m).windows.len() == 0,
        tick_end(later).exit_scheduled,
        tick_end(later).windows == later.windows,
{
    lemma_all_closing(m.windows);
}

/// The coordinator of a running shell, with views of type `V`.
pub struct RunningAppState<V> {
    servoshell_preferences: ServoShellPreferences,
    new_tab_page: Address,
    exit_scheduled: bool,
    windows: Vec<ServoShellWindow<V>>,
}

impl<V> View for RunningAppState<V> {
    type V = AppModel<V>;

    closed spec fn view(&self) -> AppModel<V> {
        AppModel {
            windows: self.windows@.map_values(|w: ServoShellWindow<V>| w@),
            exit_scheduled: self.exit_scheduled,
            searchpage: self.servoshell_preferences.searchpage@,
            new_tab_page: self.new_tab_page@,
        }
    }
}

impl<V> RunningAppState<V> {
    /// Every window's views are well formed and no two windows share an identity.
    pub open spec fn wf(&self) -> bool {
        model_wf(self@)
    }

    /// A coordinator with no window; new views open on `new_tab_page`.
    pub fn new(servoshell_preferences: ServoShellPreferences, new_tab_page: Address) -> (r: Self)
        ensures
            r.wf(),
            r@.windows.len() == 0,
            !r@.exit_scheduled,
            r@.searchpage == servoshell_preferences.searchpage@,
            r@.new_tab_page == new_tab_page@,
    {
        let r = RunningAppState {
            servoshell_preferences,
            new_tab_page,
            exit_scheduled: false,
            windows: Vec::new(),
        };
        assert(r@.windows =~= Seq::empty());
        r
    }

    /// The position of the window `wid`.
    fn window_index(&self, wid: ServoShellWindowId) -> (r: Option<usize>)
        ensures
            r matches Some(i) ==> i < self@.windows.len() && self@.windows[i as int].id == wid,
            r is None ==> !has_window(self@, wid),
    {
        let mut i: usize = 0;
        while i < self.windows.len()
            invariant
                i <= self@.windows.len(),
                forall|j: int| 0 <= j < i ==> self@.windows[j].id != wid,
            decreases self@.windows.len() - i,
        {
            if self.windows[i].id() == wid {
                return Some(i);
            }
            i = i + 1;
        }
        None
    }

    /// Takes the window at `i` out, to be put back with [`Self::put_back`].
    fn take_out(&mut self, i: usize) -> (w: ServoShellWindow<V>)
        requires
            i < old(self)@.windows.len(),
        ensures
            w@ == old(self)@.windows[i as int],
            final(self).windows@ == old(self).windows@.remove(i as int),
            final(self).exit_scheduled == old(self).exit_scheduled,
            final(self).servoshell_preferences == old(self).servoshell_preferences,
            final(self).new_tab_page == old(self).new_tab_page,
    {
        self.windows.remove(i)
    }

    /// Puts back at `i` a window taken out with [`Self::take_out`].
    fn put_back(&mut self, i: usize, w: ServoShellWindow<V>, Ghost(before): Ghost<AppModel<V>>)
        requires
            i <= old(self).windows@.len(),
            i < before.windows.len(),
            old(self).windows@.len() + 1 == before.windows.len(),
            forall|j: int| 0 <= j < i ==> old(self)@.windows[j] == before.windows[j],
            forall|j: int|
                i <= j < old(self)@.windows.len() ==> old(self)@.windows[j] == before.windows[j + 1],
            old(self)@.exit_scheduled == before.exit_scheduled,
            old(self)@.searchpage == before.searchpage,
            old(self)@.new_tab_page == before.new_tab_page,
        ensures
            final(self)@ == (AppModel { windows: before.windows.update(i as int, w@), ..before }),
    {
        self.windows.insert(i, w);
        assert forall|j: int| 0 <= j < before.windows.len() implies self@.windows[j]
            == before.windows.update(i as int, w@)[j] by {
            if j < i {
                assert(self.windows@[j] == old(self).windows@[j]);
                assert(old(self)@.windows[j] == before.windows[j]);
            } else if j > i {
                assert(self.windows@[j] == old(self).windows@[j - 1]);
                assert(old(self)@.windows[j - 1] == before.windows[j]);
            }
        }
        assert(self@.windows =~= before.windows.update(i as int, w@));
    }

    /// The position of the window `wid`, which exists.
    fn locate(&self, wid: ServoShellWindowId) -> (i: usize)
        requires
            self.wf(),
            has_window(self@, wid),
        ensures
            i < self@.windows.len(),
            i == window_index_of(self@, wid),
            self@.windows[i as int].id == wid,
    {
        let i = self.window_index(wid).unwrap();
        proof {
            lemma_window_index(self@, wid, i as int);
        }
        i
    }

    /// Puts back at `i` the window taken out there with [`Self::take_out`],
    /// its identity kept and its views well formed.
    fn restore(&mut self, i: usize, w: ServoShellWindow<V>, Ghost(before): Ghost<AppModel<V>>)
        requires
            model_wf(before),
            i < before.windows.len(),
            w@.collection.wf(),
            w@.id == before.windows[i as int].id,
            old(self).windows@.len() + 1 == before.windows.len(),
            forall|j: int| 0 <= j < i ==> old(self)@.windows[j] == before.windows[j],
            forall|j: int|
                i <= j < old(self)@.windows.len() ==> old(self)@.windows[j] == before.windows[j + 1],
            old(self)@.exit_scheduled == before.exit_scheduled,
            old(self)@.searchpage == before.searchpage,
            old(self)@.new_tab_page == before.new_tab_page,
        ensures
            final(self).wf(),
            only_window_changed(before, final(self)@, i as int),
            final(self)@.windows[i as int] == w@,
    {
        self.put_back(i, w, Ghost(before));
        proof {
            let m = self@;
            assert forall|a: int| 0 <= a < m.windows.len() implies #[trigger] m.windows[a].collection.wf() by {
                if a != i {
                    assert(m.windows[a] == before.windows[a]);
                }
            }
            assert forall|a: int, b: int|
                0 <= a < m.windows.len() && 0 <= b < m.windows.len() && a != b implies m.windows[a].id
                != m.windows[b].id by {
                assert(m.windows[a].id == before.windows[a].id);
                assert(m.windows[b].id == before.windows[b].id);
            }
        }
    }

    /// The identities of the windows, a snapshot taken at the start of a tick.
    pub fn window_ids(&self) -> (r: Vec<ServoShellWindowId>)
        ensures
            r@.len() == self@.windows.len(),
            forall|i: int| 0 <= i < r@.len() ==> r@[i] == self@.windows[i].id,
    {
        let mut out: Vec<ServoShellWindowId> = Vec::new();
        let mut i: usize = 0;
        while i < self.windows.len()
            invariant
                i <= self@.windows.len(),
                out@.len() == i,
                forall|j: int| 0 <= j < i ==> out@[j] == self@.windows[j].id,
            decreases self@.windows.len() - i,
        {
            out.push(self.windows[i].id());
            i = i + 1;
        }
        out
    }

    /// The window `wid`, if it exists.
    pub fn window(&self, wid: ServoShellWindowId) -> (r: Option<&ServoShellWindow<V>>)
        ensures
            r is Some <==> has_window(self@, wid),
            r matches Some(w) ==> w@.id == wid && exists|i: int|
                0 <= i < self@.windows.len() && self@.windows[i] == w@,
    {
        match self.window_index(wid) {
            Some(i) => Some(&self.windows[i]),
            None => None,
        }
    }

    /// Whether exit has been scheduled.
    pub fn exit_scheduled(&self) -> (r: bool)
        ensures
            r == self@.exit_scheduled,
    {
        self.exit_scheduled
    }

    /// Schedules exit: every window closes at the end of this tick.
    pub fn schedule_exit(&mut self)
        ensures
            final(self)@ == (AppModel { exit_scheduled: true, ..old(self)@ }),
    {
        self.exit_scheduled = true;
    }

    /// Adds a window, whose identity no window has yet.
    pub fn open_window(&mut self, window: ServoShellWindow<V>)
        requires
            old(self).wf(),
            window.wf(),
            !has_window(old(self)@, window@.id),
        ensures
            final(self).wf(),
            final(self)@ == (AppModel { windows: old(self)@.windows.push(window@), ..old(self)@ }),
    {
        let ghost w = window@;
        self.windows.push(window);
        proof {
            let m = self@;
            assert(m.windows =~= old(self)@.windows.push(w));
            assert forall|a: int, b: int|
                0 <= a < m.windows.len() && 0 <= b < m.windows.len() && a != b implies m.windows[a].id
                != m.windows[b].id by {
                if a == m.windows.len() - 1 {
                    assert(old(self)@.windows[b].id == m.windows[b].id);
                } else if b == m.windows.len() - 1 {
                    assert(old(self)@.windows[a].id == m.windows[a].id);
                }
            }
        }
    }

    /// Queues a command from the user interface for the window `wid`.
    pub fn push_command(&mut self, wid: ServoShellWindowId, command: UserInterfaceCommand)
        requires
            old(self).wf(),
            has_window(old(self)@, wid),
        ensures
            final(self).wf(),
            only_window_changed(old(self)@, final(self)@, window_index_of(old(self)@, wid)),
            final(self)@.windows[window_index_of(old(self)@, wid)] == (WindowState {
                pending_commands: window_of(old(self)@, wid).pending_commands.push(command),
                ..window_of(old(self)@, wid)
            }),
    {
        let i = self.locate(wid);
        let ghost before = self@;
        let mut w = self.take_out(i);
        w.push_command(command);
        self.restore(i, w, Ghost(before));
    }

    /// Takes the commands queued for the window `wid`, in the order they were queued.
    pub fn take_user_interface_commands(&mut self, wid: ServoShellWindowId) -> (r: Vec<UserInterfaceCommand>)
        requires
            old(self).wf(),
            has_window(old(self)@, wid),
        ensures
            final(self).wf(),
            r@ == window_of(old(self)@, wid).pending_commands,
            only_window_changed(old(self)@, final(self)@, window_index_of(old(self)@, wid)),
            final(self)@.windows[window_index_of(old(self)@, wid)] == (WindowState {
                pending_commands: Seq::empty(),
                ..window_of(old(self)@, wid)
            }),
    {
        let i = self.locate(wid);
        let ghost before = self@;
        let mut w = self.take_out(i);
        let r = w.take_user_interface_commands();
        self.restore(i, w, Ghost(before));
        r
    }

    /// Applies one command to the window `wid`, with the configured search
    /// page and new-tab page.
    pub fn handle_interface_command(&mut self, wid: ServoShellWindowId, command: UserInterfaceCommand) -> (r: CommandOutcome)
        requires
            old(self).wf(),
            has_window(old(self)@, wid),
        ensures
            final(self).wf(),
            only_window_changed(old(self)@, final(self)@, window_index_of(old(self)@, wid)),
            command_applied(
                window_of(old(self)@, wid),
                final(self)@.windows[window_index_of(old(self)@, wid)],
                command,
                old(self)@.searchpage,
                old(self)@.new_tab_page,
                r,
            ),
    {
        let i = self.locate(wid);
        let ghost before = self@;
        let mut w = self.take_out(i);
        let r = w.handle_interface_command(
            command,
            self.servoshell_preferences.searchpage.as_str(),
            &self.new_tab_page,
        );
        self.restore(i, w, Ghost(before));
        r
    }

    /// Adds the view `webview`, which the engine created under `id`, to the
    /// window `wid` and makes it that window's active view.
    pub fn create_and_activate_toplevel_webview(
        &mut self,
        wid: ServoShellWindowId,
        id: WebViewId,
        webview: V,
    )
        requires
            old(self).wf(),
            has_window(old(self)@, wid),
            !owned(old(self)@, id),
        ensures
            final(self).wf(),
            only_window_changed(old(self)@, final(self)@, window_index_of(old(self)@, wid)),
            final(self)@.windows[window_index_of(old(self)@, wid)].collection.entries()
                == window_of(old(self)@, wid).collection.entries().push((id, webview)),
            final(self)@.windows[window_index_of(old(self)@, wid)].collection.active_spec() == Some(id),
            final(self)@.windows[window_index_of(old(self)@, wid)] == (WindowState {
                collection: final(self)@.windows[window_index_of(old(self)@, wid)].collection,
                needs_update: true,
                needs_repaint: true,
                ..window_of(old(self)@, wid)
            }),
    {
        let i = self.locate(wid);
        let ghost before = self@;
        let mut w = self.take_out(i);
        w.create_and_activate_toplevel_webview(id, webview);
        self.restore(i, w, Ghost(before));
    }

    /// Makes the view `id` of the window `wid` its active view.
    pub fn activate_webview(&mut self, wid: ServoShellWindowId, id: WebViewId)
        requires
            old(self).wf(),
            has_window(old(self)@, wid),
            window_of(old(self)@, wid).collection.has(id),
        ensures
            final(self).wf(),
            only_window_changed(old(self)@, final(self)@, window_index_of(old(self)@, wid)),
            final(self)@.windows[window_index_of(old(self)@, wid)].collection.entries()
                == window_of(old(self)@, wid).collection.entries(),
            final(self)@.windows[window_index_of(old(self)@, wid)].collection.active_spec() == Some(id),
            final(self)@.windows[window_index_of(old(self)@, wid)] == (WindowState {
                collection: final(self)@.windows[window_index_of(old(self)@, wid)].collection,
                needs_update: true,
                ..window_of(old(self)@, wid)
            }),
    {
        let i = self.locate(wid);
        let ghost before = self@;
        let mut w = self.take_out(i);
        w.activate_webview(id);
        self.restore(i, w, Ghost(before));
    }

    /// Reads and clears the window's request for a user interface update.
    pub fn take_needs_update(&mut self, wid: ServoShellWindowId) -> (r: bool)
        requires
            old(self).wf(),
            has_window(old(self)@, wid),
        ensures
            final(self).wf(),
            r == window_of(old(self)@, wid).needs_update,
            only_window_changed(old(self)@, final(self)@, window_index_of(old(self)@, wid)),
            final(self)@.windows[window_index_of(old(self)@, wid)] == (WindowState {
                needs_update: false,
                ..window_of(old(self)@, wid)
            }),
    {
        let i = self.locate(wid);
        let ghost before = self@;
        let mut w = self.take_out(i);
        let r = w.take_needs_update();
        self.restore(i, w, Ghost(before));
        r
    }

    /// Reads and clears the window's request for a repaint; returns whether
    /// the platform is to repaint it, given whether the user interface update
    /// just made wants a repaint.
    pub fn finish_update(&mut self, wid: ServoShellWindowId, updated_user_interface: bool) -> (r: bool)
        requires
            old(self).wf(),
            has_window(old(self)@, wid),
        ensures
            final(self).wf(),
            r == (updated_user_interface || window_of(old(self)@, wid).needs_repaint),
            only_window_changed(old(self)@, final(self)@, window_index_of(old(self)@, wid)),
            final(self)@.windows[window_index_of(old(self)@, wid)] == (WindowState {
                needs_repaint: false,
                ..window_of(old(self)@, wid)
            }),
    {
        let i = self.locate(wid);
        let ghost before = self@;
        let mut w = self.take_out(i);
        let r = w.finish_update(updated_user_interface);
        self.restore(i, w, Ghost(before));
        r
    }

    /// Takes the views of the window `wid` whose favicons wait to be uploaded.
    pub fn take_pending_favicon_loads(&mut self, wid: ServoShellWindowId) -> (r: Vec<WebViewId>)
        requires
            old(self).wf(),
            has_window(old(self)@, wid),
        ensures
            final(self).wf(),
            r@ == window_of(old(self)@, wid).pending_favicon_loads,
            only_window_changed(old(self)@, final(self)@, window_index_of(old(self)@, wid)),
            final(self)@.windows[window_index_of(old(self)@, wid)] == (WindowState {
                pending_favicon_loads: Seq::empty(),
                ..window_of(old(self)@, wid)
            }),
    {
        let i = self.locate(wid);
        let ghost before = self@;
        let mut w = self.take_out(i);
        let r = w.take_pending_favicon_loads();
        self.restore(i, w, Ghost(before));
        r
    }

    /// Asks for the window `wid` to close at the end of this tick.
    pub fn schedule_close(&mut self, wid: ServoShellWindowId)
        requires
            old(self).wf(),
            has_window(old(self)@, wid),
        ensures
            final(self).wf(),
            only_window_changed(old(self)@, final(self)@, window_index_of(old(self)@, wid)),
            final(self)@.windows[window_index_of(old(self)@, wid)] == (WindowState {
                close_scheduled: true,
                ..window_of(old(self)@, wid)
            }),
    {
        let i = self.locate(wid);
        let ghost before = self@;
        let mut w = self.take_out(i);
        w.schedule_close();
        self.restore(i, w, Ghost(before));
    }

    /// The position of the first window that holds the view `id`.
    fn owner_index(&self, id: WebViewId) -> (r: Option<usize>)
        ensures
            r matches Some(i) ==> first_owner(self@, id, i as int),
            r is None ==> !owned(self@, id),
    {
        let mut i: usize = 0;
        while i < self.windows.len()
            invariant
                i <= self@.windows.len(),
                forall|j: int| 0 <= j < i ==> !self@.windows[j].collection.has(id),
            decreases self@.windows.len() - i,
        {
            if self.windows[i].contains_webview(id) {
                return Some(i);
            }
            i = i + 1;
        }
        None
    }

    /// The window that holds the view `id`, if any.
    pub fn maybe_window_for_webview_id(&self, id: WebViewId) -> (r: Option<ServoShellWindowId>)
        ensures
            r is None <==> !owned(self@, id),
            r matches Some(wid) ==> exists|i: int| first_owner(self@, id, i) && self@.windows[i].id == wid,
    {
        match self.owner_index(id) {
            Some(i) => Some(self.windows[i].id()),
            None => None,
        }
    }

    /// The window that holds the view `id`, which one does.
    pub fn window_for_webview_id(&self, id: WebViewId) -> (r: ServoShellWindowId)
        requires
            owned(self@, id),
        ensures
            exists|i: int| first_owner(self@, id, i) && self@.windows[i].id == r,
    {
        let i = self.owner_index(id).unwrap();
        self.windows[i].id()
    }

    /// Takes a notification from the engine about the view `id` into account
    /// in the window that holds it, and returns that window, on whose
    /// platform window the notification is to be acted on.
    pub fn handle_webview_event(&mut self, id: WebViewId, event: WebViewEvent) -> (r: ServoShellWindowId)
        requires
            old(self).wf(),
            owned(old(self)@, id),
        ensures
            final(self).wf(),
            exists|i: int|
                {
                    &&& first_owner(old(self)@, id, i)
                    &&& r == old(self)@.windows[i].id
                    &&& only_window_changed(old(self)@, final(self)@, i)
                    &&& event_applied(old(self)@.windows[i], final(self)@.windows[i], event, id)
                },
    {
        let i = self.owner_index(id).unwrap();
        let ghost before = self@;
        let mut w = self.take_out(i);
        match event {
            WebViewEvent::StatusTextChanged | WebViewEvent::HistoryChanged
            | WebViewEvent::PageTitleChanged | WebViewEvent::LoadStatusChanged => {
                w.set_needs_update();
            },
            WebViewEvent::NewFrameReady => {
                w.set_needs_repaint();
            },
            WebViewEvent::Closed => {
                w.close_webview(id);
            },
            WebViewEvent::FaviconChanged => {
                w.notify_favicon_changed(id);
            },
            WebViewEvent::ShowEmbedderControl => {
                w.show_embedder_control();
            },
            WebViewEvent::HideEmbedderControl => {
                w.hide_embedder_control();
            },
            _ => {},
        }
        let wid = w.id();
        self.restore(i, w, Ghost(before));
        wid
    }

    /// Ends a tick: unless exit is already scheduled, drops every window that
    /// holds no view or whose close was asked for; schedules exit once no
    /// window is left; returns whether the run goes on.
    pub fn finish_tick(&mut self) -> (r: bool)
        requires
            old(self).wf(),
        ensures
            final(self).wf(),
            final(self)@ == tick_end(old(self)@),
            r == !final(self)@.exit_scheduled,
    {
        if !self.exit_scheduled {
            let ghost before = self@;
            let mut remaining: Vec<ServoShellWindow<V>> = Vec::new();
            core::mem::swap(&mut remaining, &mut self.windows);
            let mut kept: Vec<ServoShellWindow<V>> = Vec::new();
            let n = remaining.len();
            let mut i: usize = 0;
            while i < n
                invariant
                    n == before.windows.len(),
                    i <= n,
                    remaining@.len() == n - i,
                    forall|j: int| 0 <= j < n - i ==> #[trigger] remaining@[j]@ == before.windows[i + j],
                    kept@.map_values(|w: ServoShellWindow<V>| w@) == open_windows(before.windows.subrange(0, i as int)),
                decreases n - i,
            {
                let ghost prefix = before.windows.subrange(0, i as int + 1);
                assert(prefix.drop_last() =~= before.windows.subrange(0, i as int));
                let ghost rem_before = remaining@;
                let w = remaining.remove(0);
                assert(w@ == before.windows[i as int]);
                assert forall|j: int| 0 <= j < n - i - 1 implies #[trigger] remaining@[j]@ == before.windows[i + 1 + j] by {
                    assert(remaining@[j] == rem_before[j + 1]);
                }
                if !w.should_close() {
                    let ghost kept_before = kept@.map_values(|w: ServoShellWindow<V>| w@);
                    kept.push(w);
                    assert(kept@.map_values(|w: ServoShellWindow<V>| w@) =~= kept_before.push(before.windows[i as int]));
                }
                i = i + 1;
            }
            assert(before.windows.subrange(0, n as int) =~= before.windows);
            self.windows = kept;
            proof {
                lemma_open_windows_wf(before);
            }
            if self.windows.len() == 0 {
                self.exit_scheduled = true;
            }
        }
        !self.exit_scheduled
    }
}

} // verus!
