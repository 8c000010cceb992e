//! One window of the shell: its views, the flags that drive repainting, and
//! the buffer of commands that the user interface queues for it.

use vstd::prelude::*;
use crate::address::Address;
use crate::parser::{location_bar_input_to_url, resolve};
use crate::webview_collection::{removal, WebViewCollection, WebViewId};

verus! {

/// The identity of a window, as the platform assigns it.
#[derive(Clone, Copy, Debug, PartialEq, Eq, Hash, Structural)]
pub struct ServoShellWindowId(pub u64);

impl From<u64> for ServoShellWindowId {
    fn from(value: u64) -> (r: Self)
        ensures
            r == ServoShellWindowId(value),
    {
        ServoShellWindowId(value)
    }
}

impl vstd::std_specs::convert::FromSpecImpl<u64> for ServoShellWindowId {
    open spec fn obeys_from_spec() -> bool {
        true
    }

    open spec fn from_spec(v: u64) -> Self {
        ServoShellWindowId(v)
    }
}

/// A command that the user interface queues for a window.
#[derive(Debug)]
pub enum UserInterfaceCommand {
    /// Load what the location-bar text resolves to in the active view.
    Go(String),
    /// One step back in the active view's history.
    Back,
    /// One step forward in the active view's history.
    Forward,
    /// Reload the active view.
    Reload,
    /// Open a new view on the new-tab page and make it active.
    NewWebView,
    /// Close the view with this identity.
    CloseWebView(WebViewId),
}

/// What applying one command asks of the engine and the platform.
#[derive(Debug)]
pub enum CommandOutcome {
    /// Nothing is to be done.
    Nothing,
    /// The location-bar text resolved to no address; the command is dropped.
    Unresolved,
    /// Load the address in the view.
    Load(WebViewId, Address),
    /// Step the view's history back by one entry.
    GoBack(WebViewId),
    /// Step the view's history forward by one entry.
    GoForward(WebViewId),
    /// Reload the view.
    Reload(WebViewId),
    /// Create a view on the address; it is to be added to this window and
    /// activated.
    CreateWebView(Address),
    /// The view was removed from this window; the platform is to dismiss what
    /// it shows for it and show the newly active view.
    Closed(WebViewId),
}

/// The state of a window.
pub ghost struct WindowState<V> {
    pub id: ServoShellWindowId,
    pub collection: WebViewCollection<V>,
    pub close_scheduled: bool,
    pub needs_update: bool,
    pub needs_repaint: bool,
    pub pending_favicon_loads: Seq<WebViewId>,
    pub pending_commands: Seq<UserInterfaceCommand>,
}

/// Whether the window is to be closed: it holds no view, or its close was asked for.
pub open spec fn closing<V>(w: WindowState<V>) -> bool {
    w.collection.entries().len() == 0 || w.close_scheduled
}

/// `after` is `before` with the view under `id` closed: where one was there,
/// the window needs an update and a repaint.
pub open spec fn closed_in<V>(before: WindowState<V>, after: WindowState<V>, id: WebViewId) -> bool {
    &&& removal(before.collection, after.collection, id)
    &&& after == (WindowState {
        collection: after.collection,
        needs_update: before.needs_update || before.collection.has(id),
        needs_repaint: before.needs_repaint || before.collection.has(id),
        ..before
    })
}

/// `after` and `r` are what applying `command` to `before` gives, with
/// `searchpage` as the search page template and `new_tab_page` as the address
/// that new views open on.
pub open spec fn command_applied<V>(
    before: WindowState<V>,
    after: WindowState<V>,
    command: UserInterfaceCommand,
    searchpage: Seq<char>,
    new_tab_page: Seq<char>,
    r: CommandOutcome,
) -> bool {
    match command {
        UserInterfaceCommand::Go(text) => {
            &&& after == (WindowState { needs_update: true, ..before })
            &&& match resolve(text@, searchpage) {
                None => r is Unresolved,
                Some(a) => match before.collection.active_spec() {
                    Some(id) => (r matches CommandOutcome::Load(v, addr) && v == id && addr@ == a),
                    None => r is Nothing,
                },
            }
        },
        UserInterfaceCommand::Back => {
            &&& after == before
            &&& r == match before.collection.active_spec() {
                Some(id) => CommandOutcome::GoBack(id),
                None => CommandOutcome::Nothing,
            }
        },
        UserInterfaceCommand::Forward => {
            &&& after == before
            &&& r == match before.collection.active_spec() {
                Some(id) => CommandOutcome::GoForward(id),
                None => CommandOutcome::Nothing,
            }
        },
        UserInterfaceCommand::Reload => {
            &&& after == (WindowState { needs_update: true, ..before })
            &&& r == match before.collection.active_spec() {
                Some(id) => CommandOutcome::Reload(id),
                None => CommandOutcome::Nothing,
            }
        },
        UserInterfaceCommand::NewWebView => {
            &&& after == (WindowState { needs_update: true, ..before })
            &&& (r matches CommandOutcome::CreateWebView(a) && a@ == new_tab_page)
        },
        UserInterfaceCommand::CloseWebView(id) => {
            &&& closed_in((WindowState { needs_update: true, ..before }), after, id)
            &&& r == if before.collection.has(id) {
                CommandOutcome::Closed(id)
            } else {
                CommandOutcome::Nothing
            }
        },
    }
}

/// A navigation whose text resolves to no address is dropped without touching
/// the window's views, so a reload queued after it in the same batch still
/// reloads the active view.
pub proof fn lemma_unresolved_navigation_keeps_batch<V>(
    w0: WindowState<V>,
    w1: WindowState<V>,
    w2: WindowState<V>,
    text: String,
    searchpage: Seq<char>,
    new_tab_page: Seq<char>,
    r1: CommandOutcome,
    r2: CommandOutcome,
)
    requires
        resolve(text@, searchpage) is None,
        command_applied(w0, w1, UserInterfaceCommand::Go(text), searchpage, new_tab_page, r1),
        command_applied(w1, w2, UserInterfaceCommand::Reload, searchpage, new_tab_page, r2),
    ensures
        r1 is Unresolved,
        w2.collection == w0.collection,
        w2.needs_update,
        r2 == match w0.collection.active_spec() {
            Some(id) => CommandOutcome::Reload(id),
            None => CommandOutcome::Nothing,
        },
{
}

/// A window of the shell, holding views of type `V`.
pub struct ServoShellWindow<V> {
    id: ServoShellWindowId,
    webview_collection: WebViewCollection<V>,
    close_scheduled: bool,
    needs_update: bool,
    needs_repaint: bool,
    pending_favicon_loads: Vec<WebViewId>,
    pending_commands: Vec<UserInterfaceCommand>,
}

impl<V> View for ServoShellWindow<V> {
    type V = WindowState<V>;

    closed spec fn view(&self) -> WindowState<V> {
        WindowState {
            id: self.id,
            collection: self.webview_collection,
            close_scheduled: self.close_scheduled,
            needs_update: self.needs_update,
            needs_repaint: self.needs_repaint,
            pending_favicon_loads: self.pending_favicon_loads@,
            pending_commands: self.pending_commands@,
        }
    }
}

impl<V> ServoShellWindow<V> {
    /// The window's views are well formed.
    pub open spec fn wf(&self) -> bool {
        self@.collection.wf()
    }

    /// The identity of the active view, if any.
    pub open spec fn active_spec(&self) -> Option<WebViewId> {
        self@.collection.active_spec()
    }

    /// A window with no view, no flag set and nothing pending.
    pub fn new(id: ServoShellWindowId) -> (r: Self)
        ensures
            r.wf(),
            r@.id == id,
            r@.collection.entries().len() == 0,
            r@.collection.active_spec() is None,
            !r@.close_scheduled && !r@.needs_update && !r@.needs_repaint,
            r@.pending_favicon_loads.len() == 0,
            r@.pending_commands.len() == 0,
    {
        ServoShellWindow {
            id,
            webview_collection: WebViewCollection::new(),
            close_scheduled: false,
            needs_update: false,
            needs_repaint: false,
            pending_favicon_loads: Vec::new(),
            pending_commands: Vec::new(),
        }
    }

    /// The window's identity.
    pub fn id(&self) -> (r: ServoShellWindowId)
        ensures
            r == self@.id,
    {
        self.id
    }

    /// The window's views.
    pub fn webview_collection(&self) -> (r: &WebViewCollection<V>)
        ensures
            *r == self@.collection,
    {
        &self.webview_collection
    }

    /// Whether the window is to be closed at the end of this tick.
    pub fn should_close(&self) -> (r: bool)
        ensures
            r == closing(self@),
    {
        self.webview_collection.is_empty() || self.close_scheduled
    }

    /// Whether the window holds the view under `id`.
    pub fn contains_webview(&self, id: WebViewId) -> (r: bool)
        ensures
            r == self@.collection.has(id),
    {
        self.webview_collection.contains(id)
    }

    /// The view under `id`, if the window holds it.
    pub fn webview_by_id(&self, id: WebViewId) -> (r: Option<&V>)
        ensures
            r is Some <==> self@.collection.has(id),
            r matches Some(v) ==> self@.collection.holds(id, *v),
    {
        self.webview_collection.get(id)
    }

    /// Asks for the user interface to be updated.
    pub fn set_needs_update(&mut self)
        ensures
            final(self)@ == (WindowState { needs_update: true, ..old(self)@ }),
    {
        self.needs_update = true;
    }

    /// Asks for the window to be repainted.
    pub fn set_needs_repaint(&mut self)
        ensures
            final(self)@ == (WindowState { needs_repaint: true, ..old(self)@ }),
    {
        self.needs_repaint = true;
    }

    /// Asks for the window to be closed at the end of this tick.
    pub fn schedule_close(&mut self)
        ensures
            final(self)@ == (WindowState { close_scheduled: true, ..old(self)@ }),
    {
        self.close_scheduled = true;
    }

    /// Adds a view under `id`, as the newest, and asks for an update and a repaint.
    pub fn add_webview(&mut self, id: WebViewId, webview: V)
        requires
            old(self).wf(),
            !old(self)@.collection.has(id),
        ensures
            final(self).wf(),
            final(self)@.collection.entries() == old(self)@.collection.entries().push((id, webview)),
            final(self)@.collection.active_spec() == old(self)@.collection.active_spec(),
            final(self)@ == (WindowState {
                collection: final(self)@.collection,
                needs_update: true,
                needs_repaint: true,
                ..old(self)@
            }),
    {
        self.webview_collection.add(id, webview);
        self.set_needs_update();
        self.set_needs_repaint();
    }

    /// Adds a view under `id` and makes it the active one.
    pub fn create_and_activate_toplevel_webview(&mut self, id: WebViewId, webview: V)
        requires
            old(self).wf(),
            !old(self)@.collection.has(id),
        ensures
            final(self).wf(),
            final(self)@.collection.entries() == old(self)@.collection.entries().push((id, webview)),
            final(self)@.collection.active_spec() == Some(id),
            final(self)@ == (WindowState {
                collection: final(self)@.collection,
                needs_update: true,
                needs_repaint: true,
                ..old(self)@
            }),
    {
        self.add_webview(id, webview);
        assert(self@.collection.creation_order().last() == id);
        self.activate_webview(id);
    }

    /// The views with their identities, oldest first.
    pub fn webviews(&self) -> (r: Vec<(WebViewId, &V)>)
        ensures
            r@.len() == self@.collection.entries().len(),
            forall|i: int|
                0 <= i < r@.len() ==> r@[i].0 == self@.collection.entries()[i].0 && *r@[i].1
                    == self@.collection.entries()[i].1,
    {
        self.webview_collection.all_in_creation_order()
    }

    /// Makes the view under `id` the active one and asks for an update.
    pub fn activate_webview(&mut self, id: WebViewId)
        requires
            old(self).wf(),
            old(self)@.collection.has(id),
        ensures
            final(self).wf(),
            final(self)@.collection.entries() == old(self)@.collection.entries(),
            final(self)@.collection.active_spec() == Some(id),
            final(self)@ == (WindowState {
                collection: final(self)@.collection,
                needs_update: true,
                ..old(self)@
            }),
    {
        self.webview_collection.activate_webview(id);
        self.set_needs_update();
    }

    /// Makes the view at `index` in creation order the active one and asks
    /// for an update.
    pub fn activate_webview_by_index(&mut self, index: usize)
        requires
            old(self).wf(),
            index < old(self)@.collection.entries().len(),
        ensures
            final(self).wf(),
            final(self)@.collection.entries() == old(self)@.collection.entries(),
            final(self)@.collection.active_spec() == Some(
                old(self)@.collection.creation_order()[index as int],
            ),
            final(self)@ == (WindowState {
                collection: final(self)@.collection,
                needs_update: true,
                ..old(self)@
            }),
    {
        self.webview_collection.activate_webview_by_index(index);
        self.set_needs_update();
    }

    /// The position of the active view in creation order, if there is one.
    pub fn get_active_webview_index(&self) -> (r: Option<usize>)
        requires
            self.wf(),
        ensures
            r is Some <==> self.active_spec() is Some,
            r matches Some(i) ==> i < self@.collection.entries().len()
                && self@.collection.creation_order()[i as int] == self.active_spec()->0,
    {
        let active_id = match self.webview_collection.active_id() {
            Some(id) => id,
            None => return None,
        };
        let views = self.webview_collection.activation_states();
        let mut i: usize = 0;
        while i < views.len()
            invariant
                self.active_spec() == Some(active_id),
                views@.len() == self@.collection.entries().len(),
                forall|j: int|
                    0 <= j < views@.len() ==> views@[j].0 == self@.collection.entries()[j].0,
                i <= views@.len(),
                forall|j: int| 0 <= j < i ==> views@[j].0 != active_id,
            decreases views@.len() - i,
        {
            if views[i].0 == active_id {
                assert(self@.collection.creation_order()[i as int] == active_id);
                return Some(i);
            }
            i = i + 1;
        }
        proof {
            let k = choose|k: int|
                0 <= k < self@.collection.creation_order().len()
                    && self@.collection.creation_order()[k] == active_id;
            assert(views@[k].0 == active_id);
        }
        None
    }

    /// Reads and clears the request for a user interface update.
    pub fn take_needs_update(&mut self) -> (r: bool)
        ensures
            r == old(self)@.needs_update,
            final(self)@ == (WindowState { needs_update: false, ..old(self)@ }),
    {
        let r = self.needs_update;
        self.needs_update = false;
        r
    }

    /// Reads and clears the request for a repaint; a repaint is due where one
    /// was asked for or where the user interface update just made wants one.
    pub fn finish_update(&mut self, updated_user_interface: bool) -> (r: bool)
        ensures
            r == (updated_user_interface || old(self)@.needs_repaint),
            final(self)@ == (WindowState { needs_repaint: false, ..old(self)@ }),
    {
        let needs_repaint = self.needs_repaint;
        self.needs_repaint = false;
        updated_user_interface || needs_repaint
    }

    /// Closes the view under `id`, if the window holds it; returns whether it did.
    pub fn close_webview(&mut self, id: WebViewId) -> (r: bool)
        requires
            old(self).wf(),
        ensures
            final(self).wf(),
            r == old(self)@.collection.has(id),
            closed_in(old(self)@, final(self)@, id),
    {
        if self.webview_collection.remove(id).is_none() {
            return false;
        }
        self.set_needs_update();
        self.set_needs_repaint();
        true
    }

    /// Notes that the favicon of the view under `id` is to be uploaded, and
    /// asks for a repaint.
    pub fn notify_favicon_changed(&mut self, id: WebViewId)
        ensures
            final(self)@ == (WindowState {
                pending_favicon_loads: old(self)@.pending_favicon_loads.push(id),
                needs_repaint: true,
                ..old(self)@
            }),
    {
        self.pending_favicon_loads.push(id);
        self.set_needs_repaint();
    }

    /// The active view, if any.
    pub fn active_webview(&self) -> (r: Option<&V>)
        requires
            self.wf(),
        ensures
            r is Some <==> self.active_spec() is Some,
            r matches Some(v) ==> self@.collection.holds(self.active_spec()->0, *v),
    {
        self.webview_collection.active()
    }

    /// Takes the views whose favicons are waiting to be uploaded.
    pub fn take_pending_favicon_loads(&mut self) -> (r: Vec<WebViewId>)
        ensures
            r@ == old(self)@.pending_favicon_loads,
            final(self)@ == (WindowState { pending_favicon_loads: Seq::empty(), ..old(self)@ }),
    {
        let mut taken = Vec::new();
        core::mem::swap(&mut taken, &mut self.pending_favicon_loads);
        taken
    }

    /// Notes that the platform now shows a control for a view.
    pub fn show_embedder_control(&mut self)
        ensures
            final(self)@ == (WindowState { needs_update: true, needs_repaint: true, ..old(self)@ }),
    {
        self.set_needs_update();
        self.set_needs_repaint();
    }

    /// Notes that the platform no longer shows a control for a view.
    pub fn hide_embedder_control(&mut self)
        ensures
            final(self)@ == (WindowState { needs_update: true, needs_repaint: true, ..old(self)@ }),
    {
        self.set_needs_update();
        self.set_needs_repaint();
    }

    /// Queues a command from the user interface.
    pub fn push_command(&mut self, command: UserInterfaceCommand)
        ensures
            final(self)@ == (WindowState {
                pending_commands: old(self)@.pending_commands.push(command),
                ..old(self)@
            }),
    {
        self.pending_commands.push(command);
    }

    /// Takes every queued command, in the order they were queued; commands
    /// queued later start a new buffer.
    pub fn take_user_interface_commands(&mut self) -> (r: Vec<UserInterfaceCommand>)
        ensures
            r@ == old(self)@.pending_commands,
            final(self)@ == (WindowState { pending_commands: Seq::empty(), ..old(self)@ }),
    {
        let mut taken = Vec::new();
        core::mem::swap(&mut taken, &mut self.pending_commands);
        taken
    }

    /// Applies one command from the user interface. Location-bar text is
    /// resolved against the search page template `searchpage`; a new view
    /// opens on `new_tab_page`.
    pub fn handle_interface_command(
        &mut self,
        command: UserInterfaceCommand,
        searchpage: &str,
        new_tab_page: &Address,
    ) -> (r: CommandOutcome)
        requires
            old(self).wf(),
        ensures
            final(self).wf(),
            command_applied(old(self)@, final(self)@, command, searchpage@, new_tab_page@, r),
    {
        match command {
            UserInterfaceCommand::Go(location) => {
                self.set_needs_update();
                match location_bar_input_to_url(location.as_str(), searchpage) {
                    None => CommandOutcome::Unresolved,
                    Some(url) => match self.webview_collection.active_id() {
                        Some(id) => CommandOutcome::Load(id, url),
                        None => CommandOutcome::Nothing,
                    },
                }
            },
            UserInterfaceCommand::Back => match self.webview_collection.active_id() {
                Some(id) => CommandOutcome::GoBack(id),
                None => CommandOutcome::Nothing,
            },
            UserInterfaceCommand::Forward => match self.webview_collection.active_id() {
                Some(id) => CommandOutcome::GoForward(id),
                None => CommandOutcome::Nothing,
            },
            UserInterfaceCommand::Reload => {
                self.set_needs_update();
                match self.webview_collection.active_id() {
                    Some(id) => CommandOutcome::Reload(id),
                    None => CommandOutcome::Nothing,
                }
            },
            UserInterfaceCommand::NewWebView => {
                self.set_needs_update();
                CommandOutcome::CreateWebView(new_tab_page.duplicate())
            },
            UserInterfaceCommand::CloseWebView(id) => {
                self.set_needs_update();
                if self.close_webview(id) {
                    CommandOutcome::Closed(id)
                } else {
                    CommandOutcome::Nothing
                }
            },
        }
    }
}

} // verus!
