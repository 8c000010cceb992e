use servoshell::address::Address;
use servoshell::app_state::{App, AppState};
use servoshell::prefs::{ServoShellPreferences, NEW_TAB_PAGE_URL};
use servoshell::running_app_state::{RunningAppState, WebViewEvent};
use servoshell::webview_collection::WebViewId;
use servoshell::window::{CommandOutcome, ServoShellWindow, ServoShellWindowId, UserInterfaceCommand};

fn running_with(windows: &[(u64, &[u64])]) -> RunningAppState<u64> {
    let new_tab = Address::parse(NEW_TAB_PAGE_URL).unwrap();
    let mut state = RunningAppState::new(ServoShellPreferences::default(), new_tab);
    for (wid, views) in windows {
        let mut w = ServoShellWindow::new(ServoShellWindowId(*wid));
        for v in views.iter() {
            w.create_and_activate_toplevel_webview(WebViewId(*v), *v);
        }
        state.open_window(w);
    }
    state
}

#[test]
fn default_search_page() {
    assert_eq!(
        ServoShellPreferences::default().searchpage,
        "https://duckduckgo.com/html/?q=%s"
    );
}

#[test]
fn tick_that_closes_every_window_schedules_exit() {
    let mut state = running_with(&[(1, &[10]), (2, &[20])]);
    assert!(state.finish_tick());
    let w1 = state.handle_webview_event(WebViewId(10), WebViewEvent::Closed);
    assert_eq!(w1, ServoShellWindowId(1));
    state.schedule_close(ServoShellWindowId(2));
    assert!(!state.finish_tick());
    assert!(state.exit_scheduled());
    assert!(!state.finish_tick());
}

#[test]
fn closing_windows_are_pruned() {
    let mut state = running_with(&[(1, &[10]), (2, &[20, 21]), (3, &[30])]);
    state.handle_webview_event(WebViewId(20), WebViewEvent::Closed);
    state.schedule_close(ServoShellWindowId(3));
    assert!(state.finish_tick());
    let ids: Vec<u64> = state.window_ids().iter().map(|w| w.0).collect();
    assert_eq!(ids, vec![1, 2]);
    assert_eq!(state.window(ServoShellWindowId(2)).unwrap().active_webview(), Some(&21));
    assert!(state.window(ServoShellWindowId(3)).is_none());
}

#[test]
fn no_pruning_once_exit_is_scheduled() {
    let mut state = running_with(&[(1, &[10]), (2, &[20])]);
    state.schedule_exit();
    state.schedule_close(ServoShellWindowId(1));
    assert!(!state.finish_tick());
    assert_eq!(state.window_ids().len(), 2);
}

#[test]
fn events_route_to_owning_window() {
    let mut state = running_with(&[(1, &[10]), (2, &[20])]);
    for w in state.window_ids() {
        state.take_needs_update(w);
        state.finish_update(w, false);
    }
    assert_eq!(state.maybe_window_for_webview_id(WebViewId(20)), Some(ServoShellWindowId(2)));
    assert_eq!(state.maybe_window_for_webview_id(WebViewId(99)), None);
    assert_eq!(state.window_for_webview_id(WebViewId(10)), ServoShellWindowId(1));

    assert_eq!(state.handle_webview_event(WebViewId(20), WebViewEvent::PageTitleChanged), ServoShellWindowId(2));
    assert!(state.take_needs_update(ServoShellWindowId(2)));
    assert!(!state.take_needs_update(ServoShellWindowId(1)));

    state.handle_webview_event(WebViewId(10), WebViewEvent::NewFrameReady);
    assert!(state.finish_update(ServoShellWindowId(1), false));
    assert!(!state.finish_update(ServoShellWindowId(2), false));

    state.handle_webview_event(WebViewId(10), WebViewEvent::FaviconChanged);
    assert_eq!(state.take_pending_favicon_loads(ServoShellWindowId(1)), vec![WebViewId(10)]);

    assert_eq!(state.handle_webview_event(WebViewId(10), WebViewEvent::CursorChanged), ServoShellWindowId(1));
    assert!(!state.take_needs_update(ServoShellWindowId(1)));
}

#[test]
fn commands_apply_per_window() {
    let mut state = running_with(&[(1, &[10]), (2, &[20])]);
    state.push_command(ServoShellWindowId(2), UserInterfaceCommand::NewWebView);
    state.push_command(ServoShellWindowId(2), UserInterfaceCommand::Go("".to_string()));
    state.push_command(ServoShellWindowId(2), UserInterfaceCommand::Reload);
    assert!(state.take_user_interface_commands(ServoShellWindowId(1)).is_empty());
    let commands = state.take_user_interface_commands(ServoShellWindowId(2));
    let mut seen = Vec::new();
    for c in commands {
        match state.handle_interface_command(ServoShellWindowId(2), c) {
            CommandOutcome::CreateWebView(a) => {
                assert_eq!(a.as_str(), "resource:///newtab.html");
                state.create_and_activate_toplevel_webview(ServoShellWindowId(2), WebViewId(21), 21);
                seen.push("create");
            }
            CommandOutcome::Unresolved => seen.push("unresolved"),
            CommandOutcome::Reload(id) => {
                assert_eq!(id, WebViewId(21));
                seen.push("reload");
            }
            other => panic!("unexpected {other:?}"),
        }
    }
    assert_eq!(seen, vec!["create", "unresolved", "reload"]);
    state.activate_webview(ServoShellWindowId(2), WebViewId(20));
    assert_eq!(state.window(ServoShellWindowId(2)).unwrap().active_webview(), Some(&20));
}

#[test]
fn lifecycle_runs_once_then_shuts_down() {
    let mut app: AppState<u64> = AppState::new();
    assert!(!app.is_running());
    assert!(!app.finish_tick());
    app.start(running_with(&[(1, &[10])]));
    assert!(app.is_running());
    assert!(app.finish_tick());
    if let AppState::Running(state) = &mut app {
        state.handle_webview_event(WebViewId(10), WebViewEvent::Closed);
    }
    assert!(!app.finish_tick());
    assert!(matches!(app, AppState::ShuttingDown));
    assert!(!app.finish_tick());
}

#[test]
fn app_starts_once_with_its_first_window() {
    let new_tab = Address::parse(NEW_TAB_PAGE_URL).unwrap();
    let mut app: App<u64> = App::new(ServoShellPreferences::default(), new_tab);
    assert!(matches!(app.state, AppState::Initializing));
    assert!(!app.finish_tick());
    app.init(ServoShellWindowId(1), WebViewId(10), 10);
    let AppState::Running(state) = &mut app.state else {
        panic!("not running");
    };
    assert_eq!(state.window_ids(), vec![ServoShellWindowId(1)]);
    let first = state.window(ServoShellWindowId(1)).unwrap();
    assert_eq!(first.webview_collection().len(), 1);
    assert_eq!(first.webview_collection().active_id(), Some(WebViewId(10)));
    assert_eq!(first.active_webview(), Some(&10));
    state.push_command(ServoShellWindowId(1), UserInterfaceCommand::NewWebView);
    let commands = state.take_user_interface_commands(ServoShellWindowId(1));
    for c in commands {
        match state.handle_interface_command(ServoShellWindowId(1), c) {
            CommandOutcome::CreateWebView(a) => assert_eq!(a.as_str(), "resource:///newtab.html"),
            other => panic!("unexpected {other:?}"),
        }
    }
    assert!(app.finish_tick());
    assert_eq!(app.initial_url.as_str(), "resource:///newtab.html");
}
