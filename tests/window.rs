use servoshell::address::Address;
use servoshell::webview_collection::WebViewId;
use servoshell::window::{CommandOutcome, ServoShellWindow, ServoShellWindowId, UserInterfaceCommand};

const SEARCH: &str = "https://duckduckgo.com/html/?q=%s";

fn new_tab() -> Address {
    Address::parse("resource:///newtab.html").unwrap()
}

fn window_with(ids: &[u64]) -> ServoShellWindow<u64> {
    let mut w = ServoShellWindow::new(ServoShellWindowId::from(1u64));
    for id in ids {
        w.create_and_activate_toplevel_webview(WebViewId(*id), *id);
    }
    w
}

#[test]
fn failed_navigation_does_not_stop_the_batch() {
    let mut w = window_with(&[10]);
    w.push_command(UserInterfaceCommand::Go("bad input that fails".to_string()));
    w.push_command(UserInterfaceCommand::Reload);
    let commands = w.take_user_interface_commands();
    assert_eq!(commands.len(), 2);
    assert!(w.take_user_interface_commands().is_empty());
    let mut outcomes = Vec::new();
    for c in commands {
        outcomes.push(w.handle_interface_command(c, "not an address %s", &new_tab()));
    }
    assert!(matches!(outcomes[0], CommandOutcome::Unresolved));
    assert!(matches!(outcomes[1], CommandOutcome::Reload(WebViewId(10))));
}

#[test]
fn navigation_loads_in_active_view() {
    let mut w = window_with(&[1, 2]);
    w.take_needs_update();
    match w.handle_interface_command(UserInterfaceCommand::Go("nic.md".to_string()), SEARCH, &new_tab()) {
        CommandOutcome::Load(id, a) => {
            assert_eq!(id, WebViewId(2));
            assert_eq!(a.as_str(), "https://nic.md/");
        }
        other => panic!("unexpected {other:?}"),
    }
    assert!(w.take_needs_update());
}

#[test]
fn commands_without_active_view_do_nothing() {
    let mut w: ServoShellWindow<u64> = ServoShellWindow::new(ServoShellWindowId(3));
    for c in [
        UserInterfaceCommand::Go("nic.md".to_string()),
        UserInterfaceCommand::Back,
        UserInterfaceCommand::Forward,
        UserInterfaceCommand::Reload,
        UserInterfaceCommand::CloseWebView(WebViewId(1)),
    ] {
        assert!(matches!(w.handle_interface_command(c, SEARCH, &new_tab()), CommandOutcome::Nothing));
    }
}

#[test]
fn history_and_new_view_commands() {
    let mut w = window_with(&[4]);
    w.take_needs_update();
    assert!(matches!(
        w.handle_interface_command(UserInterfaceCommand::Back, SEARCH, &new_tab()),
        CommandOutcome::GoBack(WebViewId(4))
    ));
    assert!(matches!(
        w.handle_interface_command(UserInterfaceCommand::Forward, SEARCH, &new_tab()),
        CommandOutcome::GoForward(WebViewId(4))
    ));
    assert!(!w.take_needs_update());
    match w.handle_interface_command(UserInterfaceCommand::NewWebView, SEARCH, &new_tab()) {
        CommandOutcome::CreateWebView(a) => assert_eq!(a.as_str(), "resource:///newtab.html"),
        other => panic!("unexpected {other:?}"),
    }
    assert!(w.take_needs_update());
}

#[test]
fn close_command_removes_view() {
    let mut w = window_with(&[1, 2]);
    assert!(matches!(
        w.handle_interface_command(UserInterfaceCommand::CloseWebView(WebViewId(2)), SEARCH, &new_tab()),
        CommandOutcome::Closed(WebViewId(2))
    ));
    assert!(!w.contains_webview(WebViewId(2)));
    assert_eq!(w.get_active_webview_index(), Some(0));
    assert_eq!(*w.active_webview().unwrap(), 1);
    assert!(!w.should_close());
    w.close_webview(WebViewId(1));
    assert!(w.should_close());
}

#[test]
fn flags_are_read_and_reset() {
    let mut w = window_with(&[1]);
    assert!(w.take_needs_update());
    assert!(!w.take_needs_update());
    assert!(w.finish_update(false));
    assert!(!w.finish_update(false));
    assert!(w.finish_update(true));
    w.notify_favicon_changed(WebViewId(1));
    assert_eq!(w.take_pending_favicon_loads(), vec![WebViewId(1)]);
    assert!(w.take_pending_favicon_loads().is_empty());
    assert!(w.finish_update(false));
}

#[test]
fn schedule_close_closes_window_with_views() {
    let mut w = window_with(&[1]);
    assert!(!w.should_close());
    w.schedule_close();
    assert!(w.should_close());
}

#[test]
fn activation_by_index_in_window() {
    let mut w = window_with(&[1, 2, 3]);
    w.activate_webview_by_index(0);
    assert_eq!(w.get_active_webview_index(), Some(0));
    w.activate_webview(WebViewId(3));
    assert_eq!(w.get_active_webview_index(), Some(2));
    let ids: Vec<u64> = w.webviews().iter().map(|(id, _)| id.0).collect();
    assert_eq!(ids, vec![1, 2, 3]);
    assert_eq!(*w.webview_by_id(WebViewId(2)).unwrap(), 2);
}
