use servoshell::webview_collection::{WebViewCollection, WebViewId};

fn collection_of(ids: &[u64]) -> WebViewCollection<String> {
    let mut c = WebViewCollection::new();
    for id in ids {
        c.add(WebViewId(*id), format!("view {id}"));
    }
    c
}

#[test]
fn add_keeps_creation_order() {
    let c = collection_of(&[3, 1, 2]);
    let ids: Vec<u64> = c.all_in_creation_order().iter().map(|(id, _)| id.0).collect();
    assert_eq!(ids, vec![3, 1, 2]);
    assert_eq!(c.values(), vec!["view 3", "view 1", "view 2"]);
    assert_eq!(c.len(), 3);
    assert!(!c.is_empty());
    assert!(c.contains(WebViewId(1)));
    assert!(!c.contains(WebViewId(4)));
    assert_eq!(c.get(WebViewId(2)).unwrap(), "view 2");
    assert!(c.get(WebViewId(9)).is_none());
    assert!(c.active().is_none());
    assert_eq!(c.active_id(), None);
}

#[test]
fn removing_active_view_activates_newest_survivor() {
    let mut c = collection_of(&[1, 2, 3]);
    c.activate_webview(WebViewId(3));
    assert_eq!(c.remove(WebViewId(3)).unwrap(), "view 3");
    assert_eq!(c.active_id(), Some(WebViewId(2)));
    assert_eq!(c.active().unwrap(), "view 2");

    let mut c = collection_of(&[1, 2, 3]);
    c.activate_webview(WebViewId(2));
    c.remove(WebViewId(2));
    assert_eq!(c.active_id(), Some(WebViewId(3)));
}

#[test]
fn removing_sole_view_leaves_no_active_view() {
    let mut c = collection_of(&[7]);
    c.activate_webview(WebViewId(7));
    assert_eq!(c.remove(WebViewId(7)).unwrap(), "view 7");
    assert_eq!(c.active_id(), None);
    assert!(c.is_empty());
}

#[test]
fn removing_other_view_keeps_active_view() {
    let mut c = collection_of(&[1, 2, 3]);
    c.activate_webview(WebViewId(1));
    c.remove(WebViewId(3));
    assert_eq!(c.active_id(), Some(WebViewId(1)));
    assert!(c.remove(WebViewId(42)).is_none());
    assert_eq!(c.len(), 2);
}

#[test]
fn activation_by_index_and_visibility() {
    let mut c = collection_of(&[5, 6, 7]);
    c.activate_webview_by_index(1);
    assert_eq!(c.active_id(), Some(WebViewId(6)));
    assert_eq!(
        c.activation_states(),
        vec![(WebViewId(5), false), (WebViewId(6), true), (WebViewId(7), false)]
    );
}
