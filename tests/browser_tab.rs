use servoshell::browser_tab::{tab_action, tab_label, truncate_with_ellipsis, TabAction};

#[test]
fn truncation_keeps_short_labels() {
    assert_eq!(truncate_with_ellipsis("Servo", 16), "Servo");
    assert_eq!(truncate_with_ellipsis("exactly sixteen!", 16), "exactly sixteen!");
    assert_eq!(truncate_with_ellipsis("", 0), "");
}

#[test]
fn truncation_cuts_long_labels() {
    assert_eq!(
        truncate_with_ellipsis("seventeen chars!!", 16),
        "seventeen chars\u{2026}"
    );
    assert_eq!(truncate_with_ellipsis("abc", 1), "\u{2026}");
    assert_eq!(truncate_with_ellipsis("abc", 0), "\u{2026}");
    assert_eq!(truncate_with_ellipsis("h\u{e9}llo w\u{f6}rld", 4), "h\u{e9}l\u{2026}");
}

#[test]
fn label_prefers_title_then_address() {
    assert_eq!(tab_label(Some("Title".to_string()), Some("https://a/".to_string())), "Title");
    assert_eq!(tab_label(Some(String::new()), Some("https://a/".to_string())), "https://a/");
    assert_eq!(tab_label(None, Some("https://a/".to_string())), "https://a/");
    assert_eq!(tab_label(Some(String::new()), None), "New Tab");
    assert_eq!(tab_label(None, None), "New Tab");
}

#[test]
fn clicks_on_a_tab() {
    assert_eq!(tab_action(true, false, false, false, true), TabAction::Close);
    assert_eq!(tab_action(false, true, false, true, false), TabAction::Close);
    assert_eq!(tab_action(false, false, true, false, false), TabAction::Close);
    assert_eq!(tab_action(false, false, false, true, false), TabAction::Activate);
    assert_eq!(tab_action(false, false, false, true, true), TabAction::Nothing);
    assert_eq!(tab_action(false, false, false, false, false), TabAction::Nothing);
}
