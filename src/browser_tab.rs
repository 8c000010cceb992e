//! The decisions behind one tab of the tab strip: its label and what a click
//! on it does.

use vstd::prelude::*;

verus! {

/// The label a tab shows when its view has neither a title nor an address.
pub const NEW_TAB_LABEL: &'static str = "New Tab";

/// The longest label, in characters, that a tab shows whole.
pub const TAB_LABEL_MAX_LENGTH: usize = 16;

/// `s` cut to `max_length` characters: where it is longer, its first
/// `max_length - 1` characters (none where `max_length` is 0) and an ellipsis.
pub open spec fn truncated(s: Seq<char>, max_length: nat) -> Seq<char> {
    if s.len() > max_length {
        s.subrange(0, if max_length > 0 { max_length - 1 } else { 0 }) + seq!['\u{2026}']
    } else {
        s
    }
}

/// Cuts `input` to at most `max_length` characters, marking the cut with an
/// ellipsis.
pub fn truncate_with_ellipsis(input: &str, max_length: usize) -> (r: String)
    ensures
        r@ == truncated(input@, max_length as nat),
{
    if input.unicode_len() > max_length {
        let keep: usize = if max_length > 0 {
            max_length - 1
        } else {
            0
        };
        let mut out = String::from_str(input.substring_char(0, keep));
        let ellipsis = "\u{2026}";
        proof {
            reveal_strlit("\u{2026}");
        }
        out.append(ellipsis);
        assert(out@ =~= truncated(input@, max_length as nat));
        out
    } else {
        String::from_str(input)
    }
}

/// The label of a tab: the page title where there is a non-empty one, else
/// the page's address where there is one, else [`NEW_TAB_LABEL`].
pub open spec fn label_of(title: Option<Seq<char>>, url: Option<Seq<char>>) -> Seq<char> {
    match (title, url) {
        (Some(t), _) if t.len() > 0 => t,
        (_, Some(u)) => u,
        _ => NEW_TAB_LABEL@,
    }
}

/// The text of an optional string.
pub open spec fn text_of(s: Option<String>) -> Option<Seq<char>> {
    match s {
        Some(t) => Some(t@),
        None => None,
    }
}

/// The label of the tab of a view with page title `title` and address `url`.
pub fn tab_label(title: Option<String>, url: Option<String>) -> (r: String)
    ensures
        r@ == label_of(text_of(title), text_of(url)),
{
    match (title, url) {
        (Some(t), _) if t.as_str().unicode_len() > 0 => t,
        (_, Some(u)) => u,
        _ => String::from_str(NEW_TAB_LABEL),
    }
}

/// What a click on a tab asks for.
#[derive(Clone, Copy, Debug, PartialEq, Eq, Structural)]
pub enum TabAction {
    /// Nothing.
    Nothing,
    /// Close the tab's view.
    Close,
    /// Make the tab's view the active one.
    Activate,
}

/// What the clicks on a tab ask for: a click on its close button, or a middle
/// click on the button or the tab, closes it; otherwise a plain click on a tab
/// that is not active activates it.
pub fn tab_action(
    close_clicked: bool,
    close_middle_clicked: bool,
    tab_middle_clicked: bool,
    tab_clicked: bool,
    active: bool,
) -> (r: TabAction)
    ensures
        r == if close_clicked || close_middle_clicked || tab_middle_clicked {
            TabAction::Close
        } else if !active && tab_clicked {
            TabAction::Activate
        } else {
            TabAction::Nothing
        },
{
    if close_clicked || close_middle_clicked || tab_middle_clicked {
        TabAction::Close
    } else if !active && tab_clicked {
        TabAction::Activate
    } else {
        TabAction::Nothing
    }
}

} // verus!
