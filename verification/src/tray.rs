//! The decisions of the tray icon and its menu: which items the menu has,
//! and what a click on the icon or on an item does.
use crate::i18n::{ftl_loads, menu_text, I18n, Translation};
use crate::language::Language;
use vstd::prelude::*;

verus! {

/// What the application does when a menu item is chosen.
#[derive(Clone, Copy, PartialEq, Eq, Structural, Debug)]
pub enum MenuAction {
    /// Show the main window on the settings page.
    ShowSettings,
    /// Leave the application.
    Quit,
    /// Nothing: the item is not one of the menu's.
    Ignore,
}

/// The mouse buttons of a click on the tray icon.
#[derive(Clone, Copy, PartialEq, Eq, Structural, Debug)]
pub enum MouseButton {
    Left,
    Right,
    Middle,
}

/// Whether a button went down or up.
#[derive(Clone, Copy, PartialEq, Eq, Structural, Debug)]
pub enum ButtonState {
    Up,
    Down,
}

/// The identifier of the settings item: "settings".
pub open spec fn settings_id() -> Seq<char> {
    seq!['s', 'e', 't', 't', 'i', 'n', 'g', 's']
}

/// The identifier of the quit item: "quit".
pub open spec fn quit_id() -> Seq<char> {
    seq!['q', 'u', 'i', 't']
}

/// The identifier of the settings item, which is also the key of its text.
pub fn settings_item_id() -> (r: &'static str)
    ensures
        r@ == settings_id(),
{
    proof {
        reveal_strlit("settings");
    }
    "settings"
}

/// The identifier of the quit item, which is also the key of its text.
pub fn quit_item_id() -> (r: &'static str)
    ensures
        r@ == quit_id(),
{
    proof {
        reveal_strlit("quit");
    }
    "quit"
}

/// Whether `s` is the text `t`, compared character by character.
fn same_text(s: &str, t: &str) -> (r: bool)
    ensures
        r == (s@ == t@),
{
    let n = s.unicode_len();
    let m = t.unicode_len();
    if n != m {
        return false;
    }
    let mut i: usize = 0;
    while i < n
        invariant
            n == s@.len(),
            m == t@.len(),
            n == m,
            i <= n,
            forall|j: int| 0 <= j < i ==> s@[j] == t@[j],
        decreases n - i,
    {
        if s.get_char(i) != t.get_char(i) {
            return false;
        }
        i = i + 1;
    }
    assert(s@ =~= t@);
    true
}

/// What choosing the menu item `id` does: "settings" shows the settings,
/// "quit" leaves, anything else is ignored.
pub fn menu_action(id: &str) -> (r: MenuAction)
    ensures
        r == menu_action_spec(id@),
{
    if same_text(id, settings_item_id()) {
        MenuAction::ShowSettings
    } else if same_text(id, quit_item_id()) {
        MenuAction::Quit
    } else {
        MenuAction::Ignore
    }
}

/// Whether a click on the tray icon shows the main window: only the left
/// button going down does.
pub fn click_shows_window(button: MouseButton, state: ButtonState) -> (r: bool)
    ensures
        r == (button == MouseButton::Left && state == ButtonState::Down),
{
    match (button, state) {
        (MouseButton::Left, ButtonState::Down) => true,
        _ => false,
    }
}

/// An item of the tray menu: its identifier and its text.
pub struct MenuEntry {
    pub id: &'static str,
    pub label: Translation,
}

/// The items of the tray menu in a language: the settings item, then the
/// quit item, each labelled with the translation of its identifier in that
/// language. `None` where the texts of the language do not load or lack one
/// of the two messages.
pub fn tray_menu(lang: Language) -> (r: Option<Vec<MenuEntry>>)
    ensures
        r is Some <==> (ftl_loads(lang) && menu_text(lang, settings_id()) is Some && menu_text(
            lang,
            quit_id(),
        ) is Some),
        r matches Some(items) ==> items@.len() == 2 && items@[0].id@ == settings_id()
            && items@[1].id@ == quit_id(),
        r matches Some(items) ==> menu_text(lang, settings_id()) == Some(items@[0].label.text@)
            && menu_text(lang, quit_id()) == Some(items@[1].label.text@),
{
    let i18n = match I18n::try_new(lang) {
        Some(i) => i,
        None => return None,
    };
    let settings_label = match i18n.try_translate(settings_item_id(), None) {
        Some(t) => t,
        None => return None,
    };
    let quit_label = match i18n.try_translate(quit_item_id(), None) {
        Some(t) => t,
        None => return None,
    };
    let mut items: Vec<MenuEntry> = Vec::new();
    items.push(MenuEntry { id: settings_item_id(), label: settings_label });
    items.push(MenuEntry { id: quit_item_id(), label: quit_label });
    Some(items)
}

/// Every item the tray menu offers has an action: the settings item shows
/// the settings and the quit item leaves, never one for the other.
pub proof fn lemma_menu_items_act(items: Seq<MenuEntry>)
    requires
        items.len() == 2,
        items[0].id@ == settings_id(),
        items[1].id@ == quit_id(),
    ensures
        menu_action_spec(items[0].id@) == MenuAction::ShowSettings,
        menu_action_spec(items[1].id@) == MenuAction::Quit,
{
    assert(settings_id().len() != quit_id().len());
}

/// What choosing the item with identifier `id` does.
pub open spec fn menu_action_spec(id: Seq<char>) -> MenuAction {
    if id == settings_id() {
        MenuAction::ShowSettings
    } else if id == quit_id() {
        MenuAction::Quit
    } else {
        MenuAction::Ignore
    }
}

} // verus!
