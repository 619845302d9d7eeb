use salary_tray::i18n::{ftl_source, ftl_source_loads, I18n};
use salary_tray::language::Language;
use salary_tray::tray::{
    click_shows_window, menu_action, quit_item_id, settings_item_id, tray_menu, ButtonState,
    MenuAction, MouseButton,
};

#[test]
fn menu_actions() {
    assert_eq!(menu_action("settings"), MenuAction::ShowSettings);
    assert_eq!(menu_action("quit"), MenuAction::Quit);
    assert_eq!(menu_action("Quit"), MenuAction::Ignore);
    assert_eq!(menu_action(""), MenuAction::Ignore);
    assert_eq!(menu_action("settings2"), MenuAction::Ignore);
}

#[test]
fn only_left_press_shows_window() {
    assert!(click_shows_window(MouseButton::Left, ButtonState::Down));
    assert!(!click_shows_window(MouseButton::Left, ButtonState::Up));
    assert!(!click_shows_window(MouseButton::Right, ButtonState::Down));
    assert!(!click_shows_window(MouseButton::Middle, ButtonState::Down));
}

#[test]
fn menu_texts_load() {
    assert!(ftl_source_loads(Language::EN));
    assert!(ftl_source_loads(Language::ZH));
    assert!(ftl_source(Language::ZH).contains("quit"));
}

#[test]
fn translations() {
    let en = I18n::new(Language::EN);
    assert_eq!(en.translate("settings", None).text, "Settings");
    assert_eq!(en.translate("quit", None).text, "Quit");
    assert!(en.try_translate("missing", None).is_none());
    assert_eq!(en.try_translate("quit", None).unwrap().text, "Quit");
    let zh = I18n::try_new(Language::ZH).unwrap();
    assert_eq!(zh.translate("settings", None).text, "设置");
    assert_eq!(zh.translate("quit", None).text, "退出");
    assert!(zh.translate("quit", None).errors.is_empty());
    assert_eq!(zh.translate("quit", None).text, zh.translate("quit", None).text);
    assert!(en.translate("settings", None).errors.is_empty());
}

#[test]
fn tray_menu_items() {
    let items = tray_menu(Language::EN).unwrap();
    assert_eq!(items.len(), 2);
    assert_eq!(items[0].id, settings_item_id());
    assert_eq!(items[0].label.text, "Settings");
    assert_eq!(items[1].id, quit_item_id());
    assert_eq!(items[1].label.text, "Quit");
    for item in &items {
        assert_ne!(menu_action(item.id), MenuAction::Ignore);
    }
    let zh = tray_menu(Language::ZH).unwrap();
    assert_eq!(zh[0].label.text, "设置");
    assert_eq!(zh[1].label.text, "退出");
}
