use ae2_lanuis_client_lib::tray::{
    create_tray, exit_app, hide_main_window_cmd, initial_tray_labels, menu_event_action,
    show_main_window_cmd, sync_tray_menu_labels, tray_icon_event_action, tray_menu, MenuEntry,
    MouseButton, MouseButtonState, TrayAction, TrayIconEvent, TrayMenuLabelsPayload, MENU_EXIT,
    MENU_SETTINGS, MENU_SHOW, TRAY_ID,
};
use ae2_lanuis_client_lib::window::WindowOp;

fn english() -> TrayMenuLabelsPayload {
    TrayMenuLabelsPayload {
        show: "Show main window".to_string(),
        settings: "Settings".to_string(),
        exit: "Exit".to_string(),
        tooltip: "AE2 terminal".to_string(),
    }
}

fn ids(menu: &[MenuEntry]) -> Vec<Option<&'static str>> {
    menu.iter()
        .map(|e| match e {
            MenuEntry::Item { id, .. } => Some(*id),
            MenuEntry::Separator => None,
        })
        .collect()
}

fn texts(menu: &[MenuEntry]) -> Vec<Option<String>> {
    menu.iter()
        .map(|e| match e {
            MenuEntry::Item { text, .. } => Some(text.clone()),
            MenuEntry::Separator => None,
        })
        .collect()
}

#[test]
fn initial_labels_and_tray() {
    let l = initial_tray_labels();
    assert_eq!(l.show, "显示主窗口");
    assert_eq!(l.settings, "设置");
    assert_eq!(l.exit, "退出");
    assert_eq!(l.tooltip, "AE2 Lanuis Web Terminal");
    let setup = create_tray();
    assert_eq!(setup.id, TRAY_ID);
    assert_eq!(setup.id, "main-tray");
    assert_eq!(setup.tooltip, "AE2 Lanuis Web Terminal");
    assert!(!setup.show_menu_on_left_click);
    assert_eq!(
        ids(&setup.menu),
        vec![Some("ae2_tray_show"), Some("ae2_tray_settings"), None, Some("ae2_tray_exit")]
    );
    assert_eq!(
        texts(&setup.menu),
        vec![Some("显示主窗口".to_string()), Some("设置".to_string()), None, Some("退出".to_string())]
    );
}

#[test]
fn menu_takes_labels_and_keeps_ids() {
    let menu = tray_menu(&english());
    assert_eq!(ids(&menu), ids(&create_tray().menu));
    assert_eq!(
        texts(&menu),
        vec![Some("Show main window".to_string()), Some("Settings".to_string()), None, Some("Exit".to_string())]
    );
    assert!(menu.iter().all(|e| match e {
        MenuEntry::Item { enabled, .. } => *enabled,
        MenuEntry::Separator => true,
    }));
}

#[test]
fn sync_rebuilds_menu_and_tooltip() {
    let update = sync_tray_menu_labels(true, english()).unwrap();
    assert_eq!(update.tooltip, "AE2 terminal");
    assert_eq!(ids(&update.menu), vec![Some(MENU_SHOW), Some(MENU_SETTINGS), None, Some(MENU_EXIT)]);
    assert_eq!(texts(&update.menu)[3], Some("Exit".to_string()));
}

#[test]
fn sync_before_tray_exists_fails() {
    let e = sync_tray_menu_labels(false, english()).err().unwrap();
    assert_eq!(e, "tray icon not initialized");
}

#[test]
fn menu_ids_dispatch() {
    assert_eq!(menu_event_action("ae2_tray_show"), TrayAction::ShowMainWindow);
    assert_eq!(menu_event_action("ae2_tray_settings"), TrayAction::OpenSettingsWindow);
    assert_eq!(menu_event_action("ae2_tray_exit"), TrayAction::RequestExit);
    assert_eq!(menu_event_action("ae2_tray_quit"), TrayAction::Ignore);
    assert_eq!(menu_event_action(""), TrayAction::Ignore);
    assert_eq!(menu_event_action("ae2_tray_show "), TrayAction::Ignore);
}

#[test]
fn every_menu_item_dispatches_to_its_action() {
    let menu = tray_menu(&english());
    let actions: Vec<TrayAction> = ids(&menu).into_iter().flatten().map(menu_event_action).collect();
    assert_eq!(
        actions,
        vec![TrayAction::ShowMainWindow, TrayAction::OpenSettingsWindow, TrayAction::RequestExit]
    );
}

#[test]
fn left_button_release_shows_main_window() {
    let up = TrayIconEvent::Click { button: MouseButton::Left, button_state: MouseButtonState::Up };
    assert_eq!(tray_icon_event_action(up), TrayAction::ShowMainWindow);
}

#[test]
fn other_icon_events_do_nothing() {
    let events = [
        TrayIconEvent::Click { button: MouseButton::Left, button_state: MouseButtonState::Down },
        TrayIconEvent::Click { button: MouseButton::Right, button_state: MouseButtonState::Up },
        TrayIconEvent::Click { button: MouseButton::Middle, button_state: MouseButtonState::Up },
        TrayIconEvent::DoubleClick { button: MouseButton::Left },
        TrayIconEvent::Enter,
        TrayIconEvent::Move,
        TrayIconEvent::Leave,
    ];
    for e in events {
        assert_eq!(tray_icon_event_action(e), TrayAction::Ignore);
    }
}

#[test]
fn window_commands() {
    let ops = show_main_window_cmd(true).unwrap();
    assert_eq!(ops.len(), 3);
    assert!(matches!(ops[2], WindowOp::SetFocus));
    assert!(show_main_window_cmd(false).unwrap().is_empty());
    let ops = hide_main_window_cmd(true).unwrap();
    assert!(matches!(ops[0], WindowOp::Hide));
    assert!(hide_main_window_cmd(false).unwrap().is_empty());
}

#[test]
fn exit_code_is_zero() {
    assert_eq!(exit_app(), 0);
}
