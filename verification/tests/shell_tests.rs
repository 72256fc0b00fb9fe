use ae2_lanuis_client_lib::shell::{run, Platform, ShellAction, ShellEvent, WINDOW_CLOSE_REQUESTED};
use ae2_lanuis_client_lib::tray::{MouseButton, MouseButtonState, TrayIconEvent};

fn close(label: &str) -> ShellEvent {
    ShellEvent::CloseRequested { label: label.to_string() }
}

fn menu(id: &str) -> ShellEvent {
    ShellEvent::TrayMenu { id: id.to_string() }
}

#[test]
fn desktop_start_creates_tray() {
    assert!(matches!(run(Platform::Desktop, &ShellEvent::Started), ShellAction::CreateTray));
    assert!(matches!(run(Platform::Mobile, &ShellEvent::Started), ShellAction::Nothing));
}

#[test]
fn main_window_close_is_prevented_and_announced() {
    match run(Platform::Desktop, &close("main")) {
        ShellAction::PreventClose { emit } => {
            assert_eq!(emit, "window-close-requested");
            assert_eq!(emit, WINDOW_CLOSE_REQUESTED);
        }
        _ => panic!("the main window must not close by itself"),
    }
}

#[test]
fn settings_and_other_windows_close() {
    assert!(matches!(run(Platform::Desktop, &close("settings")), ShellAction::AllowClose));
    assert!(matches!(run(Platform::Desktop, &close("about")), ShellAction::AllowClose));
    assert!(matches!(run(Platform::Desktop, &close("Main")), ShellAction::AllowClose));
}

#[test]
fn mobile_lets_every_window_close() {
    assert!(matches!(run(Platform::Mobile, &close("main")), ShellAction::AllowClose));
}

#[test]
fn tray_menu_events() {
    assert!(matches!(
        run(Platform::Desktop, &menu("ae2_tray_show")),
        ShellAction::ShowWindow { label: "main" }
    ));
    assert!(matches!(run(Platform::Desktop, &menu("ae2_tray_settings")), ShellAction::OpenSettingsWindow));
    match run(Platform::Desktop, &menu("ae2_tray_exit")) {
        ShellAction::EmitToMain { event } => assert_eq!(event, "tray-request-exit"),
        _ => panic!("exit must be confirmed by the front end"),
    }
    assert!(matches!(run(Platform::Desktop, &menu("something")), ShellAction::Nothing));
    assert!(matches!(run(Platform::Mobile, &menu("ae2_tray_show")), ShellAction::Nothing));
}

#[test]
fn tray_icon_events() {
    let up = TrayIconEvent::Click { button: MouseButton::Left, button_state: MouseButtonState::Up };
    assert!(matches!(
        run(Platform::Desktop, &ShellEvent::TrayIcon(up)),
        ShellAction::ShowWindow { label: "main" }
    ));
    let down = TrayIconEvent::Click { button: MouseButton::Left, button_state: MouseButtonState::Down };
    assert!(matches!(run(Platform::Desktop, &ShellEvent::TrayIcon(down)), ShellAction::Nothing));
    assert!(matches!(run(Platform::Desktop, &ShellEvent::TrayIcon(TrayIconEvent::Enter)), ShellAction::Nothing));
}
