//! The application shell's decisions on the events that its loop delivers:
//! a window asking to close, a click on a tray menu item, an event on the
//! tray icon, and the start of the application.
//!
//! On the desktop the main window is not closed by its close button: the
//! front end is told and decides between hiding to the tray and exiting.
//! The settings window, and any other, closes normally. Choosing "exit" in
//! the tray also goes through the front end. On mobile there is neither a
//! tray nor a close policy.

use vstd::prelude::*;

use crate::text::same_text;
use crate::tray::{
    menu_event_action, spec_menu_event_action, spec_tray_icon_event_action,
    tray_icon_event_action, MouseButton, MouseButtonState, TrayAction, TrayIconEvent, MENU_EXIT, MENU_SETTINGS, MENU_SHOW,
    TRAY_REQUEST_EXIT,
};
use crate::window::{MAIN_LABEL, SETTINGS_LABEL};

verus! {

/// Event sent to the main window's front end when its close button is used.
pub const WINDOW_CLOSE_REQUESTED: &'static str = "window-close-requested";

/// The platform the shell runs on.
#[derive(Clone, Copy, Debug, PartialEq, Eq, Structural)]
pub enum Platform {
    /// Windows desktop, with a tray icon and borderless windows.
    Desktop,
    /// Android, with a single view.
    Mobile,
}

/// An event delivered by the application loop.
#[derive(Clone, Debug)]
pub enum ShellEvent {
    /// The application has started.
    Started,
    /// The window with this label asks to close.
    CloseRequested { label: String },
    /// The tray menu item with this id was chosen.
    TrayMenu { id: String },
    /// Something happened on the tray icon.
    TrayIcon(TrayIconEvent),
}

/// What the shell does about an event.
#[derive(Clone, Copy, Debug)]
pub enum ShellAction {
    /// Create the tray icon (see `create_tray`).
    CreateTray,
    /// Let the window close.
    AllowClose,
    /// Keep the window open and send it this event.
    PreventClose { emit: &'static str },
    /// Show and focus the window with this label, if it exists.
    ShowWindow { label: &'static str },
    /// Open or focus the settings window, away from the event callback.
    OpenSettingsWindow,
    /// Send this event to the main window, if it exists.
    EmitToMain { event: &'static str },
    /// Nothing to do.
    Nothing,
}

/// The shell's answer to a window asking to close.
pub open spec fn spec_close_action(platform: Platform, label: Seq<char>) -> ShellAction {
    if platform == Platform::Mobile || label == SETTINGS_LABEL@ {
        ShellAction::AllowClose
    } else if label == MAIN_LABEL@ {
        ShellAction::PreventClose { emit: WINDOW_CLOSE_REQUESTED }
    } else {
        ShellAction::AllowClose
    }
}

/// The shell's answer to a click in the tray.
pub open spec fn spec_tray_action(platform: Platform, action: TrayAction) -> ShellAction {
    if platform == Platform::Mobile {
        ShellAction::Nothing
    } else {
        match action {
            TrayAction::ShowMainWindow => ShellAction::ShowWindow { label: MAIN_LABEL },
            TrayAction::OpenSettingsWindow => ShellAction::OpenSettingsWindow,
            TrayAction::RequestExit => ShellAction::EmitToMain { event: TRAY_REQUEST_EXIT },
            TrayAction::Ignore => ShellAction::Nothing,
        }
    }
}

/// The shell's answer to an event.
pub open spec fn spec_run(platform: Platform, event: ShellEvent) -> ShellAction {
    match event {
        ShellEvent::Started => if platform == Platform::Desktop {
            ShellAction::CreateTray
        } else {
            ShellAction::Nothing
        },
        ShellEvent::CloseRequested { label } => spec_close_action(platform, label@),
        ShellEvent::TrayMenu { id } => spec_tray_action(platform, spec_menu_event_action(id@)),
        ShellEvent::TrayIcon(e) => spec_tray_action(platform, spec_tray_icon_event_action(e)),
    }
}

/// Decides what the shell does about one event of the application loop on
/// the given platform.
///
/// At start the desktop shell creates its tray. A close request from the
/// desktop main window is turned into a [`WINDOW_CLOSE_REQUESTED`] event for
/// its front end; every other close request is let through. Tray clicks
/// show the main window, open the settings window, or ask the main window to
/// confirm the exit; an unknown menu id does nothing.
pub fn run(platform: Platform, event: &ShellEvent) -> (action: ShellAction)
    ensures
        action == spec_run(platform, *event),
        *event is Started ==> action == (if platform == Platform::Desktop {
            ShellAction::CreateTray
        } else {
            ShellAction::Nothing
        }),
        *event matches ShellEvent::TrayMenu { id } ==> action == (if platform == Platform::Mobile {
            ShellAction::Nothing
        } else if id@ == "ae2_tray_show"@ {
            ShellAction::ShowWindow { label: MAIN_LABEL }
        } else if id@ == "ae2_tray_settings"@ {
            ShellAction::OpenSettingsWindow
        } else if id@ == "ae2_tray_exit"@ {
            ShellAction::EmitToMain { event: TRAY_REQUEST_EXIT }
        } else {
            ShellAction::Nothing
        }),
        *event matches ShellEvent::CloseRequested { label } ==> action == (if platform
            == Platform::Desktop && label@ == "main"@ {
            ShellAction::PreventClose { emit: WINDOW_CLOSE_REQUESTED }
        } else {
            ShellAction::AllowClose
        }),
        *event matches ShellEvent::TrayIcon(e) ==> action == (if platform == Platform::Desktop && (
        e matches TrayIconEvent::Click { button, button_state } && button == MouseButton::Left
            && button_state == MouseButtonState::Up) {
            ShellAction::ShowWindow { label: MAIN_LABEL }
        } else {
            ShellAction::Nothing
        }),
{
    proof {
        if let ShellEvent::CloseRequested { label } = event {
            lemma_close_policy(label@);
        }
        if let ShellEvent::TrayMenu { id } = event {
            crate::tray::lemma_menu_event_action_table(id@);
        }
    }
    match event {
        ShellEvent::Started => {
            match platform {
                Platform::Desktop => ShellAction::CreateTray,
                Platform::Mobile => ShellAction::Nothing,
            }
        },
        ShellEvent::CloseRequested { label } => {
            match platform {
                Platform::Mobile => ShellAction::AllowClose,
                Platform::Desktop => {
                    if same_text(label.as_str(), SETTINGS_LABEL) {
                        ShellAction::AllowClose
                    } else if same_text(label.as_str(), MAIN_LABEL) {
                        ShellAction::PreventClose { emit: WINDOW_CLOSE_REQUESTED }
                    } else {
                        ShellAction::AllowClose
                    }
                },
            }
        },
        ShellEvent::TrayMenu { id } => tray_action(platform, menu_event_action(id.as_str())),
        ShellEvent::TrayIcon(e) => tray_action(platform, tray_icon_event_action(*e)),
    }
}

/// The close policy: on the desktop the main window's close button never
/// closes it but asks its front end, while the settings window always
/// closes; on mobile every close goes through.
pub proof fn lemma_close_policy(label: Seq<char>)
    ensures
        spec_close_action(Platform::Desktop, MAIN_LABEL@) == (ShellAction::PreventClose {
            emit: WINDOW_CLOSE_REQUESTED,
        }),
        spec_close_action(Platform::Desktop, SETTINGS_LABEL@) == ShellAction::AllowClose,
        label != MAIN_LABEL@ ==> spec_close_action(Platform::Desktop, label)
            == ShellAction::AllowClose,
        spec_close_action(Platform::Mobile, label) == ShellAction::AllowClose,
{
    reveal_strlit("main");
    reveal_strlit("settings");
    assert(MAIN_LABEL@.len() != SETTINGS_LABEL@.len());
}

/// Choosing "exit" in the desktop tray never ends the process by itself: it
/// only asks the main window's front end to confirm.
pub proof fn lemma_tray_exit_asks_front_end(id: String)
    requires
        id@ == MENU_EXIT@,
    ensures
        spec_run(Platform::Desktop, ShellEvent::TrayMenu { id }) == (ShellAction::EmitToMain {
            event: TRAY_REQUEST_EXIT,
        }),
{
    reveal_strlit("ae2_tray_show");
    reveal_strlit("ae2_tray_settings");
    reveal_strlit("ae2_tray_exit");
    assert(MENU_SHOW@.len() != MENU_SETTINGS@.len());
    assert(MENU_SHOW@[9] != MENU_EXIT@[9]);
    assert(MENU_SETTINGS@.len() != MENU_EXIT@.len());
}

/// On the desktop, an event on the tray icon shows the main window exactly
/// when it is the release of the left button, and does nothing otherwise (the
/// right button only opens the menu); on mobile it does nothing.
pub proof fn lemma_run_tray_icon(e: TrayIconEvent)
    ensures
        spec_run(Platform::Desktop, ShellEvent::TrayIcon(e)) == (if e matches TrayIconEvent::Click {
            button,
            button_state,
        } && button == MouseButton::Left && button_state == MouseButtonState::Up {
            ShellAction::ShowWindow { label: MAIN_LABEL }
        } else {
            ShellAction::Nothing
        }),
        forall|b: MouseButton, st: MouseButtonState|
            #[trigger] spec_run(
                Platform::Desktop,
                ShellEvent::TrayIcon(TrayIconEvent::Click { button: b, button_state: st }),
            ) == (if b == MouseButton::Left && st == MouseButtonState::Up {
                ShellAction::ShowWindow { label: MAIN_LABEL }
            } else {
                ShellAction::Nothing
            }),
        spec_run(Platform::Mobile, ShellEvent::TrayIcon(e)) == ShellAction::Nothing,
{
}

/// Turns a tray click into the shell's action.
fn tray_action(platform: Platform, action: TrayAction) -> (res: ShellAction)
    ensures
        res == spec_tray_action(platform, action),
{
    match platform {
        Platform::Mobile => ShellAction::Nothing,
        Platform::Desktop => match action {
            TrayAction::ShowMainWindow => ShellAction::ShowWindow { label: MAIN_LABEL },
            TrayAction::OpenSettingsWindow => ShellAction::OpenSettingsWindow,
            TrayAction::RequestExit => ShellAction::EmitToMain { event: TRAY_REQUEST_EXIT },
            TrayAction::Ignore => ShellAction::Nothing,
        },
    }
}

} // verus!
