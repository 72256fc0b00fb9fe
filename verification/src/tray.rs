//! The tray icon: its menu (show the main window, settings, a separator,
//! exit), what a click on a menu item or on the icon asks for, and the
//! rebuilding of the menu when the front end switches language.
//!
//! Menu items keep the same ids whatever their text, so that a menu rebuilt
//! with new labels still dispatches its events as the first one did.

use vstd::prelude::*;
use crate::text::same_text;
use crate::window::{focus_ops, hide_ops, hide_window, show_window, WindowOp};

verus! {

/// Id of the tray icon, used to find it again when the menu is rebuilt.
pub const TRAY_ID: &'static str = "main-tray";

/// Id of the "show main window" menu item.
pub const MENU_SHOW: &'static str = "ae2_tray_show";

/// Id of the "settings" menu item.
pub const MENU_SETTINGS: &'static str = "ae2_tray_settings";

/// Id of the "exit" menu item.
pub const MENU_EXIT: &'static str = "ae2_tray_exit";

/// Tooltip of the tray icon until the front end sends its own.
pub const TRAY_TOOLTIP: &'static str = "AE2 Lanuis Web Terminal";

/// Text of the "show main window" item until the front end sends its own.
pub const SHOW_TEXT: &'static str = "显示主窗口";

/// Text of the "settings" item until the front end sends its own.
pub const SETTINGS_TEXT: &'static str = "设置";

/// Text of the "exit" item until the front end sends its own.
pub const EXIT_TEXT: &'static str = "退出";

/// Event sent to the main window when "exit" is chosen in the tray: the front
/// end confirms before the process ends.
pub const TRAY_REQUEST_EXIT: &'static str = "tray-request-exit";

/// Error answered when the menu is rebuilt before the tray icon exists.
pub const TRAY_NOT_INITIALIZED: &'static str = "tray icon not initialized";

/// Texts of the tray menu and tooltip, as the front end sends them.
#[derive(Clone, Debug)]
pub struct TrayMenuLabelsPayload {
    pub show: String,
    pub settings: String,
    pub exit: String,
    pub tooltip: String,
}

/// The mathematical value of a [`TrayMenuLabelsPayload`].
pub struct TrayLabelsView {
    pub show: Seq<char>,
    pub settings: Seq<char>,
    pub exit: Seq<char>,
    pub tooltip: Seq<char>,
}

impl View for TrayMenuLabelsPayload {
    type V = TrayLabelsView;

    open spec fn view(&self) -> TrayLabelsView {
        TrayLabelsView {
            show: self.show@,
            settings: self.settings@,
            exit: self.exit@,
            tooltip: self.tooltip@,
        }
    }
}

/// The labels that the tray starts with.
pub open spec fn initial_labels() -> TrayLabelsView {
    TrayLabelsView {
        show: SHOW_TEXT@,
        settings: SETTINGS_TEXT@,
        exit: EXIT_TEXT@,
        tooltip: TRAY_TOOLTIP@,
    }
}

/// Returns the labels that the tray starts with.
pub fn initial_tray_labels() -> (labels: TrayMenuLabelsPayload)
    ensures
        labels@ == initial_labels(),
        labels.show@ == "显示主窗口"@,
        labels.settings@ == "设置"@,
        labels.exit@ == "退出"@,
        labels.tooltip@ == "AE2 Lanuis Web Terminal"@,
{
    TrayMenuLabelsPayload {
        show: SHOW_TEXT.to_owned(),
        settings: SETTINGS_TEXT.to_owned(),
        exit: EXIT_TEXT.to_owned(),
        tooltip: TRAY_TOOLTIP.to_owned(),
    }
}

/// One entry of the tray menu.
#[derive(Clone, Debug)]
pub enum MenuEntry {
    Item { id: &'static str, text: String, enabled: bool },
    Separator,
}

/// The mathematical value of a [`MenuEntry`].
pub enum MenuEntryView {
    Item { id: Seq<char>, text: Seq<char>, enabled: bool },
    Separator,
}

impl View for MenuEntry {
    type V = MenuEntryView;

    open spec fn view(&self) -> MenuEntryView {
        match self {
            MenuEntry::Item { id, text, enabled } => MenuEntryView::Item {
                id: id@,
                text: text@,
                enabled: *enabled,
            },
            MenuEntry::Separator => MenuEntryView::Separator,
        }
    }
}

/// The entries of a built menu, by value.
pub open spec fn menu_view(entries: Seq<MenuEntry>) -> Seq<MenuEntryView> {
    entries.map_values(|e: MenuEntry| e@)
}

/// The tray menu for the given labels: show, settings, a separator, exit,
/// all enabled.
pub open spec fn spec_tray_menu(labels: TrayLabelsView) -> Seq<MenuEntryView> {
    seq![
        MenuEntryView::Item { id: MENU_SHOW@, text: labels.show, enabled: true },
        MenuEntryView::Item { id: MENU_SETTINGS@, text: labels.settings, enabled: true },
        MenuEntryView::Separator,
        MenuEntryView::Item { id: MENU_EXIT@, text: labels.exit, enabled: true },
    ]
}

/// Builds the entries of the tray menu for the given labels.
pub fn tray_menu(labels: &TrayMenuLabelsPayload) -> (entries: Vec<MenuEntry>)
    ensures
        menu_view(entries@) == spec_tray_menu(labels@),
        entries@.len() == 4,
        forall|i: int|
            0 <= i < entries@.len() ==> (#[trigger] entries@[i]@ matches MenuEntryView::Item {
                enabled,
                ..
            } ==> enabled),
{
    let mut entries: Vec<MenuEntry> = Vec::new();
    entries.push(MenuEntry::Item { id: MENU_SHOW, text: labels.show.clone(), enabled: true });
    entries.push(
        MenuEntry::Item { id: MENU_SETTINGS, text: labels.settings.clone(), enabled: true },
    );
    entries.push(MenuEntry::Separator);
    entries.push(MenuEntry::Item { id: MENU_EXIT, text: labels.exit.clone(), enabled: true });
    assert(menu_view(entries@) =~= spec_tray_menu(labels@));
    entries
}

/// What the tray icon is made with.
pub struct TraySetup {
    pub id: &'static str,
    pub menu: Vec<MenuEntry>,
    pub tooltip: String,
    /// Whether a left click opens the menu; it does not, a left click shows
    /// the main window.
    pub show_menu_on_left_click: bool,
}

/// The tray icon at start: the initial labels and tooltip, the menu on the
/// right button only.
pub fn create_tray() -> (setup: TraySetup)
    ensures
        setup.id == TRAY_ID,
        setup.id@ == "main-tray"@,
        menu_view(setup.menu@) == spec_tray_menu(initial_labels()),
        setup.tooltip@ == TRAY_TOOLTIP@,
        setup.tooltip@ == "AE2 Lanuis Web Terminal"@,
        !setup.show_menu_on_left_click,
{
    let labels = initial_tray_labels();
    let menu = tray_menu(&labels);
    TraySetup { id: TRAY_ID, menu, tooltip: labels.tooltip, show_menu_on_left_click: false }
}

/// What the tray update replaces: the whole menu, and the tooltip.
pub struct TrayUpdate {
    pub menu: Vec<MenuEntry>,
    pub tooltip: String,
}

/// Rebuilds the tray menu and tooltip with the labels sent by the front end.
///
/// The menu keeps its structure and ids and takes the new texts; the tooltip
/// becomes the payload's. Where the tray icon has not been created yet, the
/// request fails with [`TRAY_NOT_INITIALIZED`].
pub fn sync_tray_menu_labels(tray_initialized: bool, payload: TrayMenuLabelsPayload) -> (res: Result<
    TrayUpdate,
    String,
>)
    ensures
        res is Ok <==> tray_initialized,
        res matches Ok(update) ==> {
            &&& menu_view(update.menu@) == spec_tray_menu(payload@)
            &&& update.tooltip@ == payload.tooltip@
        },
        res matches Err(e) ==> e@ == TRAY_NOT_INITIALIZED@,
{
    let menu = tray_menu(&payload);
    if !tray_initialized {
        return Err(TRAY_NOT_INITIALIZED.to_owned());
    }
    Ok(TrayUpdate { menu, tooltip: payload.tooltip })
}

/// Shows and focuses the main window on the front end's request (for
/// instance after the close dialog was cancelled). It never builds a window
/// and always succeeds.
pub fn show_main_window_cmd(main_window_exists: bool) -> (res: Result<Vec<WindowOp>, String>)
    ensures
        res matches Ok(ops) && ops@ == focus_ops(main_window_exists),
{
    Ok(show_window(main_window_exists))
}

/// Hides the main window to the tray on the front end's request, keeping its
/// web view and session. It always succeeds.
pub fn hide_main_window_cmd(main_window_exists: bool) -> (res: Result<Vec<WindowOp>, String>)
    ensures
        res matches Ok(ops) && ops@ == hide_ops(main_window_exists),
{
    Ok(hide_window(main_window_exists))
}

/// Exit code of the process once the front end confirmed the exit: a normal
/// end.
pub fn exit_app() -> (code: i32)
    ensures
        code == 0,
{
    0
}

/// What a click in the tray asks for.
#[derive(Clone, Copy, Debug, PartialEq, Eq, Structural)]
pub enum TrayAction {
    /// Show and focus the main window.
    ShowMainWindow,
    /// Open (or focus) the settings window.
    OpenSettingsWindow,
    /// Ask the main window to confirm that the application should exit.
    RequestExit,
    /// Nothing to do.
    Ignore,
}

/// The action of the menu item with the given id; unknown ids are ignored.
pub open spec fn spec_menu_event_action(id: Seq<char>) -> TrayAction {
    if id == MENU_SHOW@ {
        TrayAction::ShowMainWindow
    } else if id == MENU_SETTINGS@ {
        TrayAction::OpenSettingsWindow
    } else if id == MENU_EXIT@ {
        TrayAction::RequestExit
    } else {
        TrayAction::Ignore
    }
}

/// Dispatches a click on a tray menu item by its id.
pub fn menu_event_action(id: &str) -> (action: TrayAction)
    ensures
        action == spec_menu_event_action(id@),
        (action == TrayAction::ShowMainWindow) == (id@ == MENU_SHOW@),
        (action == TrayAction::OpenSettingsWindow) == (id@ == MENU_SETTINGS@),
        (action == TrayAction::RequestExit) == (id@ == MENU_EXIT@),
        (action == TrayAction::Ignore) == (id@ != MENU_SHOW@ && id@ != MENU_SETTINGS@ && id@
            != MENU_EXIT@),
{
    proof {
        lemma_menu_event_action_table(id@);
    }
    if same_text(id, MENU_SHOW) {
        TrayAction::ShowMainWindow
    } else if same_text(id, MENU_SETTINGS) {
        TrayAction::OpenSettingsWindow
    } else if same_text(id, MENU_EXIT) {
        TrayAction::RequestExit
    } else {
        TrayAction::Ignore
    }
}

/// Each menu id dispatches to its own action and no other id does: the
/// show, settings and exit ids to showing the main window, opening the
/// settings window and asking for the exit, any other id to nothing.
pub proof fn lemma_menu_event_action_table(id: Seq<char>)
    ensures
        (spec_menu_event_action(id) == TrayAction::ShowMainWindow) == (id == "ae2_tray_show"@),
        (spec_menu_event_action(id) == TrayAction::OpenSettingsWindow) == (id
            == "ae2_tray_settings"@),
        (spec_menu_event_action(id) == TrayAction::RequestExit) == (id == "ae2_tray_exit"@),
        (spec_menu_event_action(id) == TrayAction::Ignore) == (id != "ae2_tray_show"@ && id
            != "ae2_tray_settings"@ && id != "ae2_tray_exit"@),
{
    reveal_strlit("ae2_tray_show");
    reveal_strlit("ae2_tray_settings");
    reveal_strlit("ae2_tray_exit");
    assert(MENU_SHOW@.len() != MENU_SETTINGS@.len());
    assert(MENU_SHOW@[9] != MENU_EXIT@[9]);
    assert(MENU_SETTINGS@.len() != MENU_EXIT@.len());
}

/// A mouse button on the tray icon.
#[derive(Clone, Copy, Debug, PartialEq, Eq, Structural)]
pub enum MouseButton {
    Left,
    Right,
    Middle,
}

/// Whether a mouse button went down or up.
#[derive(Clone, Copy, Debug, PartialEq, Eq, Structural)]
pub enum MouseButtonState {
    Up,
    Down,
}

/// What happened on the tray icon itself.
#[derive(Clone, Copy, Debug, PartialEq, Eq, Structural)]
pub enum TrayIconEvent {
    Click { button: MouseButton, button_state: MouseButtonState },
    DoubleClick { button: MouseButton },
    Enter,
    Move,
    Leave,
}

/// The action of an event on the tray icon: releasing the left button shows
/// the main window; nothing else does anything (the menu opens on the right
/// button by itself).
pub open spec fn spec_tray_icon_event_action(event: TrayIconEvent) -> TrayAction {
    if event == (TrayIconEvent::Click {
        button: MouseButton::Left,
        button_state: MouseButtonState::Up,
    }) {
        TrayAction::ShowMainWindow
    } else {
        TrayAction::Ignore
    }
}

/// Dispatches an event on the tray icon.
pub fn tray_icon_event_action(event: TrayIconEvent) -> (action: TrayAction)
    ensures
        action == spec_tray_icon_event_action(event),
        action == TrayAction::ShowMainWindow || action == TrayAction::Ignore,
        (action == TrayAction::ShowMainWindow) == (event matches TrayIconEvent::Click {
            button,
            button_state,
        } && button == MouseButton::Left && button_state == MouseButtonState::Up),
{
    match event {
        TrayIconEvent::Click { button: MouseButton::Left, button_state: MouseButtonState::Up } => {
            TrayAction::ShowMainWindow
        },
        _ => TrayAction::Ignore,
    }
}

/// Only releasing the left button on the icon shows the main window: every
/// other click (another button, or a button going down), a double click,
/// and the pointer entering, moving over or leaving the icon are ignored.
pub proof fn lemma_tray_icon_left_release_only(e: TrayIconEvent)
    ensures
        spec_tray_icon_event_action(e) == TrayAction::ShowMainWindow || spec_tray_icon_event_action(e)
            == TrayAction::Ignore,
        (spec_tray_icon_event_action(e) == TrayAction::ShowMainWindow) <==> (e matches TrayIconEvent::Click {
            button,
            button_state,
        } && button == MouseButton::Left && button_state == MouseButtonState::Up),
        forall|b: MouseButton, st: MouseButtonState|
            #[trigger] spec_tray_icon_event_action(TrayIconEvent::Click { button: b, button_state: st })
                == (if b == MouseButton::Left && st == MouseButtonState::Up {
                TrayAction::ShowMainWindow
            } else {
                TrayAction::Ignore
            }),
{
}

/// Whatever the labels, the tray menu has four entries: the show, settings
/// and exit items, all enabled and carrying the matching label's text, with
/// a separator between settings and exit.
pub proof fn lemma_tray_menu_items(labels: TrayLabelsView)
    ensures
        spec_tray_menu(labels).len() == 4,
        spec_tray_menu(labels)[0] matches MenuEntryView::Item { text, enabled, .. } && text
            == labels.show && enabled,
        spec_tray_menu(labels)[1] matches MenuEntryView::Item { text, enabled, .. } && text
            == labels.settings && enabled,
        spec_tray_menu(labels)[2] is Separator,
        spec_tray_menu(labels)[3] matches MenuEntryView::Item { text, enabled, .. } && text
            == labels.exit && enabled,
        forall|i: int|
            0 <= i < spec_tray_menu(labels).len() ==> (#[trigger] spec_tray_menu(labels)[i] matches MenuEntryView::Item {
                enabled,
                ..
            } ==> enabled),
{
}

/// The ids of a menu's entries, in order; a separator has none.
pub open spec fn menu_ids(entries: Seq<MenuEntryView>) -> Seq<Option<Seq<char>>> {
    entries.map_values(
        |e: MenuEntryView|
            match e {
                MenuEntryView::Item { id, .. } => Some(id),
                MenuEntryView::Separator => None,
            },
    )
}

/// Whatever labels the menu is rebuilt with, it has the same entries with
/// the same ids in the same order as the menu the tray started with.
pub proof fn lemma_menu_ids_stable(labels: TrayLabelsView)
    ensures
        menu_ids(spec_tray_menu(labels)) == menu_ids(spec_tray_menu(initial_labels())),
{
    assert(menu_ids(spec_tray_menu(labels)) =~= menu_ids(spec_tray_menu(initial_labels())));
}

/// In a menu built with any labels, each item's id dispatches to the item's
/// own action: show to the main window, settings to the settings window,
/// exit to an exit request; the separator has no id.
pub proof fn lemma_menu_items_dispatch(labels: TrayLabelsView)
    ensures
        ({
            let ids = menu_ids(spec_tray_menu(labels));
            &&& ids.len() == 4
            &&& spec_menu_event_action(ids[0]->Some_0) == TrayAction::ShowMainWindow
            &&& spec_menu_event_action(ids[1]->Some_0) == TrayAction::OpenSettingsWindow
            &&& ids[2] is None
            &&& spec_menu_event_action(ids[3]->Some_0) == TrayAction::RequestExit
        }),
{
    reveal_strlit("ae2_tray_show");
    reveal_strlit("ae2_tray_settings");
    reveal_strlit("ae2_tray_exit");
    assert(MENU_SHOW@.len() != MENU_SETTINGS@.len());
    assert(MENU_SHOW@[9] != MENU_EXIT@[9]);
    assert(MENU_SETTINGS@.len() != MENU_EXIT@.len());
}

} // verus!
