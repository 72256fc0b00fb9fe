use ae2_lanuis_client_lib::window::{
    close_settings_window, close_window, focus_window, hide_window, open_or_focus_window,
    open_settings_window, settings_window, show_window, WindowOp, WindowOpenOptions, MAIN_LABEL,
    SETTINGS_LABEL,
};

fn options() -> WindowOpenOptions {
    WindowOpenOptions {
        label: "about",
        path: "index.html#/about",
        title: "About",
        width: 300,
        height: 200,
        min_width: 200,
        min_height: 100,
    }
}

#[test]
fn labels() {
    assert_eq!(MAIN_LABEL, "main");
    assert_eq!(SETTINGS_LABEL, "settings");
}

#[test]
fn focus_existing_window_restores_shows_focuses() {
    let (found, ops) = focus_window(true);
    assert!(found);
    assert_eq!(ops.len(), 3);
    assert!(matches!(ops[0], WindowOp::Unminimize));
    assert!(matches!(ops[1], WindowOp::Show));
    assert!(matches!(ops[2], WindowOp::SetFocus));
}

#[test]
fn focus_missing_window_reports_not_found() {
    let (found, ops) = focus_window(false);
    assert!(!found);
    assert!(ops.is_empty());
}

#[test]
fn show_window_never_builds() {
    assert!(show_window(false).is_empty());
    assert_eq!(show_window(true).len(), 3);
}

#[test]
fn hide_window_hides_existing_only() {
    let ops = hide_window(true);
    assert_eq!(ops.len(), 1);
    assert!(matches!(ops[0], WindowOp::Hide));
    assert!(hide_window(false).is_empty());
}

#[test]
fn close_window_is_idempotent() {
    let ops = close_window(true);
    assert_eq!(ops.len(), 1);
    assert!(matches!(ops[0], WindowOp::Close));
    // after closing, the window is gone: closing again has nothing to do
    assert!(close_window(false).is_empty());
}

#[test]
fn open_builds_missing_window_borderless_resizable_centred() {
    let ops = open_or_focus_window(false, options());
    assert_eq!(ops.len(), 1);
    match ops[0] {
        WindowOp::Create(w) => {
            assert_eq!(w.options.label, "about");
            assert_eq!(w.options.path, "index.html#/about");
            assert_eq!(w.options.title, "About");
            assert_eq!(w.options.width, 300);
            assert_eq!(w.options.height, 200);
            assert_eq!(w.options.min_width, 200);
            assert_eq!(w.options.min_height, 100);
            assert!(w.resizable);
            assert!(!w.decorations);
            assert!(w.centered);
        }
        _ => panic!("expected a window to be built"),
    }
}

#[test]
fn open_twice_builds_once() {
    let first = open_or_focus_window(false, options());
    assert!(matches!(first[0], WindowOp::Create(_)));
    // the window now exists: the second request only focuses it
    let second = open_or_focus_window(true, options());
    assert_eq!(second.len(), 3);
    assert!(second.iter().all(|op| !matches!(op, WindowOp::Create(_))));
}

#[test]
fn settings_window_options() {
    let o = settings_window();
    assert_eq!(o.label, "settings");
    assert_eq!(o.path, "index.html#/settings");
    assert_eq!(o.title, "AE2 Lanuis · Settings");
    assert_eq!((o.width, o.height), (440, 580));
    assert_eq!((o.min_width, o.min_height), (380, 480));
    assert!(o.min_width <= o.width && o.min_height <= o.height);
}

#[test]
fn open_and_close_settings_window() {
    let ops = open_settings_window(false);
    match ops[0] {
        WindowOp::Create(w) => assert_eq!(w.options.label, "settings"),
        _ => panic!("expected the settings window to be built"),
    }
    assert_eq!(open_settings_window(true).len(), 3);
    assert!(matches!(close_settings_window(true)[0], WindowOp::Close));
    assert!(close_settings_window(false).is_empty());
}
