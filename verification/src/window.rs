//! Window policy shared by the main window and the settings window: how an
//! existing window is brought back, hidden or closed, and when a new one is
//! built.
//!
//! The functions here see a window only through what the shell observed of
//! it (whether a window with the label is open) and answer with the steps to
//! perform on it, in order. A borderless window is built only where no window
//! with the label exists.

use vstd::prelude::*;

verus! {

/// Label of the main window; the tray and the close policy refer to it.
pub const MAIN_LABEL: &'static str = "main";

/// Label of the settings window.
pub const SETTINGS_LABEL: &'static str = "settings";

/// Front-end route of the settings page.
pub const SETTINGS_PATH: &'static str = "index.html#/settings";

/// Native title of the settings window.
pub const SETTINGS_TITLE: &'static str = "AE2 Lanuis · Settings";

/// What a new window is opened with: its label, its front-end route, its
/// native title, and its initial and minimum client size in logical pixels.
#[derive(Clone, Copy, Debug)]
pub struct WindowOpenOptions {
    pub label: &'static str,
    pub path: &'static str,
    pub title: &'static str,
    pub width: u32,
    pub height: u32,
    pub min_width: u32,
    pub min_height: u32,
}

impl WindowOpenOptions {
    /// The initial size respects the minimum size.
    pub open spec fn well_formed(&self) -> bool {
        &&& self.min_width <= self.width
        &&& self.min_height <= self.height
    }
}

/// How a window is built when none with its label exists: resizable,
/// without native decorations, centred on the primary monitor.
#[derive(Clone, Copy, Debug)]
pub struct NewWindow {
    pub options: WindowOpenOptions,
    pub resizable: bool,
    pub decorations: bool,
    pub centered: bool,
}

/// One step performed on the window with a given label.
#[derive(Clone, Copy, Debug)]
pub enum WindowOp {
    /// Restore the window from the task bar.
    Unminimize,
    /// Make the window visible.
    Show,
    /// Give the window the input focus.
    SetFocus,
    /// Hide the window without destroying its web view.
    Hide,
    /// Close and destroy the window.
    Close,
    /// Build a new window.
    Create(NewWindow),
}

/// The options of the settings window: a narrow, tall form.
pub open spec fn spec_settings_window() -> WindowOpenOptions {
    WindowOpenOptions {
        label: SETTINGS_LABEL,
        path: SETTINGS_PATH,
        title: SETTINGS_TITLE,
        width: 440,
        height: 580,
        min_width: 380,
        min_height: 480,
    }
}

/// What the shell knows of one window label: whether a window is open under
/// it, and whether that window is visible, minimized and focused.
pub struct WindowPresence {
    pub open: bool,
    pub visible: bool,
    pub minimized: bool,
    pub focused: bool,
}

/// No window under the label.
pub open spec fn window_absent() -> WindowPresence {
    WindowPresence { open: false, visible: false, minimized: false, focused: false }
}

/// An open window that is visible, restored and focused.
pub open spec fn window_in_front() -> WindowPresence {
    WindowPresence { open: true, visible: true, minimized: false, focused: true }
}

/// What one step does to the window: the steps act on an open window only,
/// except building, which yields a new window in front.
pub open spec fn apply_window_op(w: WindowPresence, op: WindowOp) -> WindowPresence {
    match op {
        WindowOp::Create(_) => window_in_front(),
        _ => if !w.open {
            w
        } else {
            match op {
                WindowOp::Unminimize => WindowPresence { minimized: false, ..w },
                WindowOp::Show => WindowPresence { visible: true, ..w },
                WindowOp::SetFocus => WindowPresence { focused: true, ..w },
                WindowOp::Hide => WindowPresence { visible: false, focused: false, ..w },
                _ => window_absent(),
            }
        },
    }
}

/// What a sequence of steps, performed in order, does to the window.
pub open spec fn apply_window_ops(w: WindowPresence, ops: Seq<WindowOp>) -> WindowPresence
    decreases ops.len(),
{
    if ops.len() == 0 {
        w
    } else {
        apply_window_ops(apply_window_op(w, ops[0]), ops.drop_first())
    }
}

/// Showing a window leaves an open one visible, restored and focused, and
/// leaves a missing one missing: showing never builds a window.
pub proof fn lemma_show_window_brings_to_front(w: WindowPresence)
    ensures
        apply_window_ops(w, focus_ops(w.open)) == (if w.open {
            window_in_front()
        } else {
            w
        }),
{
    reveal_with_fuel(apply_window_ops, 4);
}

/// Hiding keeps the window open (its web view and session survive) and makes
/// it invisible and unfocused; a missing window stays as it was.
pub proof fn lemma_hide_keeps_window(w: WindowPresence)
    ensures
        apply_window_ops(w, hide_ops(w.open)) == (if w.open {
            WindowPresence { visible: false, focused: false, ..w }
        } else {
            w
        }),
{
    reveal_with_fuel(apply_window_ops, 2);
}

/// A window hidden to the tray comes back in front when it is shown again.
pub proof fn lemma_hide_then_show(w: WindowPresence)
    requires
        w.open,
    ensures
        ({
            let hidden = apply_window_ops(w, hide_ops(w.open));
            apply_window_ops(hidden, focus_ops(hidden.open)) == window_in_front()
        }),
{
    reveal_with_fuel(apply_window_ops, 4);
}

/// Opening a window always ends with it open and in front, and builds a new
/// window only where none was open.
pub proof fn lemma_open_or_focus_single_window(w: WindowPresence, opts: WindowOpenOptions)
    ensures
        apply_window_ops(w, open_or_focus_ops(w.open, opts)) == window_in_front(),
        forall|i: int|
            0 <= i < open_or_focus_ops(w.open, opts).len() ==> (#[trigger] open_or_focus_ops(
                w.open,
                opts,
            )[i] is Create <==> !w.open),
{
    reveal_with_fuel(apply_window_ops, 4);
}

/// Opening a window builds at most one window, and only where none exists:
/// a missing window gets exactly one step, the build of a resizable,
/// borderless, centred window with the requested options; an existing
/// window gets no build at all.
pub proof fn lemma_open_builds_one_borderless_window(window_exists: bool, opts: WindowOpenOptions)
    ensures
        !window_exists ==> open_or_focus_ops(window_exists, opts) == seq![
            WindowOp::Create(
                NewWindow { options: opts, resizable: true, decorations: false, centered: true },
            ),
        ],
        forall|i: int|
            0 <= i < open_or_focus_ops(window_exists, opts).len() ==> (#[trigger] open_or_focus_ops(
                window_exists,
                opts,
            )[i] matches WindowOp::Create(w) ==> {
                &&& !window_exists
                &&& w.options == opts
                &&& w.resizable
                &&& !w.decorations
                &&& w.centered
            }),
        forall|i: int, j: int|
            0 <= i < open_or_focus_ops(window_exists, opts).len() && 0 <= j < open_or_focus_ops(
                window_exists,
                opts,
            ).len() && (#[trigger] open_or_focus_ops(window_exists, opts)[i]) is Create && (
            #[trigger] open_or_focus_ops(window_exists, opts)[j]) is Create ==> i == j,
{
}

/// Opening the same window twice builds it at most once: the second request
/// finds the window open and only focuses it.
pub proof fn lemma_open_twice_builds_once(w: WindowPresence, opts: WindowOpenOptions)
    ensures
        ({
            let after = apply_window_ops(w, open_or_focus_ops(w.open, opts));
            &&& after.open
            &&& open_or_focus_ops(after.open, opts) == focus_ops(true)
            &&& apply_window_ops(after, open_or_focus_ops(after.open, opts)) == window_in_front()
        }),
{
    lemma_open_or_focus_single_window(w, opts);
    reveal_with_fuel(apply_window_ops, 4);
}

/// Closing removes the window, and closing again changes nothing: closing is
/// idempotent.
pub proof fn lemma_close_idempotent(w: WindowPresence)
    ensures
        ({
            let closed = apply_window_ops(w, close_ops(w.open));
            &&& !closed.open
            &&& close_ops(closed.open) == Seq::<WindowOp>::empty()
            &&& apply_window_ops(closed, close_ops(closed.open)) == closed
        }),
{
    reveal_with_fuel(apply_window_ops, 2);
}

/// Returns the options of the settings window.
pub fn settings_window() -> (opts: WindowOpenOptions)
    ensures
        opts == spec_settings_window(),
        opts.well_formed(),
        opts.label@ == "settings"@,
        opts.path@ == "index.html#/settings"@,
        opts.title@ == "AE2 Lanuis · Settings"@,
        opts.width == 440 && opts.height == 580,
        opts.min_width == 380 && opts.min_height == 480,
{
    WindowOpenOptions {
        label: SETTINGS_LABEL,
        path: SETTINGS_PATH,
        title: SETTINGS_TITLE,
        width: 440,
        height: 580,
        min_width: 380,
        min_height: 480,
    }
}

/// The build of a window that does not exist yet.
pub open spec fn spec_new_window(opts: WindowOpenOptions) -> NewWindow {
    NewWindow { options: opts, resizable: true, decorations: false, centered: true }
}

/// Steps that bring an existing window to the front: restore, show, focus.
pub open spec fn focus_ops(window_exists: bool) -> Seq<WindowOp> {
    if window_exists {
        seq![WindowOp::Unminimize, WindowOp::Show, WindowOp::SetFocus]
    } else {
        Seq::empty()
    }
}

/// Steps that hide an existing window.
pub open spec fn hide_ops(window_exists: bool) -> Seq<WindowOp> {
    if window_exists {
        seq![WindowOp::Hide]
    } else {
        Seq::empty()
    }
}

/// Steps that close an existing window.
pub open spec fn close_ops(window_exists: bool) -> Seq<WindowOp> {
    if window_exists {
        seq![WindowOp::Close]
    } else {
        Seq::empty()
    }
}

/// Steps that open a window or, where it exists, bring it to the front.
pub open spec fn open_or_focus_ops(window_exists: bool, opts: WindowOpenOptions) -> Seq<WindowOp> {
    if window_exists {
        focus_ops(true)
    } else {
        seq![WindowOp::Create(spec_new_window(opts))]
    }
}

/// Brings the window to the front where it exists.
///
/// Returns whether the window was found, and the steps to perform on it:
/// restore from the task bar, show, focus, in that order. A missing window
/// gets no step; the caller then decides whether to build one.
pub fn focus_window(window_exists: bool) -> (res: (bool, Vec<WindowOp>))
    ensures
        res.0 == window_exists,
        res.1@ == focus_ops(window_exists),
{
    let mut ops: Vec<WindowOp> = Vec::new();
    if window_exists {
        ops.push(WindowOp::Unminimize);
        ops.push(WindowOp::Show);
        ops.push(WindowOp::SetFocus);
        assert(ops@ =~= focus_ops(true));
        (true, ops)
    } else {
        assert(ops@ =~= focus_ops(false));
        (false, ops)
    }
}

/// Shows and focuses the window where it exists; a missing window is left
/// alone and nothing is built.
pub fn show_window(window_exists: bool) -> (ops: Vec<WindowOp>)
    ensures
        ops@ == focus_ops(window_exists),
{
    let (_found, ops) = focus_window(window_exists);
    ops
}

/// Hides the window where it exists, keeping its web view and session.
pub fn hide_window(window_exists: bool) -> (ops: Vec<WindowOp>)
    ensures
        ops@ == hide_ops(window_exists),
{
    let mut ops: Vec<WindowOp> = Vec::new();
    if window_exists {
        ops.push(WindowOp::Hide);
    }
    assert(ops@ =~= hide_ops(window_exists));
    ops
}

/// Closes the window where it exists. Closing a missing window has nothing
/// to do and succeeds.
pub fn close_window(window_exists: bool) -> (ops: Vec<WindowOp>)
    ensures
        ops@ == close_ops(window_exists),
{
    let mut ops: Vec<WindowOp> = Vec::new();
    if window_exists {
        ops.push(WindowOp::Close);
    }
    assert(ops@ =~= close_ops(window_exists));
    ops
}

/// Opens the window described by `opts`, or brings it to the front where a
/// window with its label exists.
///
/// An existing window is only focused, so no second web view is created; a
/// missing one is built resizable, borderless and centred.
pub fn open_or_focus_window(window_exists: bool, opts: WindowOpenOptions) -> (ops: Vec<WindowOp>)
    ensures
        ops@ == open_or_focus_ops(window_exists, opts),
        !window_exists ==> ops@.len() == 1,
        forall|i: int|
            0 <= i < ops@.len() ==> (#[trigger] ops@[i] matches WindowOp::Create(w) ==> {
                &&& !window_exists
                &&& w == (NewWindow {
                    options: opts,
                    resizable: true,
                    decorations: false,
                    centered: true,
                })
            }),
{
    let (found, ops) = focus_window(window_exists);
    if found {
        return ops;
    }
    let mut ops: Vec<WindowOp> = Vec::new();
    ops.push(
        WindowOp::Create(
            NewWindow { options: opts, resizable: true, decorations: false, centered: true },
        ),
    );
    assert(ops@ =~= open_or_focus_ops(false, opts));
    ops
}

/// Opens the settings window, or focuses it where it is already open.
pub fn open_settings_window(settings_exists: bool) -> (ops: Vec<WindowOp>)
    ensures
        ops@ == open_or_focus_ops(settings_exists, spec_settings_window()),
{
    open_or_focus_window(settings_exists, settings_window())
}

/// Closes the settings window; closing it when it is not open succeeds.
pub fn close_settings_window(settings_exists: bool) -> (ops: Vec<WindowOp>)
    ensures
        ops@ == close_ops(settings_exists),
{
    close_window(settings_exists)
}

} // verus!
