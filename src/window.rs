//! Visibility of the main window: the steps that show, hide and toggle it,
//! and the dispatch of the tray menu's items.
use vstd::prelude::*;
use crate::text::same_text;

verus! {

/// The label under which the host knows the main window.
pub const MAIN_WINDOW_LABEL: &'static str = "main";

/// Menu item identifiers of the tray menu.
pub const MENU_SHOW: &'static str = "show";
pub const MENU_HIDE: &'static str = "hide";
pub const MENU_QUIT: &'static str = "quit";

/// One call on the main window. Each is best effort: the host ignores
/// a failure of one step and goes on with the next.
#[derive(Clone, Copy, Debug, PartialEq, Eq, Structural)]
pub enum WindowOp {
    Show,
    SetFocus,
    Unminimize,
    Hide,
}

/// What a tray menu item asks for.
#[derive(Clone, Copy, Debug, PartialEq, Eq, Structural)]
pub enum MenuCommand {
    ShowWindow,
    HideWindow,
    Quit,
    Ignore,
}

/// The state of the main window as seen by the window manager.
pub struct WindowState {
    pub visible: bool,
    pub focused: bool,
    pub minimized: bool,
}

/// The state after one call on the window has taken effect.
pub open spec fn apply_op(s: WindowState, op: WindowOp) -> WindowState {
    match op {
        WindowOp::Show => WindowState { visible: true, ..s },
        WindowOp::SetFocus => WindowState { focused: true, ..s },
        WindowOp::Unminimize => WindowState { minimized: false, ..s },
        WindowOp::Hide => WindowState { visible: false, focused: false, ..s },
    }
}

/// The state after a sequence of calls, each taking effect in turn.
pub open spec fn apply_ops(s: WindowState, ops: Seq<WindowOp>) -> WindowState
    decreases ops.len(),
{
    if ops.len() == 0 {
        s
    } else {
        apply_op(apply_ops(s, ops.drop_last()), ops.last())
    }
}

pub open spec fn show_steps() -> Seq<WindowOp> {
    seq![WindowOp::Show, WindowOp::SetFocus, WindowOp::Unminimize]
}

pub open spec fn hide_steps() -> Seq<WindowOp> {
    seq![WindowOp::Hide]
}

/// A click on the tray icon hides a visible window and shows any other; a
/// failed visibility query (`None`) counts as not visible.
pub open spec fn toggle_steps(visible: Option<bool>) -> Seq<WindowOp> {
    if visible == Some(true) {
        hide_steps()
    } else {
        show_steps()
    }
}

pub open spec fn menu_command_of(id: Seq<char>) -> MenuCommand {
    if id == MENU_SHOW@ {
        MenuCommand::ShowWindow
    } else if id == MENU_HIDE@ {
        MenuCommand::HideWindow
    } else if id == MENU_QUIT@ {
        MenuCommand::Quit
    } else {
        MenuCommand::Ignore
    }
}

pub open spec fn menu_steps(cmd: MenuCommand) -> Seq<WindowOp> {
    match cmd {
        MenuCommand::ShowWindow => show_steps(),
        MenuCommand::HideWindow => hide_steps(),
        _ => Seq::empty(),
    }
}

/// Show, focus and unminimize, in that order.
pub fn show_main_window() -> (r: Vec<WindowOp>)
    ensures
        r@ == show_steps(),
{
    let r = vec![WindowOp::Show, WindowOp::SetFocus, WindowOp::Unminimize];
    assert(r@ == show_steps());
    r
}

/// Hide the window.
pub fn hide_main_window() -> (r: Vec<WindowOp>)
    ensures
        r@ == hide_steps(),
{
    let r = vec![WindowOp::Hide];
    assert(r@ == hide_steps());
    r
}

/// The steps of a click on the tray icon, given the answer of the
/// visibility query (`None` when the query failed).
pub fn toggle_via_tray_click(visible: Option<bool>) -> (r: Vec<WindowOp>)
    ensures
        r@ == toggle_steps(visible),
{
    match visible {
        Some(true) => hide_main_window(),
        _ => show_main_window(),
    }
}

/// Maps a tray menu item identifier to its command; unknown identifiers
/// are ignored.
pub fn tray_menu_dispatch(id: &str) -> (r: MenuCommand)
    ensures
        r == menu_command_of(id@),
{
    if same_text(id, MENU_SHOW) {
        MenuCommand::ShowWindow
    } else if same_text(id, MENU_HIDE) {
        MenuCommand::HideWindow
    } else if same_text(id, MENU_QUIT) {
        MenuCommand::Quit
    } else {
        MenuCommand::Ignore
    }
}

/// The window steps of a menu command; quitting and ignoring take none.
pub fn menu_window_ops(cmd: MenuCommand) -> (r: Vec<WindowOp>)
    ensures
        r@ == menu_steps(cmd),
{
    match cmd {
        MenuCommand::ShowWindow => show_main_window(),
        MenuCommand::HideWindow => hide_main_window(),
        _ => {
            let r: Vec<WindowOp> = Vec::new();
            assert(r@ == menu_steps(cmd));
            r
        },
    }
}

/// Whatever state the window is in, showing it leaves it visible, focused
/// and not minimized, and hiding it leaves it hidden.
pub proof fn lemma_show_and_hide_settle(s: WindowState)
    ensures
        apply_ops(s, show_steps()).visible,
        apply_ops(s, show_steps()).focused,
        !apply_ops(s, show_steps()).minimized,
        !apply_ops(s, hide_steps()).visible,
{
    reveal_with_fuel(apply_ops, 4);
    assert(show_steps().drop_last().drop_last().drop_last() =~= Seq::<WindowOp>::empty());
    assert(show_steps().drop_last().drop_last().last() == WindowOp::Show);
    assert(show_steps().drop_last().last() == WindowOp::SetFocus);
    assert(show_steps().last() == WindowOp::Unminimize);
    assert(hide_steps().drop_last() =~= Seq::<WindowOp>::empty());
}

/// Two clicks on the tray icon starting from a hidden window end with the
/// window visible and focused when the second visibility query fails, as
/// the failure counts as "not visible".
pub proof fn lemma_double_click_from_hidden(s: WindowState, first: Option<bool>)
    requires
        !s.visible,
        first != Some(true),
    ensures
        apply_ops(apply_ops(s, toggle_steps(first)), toggle_steps(None)).visible,
        apply_ops(apply_ops(s, toggle_steps(first)), toggle_steps(None)).focused,
        !apply_ops(apply_ops(s, toggle_steps(first)), toggle_steps(None)).minimized,
{
    lemma_show_and_hide_settle(s);
    lemma_show_and_hide_settle(apply_ops(s, toggle_steps(first)));
}

/// With accurate visibility queries a click flips visibility, so two clicks
/// restore it.
pub proof fn lemma_click_flips_visibility(s: WindowState)
    ensures
        apply_ops(s, toggle_steps(Some(s.visible))).visible == !s.visible,
        apply_ops(apply_ops(s, toggle_steps(Some(s.visible))), toggle_steps(
            Some(apply_ops(s, toggle_steps(Some(s.visible))).visible),
        )).visible == s.visible,
{
    let t = apply_ops(s, toggle_steps(Some(s.visible)));
    lemma_show_and_hide_settle(s);
    lemma_show_and_hide_settle(t);
}

} // verus!
