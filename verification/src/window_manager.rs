//! The application's auxiliary windows: their labels, how each is built,
//! where it is placed on a monitor, and which are visible.

use vstd::prelude::*;

verus! {

/// The kinds of auxiliary window.
#[derive(Debug, Clone, Copy, PartialEq, Eq, Structural, Hash)]
pub enum WindowType {
    CommandPalette,
    FocusWidget,
    BreakOverlay,
    Settings,
    MenuBarPopover,
    BreakTransition,
}

impl WindowType {
    /// The window's label.
    pub open spec fn label_spec(self) -> Seq<char> {
        match self {
            WindowType::CommandPalette => "command-palette"@,
            WindowType::FocusWidget => "focus-widget"@,
            WindowType::BreakOverlay => "break-overlay"@,
            WindowType::Settings => "settings"@,
            WindowType::MenuBarPopover => "menu-bar-popover"@,
            WindowType::BreakTransition => "break-transition"@,
        }
    }

    /// The window's label.
    pub fn label(&self) -> (s: &'static str)
        ensures
            s@ == self.label_spec(),
    {
        match self {
            WindowType::CommandPalette => "command-palette",
            WindowType::FocusWidget => "focus-widget",
            WindowType::BreakOverlay => "break-overlay",
            WindowType::Settings => "settings",
            WindowType::MenuBarPopover => "menu-bar-popover",
            WindowType::BreakTransition => "break-transition",
        }
    }

    /// The window with the given label.
    pub fn from_label(label: &str) -> (r: Result<WindowType, String>)
        ensures
            match r {
                Ok(t) => t.label_spec() == label@,
                Err(m) => m@ == "Invalid window type"@ && forall|t: WindowType|
                    #[trigger] t.label_spec() != label@,
            },
    {
        if crate::text::str_eq(label, "command-palette") {
            Ok(WindowType::CommandPalette)
        } else if crate::text::str_eq(label, "focus-widget") {
            Ok(WindowType::FocusWidget)
        } else if crate::text::str_eq(label, "break-overlay") {
            Ok(WindowType::BreakOverlay)
        } else if crate::text::str_eq(label, "settings") {
            Ok(WindowType::Settings)
        } else if crate::text::str_eq(label, "menu-bar-popover") {
            Ok(WindowType::MenuBarPopover)
        } else if crate::text::str_eq(label, "break-transition") {
            Ok(WindowType::BreakTransition)
        } else {
            Err(String::from_str("Invalid window type"))
        }
    }
}

/// Labels are distinct: each window is found again from its label.
pub proof fn law_labels_distinct(a: WindowType, b: WindowType)
    ensures
        a.label_spec() == b.label_spec() ==> a == b,
{
    reveal_strlit("command-palette");
    reveal_strlit("focus-widget");
    reveal_strlit("break-overlay");
    reveal_strlit("settings");
    reveal_strlit("menu-bar-popover");
    reveal_strlit("break-transition");
    if a.label_spec() == b.label_spec() && a != b {
        let (x, y) = (a.label_spec(), b.label_spec());
        assert(x.len() != y.len() || x[0] != y[0] || x[1] != y[1] || x[6] != y[6]);
    }
}

/// How a window is built.
#[derive(Debug, Clone, Copy)]
pub struct WindowSpec {
    pub title: &'static str,
    pub inner_size: Option<(u32, u32)>,
    pub resizable: bool,
    pub decorations: bool,
    pub always_on_top: bool,
    pub skip_taskbar: bool,
    pub center: bool,
    pub shadow: bool,
    pub focused: Option<bool>,
    pub fullscreen: bool,
}

/// The title of each window.
pub open spec fn window_title(t: WindowType) -> Seq<char> {
    match t {
        WindowType::CommandPalette => "Pausa Command Palette"@,
        WindowType::FocusWidget => "Pausa Focus Widget"@,
        WindowType::BreakOverlay => "Pausa Break"@,
        WindowType::Settings => "Pausa Settings"@,
        WindowType::MenuBarPopover => "Pausa Menu Bar"@,
        WindowType::BreakTransition => "Pausa Break Transition"@,
    }
}

/// How each window is built: every one starts hidden; only the settings
/// window is resizable, decorated and shown in the task bar; the break
/// overlay is fullscreen; the others float on top at a fixed size.  Focus
/// is asked for the palette, the overlay, the popover and the transition;
/// the focus widget and the settings window leave it to the builder.
pub open spec fn window_spec_holds(t: WindowType, s: WindowSpec) -> bool {
    &&& s.title@ == window_title(t)
    &&& s.inner_size == match t {
        WindowType::CommandPalette => Some((600u32, 400u32)),
        WindowType::FocusWidget => Some((280u32, 80u32)),
        WindowType::BreakOverlay => None,
        WindowType::Settings => Some((800u32, 600u32)),
        WindowType::MenuBarPopover => Some((280u32, 200u32)),
        WindowType::BreakTransition => Some((400u32, 300u32)),
    }
    &&& s.resizable == (t == WindowType::Settings)
    &&& s.decorations == (t == WindowType::Settings)
    &&& s.always_on_top == (t != WindowType::Settings)
    &&& s.skip_taskbar == (t != WindowType::Settings)
    &&& s.center == (t == WindowType::CommandPalette || t == WindowType::Settings || t
        == WindowType::BreakTransition)
    &&& s.shadow == (t == WindowType::Settings || t == WindowType::MenuBarPopover || t
        == WindowType::BreakTransition)
    &&& s.focused == (if t == WindowType::CommandPalette || t == WindowType::BreakOverlay || t
        == WindowType::MenuBarPopover || t == WindowType::BreakTransition {
        Some(true)
    } else {
        None
    })
    &&& s.fullscreen == (t == WindowType::BreakOverlay)
}

/// How the window of the given kind is built (see `window_spec_holds`).
pub fn window_spec(t: WindowType) -> (s: WindowSpec)
    ensures
        window_spec_holds(t, s),
{
    match t {
        WindowType::CommandPalette => WindowSpec {
            title: "Pausa Command Palette",
            inner_size: Some((600, 400)),
            resizable: false,
            decorations: false,
            always_on_top: true,
            skip_taskbar: true,
            center: true,
            shadow: false,
            focused: Some(true),
            fullscreen: false,
        },
        WindowType::FocusWidget => WindowSpec {
            title: "Pausa Focus Widget",
            inner_size: Some((280, 80)),
            resizable: false,
            decorations: false,
            always_on_top: true,
            skip_taskbar: true,
            center: false,
            shadow: false,
            focused: None,
            fullscreen: false,
        },
        WindowType::BreakOverlay => WindowSpec {
            title: "Pausa Break",
            inner_size: None,
            resizable: false,
            decorations: false,
            always_on_top: true,
            skip_taskbar: true,
            center: false,
            shadow: false,
            focused: Some(true),
            fullscreen: true,
        },
        WindowType::Settings => WindowSpec {
            title: "Pausa Settings",
            inner_size: Some((800, 600)),
            resizable: true,
            decorations: true,
            always_on_top: false,
            skip_taskbar: false,
            center: true,
            shadow: true,
            focused: None,
            fullscreen: false,
        },
        WindowType::MenuBarPopover => WindowSpec {
            title: "Pausa Menu Bar",
            inner_size: Some((280, 200)),
            resizable: false,
            decorations: false,
            always_on_top: true,
            skip_taskbar: true,
            center: false,
            shadow: true,
            focused: Some(true),
            fullscreen: false,
        },
        WindowType::BreakTransition => WindowSpec {
            title: "Pausa Break Transition",
            inner_size: Some((400, 300)),
            resizable: false,
            decorations: false,
            always_on_top: true,
            skip_taskbar: true,
            center: true,
            shadow: true,
            focused: Some(true),
            fullscreen: false,
        },
    }
}

/// The windows in the order they are closed.
pub open spec fn all_window_types() -> Seq<WindowType> {
    seq![
        WindowType::CommandPalette,
        WindowType::FocusWidget,
        WindowType::BreakOverlay,
        WindowType::Settings,
        WindowType::MenuBarPopover,
        WindowType::BreakTransition,
    ]
}

/// The windows in the order they are closed.
pub fn window_types() -> (v: Vec<WindowType>)
    ensures
        v@ == all_window_types(),
{
    let v = vec![
        WindowType::CommandPalette,
        WindowType::FocusWidget,
        WindowType::BreakOverlay,
        WindowType::Settings,
        WindowType::MenuBarPopover,
        WindowType::BreakTransition,
    ];
    assert(v@ =~= all_window_types());
    v
}

/// Top-left corner that centers a window of `win_w` by `win_h` on a monitor
/// of `mon_w` by `mon_h` (halves rounded toward zero).
pub fn centered_origin(mon_w: u32, mon_h: u32, win_w: u32, win_h: u32) -> (p: (i32, i32))
    requires
        mon_w <= i32::MAX,
        mon_h <= i32::MAX,
        win_w <= i32::MAX,
        win_h <= i32::MAX,
    ensures
        p.0 == crate::api_models::div_toward_zero(mon_w - win_w, 2),
        p.1 == crate::api_models::div_toward_zero(mon_h - win_h, 2),
{
    let dx: i32 = mon_w as i32 - win_w as i32;
    let dy: i32 = mon_h as i32 - win_h as i32;
    (half(dx), half(dy))
}

fn half(a: i32) -> (q: i32)
    ensures
        q == crate::api_models::div_toward_zero(a as int, 2),
{
    if a >= 0 {
        a / 2
    } else {
        let p: i64 = -(a as i64);
        (-(p / 2)) as i32
    }
}

/// Top-left corner of a window placed `margin_right` pixels from the right
/// edge of the monitor and `top` pixels from its top: 20 and 60 for the
/// focus widget, 10 and 30 below the menu bar for the popover.
pub fn right_edge_origin(mon_w: u32, win_w: u32, margin_right: i32, top: i32) -> (p: (i32, i32))
    requires
        mon_w <= i32::MAX,
        win_w <= i32::MAX,
        i32::MIN <= mon_w - win_w - margin_right <= i32::MAX,
    ensures
        p == ((mon_w - win_w - margin_right) as i32, top),
{
    (mon_w as i32 - win_w as i32 - margin_right, top)
}

/// Which windows are visible.
#[derive(Debug, Clone, Copy)]
pub struct WindowStates {
    visible: [bool; 6],
}

fn index_of(t: WindowType) -> (i: usize)
    ensures
        i == window_index(t),
{
    match t {
        WindowType::CommandPalette => 0,
        WindowType::FocusWidget => 1,
        WindowType::BreakOverlay => 2,
        WindowType::Settings => 3,
        WindowType::MenuBarPopover => 4,
        WindowType::BreakTransition => 5,
    }
}

/// The slot of each window.
pub open spec fn window_index(t: WindowType) -> int {
    match t {
        WindowType::CommandPalette => 0,
        WindowType::FocusWidget => 1,
        WindowType::BreakOverlay => 2,
        WindowType::Settings => 3,
        WindowType::MenuBarPopover => 4,
        WindowType::BreakTransition => 5,
    }
}

impl WindowStates {
    /// Whether the window is visible.
    pub closed spec fn shown(&self, t: WindowType) -> bool {
        self.visible@[window_index(t)]
    }

    /// No window visible.
    pub fn new() -> (s: WindowStates)
        ensures
            forall|t: WindowType| !#[trigger] s.shown(t),
    {
        WindowStates { visible: [false; 6] }
    }

    /// Whether the window is visible (a window never shown is not).
    pub fn is_window_visible(&self, t: WindowType) -> (b: bool)
        ensures
            b == self.shown(t),
    {
        self.visible[index_of(t)]
    }

    /// Records that the window is now visible or hidden.
    pub fn set_visible(&mut self, t: WindowType, visible: bool)
        ensures
            final(self).shown(t) == visible,
            forall|u: WindowType| u != t ==> #[trigger] final(self).shown(u) == old(self).shown(u),
    {
        let i = index_of(t);
        self.visible[i] = visible;
        assert forall|u: WindowType| u != t implies #[trigger] self.shown(u) == old(self).shown(u) by {
            assert(window_index(u) != window_index(t));
        }
    }
}

} // verus!
