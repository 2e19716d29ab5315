//! The tray icon: its menu and what its items and clicks do.

use vstd::prelude::*;

verus! {

/// An entry of the tray menu.
#[derive(Debug, Clone, Copy)]
pub enum MenuEntry {
    Item { id: &'static str, label: &'static str },
    Separator,
    Quit { label: &'static str },
}

/// What a tray menu item or click does with the main window.
#[derive(Debug, Clone, Copy)]
pub enum TrayAction {
    ShowWindow,
    ShowAndRun { script: &'static str },
    HideWindow,
    Quit,
    Nothing,
}

/// The items of the tray menu as (id, label) pairs, separators and the
/// quit item aside.
pub open spec fn menu_items() -> Seq<(Seq<char>, Seq<char>)> {
    seq![
        ("show-window"@, "Show Window"@),
        ("toggle-strict-mode"@, "Toggle Strict Mode"@),
        ("view-stats"@, "View Statistics"@),
        ("settings"@, "Settings..."@),
    ]
}

/// The tray menu, top to bottom: show window; strict mode and statistics;
/// settings; quit, with separators between the groups.
pub fn tray_menu() -> (m: Vec<MenuEntry>)
    ensures
        m@.len() == 8,
        m@[0] matches MenuEntry::Item { id, label } && id@ == menu_items()[0].0 && label@ == menu_items()[0].1,
        m@[1] == MenuEntry::Separator,
        m@[2] matches MenuEntry::Item { id, label } && id@ == menu_items()[1].0 && label@ == menu_items()[1].1,
        m@[3] matches MenuEntry::Item { id, label } && id@ == menu_items()[2].0 && label@ == menu_items()[2].1,
        m@[4] == MenuEntry::Separator,
        m@[5] matches MenuEntry::Item { id, label } && id@ == menu_items()[3].0 && label@ == menu_items()[3].1,
        m@[6] == MenuEntry::Separator,
        m@[7] matches MenuEntry::Quit { label } && label@ == "Quit Pausa"@,
{
    vec![
        MenuEntry::Item { id: "show-window", label: "Show Window" },
        MenuEntry::Separator,
        MenuEntry::Item { id: "toggle-strict-mode", label: "Toggle Strict Mode" },
        MenuEntry::Item { id: "view-stats", label: "View Statistics" },
        MenuEntry::Separator,
        MenuEntry::Item { id: "settings", label: "Settings..." },
        MenuEntry::Separator,
        MenuEntry::Quit { label: "Quit Pausa" },
    ]
}

/// The script that opens the settings page.
pub open spec fn settings_script() -> Seq<char> {
    "window.location.hash = '#/settings';"@
}

/// The script that opens the statistics page.
pub open spec fn stats_script() -> Seq<char> {
    "window.location.hash = '#/stats';"@
}

/// What the menu item with identifier `id` does: show the window, show it
/// on the settings page (also for strict mode, which is toggled there) or on
/// the statistics page, or quit; an unknown item does nothing.
pub fn menu_action(id: &str) -> (a: TrayAction)
    ensures
        id@ == "show-window"@ ==> a == TrayAction::ShowWindow,
        id@ == "toggle-strict-mode"@ || id@ == "settings"@ ==> (a matches TrayAction::ShowAndRun {
            script,
        } && script@ == settings_script()),
        id@ == "view-stats"@ ==> (a matches TrayAction::ShowAndRun { script } && script@ == stats_script()),
        id@ == "quit"@ ==> a == TrayAction::Quit,
        id@ != "show-window"@ && id@ != "toggle-strict-mode"@ && id@ != "settings"@ && id@
            != "view-stats"@ && id@ != "quit"@ ==> a == TrayAction::Nothing,
{
    proof {
        reveal_strlit("show-window");
        reveal_strlit("toggle-strict-mode");
        reveal_strlit("settings");
        reveal_strlit("view-stats");
        reveal_strlit("quit");
        assert("show-window"@.len() == 11);
        assert("toggle-strict-mode"@.len() == 18);
        assert("settings"@.len() == 8);
        assert("view-stats"@.len() == 10);
        assert("quit"@.len() == 4);
    }
    if crate::text::str_eq(id, "show-window") {
        TrayAction::ShowWindow
    } else if crate::text::str_eq(id, "toggle-strict-mode") {
        TrayAction::ShowAndRun { script: "window.location.hash = '#/settings';" }
    } else if crate::text::str_eq(id, "view-stats") {
        TrayAction::ShowAndRun { script: "window.location.hash = '#/stats';" }
    } else if crate::text::str_eq(id, "settings") {
        TrayAction::ShowAndRun { script: "window.location.hash = '#/settings';" }
    } else if crate::text::str_eq(id, "quit") {
        TrayAction::Quit
    } else {
        TrayAction::Nothing
    }
}

/// A left click on the tray icon hides a visible main window and shows a
/// hidden one.
pub fn left_click_action(window_visible: bool) -> (a: TrayAction)
    ensures
        a == (if window_visible {
            TrayAction::HideWindow
        } else {
            TrayAction::ShowWindow
        }),
{
    if window_visible {
        TrayAction::HideWindow
    } else {
        TrayAction::ShowWindow
    }
}

} // verus!
