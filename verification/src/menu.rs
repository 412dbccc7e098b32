//! Menu identifiers: the mapping between menu entries and their string ids.

use vstd::prelude::*;

use crate::paths::eq_str;

verus! {

/// Menu identifier enum.
#[derive(Debug, Clone, Copy, PartialEq, Eq, Structural)]
pub enum MenuId {
    NewWindow,
    NewTab,
    Open,
    OpenDirectory,
    CloseTab,
    CloseAllTabs,
    CloseWindow,
    CloseAllChildWindows,
    CloseAllWindows,
    ToggleSidebar,
    ActualSize,
    ZoomIn,
    ZoomOut,
    GoBack,
    GoForward,
    GoToHomepage,
}

/// The string id of each menu entry.
pub open spec fn spec_menu_id_str(m: MenuId) -> Seq<char> {
    match m {
        MenuId::NewWindow => "file.new_window"@,
        MenuId::NewTab => "file.new_tab"@,
        MenuId::Open => "file.open"@,
        MenuId::OpenDirectory => "file.open_directory"@,
        MenuId::CloseTab => "file.close_tab"@,
        MenuId::CloseAllTabs => "file.close_all_tabs"@,
        MenuId::CloseWindow => "file.close_window"@,
        MenuId::CloseAllChildWindows => "window.close_all_child_windows"@,
        MenuId::CloseAllWindows => "window.close_all_windows"@,
        MenuId::ToggleSidebar => "view.toggle_sidebar"@,
        MenuId::ActualSize => "view.actual_size"@,
        MenuId::ZoomIn => "view.zoom_in"@,
        MenuId::ZoomOut => "view.zoom_out"@,
        MenuId::GoBack => "history.back"@,
        MenuId::GoForward => "history.forward"@,
        MenuId::GoToHomepage => "help.homepage"@,
    }
}

/// The menu entry a string names, if any: the one whose id it equals.
pub open spec fn spec_menu_id_of(s: Seq<char>) -> Option<MenuId> {
    if s == "file.new_window"@ {
        Some(MenuId::NewWindow)
    } else if s == "file.new_tab"@ {
        Some(MenuId::NewTab)
    } else if s == "file.open"@ {
        Some(MenuId::Open)
    } else if s == "file.open_directory"@ {
        Some(MenuId::OpenDirectory)
    } else if s == "file.close_tab"@ {
        Some(MenuId::CloseTab)
    } else if s == "file.close_all_tabs"@ {
        Some(MenuId::CloseAllTabs)
    } else if s == "file.close_window"@ {
        Some(MenuId::CloseWindow)
    } else if s == "window.close_all_child_windows"@ {
        Some(MenuId::CloseAllChildWindows)
    } else if s == "window.close_all_windows"@ {
        Some(MenuId::CloseAllWindows)
    } else if s == "view.toggle_sidebar"@ {
        Some(MenuId::ToggleSidebar)
    } else if s == "view.actual_size"@ {
        Some(MenuId::ActualSize)
    } else if s == "view.zoom_in"@ {
        Some(MenuId::ZoomIn)
    } else if s == "view.zoom_out"@ {
        Some(MenuId::ZoomOut)
    } else if s == "history.back"@ {
        Some(MenuId::GoBack)
    } else if s == "history.forward"@ {
        Some(MenuId::GoForward)
    } else if s == "help.homepage"@ {
        Some(MenuId::GoToHomepage)
    } else {
        None
    }
}

impl MenuId {
    /// Converts a menu id string to its enum variant, exactly as
    /// `spec_menu_id_of` says.
    pub fn from_str(s: &str) -> (r: Option<MenuId>)
        ensures
            r == spec_menu_id_of(s@),
    {
        if eq_str(s, "file.new_window") {
            Some(MenuId::NewWindow)
        } else if eq_str(s, "file.new_tab") {
            Some(MenuId::NewTab)
        } else if eq_str(s, "file.open") {
            Some(MenuId::Open)
        } else if eq_str(s, "file.open_directory") {
            Some(MenuId::OpenDirectory)
        } else if eq_str(s, "file.close_tab") {
            Some(MenuId::CloseTab)
        } else if eq_str(s, "file.close_all_tabs") {
            Some(MenuId::CloseAllTabs)
        } else if eq_str(s, "file.close_window") {
            Some(MenuId::CloseWindow)
        } else if eq_str(s, "window.close_all_child_windows") {
            Some(MenuId::CloseAllChildWindows)
        } else if eq_str(s, "window.close_all_windows") {
            Some(MenuId::CloseAllWindows)
        } else if eq_str(s, "view.toggle_sidebar") {
            Some(MenuId::ToggleSidebar)
        } else if eq_str(s, "view.actual_size") {
            Some(MenuId::ActualSize)
        } else if eq_str(s, "view.zoom_in") {
            Some(MenuId::ZoomIn)
        } else if eq_str(s, "view.zoom_out") {
            Some(MenuId::ZoomOut)
        } else if eq_str(s, "history.back") {
            Some(MenuId::GoBack)
        } else if eq_str(s, "history.forward") {
            Some(MenuId::GoForward)
        } else if eq_str(s, "help.homepage") {
            Some(MenuId::GoToHomepage)
        } else {
            None
        }
    }

    /// The string id of this menu entry, exactly as `spec_menu_id_str`
    /// says.
    pub fn as_str(self) -> (r: &'static str)
        ensures
            r@ == spec_menu_id_str(self),
    {
        match self {
            MenuId::NewWindow => "file.new_window",
            MenuId::NewTab => "file.new_tab",
            MenuId::Open => "file.open",
            MenuId::OpenDirectory => "file.open_directory",
            MenuId::CloseTab => "file.close_tab",
            MenuId::CloseAllTabs => "file.close_all_tabs",
            MenuId::CloseWindow => "file.close_window",
            MenuId::CloseAllChildWindows => "window.close_all_child_windows",
            MenuId::CloseAllWindows => "window.close_all_windows",
            MenuId::ToggleSidebar => "view.toggle_sidebar",
            MenuId::ActualSize => "view.actual_size",
            MenuId::ZoomIn => "view.zoom_in",
            MenuId::ZoomOut => "view.zoom_out",
            MenuId::GoBack => "history.back",
            MenuId::GoForward => "history.forward",
            MenuId::GoToHomepage => "help.homepage",
        }
    }
}

/// Law: reading an entry's own id gives back exactly that entry.
pub proof fn lemma_menu_id_round_trip(m: MenuId)
    ensures
        spec_menu_id_of(spec_menu_id_str(m)) == Some(m),
{
    reveal_strlit("file.new_window");
    reveal_strlit("file.new_tab");
    reveal_strlit("file.open");
    reveal_strlit("file.open_directory");
    reveal_strlit("file.close_tab");
    reveal_strlit("file.close_all_tabs");
    reveal_strlit("file.close_window");
    reveal_strlit("window.close_all_child_windows");
    reveal_strlit("window.close_all_windows");
    reveal_strlit("view.toggle_sidebar");
    reveal_strlit("view.actual_size");
    reveal_strlit("view.zoom_in");
    reveal_strlit("view.zoom_out");
    reveal_strlit("history.back");
    reveal_strlit("history.forward");
    reveal_strlit("help.homepage");
    assert("file.new_window"@.len() == 15);
    assert("file.new_window"@[0] == 'f');
    assert("file.new_window"@[5] == 'n');
    assert("file.new_tab"@.len() == 12);
    assert("file.new_tab"@[0] == 'f');
    assert("file.new_tab"@[5] == 'n');
    assert("file.open"@.len() == 9);
    assert("file.open"@[0] == 'f');
    assert("file.open"@[5] == 'o');
    assert("file.open_directory"@.len() == 19);
    assert("file.open_directory"@[0] == 'f');
    assert("file.open_directory"@[5] == 'o');
    assert("file.close_tab"@.len() == 14);
    assert("file.close_tab"@[0] == 'f');
    assert("file.close_tab"@[5] == 'c');
    assert("file.close_all_tabs"@.len() == 19);
    assert("file.close_all_tabs"@[0] == 'f');
    assert("file.close_all_tabs"@[5] == 'c');
    assert("file.close_window"@.len() == 17);
    assert("file.close_window"@[0] == 'f');
    assert("file.close_window"@[5] == 'c');
    assert("window.close_all_child_windows"@.len() == 30);
    assert("window.close_all_child_windows"@[0] == 'w');
    assert("window.close_all_child_windows"@[5] == 'w');
    assert("window.close_all_windows"@.len() == 24);
    assert("window.close_all_windows"@[0] == 'w');
    assert("window.close_all_windows"@[5] == 'w');
    assert("view.toggle_sidebar"@.len() == 19);
    assert("view.toggle_sidebar"@[0] == 'v');
    assert("view.toggle_sidebar"@[5] == 't');
    assert("view.actual_size"@.len() == 16);
    assert("view.actual_size"@[0] == 'v');
    assert("view.actual_size"@[5] == 'a');
    assert("view.zoom_in"@.len() == 12);
    assert("view.zoom_in"@[0] == 'v');
    assert("view.zoom_in"@[5] == 'z');
    assert("view.zoom_out"@.len() == 13);
    assert("view.zoom_out"@[0] == 'v');
    assert("view.zoom_out"@[5] == 'z');
    assert("history.back"@.len() == 12);
    assert("history.back"@[0] == 'h');
    assert("history.back"@[5] == 'r');
    assert("history.forward"@.len() == 15);
    assert("history.forward"@[0] == 'h');
    assert("history.forward"@[5] == 'r');
    assert("help.homepage"@.len() == 13);
    assert("help.homepage"@[0] == 'h');
    assert("help.homepage"@[5] == 'h');
    match m {
        MenuId::NewWindow => {
            assert(spec_menu_id_of("file.new_window"@) == Some(MenuId::NewWindow));
        },
        MenuId::NewTab => {
            assert(spec_menu_id_of("file.new_tab"@) == Some(MenuId::NewTab));
        },
        MenuId::Open => {
            assert(spec_menu_id_of("file.open"@) == Some(MenuId::Open));
        },
        MenuId::OpenDirectory => {
            assert(spec_menu_id_of("file.open_directory"@) == Some(MenuId::OpenDirectory));
        },
        MenuId::CloseTab => {
            assert(spec_menu_id_of("file.close_tab"@) == Some(MenuId::CloseTab));
        },
        MenuId::CloseAllTabs => {
            assert(spec_menu_id_of("file.close_all_tabs"@) == Some(MenuId::CloseAllTabs));
        },
        MenuId::CloseWindow => {
            assert(spec_menu_id_of("file.close_window"@) == Some(MenuId::CloseWindow));
        },
        MenuId::CloseAllChildWindows => {
            assert(spec_menu_id_of("window.close_all_child_windows"@) == Some(MenuId::CloseAllChildWindows));
        },
        MenuId::CloseAllWindows => {
            assert(spec_menu_id_of("window.close_all_windows"@) == Some(MenuId::CloseAllWindows));
        },
        MenuId::ToggleSidebar => {
            assert(spec_menu_id_of("view.toggle_sidebar"@) == Some(MenuId::ToggleSidebar));
        },
        MenuId::ActualSize => {
            assert(spec_menu_id_of("view.actual_size"@) == Some(MenuId::ActualSize));
        },
        MenuId::ZoomIn => {
            assert(spec_menu_id_of("view.zoom_in"@) == Some(MenuId::ZoomIn));
        },
        MenuId::ZoomOut => {
            assert(spec_menu_id_of("view.zoom_out"@) == Some(MenuId::ZoomOut));
        },
        MenuId::GoBack => {
            assert(spec_menu_id_of("history.back"@) == Some(MenuId::GoBack));
        },
        MenuId::GoForward => {
            assert(spec_menu_id_of("history.forward"@) == Some(MenuId::GoForward));
        },
        MenuId::GoToHomepage => {
            assert(spec_menu_id_of("help.homepage"@) == Some(MenuId::GoToHomepage));
        },
    }
}

/// Law: a string that names an entry equals that entry's own id, so the
/// two conversions invert each other in both directions.
pub proof fn lemma_menu_id_str_of(s: Seq<char>)
    ensures
        match spec_menu_id_of(s) {
            Some(m) => spec_menu_id_str(m) == s,
            None => true,
        },
{
}

} // verus!
