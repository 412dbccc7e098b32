//! Tabs: a tab's content and navigation history, the titles and labels
//! derived from the content, and the operations on a window's tab list -
//! adding, closing, reordering, and deciding how a file or the preferences
//! page is opened.

use vstd::prelude::*;

use crate::history::HistoryManager;
use crate::paths::{file_name_chars, spec_file_name};
use crate::text::{chars_of, eq_chars, extend_chars, extend_str, string_of};

verus! {

/// Content source for a tab.
#[derive(Debug, Clone, PartialEq)]
pub enum TabContent {
    /// No content.
    Empty,
    /// File from the filesystem.
    File(String),
    /// Inline markdown content (for the welcome screen).
    Inline(String),
    /// File that cannot be opened, with the error's text.
    FileError(String, String),
    /// The preferences page.
    Preferences,
}

/// The mathematical value of a tab's content.
pub enum TabContentView {
    Empty,
    File(Seq<char>),
    Inline(Seq<char>),
    FileError(Seq<char>, Seq<char>),
    Preferences,
}

impl View for TabContent {
    type V = TabContentView;

    open spec fn view(&self) -> TabContentView {
        match self {
            TabContent::Empty => TabContentView::Empty,
            TabContent::File(p) => TabContentView::File(p@),
            TabContent::Inline(s) => TabContentView::Inline(s@),
            TabContent::FileError(p, e) => TabContentView::FileError(p@, e@),
            TabContent::Preferences => TabContentView::Preferences,
        }
    }
}

impl Default for TabContent {
    fn default() -> (r: TabContent)
        ensures
            r@ == TabContentView::Empty,
    {
        TabContent::Empty
    }
}

/// The file a content refers to, if any: a plain or failing file.
pub open spec fn spec_content_file(c: TabContentView) -> Option<Seq<char>> {
    match c {
        TabContentView::File(p) => Some(p),
        TabContentView::FileError(p, _) => Some(p),
        _ => None,
    }
}

/// True when a content carries no usable file: nothing, inline text, or a
/// failing file.
pub open spec fn spec_content_no_file(c: TabContentView) -> bool {
    match c {
        TabContentView::Empty => true,
        TabContentView::Inline(_) => true,
        TabContentView::FileError(_, _) => true,
        _ => false,
    }
}

/// Represents a single tab with its content and navigation history.
#[derive(Debug, Clone, PartialEq)]
pub struct Tab {
    pub content: TabContent,
    pub history: HistoryManager,
}

impl Tab {
    /// Well-formedness: the history is well formed.
    pub open spec fn wf(self) -> bool {
        self.history.wf()
    }

    /// A tab opened on the given file, if any; the file is the history's
    /// one entry.
    pub fn new(file: Option<String>) -> (r: Tab)
        ensures
            r.wf(),
            match file {
                Some(p) => r.content@ == TabContentView::File(p@) && r.history.entries() == seq![
                    p@,
                ] && r.history.cursor() == Some(0int),
                None => r.content@ == TabContentView::Empty && r.history.entries() == Seq::<
                    Seq<char>,
                >::empty(),
            },
    {
        let mut history = HistoryManager::new();
        let content = match file {
            Some(path) => {
                let copy = path.clone();
                history.push(copy);
                TabContent::File(path)
            },
            None => TabContent::Empty,
        };
        Tab { content, history }
    }

    /// A tab holding inline markdown content and an empty history.
    pub fn with_inline_content(content: String) -> (r: Tab)
        ensures
            r.wf(),
            r.content@ == TabContentView::Inline(content@),
            r.history.entries() == Seq::<Seq<char>>::empty(),
    {
        Tab { content: TabContent::Inline(content), history: HistoryManager::new() }
    }

    /// The file path this tab refers to, if it has one.
    pub fn file(&self) -> (r: Option<&String>)
        ensures
            match r {
                Some(p) => spec_content_file(self.content@) == Some(p@),
                None => spec_content_file(self.content@) is None,
            },
    {
        match &self.content {
            TabContent::File(path) => Some(path),
            TabContent::FileError(path, _) => Some(path),
            _ => None,
        }
    }

    /// True exactly when this tab has no usable file.
    pub fn is_no_file(&self) -> (r: bool)
        ensures
            r == spec_content_no_file(self.content@),
    {
        match &self.content {
            TabContent::Empty => true,
            TabContent::Inline(_) => true,
            TabContent::FileError(_, _) => true,
            _ => false,
        }
    }

    /// Navigates this tab to a file: the file is pushed onto the history
    /// and becomes the content.
    pub fn navigate_to(&mut self, file: String)
        requires
            old(self).wf(),
        ensures
            final(self).wf(),
            final(self).content@ == TabContentView::File(file@),
            HistoryManager::push_effect(old(self).history, final(self).history, file@),
    {
        let copy = file.clone();
        self.history.push(copy);
        self.content = TabContent::File(file);
    }
}

impl Default for Tab {
    fn default() -> (r: Tab)
        ensures
            r.wf(),
            r.content@ == TabContentView::Empty,
            r.history.entries() == Seq::<Seq<char>>::empty(),
    {
        Tab::new(None)
    }
}

/// The display name of a path in the window title: its file name, with
/// `Unknown` standing in where there is none (an empty name, `.` or `..`).
pub open spec fn spec_title_name(p: Seq<char>) -> Seq<char> {
    let name = spec_file_name(p);
    if name.len() == 0 || name == "."@ || name == ".."@ {
        "Unknown"@
    } else {
        name
    }
}

/// The window title for a tab's content.
pub open spec fn spec_window_title(c: TabContentView) -> Seq<char> {
    match c {
        TabContentView::File(p) => "Arto - "@ + spec_title_name(p),
        TabContentView::Inline(_) => "Arto - Welcome"@,
        TabContentView::Preferences => "Arto - Preferences"@,
        TabContentView::FileError(p, _) => "Arto - "@ + spec_title_name(p) + " (Error)"@,
        TabContentView::Empty => "Arto"@,
    }
}

/// The display file name of a path, exactly as `spec_title_name` says.
fn title_name_chars(path: &str) -> (r: Vec<char>)
    ensures
        r@ == spec_title_name(path@),
{
    let pc = chars_of(path);
    let name = file_name_chars(&pc);
    let is_dot = name.len() == 1 && name[0] == '.';
    let is_dot_dot = name.len() == 2 && name[0] == '.' && name[1] == '.';
    proof {
        reveal_strlit(".");
        reveal_strlit("..");
        if is_dot {
            assert(name@ =~= "."@);
        } else {
            assert(name@ != "."@);
        }
        if is_dot_dot {
            assert(name@ =~= ".."@);
        } else {
            assert(name@ != ".."@);
        }
    }
    if name.len() == 0 || is_dot || is_dot_dot {
        chars_of("Unknown")
    } else {
        name
    }
}

/// Generates the window title based on a tab's content, exactly as
/// `spec_window_title` says.
pub fn generate_window_title(tab_content: &TabContent) -> (r: String)
    ensures
        r@ == spec_window_title(tab_content@),
{
    match tab_content {
        TabContent::File(path) => {
            let mut out: Vec<char> = Vec::new();
            extend_str(&mut out, "Arto - ");
            let name = title_name_chars(path.as_str());
            extend_chars(&mut out, &name);
            string_of(&out)
        },
        TabContent::Inline(_) => {
            let mut out: Vec<char> = Vec::new();
            extend_str(&mut out, "Arto - Welcome");
            string_of(&out)
        },
        TabContent::Preferences => {
            let mut out: Vec<char> = Vec::new();
            extend_str(&mut out, "Arto - Preferences");
            string_of(&out)
        },
        TabContent::FileError(path, _) => {
            let mut out: Vec<char> = Vec::new();
            extend_str(&mut out, "Arto - ");
            let name = title_name_chars(path.as_str());
            extend_chars(&mut out, &name);
            extend_str(&mut out, " (Error)");
            string_of(&out)
        },
        TabContent::Empty => {
            let mut out: Vec<char> = Vec::new();
            extend_str(&mut out, "Arto");
            string_of(&out)
        },
    }
}

/// The display name of a path in the tab bar: its file name, with
/// `Unnamed file` standing in where there is none.
pub open spec fn spec_tab_file_label(p: Seq<char>) -> Seq<char> {
    let name = spec_file_name(p);
    if name.len() == 0 || name == "."@ || name == ".."@ {
        "Unnamed file"@
    } else {
        name
    }
}

/// The label of a tab in the tab bar.
pub open spec fn spec_tab_display_name(c: TabContentView) -> Seq<char> {
    match c {
        TabContentView::File(p) => spec_tab_file_label(p),
        TabContentView::FileError(p, _) => spec_tab_file_label(p),
        TabContentView::Inline(_) => "Welcome"@,
        TabContentView::Preferences => "Preferences"@,
        TabContentView::Empty => "No file"@,
    }
}

/// The label of a path in the tab bar, exactly as `spec_tab_file_label`
/// says.
fn tab_file_label(path: &str) -> (r: Vec<char>)
    ensures
        r@ == spec_tab_file_label(path@),
{
    let pc = chars_of(path);
    let name = file_name_chars(&pc);
    let is_dot = name.len() == 1 && name[0] == '.';
    let is_dot_dot = name.len() == 2 && name[0] == '.' && name[1] == '.';
    proof {
        reveal_strlit(".");
        reveal_strlit("..");
        if is_dot {
            assert(name@ =~= "."@);
        } else {
            assert(name@ != "."@);
        }
        if is_dot_dot {
            assert(name@ =~= ".."@);
        } else {
            assert(name@ != ".."@);
        }
    }
    if name.len() == 0 || is_dot || is_dot_dot {
        chars_of("Unnamed file")
    } else {
        name
    }
}

/// The label a tab shows in the tab bar, exactly as
/// `spec_tab_display_name` says.
pub fn get_tab_display_name(tab: &Tab) -> (r: String)
    ensures
        r@ == spec_tab_display_name(tab.content@),
{
    match &tab.content {
        TabContent::File(path) => string_of(&tab_file_label(path.as_str())),
        TabContent::FileError(path, _) => string_of(&tab_file_label(path.as_str())),
        TabContent::Inline(_) => {
            let mut out: Vec<char> = Vec::new();
            extend_str(&mut out, "Welcome");
            string_of(&out)
        },
        TabContent::Preferences => {
            let mut out: Vec<char> = Vec::new();
            extend_str(&mut out, "Preferences");
            string_of(&out)
        },
        TabContent::Empty => {
            let mut out: Vec<char> = Vec::new();
            extend_str(&mut out, "No file");
            string_of(&out)
        },
    }
}

/// Appends a new tab opened on the given file and, when asked, makes it
/// the active one. Gives back the new active index.
pub fn add_tab(tabs: &mut Vec<Tab>, active: usize, file: Option<String>, switch_to: bool) -> (r:
    usize)
    ensures
        final(tabs)@.len() == old(tabs)@.len() + 1,
        final(tabs)@.take(old(tabs)@.len() as int) == old(tabs)@,
        final(tabs)@.last().wf(),
        match file {
            Some(p) => final(tabs)@.last().content@ == TabContentView::File(p@),
            None => final(tabs)@.last().content@ == TabContentView::Empty,
        },
        r == if switch_to {
            old(tabs)@.len() as int
        } else {
            active as int
        },
{
    let ghost before = tabs@;
    let tab = Tab::new(file);
    tabs.push(tab);
    proof {
        assert(tabs@.take(before.len() as int) =~= before);
    }
    if switch_to {
        tabs.len() - 1
    } else {
        active
    }
}

/// Switches to a tab by index; an out-of-range index leaves the active
/// tab as it is.
pub fn switch_to_tab(tab_count: usize, active: usize, index: usize) -> (r: usize)
    ensures
        r == if index < tab_count {
            index as int
        } else {
            active as int
        },
{
    if index < tab_count {
        index
    } else {
        active
    }
}

/// The next active index after closing a tab of a list that had more than
/// one: a tab after the closed one shifts left; the closed tab itself
/// falls back to the last remaining tab when it was at the end.
pub open spec fn spec_close_active(active: int, index: int, new_len: int) -> int {
    if active > index {
        active - 1
    } else if active == index && active >= new_len {
        new_len - 1
    } else {
        active
    }
}

/// Closes a tab by index. The last remaining tab is not removed but
/// cleared to an empty tab. Gives back the new active index.
pub fn close_tab(tabs: &mut Vec<Tab>, active: usize, index: usize) -> (r: usize)
    requires
        old(tabs)@.len() > 1 ==> index < old(tabs)@.len(),
    ensures
        old(tabs)@.len() == 0 ==> final(tabs)@ == old(tabs)@ && r == active,
        old(tabs)@.len() == 1 ==> final(tabs)@.len() == 1 && final(tabs)@[0].content@
            == TabContentView::Empty && final(tabs)@[0].history.entries() == Seq::<Seq<char>>::empty()
            && r == active,
        old(tabs)@.len() > 1 ==> final(tabs)@ == old(tabs)@.remove(index as int) && r
            == spec_close_active(active as int, index as int, old(tabs)@.len() - 1),
{
    let n = tabs.len();
    if n <= 1 {
        if n == 1 {
            let cleared = Tab::new(None);
            tabs.set(0, cleared);
        }
        return active;
    }
    let _ = tabs.remove(index);
    if active > index {
        active - 1
    } else if active == index && active >= tabs.len() {
        tabs.len() - 1
    } else {
        active
    }
}

/// The next active index after moving a tab from one position to another:
/// the moved tab keeps the focus; a tab inside the affected range shifts
/// one step toward the freed position.
pub open spec fn spec_reorder_active(active: int, from: int, to: int) -> int {
    if active == from {
        to
    } else if active > from && active <= to {
        active - 1
    } else if active < from && active >= to {
        active + 1
    } else {
        active
    }
}

/// Moves a tab from one position to another; out-of-range or equal
/// positions change nothing. Gives back the new active index.
pub fn reorder_tab(tabs: &mut Vec<Tab>, active: usize, from: usize, to: usize) -> (r: usize)
    ensures
        (from >= old(tabs)@.len() || to >= old(tabs)@.len() || from == to) ==> final(tabs)@
            == old(tabs)@ && r == active,
        !(from >= old(tabs)@.len() || to >= old(tabs)@.len() || from == to) ==> final(tabs)@
            == old(tabs)@.remove(from as int).insert(to as int, old(tabs)@[from as int]) && r
            == spec_reorder_active(active as int, from as int, to as int),
{
    let n = tabs.len();
    if from >= n || to >= n || from == to {
        return active;
    }
    let tab = tabs.remove(from);
    tabs.insert(to, tab);
    if active == from {
        to
    } else if active > from && active <= to {
        active - 1
    } else if active < from && active >= to {
        active + 1
    } else {
        active
    }
}

/// The first tab holding the given file, if any.
pub open spec fn spec_find_tab_with_file(tabs: Seq<Tab>, file: Seq<char>) -> Option<int>
    decreases tabs.len(),
{
    if tabs.len() == 0 {
        None
    } else if spec_content_file(tabs[0].content@) == Some(file) {
        Some(0int)
    } else {
        match spec_find_tab_with_file(tabs.skip(1), file) {
            Some(i) => Some(i + 1),
            None => None,
        }
    }
}

/// Finds the first tab holding the given file, exactly as
/// `spec_find_tab_with_file` says.
pub fn find_tab_with_file(tabs: &Vec<Tab>, file: &str) -> (r: Option<usize>)
    ensures
        match r {
            Some(i) => spec_find_tab_with_file(tabs@, file@) == Some(i as int),
            None => spec_find_tab_with_file(tabs@, file@) is None,
        },
{
    let fc = chars_of(file);
    let mut i: usize = 0;
    proof {
        assert(tabs@.skip(0) =~= tabs@);
    }
    while i < tabs.len()
        invariant
            i <= tabs@.len(),
            fc@ == file@,
            spec_find_tab_with_file(tabs@, file@) == match spec_find_tab_with_file(
                tabs@.skip(i as int),
                file@,
            ) {
                Some(k) => Some(k + i),
                None => None::<int>,
            },
        decreases tabs@.len() - i,
    {
        proof {
            assert(tabs@.skip(i as int)[0] == tabs@[i as int]);
        }
        let found = match tabs[i].file() {
            Some(p) => eq_chars(&chars_of(p.as_str()), &fc),
            None => false,
        };
        if found {
            return Some(i);
        }
        proof {
            assert(tabs@.skip(i as int).skip(1) =~= tabs@.skip(i + 1 as int));
        }
        i = i + 1;
    }
    proof {
        assert(tabs@.skip(tabs@.len() as int) =~= Seq::<Tab>::empty());
    }
    None
}

/// What opening a file does to the tab list: switch to the tab that
/// already shows it, reuse the active tab when it has no usable file, or
/// open a new tab.
#[derive(Debug, Clone, Copy, PartialEq, Eq)]
pub enum OpenFileAction {
    SwitchTo(usize),
    NavigateCurrent,
    AddNewTab,
}

/// Decides how a file is opened: the existing tab wins; otherwise the
/// active tab is reused exactly when it has no usable file; otherwise a
/// new tab is opened.
pub fn open_file_action(tabs: &Vec<Tab>, active: usize, file: &str) -> (r: OpenFileAction)
    ensures
        match spec_find_tab_with_file(tabs@, file@) {
            Some(i) => r == OpenFileAction::SwitchTo(i as usize),
            None => {
                if active < tabs@.len() && spec_content_no_file(tabs@[active as int].content@) {
                    r == OpenFileAction::NavigateCurrent
                } else {
                    r == OpenFileAction::AddNewTab
                }
            },
        },
{
    if let Some(i) = find_tab_with_file(tabs, file) {
        proof {
            crate::tabs::lemma_find_tab_in_range(tabs@, file@);
        }
        return OpenFileAction::SwitchTo(i);
    }
    if active < tabs.len() && tabs[active].is_no_file() {
        OpenFileAction::NavigateCurrent
    } else {
        OpenFileAction::AddNewTab
    }
}

/// The first tab showing the preferences page, if any.
pub open spec fn spec_find_preferences_tab(tabs: Seq<Tab>) -> Option<int>
    decreases tabs.len(),
{
    if tabs.len() == 0 {
        None
    } else if tabs[0].content@ is Preferences {
        Some(0int)
    } else {
        match spec_find_preferences_tab(tabs.skip(1)) {
            Some(i) => Some(i + 1),
            None => None,
        }
    }
}

/// What opening the preferences page does to the tab list: switch to the
/// tab that already shows it, reuse the active tab when it has no usable
/// file, or open a new tab.
pub fn open_preferences_action(tabs: &Vec<Tab>, active: usize) -> (r: OpenFileAction)
    ensures
        match spec_find_preferences_tab(tabs@) {
            Some(i) => r == OpenFileAction::SwitchTo(i as usize),
            None => {
                if active < tabs@.len() && spec_content_no_file(tabs@[active as int].content@) {
                    r == OpenFileAction::NavigateCurrent
                } else {
                    r == OpenFileAction::AddNewTab
                }
            },
        },
{
    let mut i: usize = 0;
    proof {
        assert(tabs@.skip(0) =~= tabs@);
    }
    while i < tabs.len()
        invariant
            i <= tabs@.len(),
            spec_find_preferences_tab(tabs@) == match spec_find_preferences_tab(
                tabs@.skip(i as int),
            ) {
                Some(k) => Some(k + i),
                None => None::<int>,
            },
        decreases tabs@.len() - i,
    {
        proof {
            assert(tabs@.skip(i as int)[0] == tabs@[i as int]);
        }
        let found = match &tabs[i].content {
            TabContent::Preferences => true,
            _ => false,
        };
        if found {
            proof {
                lemma_find_preferences_in_range(tabs@);
            }
            return OpenFileAction::SwitchTo(i);
        }
        proof {
            assert(tabs@.skip(i as int).skip(1) =~= tabs@.skip(i + 1 as int));
        }
        i = i + 1;
    }
    proof {
        assert(tabs@.skip(tabs@.len() as int) =~= Seq::<Tab>::empty());
    }
    if active < tabs.len() && tabs[active].is_no_file() {
        OpenFileAction::NavigateCurrent
    } else {
        OpenFileAction::AddNewTab
    }
}

/// A found preferences-tab index is in range.
pub proof fn lemma_find_preferences_in_range(tabs: Seq<Tab>)
    ensures
        match spec_find_preferences_tab(tabs) {
            Some(i) => 0 <= i < tabs.len(),
            None => true,
        },
    decreases tabs.len(),
{
    if tabs.len() > 0 && !(tabs[0].content@ is Preferences) {
        lemma_find_preferences_in_range(tabs.skip(1));
    }
}

/// The mouse button that navigates in the current tab.
pub const LEFT_CLICK: u32 = 0;

/// The mouse button that opens a new tab.
pub const MIDDLE_CLICK: u32 = 1;

/// What a click on a rendered link does: the middle button opens the
/// target in a new tab, the primary button navigates the current tab, and
/// any other button does nothing.
#[derive(Debug, Clone, Copy, PartialEq, Eq, Structural)]
pub enum LinkClickAction {
    OpenInNewTab,
    NavigateCurrentTab,
    Ignore,
}

/// Decides what a link click does, from the mouse button alone.
pub fn link_click_action(button: u32) -> (r: LinkClickAction)
    ensures
        button == MIDDLE_CLICK ==> r == LinkClickAction::OpenInNewTab,
        button == LEFT_CLICK ==> r == LinkClickAction::NavigateCurrentTab,
        button != MIDDLE_CLICK && button != LEFT_CLICK ==> r == LinkClickAction::Ignore,
{
    if button == MIDDLE_CLICK {
        LinkClickAction::OpenInNewTab
    } else if button == LEFT_CLICK {
        LinkClickAction::NavigateCurrentTab
    } else {
        LinkClickAction::Ignore
    }
}

/// A found tab index is in range.
pub proof fn lemma_find_tab_in_range(tabs: Seq<Tab>, file: Seq<char>)
    ensures
        match spec_find_tab_with_file(tabs, file) {
            Some(i) => 0 <= i < tabs.len(),
            None => true,
        },
    decreases tabs.len(),
{
    if tabs.len() > 0 && spec_content_file(tabs[0].content@) != Some(file) {
        lemma_find_tab_in_range(tabs.skip(1), file);
    }
}

} // verus!
