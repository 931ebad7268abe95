//! The layout of the application menu bar: its menus, their entries in
//! order, each entry's shortcut text, whether it is enabled and the action a
//! click on it gives.
use vstd::prelude::*;
use crate::menu::{MenuAction, MenuBar, MenuBarView, PanelType, UiAction};
use crate::text::{decimal, decimal_string};

verus! {

/// A clickable menu entry.
#[derive(Debug, Clone, Copy, PartialEq, Eq)]
pub struct MenuButton {
    pub label: &'static str,
    /// The shortcut shown beside the label, if any.
    pub shortcut: Option<&'static str>,
    pub enabled: bool,
    /// What a click on the entry does.
    pub action: MenuAction,
}

/// One entry of a menu.
#[derive(Debug)]
pub enum MenuEntry {
    Item(MenuButton),
    Separator,
    /// A line of text that cannot be clicked.
    Label(String),
}

/// The abstract value of a `MenuEntry`.
pub enum MenuEntryView {
    Item(MenuButton),
    Separator,
    Label(Seq<char>),
}

impl View for MenuEntry {
    type V = MenuEntryView;

    open spec fn view(&self) -> MenuEntryView {
        match self {
            MenuEntry::Item(i) => MenuEntryView::Item(*i),
            MenuEntry::Separator => MenuEntryView::Separator,
            MenuEntry::Label(s) => MenuEntryView::Label(s@),
        }
    }
}

/// A menu of the menu bar.
#[derive(Debug)]
pub struct Menu {
    pub title: &'static str,
    pub entries: Vec<MenuEntry>,
}

/// The entries as abstract values.
pub open spec fn entries_view(v: Seq<MenuEntry>) -> Seq<MenuEntryView> {
    v.map_values(|e: MenuEntry| e@)
}

/// A clickable entry.
pub open spec fn item(
    label: &'static str,
    shortcut: Option<&'static str>,
    enabled: bool,
    action: MenuAction,
) -> MenuEntryView {
    MenuEntryView::Item(MenuButton { label, shortcut, enabled, action })
}

/// The action of entries that have no effect of their own yet.
pub open spec fn about() -> MenuAction {
    MenuAction::UiAction(UiAction::About)
}

/// The File menu.
pub open spec fn file_menu_spec(m: MenuBarView) -> Seq<MenuEntryView> {
    seq![
        item("New Window", Some("Ctrl+N"), true, about()),
        item("New Tab", Some("Ctrl+T"), true, about()),
        item("New Private Window", Some("Ctrl+Shift+N"), true, about()),
        MenuEntryView::Separator,
        item("Open File...", Some("Ctrl+O"), true, about()),
        MenuEntryView::Separator,
        item("Close Tab", Some("Ctrl+W"), m.has_tab, about()),
        item("Close Window", Some("Ctrl+Shift+W"), true, about()),
        MenuEntryView::Separator,
        item("Exit", Some("Alt+F4"), true, about()),
    ]
}

/// The Edit menu.
pub open spec fn edit_menu_spec(m: MenuBarView) -> Seq<MenuEntryView> {
    seq![
        item("Undo", Some("Ctrl+Z"), m.can_undo, MenuAction::UiAction(UiAction::Undo)),
        item("Redo", Some("Ctrl+Y"), m.can_redo, MenuAction::UiAction(UiAction::Redo)),
        MenuEntryView::Separator,
        item("Cut", Some("Ctrl+X"), true, MenuAction::UiAction(UiAction::Cut)),
        item("Copy", Some("Ctrl+C"), true, MenuAction::UiAction(UiAction::Copy)),
        item("Paste", Some("Ctrl+V"), true, MenuAction::UiAction(UiAction::Paste)),
        MenuEntryView::Separator,
        item("Select All", Some("Ctrl+A"), true, MenuAction::UiAction(UiAction::SelectAll)),
        MenuEntryView::Separator,
        item("Find...", Some("Ctrl+F"), true, MenuAction::UiAction(UiAction::Find)),
    ]
}

/// The text that shows the zoom level, such as "Zoom: 150%".
pub open spec fn zoom_text(zoom: u32) -> Seq<char> {
    "Zoom: "@ + decimal(zoom as nat) + "%"@
}

/// The View menu.
pub open spec fn view_menu_spec(m: MenuBarView) -> Seq<MenuEntryView> {
    seq![
        item("Zoom In", Some("Ctrl++"), true, MenuAction::UiAction(UiAction::ZoomIn)),
        item("Zoom Out", Some("Ctrl+-"), true, MenuAction::UiAction(UiAction::ZoomOut)),
        item("Reset Zoom", Some("Ctrl+0"), true, MenuAction::UiAction(UiAction::ResetZoom)),
        MenuEntryView::Separator,
        MenuEntryView::Label(zoom_text(m.zoom_level)),
        MenuEntryView::Separator,
        item("Full Screen", Some("F11"), true, MenuAction::UiAction(UiAction::FullScreen)),
        item("Developer Tools", Some("F12"), true, MenuAction::TogglePanel(PanelType::DevTools)),
    ]
}

/// The History menu.
pub open spec fn history_menu_spec(m: MenuBarView) -> Seq<MenuEntryView> {
    seq![
        item("Back", Some("Alt+←"), m.can_go_back, about()),
        item("Forward", Some("Alt+→"), m.can_go_forward, about()),
        MenuEntryView::Separator,
        item("Show All History", Some("Ctrl+H"), true, MenuAction::UiAction(UiAction::ShowAllHistory)),
        item("Recently Closed Tabs", None, true, about()),
        MenuEntryView::Separator,
        item("Clear History...", None, true, MenuAction::UiAction(UiAction::ClearHistory)),
    ]
}

/// The Bookmarks menu.
pub open spec fn bookmarks_menu_spec() -> Seq<MenuEntryView> {
    seq![
        item("Bookmark This Page", Some("Ctrl+D"), true, MenuAction::UiAction(UiAction::BookmarkPage)),
        item(
            "Show All Bookmarks",
            Some("Ctrl+Shift+B"),
            true,
            MenuAction::UiAction(UiAction::ShowAllBookmarks),
        ),
        item("Bookmark Manager", None, true, MenuAction::TogglePanel(PanelType::Bookmarks)),
    ]
}

/// The Tools menu.
pub open spec fn tools_menu_spec() -> Seq<MenuEntryView> {
    seq![
        item("Downloads", Some("Ctrl+J"), true, MenuAction::TogglePanel(PanelType::Downloads)),
        item("Extensions", None, true, about()),
        item("Developer Tools", Some("F12"), true, MenuAction::TogglePanel(PanelType::DevTools)),
        MenuEntryView::Separator,
        item("Settings", Some("Ctrl+,"), true, MenuAction::TogglePanel(PanelType::Settings)),
    ]
}

/// The Help menu.
pub open spec fn help_menu_spec() -> Seq<MenuEntryView> {
    seq![
        item("About", None, true, about()),
        item("Documentation", None, true, MenuAction::UiAction(UiAction::ShowDocumentation)),
        item("Report Issue", None, true, MenuAction::UiAction(UiAction::ReportIssue)),
    ]
}

/// The menus of the bar, left to right, with their titles and entries.
pub open spec fn menus_spec(m: MenuBarView) -> Seq<(&'static str, Seq<MenuEntryView>)> {
    seq![
        ("File", file_menu_spec(m)),
        ("Edit", edit_menu_spec(m)),
        ("View", view_menu_spec(m)),
        ("History", history_menu_spec(m)),
        ("Bookmarks", bookmarks_menu_spec()),
        ("Tools", tools_menu_spec()),
        ("Help", help_menu_spec()),
    ]
}

/// The menus as titles and abstract entries.
pub open spec fn menus_view(v: Seq<Menu>) -> Seq<(&'static str, Seq<MenuEntryView>)> {
    v.map_values(|m: Menu| (m.title, entries_view(m.entries@)))
}

fn push_item(
    v: &mut Vec<MenuEntry>,
    label: &'static str,
    shortcut: Option<&'static str>,
    enabled: bool,
    action: MenuAction,
)
    ensures
        entries_view(final(v)@) == entries_view(old(v)@).push(item(label, shortcut, enabled, action)),
{
    v.push(MenuEntry::Item(MenuButton { label, shortcut, enabled, action }));
    proof {
        assert(entries_view(v@) =~= entries_view(old(v)@).push(item(label, shortcut, enabled, action)));
    }
}

fn push_separator(v: &mut Vec<MenuEntry>)
    ensures
        entries_view(final(v)@) == entries_view(old(v)@).push(MenuEntryView::Separator),
{
    v.push(MenuEntry::Separator);
    proof {
        assert(entries_view(v@) =~= entries_view(old(v)@).push(MenuEntryView::Separator));
    }
}

impl MenuBar {
    fn file_entries(&self) -> (v: Vec<MenuEntry>)
        ensures
            entries_view(v@) == file_menu_spec(self@),
    {
        let about = MenuAction::UiAction(UiAction::About);
        let mut v: Vec<MenuEntry> = Vec::new();
        proof {
            assert(entries_view(v@) =~= Seq::<MenuEntryView>::empty());
        }
        push_item(&mut v, "New Window", Some("Ctrl+N"), true, about);
        push_item(&mut v, "New Tab", Some("Ctrl+T"), true, about);
        push_item(&mut v, "New Private Window", Some("Ctrl+Shift+N"), true, about);
        push_separator(&mut v);
        push_item(&mut v, "Open File...", Some("Ctrl+O"), true, about);
        push_separator(&mut v);
        push_item(&mut v, "Close Tab", Some("Ctrl+W"), self.has_tab(), about);
        push_item(&mut v, "Close Window", Some("Ctrl+Shift+W"), true, about);
        push_separator(&mut v);
        push_item(&mut v, "Exit", Some("Alt+F4"), true, about);
        v
    }

    fn edit_entries(&self) -> (v: Vec<MenuEntry>)
        ensures
            entries_view(v@) == edit_menu_spec(self@),
    {
        let mut v: Vec<MenuEntry> = Vec::new();
        proof {
            assert(entries_view(v@) =~= Seq::<MenuEntryView>::empty());
        }
        push_item(&mut v, "Undo", Some("Ctrl+Z"), self.can_undo(), MenuAction::UiAction(UiAction::Undo));
        push_item(&mut v, "Redo", Some("Ctrl+Y"), self.can_redo(), MenuAction::UiAction(UiAction::Redo));
        push_separator(&mut v);
        push_item(&mut v, "Cut", Some("Ctrl+X"), true, MenuAction::UiAction(UiAction::Cut));
        push_item(&mut v, "Copy", Some("Ctrl+C"), true, MenuAction::UiAction(UiAction::Copy));
        push_item(&mut v, "Paste", Some("Ctrl+V"), true, MenuAction::UiAction(UiAction::Paste));
        push_separator(&mut v);
        push_item(&mut v, "Select All", Some("Ctrl+A"), true, MenuAction::UiAction(UiAction::SelectAll));
        push_separator(&mut v);
        push_item(&mut v, "Find...", Some("Ctrl+F"), true, MenuAction::UiAction(UiAction::Find));
        v
    }

    fn view_entries(&self) -> (v: Vec<MenuEntry>)
        ensures
            entries_view(v@) == view_menu_spec(self@),
    {
        let mut v: Vec<MenuEntry> = Vec::new();
        proof {
            assert(entries_view(v@) =~= Seq::<MenuEntryView>::empty());
        }
        push_item(&mut v, "Zoom In", Some("Ctrl++"), true, MenuAction::UiAction(UiAction::ZoomIn));
        push_item(&mut v, "Zoom Out", Some("Ctrl+-"), true, MenuAction::UiAction(UiAction::ZoomOut));
        push_item(&mut v, "Reset Zoom", Some("Ctrl+0"), true, MenuAction::UiAction(UiAction::ResetZoom));
        push_separator(&mut v);
        let mut text = String::from_str("Zoom: ");
        let digits = decimal_string(self.zoom_level() as u64);
        text.append(digits.as_str());
        text.append("%");
        let ghost before = entries_view(v@);
        v.push(MenuEntry::Label(text));
        proof {
            assert(entries_view(v@) =~= before.push(MenuEntryView::Label(zoom_text(self@.zoom_level))));
        }
        push_separator(&mut v);
        push_item(&mut v, "Full Screen", Some("F11"), true, MenuAction::UiAction(UiAction::FullScreen));
        push_item(&mut v, "Developer Tools", Some("F12"), true, MenuAction::TogglePanel(PanelType::DevTools));
        v
    }

    fn history_entries(&self) -> (v: Vec<MenuEntry>)
        ensures
            entries_view(v@) == history_menu_spec(self@),
    {
        let about = MenuAction::UiAction(UiAction::About);
        let mut v: Vec<MenuEntry> = Vec::new();
        proof {
            assert(entries_view(v@) =~= Seq::<MenuEntryView>::empty());
        }
        push_item(&mut v, "Back", Some("Alt+←"), self.can_go_back(), about);
        push_item(&mut v, "Forward", Some("Alt+→"), self.can_go_forward(), about);
        push_separator(&mut v);
        push_item(&mut v, "Show All History", Some("Ctrl+H"), true, MenuAction::UiAction(UiAction::ShowAllHistory));
        push_item(&mut v, "Recently Closed Tabs", None, true, about);
        push_separator(&mut v);
        push_item(&mut v, "Clear History...", None, true, MenuAction::UiAction(UiAction::ClearHistory));
        v
    }

    fn bookmarks_entries(&self) -> (v: Vec<MenuEntry>)
        ensures
            entries_view(v@) == bookmarks_menu_spec(),
    {
        let mut v: Vec<MenuEntry> = Vec::new();
        proof {
            assert(entries_view(v@) =~= Seq::<MenuEntryView>::empty());
        }
        push_item(&mut v, "Bookmark This Page", Some("Ctrl+D"), true, MenuAction::UiAction(UiAction::BookmarkPage));
        push_item(
            &mut v,
            "Show All Bookmarks",
            Some("Ctrl+Shift+B"),
            true,
            MenuAction::UiAction(UiAction::ShowAllBookmarks),
        );
        push_item(&mut v, "Bookmark Manager", None, true, MenuAction::TogglePanel(PanelType::Bookmarks));
        v
    }

    fn tools_entries(&self) -> (v: Vec<MenuEntry>)
        ensures
            entries_view(v@) == tools_menu_spec(),
    {
        let mut v: Vec<MenuEntry> = Vec::new();
        proof {
            assert(entries_view(v@) =~= Seq::<MenuEntryView>::empty());
        }
        push_item(&mut v, "Downloads", Some("Ctrl+J"), true, MenuAction::TogglePanel(PanelType::Downloads));
        push_item(&mut v, "Extensions", None, true, MenuAction::UiAction(UiAction::About));
        push_item(&mut v, "Developer Tools", Some("F12"), true, MenuAction::TogglePanel(PanelType::DevTools));
        push_separator(&mut v);
        push_item(&mut v, "Settings", Some("Ctrl+,"), true, MenuAction::TogglePanel(PanelType::Settings));
        v
    }

    fn help_entries(&self) -> (v: Vec<MenuEntry>)
        ensures
            entries_view(v@) == help_menu_spec(),
    {
        let mut v: Vec<MenuEntry> = Vec::new();
        proof {
            assert(entries_view(v@) =~= Seq::<MenuEntryView>::empty());
        }
        push_item(&mut v, "About", None, true, MenuAction::UiAction(UiAction::About));
        push_item(&mut v, "Documentation", None, true, MenuAction::UiAction(UiAction::ShowDocumentation));
        push_item(&mut v, "Report Issue", None, true, MenuAction::UiAction(UiAction::ReportIssue));
        v
    }

    /// The menus to draw, left to right: each title with its entries, their
    /// shortcuts, whether each is enabled, and the action a click gives.
    pub fn menus(&self) -> (r: Vec<Menu>)
        ensures
            menus_view(r@) == menus_spec(self@),
    {
        let mut r: Vec<Menu> = Vec::new();
        r.push(Menu { title: "File", entries: self.file_entries() });
        r.push(Menu { title: "Edit", entries: self.edit_entries() });
        r.push(Menu { title: "View", entries: self.view_entries() });
        r.push(Menu { title: "History", entries: self.history_entries() });
        r.push(Menu { title: "Bookmarks", entries: self.bookmarks_entries() });
        r.push(Menu { title: "Tools", entries: self.tools_entries() });
        r.push(Menu { title: "Help", entries: self.help_entries() });
        proof {
            assert(menus_view(r@) =~= menus_spec(self@));
        }
        r
    }
}

} // verus!
