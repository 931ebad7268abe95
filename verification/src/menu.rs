//! Application menu state: which entries are enabled and the zoom level;
//! and a registry of menus whose entries can be added, switched on or off
//! and removed at run time.
use vstd::prelude::*;
use crate::seqs::{first_match, lemma_first_match, lemma_first_match_at, lemma_first_match_none};
use crate::text::{decimal, decimal_string};
use crate::types::ComponentError;

verus! {

/// Types of UI panels that can be toggled.
#[derive(Debug, Clone, Copy, PartialEq, Eq, Structural)]
pub enum PanelType {
    Settings,
    History,
    Downloads,
    Bookmarks,
    DevTools,
}

/// UI actions that don't involve messaging.
#[derive(Debug, Clone, Copy, PartialEq, Eq, Structural)]
pub enum UiAction {
    ZoomIn,
    ZoomOut,
    ResetZoom,
    FullScreen,
    BookmarkPage,
    Find,
    About,
    Undo,
    Redo,
    Cut,
    Copy,
    Paste,
    SelectAll,
    ShowAllHistory,
    ClearHistory,
    ShowAllBookmarks,
    ReportIssue,
    ShowDocumentation,
}

/// Action to be taken when a menu item is clicked.
#[derive(Debug, Clone, Copy, PartialEq, Eq, Structural)]
pub enum MenuAction {
    /// Toggle a UI panel.
    TogglePanel(PanelType),
    /// Perform a UI action.
    UiAction(UiAction),
    /// No action (disabled menu item).
    NoAction,
}

/// Menu bar state.
#[derive(Debug, Clone)]
pub struct MenuBar {
    can_go_back: bool,
    can_go_forward: bool,
    has_tab: bool,
    has_multiple_tabs: bool,
    can_undo: bool,
    can_redo: bool,
    zoom_level: u32,
}

/// The abstract state of a menu bar.
pub struct MenuBarView {
    pub can_go_back: bool,
    pub can_go_forward: bool,
    pub has_tab: bool,
    pub has_multiple_tabs: bool,
    pub can_undo: bool,
    pub can_redo: bool,
    pub zoom_level: u32,
}

impl View for MenuBar {
    type V = MenuBarView;

    closed spec fn view(&self) -> MenuBarView {
        MenuBarView {
            can_go_back: self.can_go_back,
            can_go_forward: self.can_go_forward,
            has_tab: self.has_tab,
            has_multiple_tabs: self.has_multiple_tabs,
            can_undo: self.can_undo,
            can_redo: self.can_redo,
            zoom_level: self.zoom_level,
        }
    }
}

impl MenuBar {
    /// Create a new menu bar: nothing to go back or forward to, one tab,
    /// nothing to undo or redo, zoom at 100%.
    pub fn new() -> (m: MenuBar)
        ensures
            !m@.can_go_back,
            !m@.can_go_forward,
            m@.has_tab,
            !m@.has_multiple_tabs,
            !m@.can_undo,
            !m@.can_redo,
            m@.zoom_level == 100,
    {
        MenuBar {
            can_go_back: false,
            can_go_forward: false,
            has_tab: true,
            has_multiple_tabs: false,
            can_undo: false,
            can_redo: false,
            zoom_level: 100,
        }
    }

    /// Update navigation state.
    pub fn set_navigation_state(&mut self, can_go_back: bool, can_go_forward: bool)
        ensures
            final(self)@ == (MenuBarView { can_go_back, can_go_forward, ..old(self)@ }),
    {
        self.can_go_back = can_go_back;
        self.can_go_forward = can_go_forward;
    }

    /// Update tab state.
    pub fn set_tab_state(&mut self, has_tab: bool, has_multiple_tabs: bool)
        ensures
            final(self)@ == (MenuBarView { has_tab, has_multiple_tabs, ..old(self)@ }),
    {
        self.has_tab = has_tab;
        self.has_multiple_tabs = has_multiple_tabs;
    }

    /// Update edit state.
    pub fn set_edit_state(&mut self, can_undo: bool, can_redo: bool)
        ensures
            final(self)@ == (MenuBarView { can_undo, can_redo, ..old(self)@ }),
    {
        self.can_undo = can_undo;
        self.can_redo = can_redo;
    }

    /// Set zoom level.
    pub fn set_zoom_level(&mut self, zoom: u32)
        ensures
            final(self)@ == (MenuBarView { zoom_level: zoom, ..old(self)@ }),
    {
        self.zoom_level = zoom;
    }

    /// Get current zoom level.
    pub fn zoom_level(&self) -> (z: u32)
        ensures
            z == self@.zoom_level,
    {
        self.zoom_level
    }

    /// Whether there is history to go back to.
    pub fn can_go_back(&self) -> (b: bool)
        ensures
            b == self@.can_go_back,
    {
        self.can_go_back
    }

    /// Whether there is history to go forward to.
    pub fn can_go_forward(&self) -> (b: bool)
        ensures
            b == self@.can_go_forward,
    {
        self.can_go_forward
    }

    /// Whether there is a tab to close.
    pub fn has_tab(&self) -> (b: bool)
        ensures
            b == self@.has_tab,
    {
        self.has_tab
    }

    /// Whether there are several tabs.
    pub fn has_multiple_tabs(&self) -> (b: bool)
        ensures
            b == self@.has_multiple_tabs,
    {
        self.has_multiple_tabs
    }

    /// Whether undo is available.
    pub fn can_undo(&self) -> (b: bool)
        ensures
            b == self@.can_undo,
    {
        self.can_undo
    }

    /// Whether redo is available.
    pub fn can_redo(&self) -> (b: bool)
        ensures
            b == self@.can_redo,
    {
        self.can_redo
    }
}

} // verus!

verus! {

impl Default for MenuBar {
    /// The menu bar that `new` gives.
    fn default() -> (m: Self)
        ensures
            !m@.can_go_back,
            !m@.can_go_forward,
            m@.has_tab,
            !m@.has_multiple_tabs,
            !m@.can_undo,
            !m@.can_redo,
            m@.zoom_level == 100,
    {
        MenuBar::new()
    }
}

} // verus!

verus! {

/// Identifier of a menu, or of an entry within its menu (its position).
pub type MenuId = usize;

/// An entry of a menu in the registry.
#[derive(Debug, PartialEq, Eq)]
pub struct MenuItem {
    pub label: String,
    /// The shortcut shown beside the label, if any.
    pub shortcut: Option<String>,
    pub enabled: bool,
    pub visible: bool,
    /// Whether a separator follows the entry.
    pub separator_after: bool,
}

impl Clone for MenuItem {
    fn clone(&self) -> (r: Self)
        ensures
            r == *self,
    {
        let shortcut = match &self.shortcut {
            Some(s) => Some(s.clone()),
            None => None,
        };
        MenuItem {
            label: self.label.clone(),
            shortcut,
            enabled: self.enabled,
            visible: self.visible,
            separator_after: self.separator_after,
        }
    }
}

/// A menu of the registry: its identifier, label and entries in order.
#[derive(Debug)]
pub struct MenuData {
    pub id: MenuId,
    pub label: String,
    pub items: Vec<MenuItem>,
}

/// The abstract value of a menu.
pub struct MenuRecord {
    pub id: MenuId,
    pub label: Seq<char>,
    pub items: Seq<MenuItem>,
}

/// A menu as its abstract value.
pub open spec fn menu_record(m: MenuData) -> MenuRecord {
    MenuRecord { id: m.id, label: m.label@, items: m.items@ }
}

/// The abstract state of a menu registry.
pub struct MenuSystemView {
    /// The menus, in the order they were added.
    pub menus: Seq<MenuRecord>,
    /// The identifier the next menu receives.
    pub next_id: nat,
}

impl MenuSystemView {
    /// Identifiers are distinct and below the next one.
    pub open spec fn wf(self) -> bool {
        &&& forall|i: int, j: int|
            0 <= i < j < self.menus.len() ==> #[trigger] self.menus[i].id != #[trigger] self.menus[j].id
        &&& forall|i: int| 0 <= i < self.menus.len() ==> (#[trigger] self.menus[i]).id < self.next_id
    }
}

/// The menu has this identifier.
pub open spec fn menu_id_is(id: MenuId) -> spec_fn(MenuRecord) -> bool {
    |m: MenuRecord| m.id == id
}

/// The position of the menu with identifier `id`, if any.
pub open spec fn menu_position(menus: Seq<MenuRecord>, id: MenuId) -> Option<int> {
    first_match(menus, menu_id_is(id))
}

/// The menu with identifier `id`, if any.
pub open spec fn menu_lookup(menus: Seq<MenuRecord>, id: MenuId) -> Option<MenuRecord> {
    match menu_position(menus, id) {
        Some(i) => Some(menus[i]),
        None => None,
    }
}

/// "Menu <id> not found".
pub open spec fn menu_missing_message(id: MenuId) -> Seq<char> {
    "Menu "@ + decimal(id as nat) + " not found"@
}

/// "Menu item <item> not found".
pub open spec fn item_missing_message(item: MenuId) -> Seq<char> {
    "Menu item "@ + decimal(item as nat) + " not found"@
}

/// `r` is a not-found error with message `msg`.
pub open spec fn is_not_found<T>(r: Result<T, ComponentError>, msg: Seq<char>) -> bool {
    match r {
        Err(ComponentError::ResourceNotFound(m)) => m@ == msg,
        _ => false,
    }
}

fn not_found(what: &str, id: MenuId) -> (s: String)
    ensures
        s@ == what@ + decimal(id as nat) + " not found"@,
{
    let mut s = String::from_str(what);
    let digits = decimal_string(id as u64);
    s.append(digits.as_str());
    s.append(" not found");
    s
}

/// A registry of menus.
#[derive(Debug)]
pub struct MenuSystem {
    menus: Vec<MenuData>,
    next_id: MenuId,
}

impl View for MenuSystem {
    type V = MenuSystemView;

    closed spec fn view(&self) -> MenuSystemView {
        MenuSystemView {
            menus: self.menus@.map_values(|m: MenuData| menu_record(m)),
            next_id: self.next_id as nat,
        }
    }
}

impl MenuSystem {
    /// An empty registry; the first menu gets identifier 1.
    pub fn new() -> (s: Self)
        ensures
            s@.wf(),
            s@.menus.len() == 0,
            s@.next_id == 1,
    {
        let s = MenuSystem { menus: Vec::new(), next_id: 1 };
        proof {
            assert(s@.menus =~= Seq::<MenuRecord>::empty());
        }
        s
    }

    fn position(&self, id: MenuId) -> (r: Option<usize>)
        ensures
            match r {
                Some(i) => menu_position(self@.menus, id) == Some(i as int) && i < self@.menus.len(),
                None => menu_position(self@.menus, id) is None,
            },
    {
        let n = self.menus.len();
        let mut i: usize = 0;
        while i < n
            invariant
                n == self.menus@.len(),
                i <= n,
                forall|j: int| 0 <= j < i ==> self@.menus[j].id != id,
            decreases n - i,
        {
            if self.menus[i].id == id {
                proof {
                    lemma_first_match_at(self@.menus, menu_id_is(id), i as int);
                }
                return Some(i);
            }
            i += 1;
        }
        proof {
            lemma_first_match_none(self@.menus, menu_id_is(id));
        }
        None
    }

    /// Add an empty menu with this label after the others; its identifier.
    pub fn add_menu(&mut self, label: String) -> (id: MenuId)
        requires
            old(self)@.wf(),
            old(self)@.next_id < usize::MAX,
        ensures
            final(self)@.wf(),
            id == old(self)@.next_id,
            final(self)@ == (MenuSystemView {
                menus: old(self)@.menus.push(MenuRecord { id, label: label@, items: Seq::empty() }),
                next_id: old(self)@.next_id + 1,
            }),
    {
        let id = self.next_id;
        let ghost l = label@;
        self.menus.push(MenuData { id, label, items: Vec::new() });
        self.next_id = self.next_id + 1;
        proof {
            assert(self@.menus =~= old(self)@.menus.push(MenuRecord { id, label: l, items: Seq::empty() }));
        }
        id
    }

    /// The menu with this identifier, if any.
    pub fn get_menu(&self, id: MenuId) -> (r: Option<&MenuData>)
        ensures
            match menu_lookup(self@.menus, id) {
                Some(m) => r matches Some(d) && menu_record(*d) == m,
                None => r is None,
            },
    {
        match self.position(id) {
            Some(i) => Some(&self.menus[i]),
            None => None,
        }
    }

    /// Every menu, in the order they were added.
    pub fn get_all_menus(&self) -> (r: &[MenuData])
        ensures
            r@.map_values(|m: MenuData| menu_record(m)) == self@.menus,
    {
        self.menus.as_slice()
    }

    /// Add an entry at the end of a menu; its position there, which names
    /// it from then on.  An unknown menu is an error and changes nothing.
    pub fn add_menu_item(&mut self, menu_id: MenuId, item: MenuItem) -> (r: Result<MenuId, ComponentError>)
        requires
            old(self)@.wf(),
        ensures
            final(self)@.wf(),
            match menu_position(old(self)@.menus, menu_id) {
                Some(i) => r == Ok::<MenuId, ComponentError>(old(self)@.menus[i].items.len() as MenuId)
                    && final(self)@ == (MenuSystemView {
                    menus: old(self)@.menus.update(
                        i,
                        MenuRecord {
                            items: old(self)@.menus[i].items.push(item),
                            ..old(self)@.menus[i]
                        },
                    ),
                    ..old(self)@
                }),
                None => is_not_found(r, menu_missing_message(menu_id)) && final(self)@ == old(self)@,
            },
    {
        let i = match self.position(menu_id) {
            Some(i) => i,
            None => return Err(ComponentError::ResourceNotFound(not_found("Menu ", menu_id))),
        };
        let ghost before = self@;
        let mut m = self.menus.remove(i);
        let item_id = m.items.len();
        let ghost it = item;
        m.items.push(item);
        self.menus.insert(i, m);
        proof {
            assert(self@.menus =~= before.menus.update(
                i as int,
                MenuRecord { items: before.menus[i as int].items.push(it), ..before.menus[i as int] },
            ));
        }
        Ok(item_id)
    }

    /// Switch an entry of a menu on or off.  An unknown menu or entry is an
    /// error and changes nothing.
    pub fn set_item_enabled(&mut self, menu_id: MenuId, item_id: MenuId, enabled: bool) -> (r: Result<
        (),
        ComponentError,
    >)
        requires
            old(self)@.wf(),
        ensures
            final(self)@.wf(),
            match menu_position(old(self)@.menus, menu_id) {
                Some(i) => if item_id < old(self)@.menus[i].items.len() {
                    r is Ok && final(self)@ == (MenuSystemView {
                        menus: old(self)@.menus.update(
                            i,
                            MenuRecord {
                                items: old(self)@.menus[i].items.update(
                                    item_id as int,
                                    MenuItem { enabled, ..old(self)@.menus[i].items[item_id as int] },
                                ),
                                ..old(self)@.menus[i]
                            },
                        ),
                        ..old(self)@
                    })
                } else {
                    is_not_found(r, item_missing_message(item_id)) && final(self)@ == old(self)@
                },
                None => is_not_found(r, menu_missing_message(menu_id)) && final(self)@ == old(self)@,
            },
    {
        let i = match self.position(menu_id) {
            Some(i) => i,
            None => return Err(ComponentError::ResourceNotFound(not_found("Menu ", menu_id))),
        };
        if item_id >= self.menus[i].items.len() {
            return Err(ComponentError::ResourceNotFound(not_found("Menu item ", item_id)));
        }
        let ghost before = self@;
        let mut m = self.menus.remove(i);
        let ghost old_items = m.items@;
        assert(old_items == before.menus[i as int].items);
        let mut entry = m.items.remove(item_id);
        entry.enabled = enabled;
        let ghost e = entry;
        m.items.insert(item_id, entry);
        assert(m.items@ =~= old_items.update(item_id as int, e));
        self.menus.insert(i, m);
        proof {
            assert(e == MenuItem { enabled, ..old_items[item_id as int] });
            assert(self@.menus =~= before.menus.update(
                i as int,
                MenuRecord {
                    items: old_items.update(item_id as int, e),
                    ..before.menus[i as int]
                },
            ));
        }
        Ok(())
    }

    /// Remove a menu.  An unknown menu is an error and changes nothing.
    pub fn remove_menu(&mut self, id: MenuId) -> (r: Result<(), ComponentError>)
        requires
            old(self)@.wf(),
        ensures
            final(self)@.wf(),
            match menu_position(old(self)@.menus, id) {
                Some(i) => r is Ok && final(self)@ == (MenuSystemView {
                    menus: old(self)@.menus.remove(i),
                    ..old(self)@
                }),
                None => is_not_found(r, menu_missing_message(id)) && final(self)@ == old(self)@,
            },
    {
        match self.position(id) {
            Some(i) => {
                let ghost before = self@;
                self.menus.remove(i);
                proof {
                    assert(self@.menus =~= before.menus.remove(i as int));
                }
                Ok(())
            },
            None => Err(ComponentError::ResourceNotFound(not_found("Menu ", id))),
        }
    }
}

impl Default for MenuSystem {
    /// An empty registry.
    fn default() -> (s: Self)
        ensures
            s@.wf(),
            s@.menus.len() == 0,
            s@.next_id == 1,
    {
        MenuSystem::new()
    }
}

/// A menu just added is found under its identifier, with its label and no
/// entries.
pub proof fn law_added_menu_is_found(v: MenuSystemView, label: Seq<char>)
    requires
        v.wf(),
        v.next_id < usize::MAX,
    ensures
        menu_lookup(
            v.menus.push(MenuRecord { id: v.next_id as MenuId, label, items: Seq::empty() }),
            v.next_id as MenuId,
        ) == Some(MenuRecord { id: v.next_id as MenuId, label, items: Seq::<MenuItem>::empty() }),
{
    let rec = MenuRecord { id: v.next_id as MenuId, label, items: Seq::<MenuItem>::empty() };
    let s = v.menus.push(rec);
    assert forall|j: int| 0 <= j < v.menus.len() implies !menu_id_is(v.next_id as MenuId)(#[trigger] s[j]) by {
        assert(s[j] == v.menus[j]);
    }
    lemma_first_match_at(s, menu_id_is(v.next_id as MenuId), v.menus.len() as int);
}

/// A menu removed is no longer found; the other menus still are, unchanged.
pub proof fn law_removed_menu_is_gone(v: MenuSystemView, id: MenuId, other: MenuId)
    requires
        v.wf(),
        menu_position(v.menus, id) is Some,
        other != id,
    ensures
        menu_lookup(v.menus.remove(menu_position(v.menus, id)->0), id) is None,
        menu_lookup(v.menus.remove(menu_position(v.menus, id)->0), other) == menu_lookup(
            v.menus,
            other,
        ),
{
    lemma_first_match(v.menus, menu_id_is(id));
    let k = menu_position(v.menus, id)->0;
    let s = v.menus.remove(k);
    assert forall|j: int| 0 <= j < s.len() implies !menu_id_is(id)(#[trigger] s[j]) by {
        let b = if j < k { j } else { j + 1 };
        assert(s[j] == v.menus[b]);
        assert(v.menus[b].id != v.menus[k].id);
    }
    lemma_first_match_none(s, menu_id_is(id));
    lemma_first_match(v.menus, menu_id_is(other));
    match menu_position(v.menus, other) {
        Some(m) => {
            let p = if m < k { m } else { m - 1 };
            assert(s[p] == v.menus[m]);
            assert forall|j: int| 0 <= j < p implies !menu_id_is(other)(#[trigger] s[j]) by {
                let b = if j < k { j } else { j + 1 };
                assert(s[j] == v.menus[b]);
            }
            lemma_first_match_at(s, menu_id_is(other), p);
        },
        None => {
            assert forall|j: int| 0 <= j < s.len() implies !menu_id_is(other)(#[trigger] s[j]) by {
                let b = if j < k { j } else { j + 1 };
                assert(s[j] == v.menus[b]);
            }
            lemma_first_match_none(s, menu_id_is(other));
        },
    }
}

} // verus!
