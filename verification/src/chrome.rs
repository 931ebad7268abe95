//! Browser chrome state: tabs and their order, the active tab, panels,
//! context menus, downloads, bookmarks and crash recovery.
use vstd::prelude::*;
use crate::crash_recovery::{
    add_closed_tab_spec, closed_tab_position, ClosedTabInfo, CrashRecoveryUi, RecentlyClosedChoice,
    SessionRestoreDialog,
};
use crate::menu::{MenuAction, MenuBar, MenuBarView, PanelType, UiAction};
use crate::seqs::{first_match, lemma_first_match, lemma_first_match_at, lemma_first_match_none};
use crate::settings::{SettingValue, SettingsUi, SettingsUiView, cache_view};
use crate::theme::SettingsTab;
use crate::text::{chars_eq, chars_of, decimal, decimal_string};
use crate::types::{unix_seconds_now, ComponentError, DownloadId, KeyboardShortcut, TabId};

verus! {

/// State for a single tab of the chrome.
#[derive(Debug)]
pub struct TabState {
    /// Unique identifier for this tab.
    pub id: TabId,
    /// Display title for the tab.
    pub title: String,
    /// Whether the tab is currently loading.
    pub loading: bool,
}

impl TabState {
    /// A tab with a fresh random identifier that is not loading.
    pub fn new(title: String) -> (t: TabState)
        ensures
            t.title == title,
            !t.loading,
    {
        TabState { id: TabId::new(), title, loading: false }
    }

    /// A tab with a specific identifier that is not loading.
    pub fn with_id(id: TabId, title: String) -> (t: TabState)
        ensures
            t.id == id,
            t.title == title,
            !t.loading,
    {
        TabState { id, title, loading: false }
    }

}

impl Clone for TabState {
    /// A copy of this tab state.
    fn clone(&self) -> (t: TabState)
        ensures
            t == *self,
    {
        TabState { id: self.id, title: self.title.clone(), loading: self.loading }
    }
}

/// Types of context menus.
#[derive(Debug, Clone, Copy, PartialEq, Eq, Structural)]
pub enum ContextMenuType {
    /// Context menu for a tab.
    Tab(TabId),
    /// Context menu for the address bar.
    AddressBar,
}

/// Download status for UI display.
#[derive(Debug, PartialEq, Eq)]
pub enum DownloadDisplayStatus {
    /// Download is in progress.
    Downloading,
    /// Download is paused.
    Paused,
    /// Download completed successfully.
    Complete,
    /// Download failed.
    Failed(String),
}

impl Clone for DownloadDisplayStatus {
    /// A copy of this status.
    fn clone(&self) -> (r: DownloadDisplayStatus)
        ensures
            r == *self,
    {
        match self {
            DownloadDisplayStatus::Downloading => DownloadDisplayStatus::Downloading,
            DownloadDisplayStatus::Paused => DownloadDisplayStatus::Paused,
            DownloadDisplayStatus::Complete => DownloadDisplayStatus::Complete,
            DownloadDisplayStatus::Failed(m) => DownloadDisplayStatus::Failed(m.clone()),
        }
    }
}

/// Download information for UI display.
#[derive(Debug)]
pub struct DownloadDisplay {
    /// Unique identifier.
    pub id: DownloadId,
    /// Filename.
    pub filename: String,
    /// Downloaded bytes.
    pub downloaded_bytes: u64,
    /// Total bytes.
    pub total_bytes: u64,
    /// Download speed in bytes/sec.
    pub bytes_per_second: u64,
    /// ETA in seconds.
    pub eta_seconds: u64,
    /// Status.
    pub status: DownloadDisplayStatus,
}

impl Clone for DownloadDisplay {
    /// A copy of this download entry.
    fn clone(&self) -> (r: DownloadDisplay)
        ensures
            r == *self,
    {
        DownloadDisplay {
            id: self.id,
            filename: self.filename.clone(),
            downloaded_bytes: self.downloaded_bytes,
            total_bytes: self.total_bytes,
            bytes_per_second: self.bytes_per_second,
            eta_seconds: self.eta_seconds,
            status: self.status.clone(),
        }
    }
}

/// A download that is still going on (downloading or paused).
pub open spec fn is_active_download(d: DownloadDisplay) -> bool {
    d.status is Downloading || d.status is Paused
}

/// The number of downloads in `s` that are still going on.
pub open spec fn count_active_downloads(s: Seq<DownloadDisplay>) -> nat
    decreases s.len(),
{
    if s.len() == 0 {
        0
    } else {
        count_active_downloads(s.drop_last()) + if is_active_download(s.last()) {
            1nat
        } else {
            0nat
        }
    }
}

/// `s` without its completed downloads, in order.
pub open spec fn without_completed(s: Seq<DownloadDisplay>) -> Seq<DownloadDisplay>
    decreases s.len(),
{
    if s.len() == 0 {
        Seq::<DownloadDisplay>::empty()
    } else if s.last().status is Complete {
        without_completed(s.drop_last())
    } else {
        without_completed(s.drop_last()).push(s.last())
    }
}

/// Where the active tab ends up after the tab at `position` is closed, with
/// `new_len` tabs left.
pub open spec fn active_after_close(active: nat, position: nat, new_len: nat) -> nat {
    if position <= active && active > 0 {
        (active - 1) as nat
    } else if active >= new_len {
        (new_len - 1) as nat
    } else {
        active
    }
}

/// Where the active tab ends up after the active tab is closed with the
/// keyboard, with `new_len` tabs left.
pub open spec fn active_after_shortcut_close(active: nat, new_len: nat) -> nat {
    if active >= new_len && active > 0 {
        (new_len - 1) as nat
    } else {
        active
    }
}

/// Where a tab moved from `from` to `to` is inserted once it has been taken
/// out.
pub open spec fn reorder_insert_index(from: nat, to: nat) -> nat {
    if to > from {
        (to - 1) as nat
    } else {
        to
    }
}

/// The active index after moving the tab at `from` so that it is inserted at
/// `insert`.
pub open spec fn active_after_reorder(active: nat, from: nat, insert: nat) -> nat {
    if active == from {
        insert
    } else if from < active && insert >= active {
        (active - 1) as nat
    } else if from > active && insert <= active {
        active + 1
    } else {
        active
    }
}

/// The tab order after moving the tab at `from` so that it is inserted at
/// `insert`.
pub open spec fn reordered<T>(s: Seq<T>, from: int, insert: int) -> Seq<T> {
    s.remove(from).insert(insert, s[from])
}

/// The message of a missing tab.
pub open spec fn tab_not_found_message(id: TabId) -> Seq<char> {
    "Tab TabId("@ + decimal(id.0 as nat) + ") not found"@
}

/// The message of a tab index that is out of range.
pub open spec fn out_of_range_message(what: Seq<char>, index: nat, len: nat) -> Seq<char> {
    what + decimal(index) + " is out of range (have "@ + decimal(len) + " tabs)"@
}

/// The first position of the tab with identifier `id`.
pub open spec fn tab_position(tabs: Seq<TabState>, id: TabId) -> Option<int> {
    first_match(tabs, |t: TabState| t.id == id)
}

/// No two tabs share an identifier.
pub open spec fn distinct_ids(tabs: Seq<TabState>) -> bool {
    forall|i: int, j: int| 0 <= i < j < tabs.len() ==> #[trigger] tabs[i].id != #[trigger] tabs[j].id
}

/// Every tab identifier is below `next`.
pub open spec fn ids_below(tabs: Seq<TabState>, next: nat) -> bool {
    forall|i: int| 0 <= i < tabs.len() ==> (#[trigger] tabs[i]).id.0 < next
}

/// Removing a tab keeps identifiers distinct and below the bound.
proof fn lemma_remove_ids(tabs: Seq<TabState>, p: int, next: nat)
    requires
        0 <= p < tabs.len(),
        distinct_ids(tabs),
        ids_below(tabs, next),
    ensures
        distinct_ids(tabs.remove(p)),
        ids_below(tabs.remove(p), next),
{
    let nt = tabs.remove(p);
    assert forall|a: int, b: int| 0 <= a < b < nt.len() implies #[trigger] nt[a].id
        != #[trigger] nt[b].id by {
        let a2 = if a < p { a } else { a + 1 };
        let b2 = if b < p { b } else { b + 1 };
        assert(nt[a] == tabs[a2]);
        assert(nt[b] == tabs[b2]);
    }
    assert forall|a: int| 0 <= a < nt.len() implies (#[trigger] nt[a]).id.0 < next by {
        let a2 = if a < p { a } else { a + 1 };
        assert(nt[a] == tabs[a2]);
    }
}

/// Moving a tab keeps identifiers distinct and below the bound, and the tab
/// that was at `active` is found at its new active index.
proof fn lemma_reorder(tabs: Seq<TabState>, from: int, ins: int, active: int, next: nat)
    requires
        0 <= from < tabs.len(),
        0 <= ins < tabs.len(),
        0 <= active < tabs.len(),
        distinct_ids(tabs),
        ids_below(tabs, next),
    ensures
        reordered(tabs, from, ins).len() == tabs.len(),
        distinct_ids(reordered(tabs, from, ins)),
        ids_below(reordered(tabs, from, ins), next),
        active_after_reorder(active as nat, from as nat, ins as nat) < tabs.len(),
        reordered(tabs, from, ins)[active_after_reorder(active as nat, from as nat, ins as nat) as int]
            == tabs[active],
{
    let nt = reordered(tabs, from, ins);
    let mid = tabs.remove(from);
    let src = |k: int|
        if k == ins {
            from
        } else {
            let m = if k < ins { k } else { k - 1 };
            if m < from { m } else { m + 1 }
        };
    assert forall|k: int| 0 <= k < nt.len() implies #[trigger] nt[k] == tabs[src(k)] && 0 <= src(k)
        < tabs.len() by {
        if k != ins {
            let m = if k < ins { k } else { k - 1 };
            assert(nt[k] == mid[m]);
        }
    }
    assert forall|a: int, b: int| 0 <= a < b < nt.len() implies #[trigger] nt[a].id
        != #[trigger] nt[b].id by {
        assert(nt[a] == tabs[src(a)]);
        assert(nt[b] == tabs[src(b)]);
        assert(src(a) != src(b));
    }
    assert forall|a: int| 0 <= a < nt.len() implies (#[trigger] nt[a]).id.0 < next by {
        assert(nt[a] == tabs[src(a)]);
    }
    let na = active_after_reorder(active as nat, from as nat, ins as nat) as int;
    assert(nt[na] == tabs[src(na)]);
}

/// The abstract state of the browser chrome.
pub struct UiChromeView {
    pub address_bar_text: Seq<char>,
    /// The tabs, in tab-bar order.
    pub tabs: Seq<TabState>,
    pub active_tab_index: nat,
    /// The identifier that the next new tab receives.
    pub next_tab_id: nat,
    pub address_bar_focused: bool,
    pub settings_panel_visible: bool,
    pub history_panel_visible: bool,
    pub downloads_panel_visible: bool,
    pub context_menu: Option<ContextMenuType>,
    pub hover_url: Option<String>,
    pub download_count: nat,
    pub downloads: Seq<DownloadDisplay>,
    /// Bookmarked addresses, in the order they were added, without repeats.
    pub bookmarks: Seq<Seq<char>>,
    pub menu: MenuBarView,
    pub blocked_content_count: nat,
    pub restore_dialog: SessionRestoreDialog,
    pub show_recently_closed_menu: bool,
    pub closed_tabs: Seq<ClosedTabInfo>,
    pub closed_tabs_max: nat,
    /// The settings panel's state.
    pub settings: SettingsUiView,
}

/// Browser UI chrome state.
pub struct UiChrome {
    address_bar_text: String,
    tabs: Vec<TabState>,
    active_tab_index: usize,
    next_tab_id: u64,
    address_bar_focused: bool,
    settings_panel_visible: bool,
    history_panel_visible: bool,
    downloads_panel_visible: bool,
    active_context_menu: Option<ContextMenuType>,
    hover_url: Option<String>,
    download_count: usize,
    downloads: Vec<DownloadDisplay>,
    bookmarks: Vec<String>,
    menu_bar: MenuBar,
    blocked_content_count: usize,
    crash_recovery: CrashRecoveryUi,
    settings_ui: SettingsUi,
}

impl View for UiChrome {
    type V = UiChromeView;

    closed spec fn view(&self) -> UiChromeView {
        UiChromeView {
            address_bar_text: self.address_bar_text@,
            tabs: self.tabs@,
            active_tab_index: self.active_tab_index as nat,
            next_tab_id: self.next_tab_id as nat,
            address_bar_focused: self.address_bar_focused,
            settings_panel_visible: self.settings_panel_visible,
            history_panel_visible: self.history_panel_visible,
            downloads_panel_visible: self.downloads_panel_visible,
            context_menu: self.active_context_menu,
            hover_url: self.hover_url,
            download_count: self.download_count as nat,
            downloads: self.downloads@,
            bookmarks: self.bookmarks@.map_values(|b: String| b@),
            menu: self.menu_bar@,
            blocked_content_count: self.blocked_content_count as nat,
            restore_dialog: self.crash_recovery.restore_dialog,
            show_recently_closed_menu: self.crash_recovery.show_recently_closed_menu,
            closed_tabs: self.crash_recovery.recently_closed.spec_tabs(),
            closed_tabs_max: self.crash_recovery.recently_closed.spec_max_tabs(),
            settings: self.settings_ui@,
        }
    }
}

impl UiChromeView {
    /// The active tab index is in range, tabs have distinct identifiers below
    /// the next one, at least one tab is open, and the zoom level is at most
    /// 300%.
    pub open spec fn wf(self) -> bool {
        &&& self.tabs.len() >= 1
        &&& self.active_tab_index < self.tabs.len()
        &&& distinct_ids(self.tabs)
        &&& ids_below(self.tabs, self.next_tab_id)
        &&& self.menu.zoom_level <= 300
        &&& self.closed_tabs.len() <= self.closed_tabs_max
        &&& forall|i: int, j: int|
            0 <= i < j < self.bookmarks.len() ==> #[trigger] self.bookmarks[i]
                != #[trigger] self.bookmarks[j]
    }

}

impl UiChrome {
    /// The chrome is well formed.
    pub open spec fn wf(&self) -> bool {
        self@.wf() && self.inner_wf()
    }

    /// The crash recovery state is well formed.
    pub closed spec fn inner_wf(&self) -> bool {
        self.crash_recovery.wf()
    }

    /// A chrome with one "New Tab" tab (identifier 1), nothing else open and
    /// zoom at 100%.
    pub fn new() -> (c: UiChrome)
        ensures
            c.wf(),
            c@.tabs.len() == 1,
            c@.tabs[0].id == TabId(1),
            c@.tabs[0].title@ == "New Tab"@,
            !c@.tabs[0].loading,
            c@.active_tab_index == 0,
            c@.next_tab_id == 2,
            c@.address_bar_text == Seq::<char>::empty(),
            !c@.address_bar_focused,
            !c@.settings_panel_visible,
            !c@.history_panel_visible,
            !c@.downloads_panel_visible,
            c@.context_menu is None,
            c@.hover_url is None,
            c@.download_count == 0,
            c@.downloads == Seq::<DownloadDisplay>::empty(),
            c@.bookmarks == Seq::<Seq<char>>::empty(),
            c@.menu.zoom_level == 100,
            c@.blocked_content_count == 0,
            c@.restore_dialog == SessionRestoreDialog::Hidden,
            !c@.show_recently_closed_menu,
            c@.closed_tabs == Seq::<ClosedTabInfo>::empty(),
            c@.closed_tabs_max == 10,
            c@.settings.current_tab == SettingsTab::General,
            c@.settings.cache.len() == 0,
            !c@.settings.has_unsaved_changes,
    {
        let mut tabs: Vec<TabState> = Vec::new();
        tabs.push(TabState::with_id(TabId(1), String::from_str("New Tab")));
        let c = UiChrome {
            address_bar_text: String::new(),
            tabs,
            active_tab_index: 0,
            next_tab_id: 2,
            address_bar_focused: false,
            settings_panel_visible: false,
            history_panel_visible: false,
            downloads_panel_visible: false,
            active_context_menu: None,
            hover_url: None,
            download_count: 0,
            downloads: Vec::new(),
            bookmarks: Vec::new(),
            menu_bar: MenuBar::new(),
            blocked_content_count: 0,
            crash_recovery: CrashRecoveryUi::new(),
            settings_ui: SettingsUi::new(),
        };
        assert(c.bookmarks@.map_values(|b: String| b@) =~= Seq::<Seq<char>>::empty());
        c
    }

    /// The current address bar text.
    pub fn address_bar_text(&self) -> (s: &str)
        ensures
            s@ == self@.address_bar_text,
    {
        self.address_bar_text.as_str()
    }

    /// The number of tabs.
    pub fn tab_count(&self) -> (n: usize)
        ensures
            n == self@.tabs.len(),
    {
        self.tabs.len()
    }

    /// The active tab index.
    pub fn active_tab_index(&self) -> (i: usize)
        ensures
            i == self@.active_tab_index,
    {
        self.active_tab_index
    }

    /// The identifier of the tab at position `index`.
    pub fn get_tab_id(&self, index: usize) -> (r: Option<TabId>)
        ensures
            r == (if index < self@.tabs.len() {
                Some(self@.tabs[index as int].id)
            } else {
                None::<TabId>
            }),
    {
        if index < self.tabs.len() {
            Some(self.tabs[index].id)
        } else {
            None
        }
    }

    /// The position of the tab with this identifier.
    fn find_tab(&self, tab_id: TabId) -> (r: Option<usize>)
        ensures
            match r {
                Some(i) => tab_position(self@.tabs, tab_id) == Some(i as int) && i
                    < self@.tabs.len() && self@.tabs[i as int].id == tab_id,
                None => tab_position(self@.tabs, tab_id) is None,
            },
    {
        let n = self.tabs.len();
        let mut i: usize = 0;
        while i < n
            invariant
                n == self.tabs@.len(),
                i <= n,
                forall|j: int| 0 <= j < i ==> self.tabs@[j].id != tab_id,
            decreases n - i,
        {
            if self.tabs[i].id == tab_id {
                proof {
                    lemma_first_match_at(self.tabs@, |t: TabState| t.id == tab_id, i as int);
                }
                return Some(i);
            }
            i += 1;
        }
        proof {
            lemma_first_match_none(self.tabs@, |t: TabState| t.id == tab_id);
        }
        None
    }

    /// The title of a tab.
    pub fn get_tab_title(&self, tab_id: TabId) -> (r: Option<String>)
        ensures
            r == (match tab_position(self@.tabs, tab_id) {
                Some(i) => Some(self@.tabs[i].title),
                None => None::<String>,
            }),
    {
        match self.find_tab(tab_id) {
            Some(i) => Some(self.tabs[i].title.clone()),
            None => None,
        }
    }

    /// Whether a tab is loading.
    pub fn is_tab_loading(&self, tab_id: TabId) -> (r: Option<bool>)
        ensures
            r == (match tab_position(self@.tabs, tab_id) {
                Some(i) => Some(self@.tabs[i].loading),
                None => None::<bool>,
            }),
    {
        match self.find_tab(tab_id) {
            Some(i) => Some(self.tabs[i].loading),
            None => None,
        }
    }

    /// The identifier of the active tab.
    pub fn active_tab_id(&self) -> (r: Option<TabId>)
        ensures
            r == (if self@.active_tab_index < self@.tabs.len() {
                Some(self@.tabs[self@.active_tab_index as int].id)
            } else {
                None::<TabId>
            }),
    {
        self.get_tab_id(self.active_tab_index)
    }

    /// Whether the address bar has focus.
    pub fn is_address_bar_focused(&self) -> (b: bool)
        ensures
            b == self@.address_bar_focused,
    {
        self.address_bar_focused
    }

    /// Record whether the address bar has focus.
    pub fn set_address_bar_focused(&mut self, focused: bool)
        requires
            old(self).wf(),
        ensures
            final(self).wf(),
            final(self)@ == (UiChromeView { address_bar_focused: focused, ..old(self)@ }),
    {
        self.address_bar_focused = focused;
    }

    /// Whether another tab can be created (identifiers are not exhausted).
    pub open spec fn can_add_tab(&self) -> bool {
        self@.next_tab_id < u64::MAX
    }

    /// Whether another tab can be created, as `add_tab` requires.
    pub fn has_free_tab_id(&self) -> (b: bool)
        ensures
            b == self.can_add_tab(),
    {
        self.next_tab_id < u64::MAX
    }

    /// Add a new tab at the end of the tab bar and make it active; it
    /// receives the next identifier.
    pub fn add_tab(&mut self, title: String) -> (id: TabId)
        requires
            old(self).wf(),
            old(self).can_add_tab(),
        ensures
            final(self).wf(),
            id == TabId(old(self)@.next_tab_id as u64),
            final(self)@ == (UiChromeView {
                tabs: old(self)@.tabs.push(TabState { id, title, loading: false }),
                active_tab_index: old(self)@.tabs.len(),
                next_tab_id: old(self)@.next_tab_id + 1,
                ..old(self)@
            }),
    {
        let id = TabId(self.next_tab_id);
        self.tabs.push(TabState::with_id(id, title));
        self.next_tab_id = self.next_tab_id + 1;
        self.active_tab_index = self.tabs.len() - 1;
        proof {
            assert(self@.tabs[self@.tabs.len() - 1].id == id);
        }
        id
    }

    /// Make the tab with this identifier active.
    pub fn set_active_tab(&mut self, tab_id: TabId) -> (r: Result<(), ComponentError>)
        requires
            old(self).wf(),
        ensures
            final(self).wf(),
            match tab_position(old(self)@.tabs, tab_id) {
                Some(i) => r is Ok && final(self)@ == (UiChromeView {
                    active_tab_index: i as nat,
                    ..old(self)@
                }),
                None => is_error_missing(r, tab_not_found_message(tab_id)) && final(self)@ == old(self)@,
            },
    {
        match self.find_tab(tab_id) {
            Some(i) => {
                self.active_tab_index = i;
                Ok(())
            },
            None => Err(ComponentError::ResourceNotFound(tab_not_found(tab_id))),
        }
    }

    /// Set a tab's title.
    pub fn update_tab_title(&mut self, tab_id: TabId, title: String) -> (r: Result<
        (),
        ComponentError,
    >)
        requires
            old(self).wf(),
        ensures
            final(self).wf(),
            match tab_position(old(self)@.tabs, tab_id) {
                Some(i) => r is Ok && final(self)@ == (UiChromeView {
                    tabs: old(self)@.tabs.update(
                        i,
                        TabState { title, ..old(self)@.tabs[i] },
                    ),
                    ..old(self)@
                }),
                None => is_error_missing(r, tab_not_found_message(tab_id)) && final(self)@ == old(self)@,
            },
    {
        match self.find_tab(tab_id) {
            Some(i) => {
                let old_tab = self.tabs.remove(i);
                self.tabs.insert(i, TabState { id: old_tab.id, title, loading: old_tab.loading });
                proof {
                    assert(self@.tabs =~= old(self)@.tabs.update(
                        i as int,
                        TabState { title, ..old(self)@.tabs[i as int] },
                    ));
                    assert forall|k: int| 0 <= k < self@.tabs.len() implies (
                    #[trigger] self@.tabs[k]).id == old(self)@.tabs[k].id by {}
                }
                Ok(())
            },
            None => Err(ComponentError::ResourceNotFound(tab_not_found(tab_id))),
        }
    }

    /// Set a tab's loading state.
    pub fn update_loading_state(&mut self, tab_id: TabId, loading: bool) -> (r: Result<
        (),
        ComponentError,
    >)
        requires
            old(self).wf(),
        ensures
            final(self).wf(),
            match tab_position(old(self)@.tabs, tab_id) {
                Some(i) => r is Ok && final(self)@ == (UiChromeView {
                    tabs: old(self)@.tabs.update(
                        i,
                        TabState { loading, ..old(self)@.tabs[i] },
                    ),
                    ..old(self)@
                }),
                None => is_error_missing(r, tab_not_found_message(tab_id)) && final(self)@ == old(self)@,
            },
    {
        match self.find_tab(tab_id) {
            Some(i) => {
                let old_tab = self.tabs.remove(i);
                self.tabs.insert(i, TabState { id: old_tab.id, title: old_tab.title, loading });
                proof {
                    assert(self@.tabs =~= old(self)@.tabs.update(
                        i as int,
                        TabState { loading, ..old(self)@.tabs[i as int] },
                    ));
                    assert forall|k: int| 0 <= k < self@.tabs.len() implies (
                    #[trigger] self@.tabs[k]).id == old(self)@.tabs[k].id by {}
                }
                Ok(())
            },
            None => Err(ComponentError::ResourceNotFound(tab_not_found(tab_id))),
        }
    }

    /// Set the address bar text.
    pub fn handle_address_bar_input(&mut self, text: String) -> (r: Result<(), ComponentError>)
        requires
            old(self).wf(),
        ensures
            final(self).wf(),
            r is Ok,
            final(self)@ == (UiChromeView { address_bar_text: text@, ..old(self)@ }),
    {
        self.address_bar_text = text;
        Ok(())
    }
}

/// "Tab TabId(<id>) not found".
fn tab_not_found(id: TabId) -> (s: String)
    ensures
        s@ == tab_not_found_message(id),
{
    let mut s = String::from_str("Tab TabId(");
    let n = decimal_string(id.0);
    s.append(n.as_str());
    s.append(") not found");
    s
}

/// `what`, then `index`, then " is out of range (have <len> tabs)".
fn out_of_range(what: &str, index: usize, len: usize) -> (s: String)
    ensures
        s@ == out_of_range_message(what@, index as nat, len as nat),
{
    let mut s = String::from_str(what);
    let i = decimal_string(index as u64);
    s.append(i.as_str());
    s.append(" is out of range (have ");
    let n = decimal_string(len as u64);
    s.append(n.as_str());
    s.append(" tabs)");
    s
}

} // verus!

verus! {

/// `r` is an invalid-state error with message `msg`.
pub open spec fn is_error_invalid(r: Result<(), ComponentError>, msg: Seq<char>) -> bool {
    match r {
        Err(ComponentError::InvalidState(m)) => m@ == msg,
        _ => false,
    }
}

/// `r` is a resource-not-found error with message `msg`.
pub open spec fn is_error_missing(r: Result<(), ComponentError>, msg: Seq<char>) -> bool {
    match r {
        Err(ComponentError::ResourceNotFound(m)) => m@ == msg,
        _ => false,
    }
}

/// The message of an operation that would close the last tab.
pub open spec fn last_tab_message() -> Seq<char> {
    "Cannot close the last tab"@
}

/// `t` is the record that closing the tab at position `i` leaves behind.
pub open spec fn closed_record(v: UiChromeView, i: int, t: ClosedTabInfo) -> bool {
    t.id == v.tabs[i].id && t.title == v.tabs[i].title && t.url@ == v.address_bar_text
}

/// `new` and `r` are what closing the tab `tab_id` of `old` gives: the last
/// remaining tab cannot be closed, an unknown tab is an error, and a closed
/// tab is remembered first among the recently closed tabs.
pub open spec fn closes_tab(
    old: UiChromeView,
    new: UiChromeView,
    tab_id: TabId,
    r: Result<(), ComponentError>,
) -> bool {
    if old.tabs.len() <= 1 {
        is_error_invalid(r, last_tab_message()) && new == old
    } else {
        match tab_position(old.tabs, tab_id) {
            Some(i) => r is Ok && exists|t: ClosedTabInfo|
                #![trigger closed_record(old, i, t)]
                closed_record(old, i, t) && new == (UiChromeView {
                    tabs: old.tabs.remove(i),
                    active_tab_index: active_after_close(
                        old.active_tab_index,
                        i as nat,
                        (old.tabs.len() - 1) as nat,
                    ),
                    closed_tabs: add_closed_tab_spec(old.closed_tabs, t, old.closed_tabs_max),
                    ..old
                }),
            None => is_error_missing(r, tab_not_found_message(tab_id)) && new == old,
        }
    }
}

/// Closing a tab keeps the active tab where it can: when another tab than
/// the active one is closed, the same tab (by identifier) stays active; when
/// the active tab itself is closed, the tab before it becomes active (the
/// new first tab when it was the first).
pub proof fn law_close_keeps_active_tab(
    old: UiChromeView,
    new: UiChromeView,
    tab_id: TabId,
    r: Result<(), ComponentError>,
)
    requires
        old.wf(),
        closes_tab(old, new, tab_id, r),
        r is Ok,
    ensures
        new.tabs.len() == old.tabs.len() - 1,
        forall|k: int| 0 <= k < new.tabs.len() ==> (#[trigger] new.tabs[k]).id != tab_id,
        new.active_tab_index < new.tabs.len(),
        old.tabs[old.active_tab_index as int].id != tab_id ==> new.tabs[new.active_tab_index as int].id
            == old.tabs[old.active_tab_index as int].id,
        old.tabs[old.active_tab_index as int].id == tab_id ==> new.active_tab_index == (if old.active_tab_index
            > 0 {
            old.active_tab_index - 1
        } else {
            0
        }),
{
    let f = |t: TabState| t.id == tab_id;
    lemma_first_match(old.tabs, f);
    let i = tab_position(old.tabs, tab_id)->Some_0;
    let a = old.active_tab_index as int;
    assert(old.tabs[i].id == tab_id);
    assert forall|k: int| 0 <= k < new.tabs.len() implies (#[trigger] new.tabs[k]).id != tab_id by {
        if k < i {
            assert(new.tabs[k] == old.tabs[k]);
        } else {
            assert(new.tabs[k] == old.tabs[k + 1]);
        }
    }
    if old.tabs[a].id != tab_id {
        assert(i != a);
        if i < a {
            assert(new.tabs[a - 1] == old.tabs[a]);
        } else {
            assert(new.tabs[a] == old.tabs[a]);
        }
    } else {
        assert(i == a);
    }
}

impl UiChrome {
    /// Close the tab with this identifier and remember it among the recently
    /// closed tabs; the last remaining tab cannot be closed.
    pub fn close_tab(&mut self, tab_id: TabId) -> (r: Result<(), ComponentError>)
        requires
            old(self).wf(),
        ensures
            final(self).wf(),
            closes_tab(old(self)@, final(self)@, tab_id, r),
            r is Ok && old(self)@.tabs[old(self)@.active_tab_index as int].id != tab_id
                ==> final(self)@.tabs[final(self)@.active_tab_index as int].id == old(
                self,
            )@.tabs[old(self)@.active_tab_index as int].id,
    {
        if self.tabs.len() <= 1 {
            return Err(ComponentError::InvalidState(String::from_str("Cannot close the last tab")));
        }
        let position = match self.find_tab(tab_id) {
            Some(p) => p,
            None => {
                return Err(ComponentError::ResourceNotFound(tab_not_found(tab_id)));
            },
        };
        let closed = ClosedTabInfo {
            id: tab_id,
            title: self.tabs[position].title.clone(),
            url: self.address_bar_text.clone(),
            closed_at: unix_seconds_now(),
        };
        assert(closed_record(old(self)@, position as int, closed));
        self.crash_recovery.add_closed_tab(closed);
        self.tabs.remove(position);
        if position <= self.active_tab_index && self.active_tab_index > 0 {
            self.active_tab_index = self.active_tab_index - 1;
        } else if self.active_tab_index >= self.tabs.len() {
            self.active_tab_index = self.tabs.len() - 1;
        }
        proof {
            lemma_remove_ids(old(self)@.tabs, position as int, old(self)@.next_tab_id);
            assert(self@ == (UiChromeView {
                tabs: old(self)@.tabs.remove(position as int),
                active_tab_index: active_after_close(
                    old(self)@.active_tab_index,
                    position as nat,
                    (old(self)@.tabs.len() - 1) as nat,
                ),
                closed_tabs: add_closed_tab_spec(
                    old(self)@.closed_tabs,
                    closed,
                    old(self)@.closed_tabs_max,
                ),
                ..old(self)@
            }));
            assert(tab_position(old(self)@.tabs, tab_id) == Some(position as int));
            assert(closed_record(old(self)@, position as int, closed));
            assert(self.wf());
            assert(match tab_position(old(self)@.tabs, tab_id) {
                    Some(i) => exists|t: ClosedTabInfo|
                        #![trigger closed_record(old(self)@, i, t)]
                        closed_record(old(self)@, i, t) && self@ == (UiChromeView {
                            tabs: old(self)@.tabs.remove(i),
                            active_tab_index: active_after_close(
                                old(self)@.active_tab_index,
                                i as nat,
                                (old(self)@.tabs.len() - 1) as nat,
                            ),
                            closed_tabs: add_closed_tab_spec(
                                old(self)@.closed_tabs,
                                t,
                                old(self)@.closed_tabs_max,
                            ),
                            ..old(self)@
                        }),
                    None => false,
                });
            law_close_keeps_active_tab(old(self)@, self@, tab_id, Ok(()));
        }
        Ok(())
    }

    /// React to a keyboard shortcut: Ctrl+T opens a "New Tab", Ctrl+W closes
    /// the active tab unless it is the last one, Ctrl+L focuses the address
    /// bar; other shortcuts change nothing.
    pub fn handle_keyboard_shortcut(&mut self, shortcut: KeyboardShortcut) -> (r: Result<
        (),
        ComponentError,
    >)
        requires
            old(self).wf(),
            shortcut == KeyboardShortcut::CtrlT ==> old(self).can_add_tab(),
        ensures
            final(self).wf(),
            match shortcut {
                KeyboardShortcut::CtrlT => {
                    &&& r is Ok
                    &&& final(self)@.tabs.len() == old(self)@.tabs.len() + 1
                    &&& final(self)@ == (UiChromeView {
                        tabs: old(self)@.tabs.push(
                            TabState {
                                id: TabId(old(self)@.next_tab_id as u64),
                                title: final(self)@.tabs.last().title,
                                loading: false,
                            },
                        ),
                        active_tab_index: old(self)@.tabs.len(),
                        next_tab_id: old(self)@.next_tab_id + 1,
                        ..old(self)@
                    })
                    &&& final(self)@.tabs.last().title@ == "New Tab"@
                },
                KeyboardShortcut::CtrlW => if old(self)@.tabs.len() <= 1 {
                    &&& is_error_invalid(r, last_tab_message())
                    &&& final(self)@ == old(self)@
                } else {
                    &&& r is Ok
                    &&& final(self)@ == (UiChromeView {
                        tabs: old(self)@.tabs.remove(old(self)@.active_tab_index as int),
                        active_tab_index: active_after_shortcut_close(
                            old(self)@.active_tab_index,
                            (old(self)@.tabs.len() - 1) as nat,
                        ),
                        ..old(self)@
                    })
                },
                KeyboardShortcut::CtrlL => r is Ok && final(self)@ == (UiChromeView {
                    address_bar_focused: true,
                    ..old(self)@
                }),
                _ => r is Ok && final(self)@ == old(self)@,
            },
    {
        match shortcut {
            KeyboardShortcut::CtrlT => {
                self.add_tab(String::from_str("New Tab"));
                Ok(())
            },
            KeyboardShortcut::CtrlW => {
                if self.tabs.len() <= 1 {
                    return Err(
                        ComponentError::InvalidState(String::from_str("Cannot close the last tab")),
                    );
                }
                let position = self.active_tab_index;
                self.tabs.remove(position);
                if self.active_tab_index >= self.tabs.len() && self.active_tab_index > 0 {
                    self.active_tab_index = self.tabs.len() - 1;
                }
                proof {
                    lemma_remove_ids(old(self)@.tabs, position as int, old(self)@.next_tab_id);
                }
                Ok(())
            },
            KeyboardShortcut::CtrlL => {
                self.address_bar_focused = true;
                Ok(())
            },
            _ => Ok(()),
        }
    }

    /// Switch to the next tab, wrapping around.
    pub fn switch_to_next_tab(&mut self) -> (r: Result<(), ComponentError>)
        requires
            old(self).wf(),
        ensures
            final(self).wf(),
            r is Ok,
            final(self)@ == (UiChromeView {
                active_tab_index: (old(self)@.active_tab_index + 1) % old(self)@.tabs.len(),
                ..old(self)@
            }),
    {
        if self.tabs.len() == 0 {
            return Err(ComponentError::InvalidState(String::from_str("No tabs available")));
        }
        self.active_tab_index = (self.active_tab_index + 1) % self.tabs.len();
        Ok(())
    }

    /// Switch to the previous tab, wrapping around.
    pub fn switch_to_previous_tab(&mut self) -> (r: Result<(), ComponentError>)
        requires
            old(self).wf(),
        ensures
            final(self).wf(),
            r is Ok,
            final(self)@ == (UiChromeView {
                active_tab_index: if old(self)@.active_tab_index == 0 {
                    (old(self)@.tabs.len() - 1) as nat
                } else {
                    (old(self)@.active_tab_index - 1) as nat
                },
                ..old(self)@
            }),
    {
        if self.tabs.len() == 0 {
            return Err(ComponentError::InvalidState(String::from_str("No tabs available")));
        }
        if self.active_tab_index == 0 {
            self.active_tab_index = self.tabs.len() - 1;
        } else {
            self.active_tab_index = self.active_tab_index - 1;
        }
        Ok(())
    }

    /// Switch to the tab with this 1-based number.
    pub fn switch_to_tab_number(&mut self, tab_number: usize) -> (r: Result<(), ComponentError>)
        requires
            old(self).wf(),
        ensures
            final(self).wf(),
            if 1 <= tab_number <= old(self)@.tabs.len() {
                r is Ok && final(self)@ == (UiChromeView {
                    active_tab_index: (tab_number - 1) as nat,
                    ..old(self)@
                })
            } else {
                &&& is_error_invalid(r, out_of_range_message(
                    "Tab number "@,
                    tab_number as nat,
                    old(self)@.tabs.len(),
                ))
                &&& final(self)@ == old(self)@
            },
    {
        if tab_number == 0 || tab_number > self.tabs.len() {
            return Err(
                ComponentError::InvalidState(out_of_range("Tab number ", tab_number, self.tabs.len())),
            );
        }
        self.active_tab_index = tab_number - 1;
        Ok(())
    }

    /// Move the tab at `from_index` so that it lands before the tab that was
    /// at `to_index` (or at the end when `to_index` is the tab count); the
    /// active tab stays active.
    pub fn reorder_tab(&mut self, from_index: usize, to_index: usize) -> (r: Result<
        (),
        ComponentError,
    >)
        requires
            old(self).wf(),
        ensures
            final(self).wf(),
            if from_index >= old(self)@.tabs.len() {
                &&& is_error_invalid(r, out_of_range_message(
                    "Source index "@,
                    from_index as nat,
                    old(self)@.tabs.len(),
                ))
                &&& final(self)@ == old(self)@
            } else if to_index > old(self)@.tabs.len() {
                &&& is_error_invalid(r, out_of_range_message(
                    "Target index "@,
                    to_index as nat,
                    old(self)@.tabs.len(),
                ))
                &&& final(self)@ == old(self)@
            } else if from_index == to_index {
                r is Ok && final(self)@ == old(self)@
            } else {
                let ins = reorder_insert_index(from_index as nat, to_index as nat);
                &&& r is Ok
                &&& final(self)@ == (UiChromeView {
                    tabs: reordered(old(self)@.tabs, from_index as int, ins as int),
                    active_tab_index: active_after_reorder(
                        old(self)@.active_tab_index,
                        from_index as nat,
                        ins,
                    ),
                    ..old(self)@
                })
                &&& final(self)@.tabs[final(self)@.active_tab_index as int] == old(
                    self,
                )@.tabs[old(self)@.active_tab_index as int]
            },
    {
        let len = self.tabs.len();
        if from_index >= len {
            return Err(ComponentError::InvalidState(out_of_range("Source index ", from_index, len)));
        }
        if to_index > len {
            return Err(ComponentError::InvalidState(out_of_range("Target index ", to_index, len)));
        }
        if from_index == to_index {
            return Ok(());
        }
        let tab = self.tabs.remove(from_index);
        let insert_index = if to_index > from_index {
            to_index - 1
        } else {
            to_index
        };
        self.tabs.insert(insert_index, tab);
        let active = self.active_tab_index;
        if active == from_index {
            self.active_tab_index = insert_index;
        } else if from_index < active && insert_index >= active {
            self.active_tab_index = active - 1;
        } else if from_index > active && insert_index <= active {
            self.active_tab_index = active + 1;
        }
        proof {
            lemma_reorder(
                old(self)@.tabs,
                from_index as int,
                insert_index as int,
                old(self)@.active_tab_index as int,
                old(self)@.next_tab_id,
            );
            assert(self@.tabs =~= reordered(old(self)@.tabs, from_index as int, insert_index as int));
        }
        Ok(())
    }

    /// Whether the settings panel is visible.
    pub fn is_settings_panel_visible(&self) -> (b: bool)
        ensures
            b == self@.settings_panel_visible,
    {
        self.settings_panel_visible
    }

    /// Whether the history panel is visible.
    pub fn is_history_panel_visible(&self) -> (b: bool)
        ensures
            b == self@.history_panel_visible,
    {
        self.history_panel_visible
    }

    /// Whether the downloads panel is visible.
    pub fn is_downloads_panel_visible(&self) -> (b: bool)
        ensures
            b == self@.downloads_panel_visible,
    {
        self.downloads_panel_visible
    }

    /// Toggle the settings panel.
    pub fn toggle_settings_panel(&mut self)
        requires
            old(self).wf(),
        ensures
            final(self).wf(),
            final(self)@ == (UiChromeView {
                settings_panel_visible: !old(self)@.settings_panel_visible,
                ..old(self)@
            }),
    {
        self.settings_panel_visible = !self.settings_panel_visible;
    }

    /// Toggle the history panel.
    pub fn toggle_history_panel(&mut self)
        requires
            old(self).wf(),
        ensures
            final(self).wf(),
            final(self)@ == (UiChromeView {
                history_panel_visible: !old(self)@.history_panel_visible,
                ..old(self)@
            }),
    {
        self.history_panel_visible = !self.history_panel_visible;
    }

    /// Toggle the downloads panel.
    pub fn toggle_downloads_panel(&mut self)
        requires
            old(self).wf(),
        ensures
            final(self).wf(),
            final(self)@ == (UiChromeView {
                downloads_panel_visible: !old(self)@.downloads_panel_visible,
                ..old(self)@
            }),
    {
        self.downloads_panel_visible = !self.downloads_panel_visible;
    }

    /// Whether a context menu is open.
    pub fn has_active_context_menu(&self) -> (b: bool)
        ensures
            b == self@.context_menu is Some,
    {
        self.active_context_menu.is_some()
    }

    /// The open context menu, if any.
    pub fn active_context_menu(&self) -> (r: Option<ContextMenuType>)
        ensures
            r == self@.context_menu,
    {
        self.active_context_menu
    }

    /// Open the context menu of a tab.
    pub fn show_tab_context_menu(&mut self, tab_id: TabId)
        requires
            old(self).wf(),
        ensures
            final(self).wf(),
            final(self)@ == (UiChromeView {
                context_menu: Some(ContextMenuType::Tab(tab_id)),
                ..old(self)@
            }),
    {
        self.active_context_menu = Some(ContextMenuType::Tab(tab_id));
    }

    /// Open the context menu of the address bar.
    pub fn show_address_bar_context_menu(&mut self)
        requires
            old(self).wf(),
        ensures
            final(self).wf(),
            final(self)@ == (UiChromeView {
                context_menu: Some(ContextMenuType::AddressBar),
                ..old(self)@
            }),
    {
        self.active_context_menu = Some(ContextMenuType::AddressBar);
    }

    /// Close the open context menu.
    pub fn close_context_menu(&mut self)
        requires
            old(self).wf(),
        ensures
            final(self).wf(),
            final(self)@ == (UiChromeView { context_menu: None, ..old(self)@ }),
    {
        self.active_context_menu = None;
    }

    /// Set the URL shown in the status bar.
    pub fn set_hover_url(&mut self, url: Option<String>)
        requires
            old(self).wf(),
        ensures
            final(self).wf(),
            final(self)@ == (UiChromeView { hover_url: url, ..old(self)@ }),
    {
        self.hover_url = url;
    }

    /// The URL shown in the status bar.
    pub fn get_hover_url(&self) -> (r: Option<String>)
        ensures
            r == self@.hover_url,
    {
        self.hover_url.clone()
    }

    /// Set the number of downloads shown.
    pub fn set_download_count(&mut self, count: usize)
        requires
            old(self).wf(),
        ensures
            final(self).wf(),
            final(self)@ == (UiChromeView { download_count: count as nat, ..old(self)@ }),
    {
        self.download_count = count;
    }

    /// The number of downloads shown.
    pub fn get_download_count(&self) -> (n: usize)
        ensures
            n == self@.download_count,
    {
        self.download_count
    }

    /// Replace the list of downloads; the count becomes the number of
    /// downloads still going on.
    pub fn set_downloads(&mut self, downloads: Vec<DownloadDisplay>)
        requires
            old(self).wf(),
        ensures
            final(self).wf(),
            final(self)@ == (UiChromeView {
                downloads: downloads@,
                download_count: count_active_downloads(downloads@),
                ..old(self)@
            }),
    {
        self.download_count = count_active(&downloads);
        self.downloads = downloads;
    }

    /// The list of downloads.
    pub fn get_downloads(&self) -> (r: &[DownloadDisplay])
        ensures
            r@ == self@.downloads,
    {
        self.downloads.as_slice()
    }

    /// Drop the completed downloads; the count becomes the number of
    /// downloads still going on.
    pub fn clear_completed_downloads(&mut self)
        requires
            old(self).wf(),
        ensures
            final(self).wf(),
            final(self)@ == (UiChromeView {
                downloads: without_completed(old(self)@.downloads),
                download_count: count_active_downloads(without_completed(old(self)@.downloads)),
                ..old(self)@
            }),
    {
        let mut kept: Vec<DownloadDisplay> = Vec::new();
        let n = self.downloads.len();
        let mut i: usize = 0;
        while i < n
            invariant
                n == self.downloads@.len(),
                self.downloads@ == old(self).downloads@,
                i <= n,
                kept@ == without_completed(self.downloads@.take(i as int)),
            decreases n - i,
        {
            proof {
                assert(self.downloads@.take(i + 1).drop_last() =~= self.downloads@.take(i as int));
            }
            if !matches!(self.downloads[i].status, DownloadDisplayStatus::Complete) {
                kept.push(self.downloads[i].clone());
            }
            i += 1;
        }
        assert(self.downloads@.take(n as int) =~= self.downloads@);
        self.download_count = count_active(&kept);
        self.downloads = kept;
    }

    /// Bookmark the current address; an empty address cannot be bookmarked.
    pub fn bookmark_current_page(&mut self) -> (r: Result<(), ComponentError>)
        requires
            old(self).wf(),
        ensures
            final(self).wf(),
            if old(self)@.address_bar_text.len() == 0 {
                &&& is_error_invalid(r, "Cannot bookmark an empty address"@)
                &&& final(self)@ == old(self)@
            } else {
                &&& r is Ok
                &&& final(self)@ == (UiChromeView {
                    bookmarks: if old(self)@.bookmarks.contains(old(self)@.address_bar_text) {
                        old(self)@.bookmarks
                    } else {
                        old(self)@.bookmarks.push(old(self)@.address_bar_text)
                    },
                    ..old(self)@
                })
            },
    {
        if self.address_bar_text.as_str().is_empty() {
            return Err(
                ComponentError::InvalidState(String::from_str("Cannot bookmark an empty address")),
            );
        }
        if !self.is_bookmarked(self.address_bar_text.as_str()) {
            let b = self.address_bar_text.clone();
            self.bookmarks.push(b);
            proof {
                let f = |s: String| s@;
                assert(self.bookmarks@.map_values(f) =~= old(self).bookmarks@.map_values(f).push(
                    b@,
                ));
                let nb = self@.bookmarks;
                assert forall|i: int, j: int| 0 <= i < j < nb.len() implies #[trigger] nb[i]
                    != #[trigger] nb[j] by {
                    if j == nb.len() - 1 {
                        assert(old(self)@.bookmarks[i] == nb[i]);
                    }
                }
            }
        }
        Ok(())
    }

    /// Whether this address is bookmarked.
    pub fn is_bookmarked(&self, url: &str) -> (b: bool)
        ensures
            b == self@.bookmarks.contains(url@),
    {
        let target = chars_of(url);
        let n = self.bookmarks.len();
        let mut i: usize = 0;
        while i < n
            invariant
                n == self.bookmarks@.len(),
                i <= n,
                target@ == url@,
                forall|j: int| 0 <= j < i ==> self.bookmarks@[j]@ != url@,
            decreases n - i,
        {
            let candidate = chars_of(self.bookmarks[i].as_str());
            if chars_eq(&candidate, &target) {
                assert(self@.bookmarks[i as int] == url@);
                return true;
            }
            i += 1;
        }
        proof {
            if self@.bookmarks.contains(url@) {
                let k = choose|k: int| 0 <= k < self@.bookmarks.len() && self@.bookmarks[k] == url@;
                assert(self.bookmarks@[k]@ == url@);
            }
        }
        false
    }

    /// Set the number of items blocked by the content blocker.
    pub fn set_blocked_content_count(&mut self, count: usize)
        requires
            old(self).wf(),
        ensures
            final(self).wf(),
            final(self)@ == (UiChromeView { blocked_content_count: count as nat, ..old(self)@ }),
    {
        self.blocked_content_count = count;
    }

    /// The number of items blocked by the content blocker.
    pub fn get_blocked_content_count(&self) -> (n: usize)
        ensures
            n == self@.blocked_content_count,
    {
        self.blocked_content_count
    }

    /// Show the session restore dialog.
    pub fn show_crash_recovery_dialog(&mut self)
        requires
            old(self).wf(),
        ensures
            final(self).wf(),
            final(self)@ == (UiChromeView {
                restore_dialog: SessionRestoreDialog::Visible,
                ..old(self)@
            }),
    {
        self.crash_recovery.show_restore_dialog();
    }

    /// Record the user's answer to the session restore dialog.
    pub fn choose_session_restore(&mut self, restore: bool) -> (made: bool)
        requires
            old(self).wf(),
        ensures
            final(self).wf(),
            made == (old(self)@.restore_dialog == SessionRestoreDialog::Visible),
            final(self)@ == (UiChromeView {
                restore_dialog: if !made {
                    old(self)@.restore_dialog
                } else if restore {
                    SessionRestoreDialog::RestoreChosen
                } else {
                    SessionRestoreDialog::DismissChosen
                },
                ..old(self)@
            }),
    {
        self.crash_recovery.choose_restore(restore)
    }

    /// Whether the user chose to restore the session.
    pub fn should_restore_session(&self) -> (b: bool)
        ensures
            b == (self@.restore_dialog == SessionRestoreDialog::RestoreChosen),
    {
        self.crash_recovery.should_restore_session()
    }

    /// Whether the restore dialog was dismissed.
    pub fn restore_dialog_dismissed(&self) -> (b: bool)
        ensures
            b == (self@.restore_dialog == SessionRestoreDialog::DismissChosen),
    {
        self.crash_recovery.restore_dialog_dismissed()
    }

    /// Hide the restore dialog after its answer has been handled.
    pub fn reset_crash_recovery_dialog(&mut self)
        requires
            old(self).wf(),
        ensures
            final(self).wf(),
            final(self)@ == (UiChromeView {
                restore_dialog: SessionRestoreDialog::Hidden,
                ..old(self)@
            }),
    {
        self.crash_recovery.reset_restore_dialog();
    }

    /// Whether the session restore dialog is shown.
    pub fn is_restore_dialog_visible(&self) -> (b: bool)
        ensures
            b == (self@.restore_dialog == SessionRestoreDialog::Visible),
    {
        self.crash_recovery.restore_dialog == SessionRestoreDialog::Visible
    }

    /// Whether the recently closed tabs menu is shown.
    pub fn is_recently_closed_menu_visible(&self) -> (b: bool)
        ensures
            b == self@.show_recently_closed_menu,
    {
        self.crash_recovery.show_recently_closed_menu
    }

    /// Toggle the recently closed tabs menu.
    pub fn toggle_recently_closed_tabs(&mut self)
        requires
            old(self).wf(),
        ensures
            final(self).wf(),
            final(self)@ == (UiChromeView {
                show_recently_closed_menu: !old(self)@.show_recently_closed_menu,
                ..old(self)@
            }),
    {
        self.crash_recovery.toggle_recently_closed_menu();
    }

    /// The number of recently closed tabs.
    pub fn recently_closed_count(&self) -> (n: usize)
        ensures
            n == self@.closed_tabs.len(),
    {
        self.crash_recovery.closed_tab_count()
    }

    /// The recently closed tabs, most recent first.
    pub fn recently_closed_tabs(&self) -> (r: &std::collections::VecDeque<ClosedTabInfo>)
        ensures
            r@ == self@.closed_tabs,
    {
        self.crash_recovery.recently_closed.get_all()
    }

    /// The zoom level of the page, in percent.
    pub fn zoom_level(&self) -> (z: u32)
        ensures
            z == self@.menu.zoom_level,
    {
        self.menu_bar.zoom_level()
    }

    /// The menu bar.
    pub fn menu_bar(&self) -> (m: &MenuBar)
        ensures
            m@ == self@.menu,
    {
        &self.menu_bar
    }

    /// Carry out a menu action: panels toggle, "Bookmark This Page" bookmarks
    /// the address, "Show All History" toggles the history panel, zoom moves
    /// by 10 points within 25..300 or resets to 100; the other entries change
    /// nothing.
    #[verifier::rlimit(60)]
    pub fn handle_menu_action(&mut self, action: MenuAction)
        requires
            old(self).wf(),
        ensures
            final(self).wf(),
            final(self)@ == match action {
                MenuAction::TogglePanel(PanelType::Settings) => UiChromeView {
                    settings_panel_visible: !old(self)@.settings_panel_visible,
                    ..old(self)@
                },
                MenuAction::TogglePanel(PanelType::History) | MenuAction::UiAction(
                    UiAction::ShowAllHistory,
                ) => UiChromeView {
                    history_panel_visible: !old(self)@.history_panel_visible,
                    ..old(self)@
                },
                MenuAction::TogglePanel(PanelType::Downloads) => UiChromeView {
                    downloads_panel_visible: !old(self)@.downloads_panel_visible,
                    ..old(self)@
                },
                MenuAction::UiAction(UiAction::BookmarkPage) => UiChromeView {
                    bookmarks: if old(self)@.address_bar_text.len() == 0 || old(
                        self,
                    )@.bookmarks.contains(old(self)@.address_bar_text) {
                        old(self)@.bookmarks
                    } else {
                        old(self)@.bookmarks.push(old(self)@.address_bar_text)
                    },
                    ..old(self)@
                },
                MenuAction::UiAction(UiAction::ZoomIn) => UiChromeView {
                    menu: MenuBarView {
                        zoom_level: if old(self)@.menu.zoom_level + 10 <= 300 {
                            (old(self)@.menu.zoom_level + 10) as u32
                        } else {
                            300
                        },
                        ..old(self)@.menu
                    },
                    ..old(self)@
                },
                MenuAction::UiAction(UiAction::ZoomOut) => UiChromeView {
                    menu: MenuBarView {
                        zoom_level: if old(self)@.menu.zoom_level >= 35 {
                            (old(self)@.menu.zoom_level - 10) as u32
                        } else {
                            25
                        },
                        ..old(self)@.menu
                    },
                    ..old(self)@
                },
                MenuAction::UiAction(UiAction::ResetZoom) => UiChromeView {
                    menu: MenuBarView { zoom_level: 100, ..old(self)@.menu },
                    ..old(self)@
                },
                _ => old(self)@,
            },
    {
        match action {
            MenuAction::TogglePanel(panel) => match panel {
                PanelType::Settings => self.toggle_settings_panel(),
                PanelType::History => self.toggle_history_panel(),
                PanelType::Downloads => self.toggle_downloads_panel(),
                PanelType::Bookmarks => {},
                PanelType::DevTools => {},
            },
            MenuAction::UiAction(ui_action) => match ui_action {
                UiAction::BookmarkPage => {
                    let _ = self.bookmark_current_page();
                },
                UiAction::ShowAllHistory => self.toggle_history_panel(),
                UiAction::ZoomIn => {
                    let current = self.menu_bar.zoom_level();
                    let raised = current + 10;
                    self.menu_bar.set_zoom_level(if raised < 300 { raised } else { 300 });
                },
                UiAction::ZoomOut => {
                    let current = self.menu_bar.zoom_level();
                    let lowered = if current >= 10 { current - 10 } else { 0 };
                    self.menu_bar.set_zoom_level(if lowered > 25 { lowered } else { 25 });
                },
                UiAction::ResetZoom => self.menu_bar.set_zoom_level(100),
                _ => {},
            },
            MenuAction::NoAction => {},
        }
    }
}

/// The number of downloads in `v` that are still going on.
fn count_active(v: &Vec<DownloadDisplay>) -> (n: usize)
    ensures
        n == count_active_downloads(v@),
{
    let mut n: usize = 0;
    let mut i: usize = 0;
    while i < v.len()
        invariant
            i <= v@.len(),
            n == count_active_downloads(v@.take(i as int)),
            n <= i,
        decreases v@.len() - i,
    {
        proof {
            assert(v@.take(i + 1).drop_last() =~= v@.take(i as int));
        }
        if matches!(v[i].status, DownloadDisplayStatus::Downloading)
            || matches!(v[i].status, DownloadDisplayStatus::Paused)
        {
            n += 1;
        }
        i += 1;
    }
    assert(v@.take(v@.len() as int) =~= v@);
    n
}

/// The format of a duration: hours and minutes, minutes and seconds, or
/// seconds, or "--" for zero.
pub open spec fn format_time_spec(seconds: nat) -> Seq<char> {
    if seconds >= 3600 {
        let hours = seconds / 3600;
        let minutes = (seconds % 3600) / 60;
        if minutes > 0 {
            decimal(hours) + "h "@ + decimal(minutes) + "m"@
        } else {
            decimal(hours) + "h"@
        }
    } else if seconds >= 60 {
        let minutes = seconds / 60;
        let secs = seconds % 60;
        if secs > 0 {
            decimal(minutes) + "m "@ + decimal(secs) + "s"@
        } else {
            decimal(minutes) + "m"@
        }
    } else if seconds > 0 {
        decimal(seconds) + "s"@
    } else {
        "--"@
    }
}

/// Format a duration in hours, minutes and seconds.
pub fn format_time(seconds: u64) -> (s: String)
    ensures
        s@ == format_time_spec(seconds as nat),
{
    if seconds >= 3600 {
        let hours = seconds / 3600;
        let minutes = (seconds % 3600) / 60;
        let mut s = decimal_string(hours);
        if minutes > 0 {
            s.append("h ");
            let m = decimal_string(minutes);
            s.append(m.as_str());
            s.append("m");
        } else {
            s.append("h");
        }
        s
    } else if seconds >= 60 {
        let minutes = seconds / 60;
        let secs = seconds % 60;
        let mut s = decimal_string(minutes);
        if secs > 0 {
            s.append("m ");
            let t = decimal_string(secs);
            s.append(t.as_str());
            s.append("s");
        } else {
            s.append("m");
        }
        s
    } else if seconds > 0 {
        let mut s = decimal_string(seconds);
        s.append("s");
        s
    } else {
        String::from_str("--")
    }
}

} // verus!

verus! {

impl Default for UiChrome {
    /// The chrome that `new` gives.
    fn default() -> (c: Self)
        ensures
            c.wf(),
            c@.tabs.len() == 1,
            c@.tabs[0].id == TabId(1),
            c@.active_tab_index == 0,
            c@.next_tab_id == 2,
    {
        UiChrome::new()
    }
}


impl UiChrome {
    /// The settings panel's state.
    pub fn settings_ui(&self) -> (u: &SettingsUi)
        ensures
            u@ == self@.settings,
    {
        &self.settings_ui
    }

    /// The settings panel's state, to change it.
    pub fn settings_ui_mut(&mut self) -> (u: &mut SettingsUi)
        ensures
            u@ == old(self)@.settings,
            final(self)@ == (UiChromeView { settings: final(u)@, ..old(self)@ }),
            old(self).wf() ==> final(self).wf(),
    {
        &mut self.settings_ui
    }

    /// Load the settings panel's values (from the settings store); nothing
    /// is unsaved afterwards.
    pub fn load_settings(&mut self, settings: Vec<(String, SettingValue)>)
        requires
            old(self).wf(),
        ensures
            final(self).wf(),
            final(self)@ == (UiChromeView {
                settings: SettingsUiView {
                    cache: cache_view(settings@),
                    has_unsaved_changes: false,
                    ..old(self)@.settings
                },
                ..old(self)@
            }),
    {
        self.settings_ui.load_settings(settings);
    }

    /// Whether settings changed since they were last loaded or saved.
    pub fn has_unsaved_settings(&self) -> (b: bool)
        ensures
            b == self@.settings.has_unsaved_changes,
    {
        self.settings_ui.has_unsaved()
    }
}


/// A key the chrome answers when pressed with Ctrl.
#[derive(Debug, Clone, Copy, PartialEq, Eq, Structural)]
pub enum ChromeKey {
    Tab,
    /// A digit key, 0 to 9.
    Digit(u8),
    D,
    H,
    J,
    Comma,
    /// Any other key.
    Other,
}

/// What the chrome does for a key press.
#[derive(Debug, Clone, Copy, PartialEq, Eq, Structural)]
pub enum ChromeCommand {
    NextTab,
    PreviousTab,
    /// Switch to the tab with this number (1-based).
    TabNumber(usize),
    BookmarkPage,
    ToggleHistory,
    ToggleDownloads,
    ToggleSettings,
}

/// The command for a key pressed with the given modifiers: Ctrl+Tab and
/// Ctrl+Shift+Tab move between tabs, Ctrl with a digit from 1 to 9 picks a
/// tab, Ctrl+D bookmarks, Ctrl+H, Ctrl+J and Ctrl+, open or close the
/// history, downloads and settings panels.  Without Ctrl nothing happens.
pub open spec fn key_command_spec(key: ChromeKey, ctrl: bool, shift: bool) -> Option<ChromeCommand> {
    if !ctrl {
        None
    } else {
        match key {
            ChromeKey::Tab => if shift {
                Some(ChromeCommand::PreviousTab)
            } else {
                Some(ChromeCommand::NextTab)
            },
            ChromeKey::Digit(d) => if 1 <= d <= 9 {
                Some(ChromeCommand::TabNumber(d as usize))
            } else {
                None
            },
            ChromeKey::D => Some(ChromeCommand::BookmarkPage),
            ChromeKey::H => Some(ChromeCommand::ToggleHistory),
            ChromeKey::J => Some(ChromeCommand::ToggleDownloads),
            ChromeKey::Comma => Some(ChromeCommand::ToggleSettings),
            ChromeKey::Other => None,
        }
    }
}

/// The command for a key pressed with the given modifiers, if any.
pub fn key_command(key: ChromeKey, ctrl: bool, shift: bool) -> (c: Option<ChromeCommand>)
    ensures
        c == key_command_spec(key, ctrl, shift),
{
    if !ctrl {
        return None;
    }
    match key {
        ChromeKey::Tab => if shift {
            Some(ChromeCommand::PreviousTab)
        } else {
            Some(ChromeCommand::NextTab)
        },
        ChromeKey::Digit(d) => if 1 <= d && d <= 9 {
            Some(ChromeCommand::TabNumber(d as usize))
        } else {
            None
        },
        ChromeKey::D => Some(ChromeCommand::BookmarkPage),
        ChromeKey::H => Some(ChromeCommand::ToggleHistory),
        ChromeKey::J => Some(ChromeCommand::ToggleDownloads),
        ChromeKey::Comma => Some(ChromeCommand::ToggleSettings),
        ChromeKey::Other => None,
    }
}

/// The text shown on a tab: its title, after a loading mark while it loads.
pub open spec fn tab_label_spec(t: TabState) -> Seq<char> {
    if t.loading {
        "⟳ "@ + t.title@
    } else {
        t.title@
    }
}

impl TabState {
    /// The text shown on the tab.
    pub fn label(&self) -> (s: String)
        ensures
            s@ == tab_label_spec(*self),
    {
        if self.loading {
            let mut s = String::from_str("⟳ ");
            s.append(self.title.as_str());
            s
        } else {
            self.title.clone()
        }
    }
}

/// One tab as the tab bar shows it.
#[derive(Debug, Clone, PartialEq, Eq)]
pub struct TabBarItem {
    pub id: TabId,
    pub label: String,
    /// Whether it is the active tab.
    pub active: bool,
}

/// What a download offers to do next.
#[derive(Debug, Clone, Copy, PartialEq, Eq, Structural)]
pub enum DownloadAction {
    Pause,
    Resume,
    Cancel,
    Open,
}

impl DownloadAction {
    /// The text of the button.
    pub fn label(&self) -> (s: &'static str)
        ensures
            s@ == match self {
                DownloadAction::Pause => "⏸ Pause"@,
                DownloadAction::Resume => "▶ Resume"@,
                DownloadAction::Cancel => "✕ Cancel"@,
                DownloadAction::Open => "📂 Open"@,
            },
    {
        match self {
            DownloadAction::Pause => "⏸ Pause",
            DownloadAction::Resume => "▶ Resume",
            DownloadAction::Cancel => "✕ Cancel",
            DownloadAction::Open => "📂 Open",
        }
    }
}

/// The status line of a download.
pub open spec fn download_status_label(s: DownloadDisplayStatus) -> Seq<char> {
    match s {
        DownloadDisplayStatus::Downloading => "⬇ Downloading"@,
        DownloadDisplayStatus::Paused => "⏸ Paused"@,
        DownloadDisplayStatus::Complete => "✓ Complete"@,
        DownloadDisplayStatus::Failed(m) => "✗ Failed: "@ + m@,
    }
}

/// The buttons a download shows: a running one can be paused or cancelled,
/// a paused one resumed or cancelled, a complete one opened, a failed one
/// nothing.
pub open spec fn download_actions_spec(s: DownloadDisplayStatus) -> Seq<DownloadAction> {
    match s {
        DownloadDisplayStatus::Downloading => seq![DownloadAction::Pause, DownloadAction::Cancel],
        DownloadDisplayStatus::Paused => seq![DownloadAction::Resume, DownloadAction::Cancel],
        DownloadDisplayStatus::Complete => seq![DownloadAction::Open],
        DownloadDisplayStatus::Failed(_) => Seq::empty(),
    }
}

impl DownloadDisplayStatus {
    /// The status line shown for a download.
    pub fn label(&self) -> (s: String)
        ensures
            s@ == download_status_label(*self),
    {
        match self {
            DownloadDisplayStatus::Downloading => String::from_str("⬇ Downloading"),
            DownloadDisplayStatus::Paused => String::from_str("⏸ Paused"),
            DownloadDisplayStatus::Complete => String::from_str("✓ Complete"),
            DownloadDisplayStatus::Failed(m) => {
                let mut s = String::from_str("✗ Failed: ");
                s.append(m.as_str());
                s
            },
        }
    }

    /// The buttons shown for a download, left to right.
    pub fn actions(&self) -> (v: Vec<DownloadAction>)
        ensures
            v@ == download_actions_spec(*self),
    {
        let mut v: Vec<DownloadAction> = Vec::new();
        match self {
            DownloadDisplayStatus::Downloading => {
                v.push(DownloadAction::Pause);
                v.push(DownloadAction::Cancel);
            },
            DownloadDisplayStatus::Paused => {
                v.push(DownloadAction::Resume);
                v.push(DownloadAction::Cancel);
            },
            DownloadDisplayStatus::Complete => {
                v.push(DownloadAction::Open);
            },
            DownloadDisplayStatus::Failed(_) => {},
        }
        proof {
            assert(v@ =~= download_actions_spec(*self));
        }
        v
    }
}

/// An entry of a context menu.
#[derive(Debug, Clone, Copy, PartialEq, Eq, Structural)]
pub enum ContextMenuItem {
    CloseTab,
    CloseOtherTabs,
    CloseAllTabs,
    Copy,
    Paste,
}

impl ContextMenuItem {
    /// The text of the entry.
    pub fn label(&self) -> (s: &'static str)
        ensures
            s@ == match self {
                ContextMenuItem::CloseTab => "Close Tab"@,
                ContextMenuItem::CloseOtherTabs => "Close Other Tabs"@,
                ContextMenuItem::CloseAllTabs => "Close All Tabs"@,
                ContextMenuItem::Copy => "Copy"@,
                ContextMenuItem::Paste => "Paste"@,
            },
    {
        match self {
            ContextMenuItem::CloseTab => "Close Tab",
            ContextMenuItem::CloseOtherTabs => "Close Other Tabs",
            ContextMenuItem::CloseAllTabs => "Close All Tabs",
            ContextMenuItem::Copy => "Copy",
            ContextMenuItem::Paste => "Paste",
        }
    }
}

/// The entries of a context menu, top to bottom.
pub open spec fn context_menu_items_spec(m: ContextMenuType) -> Seq<ContextMenuItem> {
    match m {
        ContextMenuType::Tab(_) => seq![
            ContextMenuItem::CloseTab,
            ContextMenuItem::CloseOtherTabs,
            ContextMenuItem::CloseAllTabs,
        ],
        ContextMenuType::AddressBar => seq![ContextMenuItem::Copy, ContextMenuItem::Paste],
    }
}

impl ContextMenuType {
    /// The entries of this menu, top to bottom.
    pub fn items(&self) -> (v: Vec<ContextMenuItem>)
        ensures
            v@ == context_menu_items_spec(*self),
    {
        let mut v: Vec<ContextMenuItem> = Vec::new();
        match self {
            ContextMenuType::Tab(_) => {
                v.push(ContextMenuItem::CloseTab);
                v.push(ContextMenuItem::CloseOtherTabs);
                v.push(ContextMenuItem::CloseAllTabs);
            },
            ContextMenuType::AddressBar => {
                v.push(ContextMenuItem::Copy);
                v.push(ContextMenuItem::Paste);
            },
        }
        proof {
            assert(v@ =~= context_menu_items_spec(*self));
        }
        v
    }
}

impl UiChrome {
    /// The tabs as the tab bar shows them, in order.
    pub fn tab_bar_items(&self) -> (v: Vec<TabBarItem>)
        ensures
            v@.len() == self@.tabs.len(),
            forall|i: int|
                0 <= i < v@.len() ==> (#[trigger] v@[i]).id == self@.tabs[i].id && v@[i].label@
                    == tab_label_spec(self@.tabs[i]) && v@[i].active == (i
                    == self@.active_tab_index),
    {
        let mut v: Vec<TabBarItem> = Vec::new();
        let n = self.tabs.len();
        let mut i: usize = 0;
        while i < n
            invariant
                n == self.tabs@.len(),
                i <= n,
                v@.len() == i,
                forall|k: int|
                    0 <= k < i ==> (#[trigger] v@[k]).id == self.tabs@[k].id && v@[k].label@
                        == tab_label_spec(self.tabs@[k]) && v@[k].active == (k
                        == self.active_tab_index),
            decreases n - i,
        {
            let t = &self.tabs[i];
            v.push(TabBarItem { id: t.id, label: t.label(), active: i == self.active_tab_index });
            i += 1;
        }
        v
    }

    /// Bring the menu bar's tab entries up to date: "Close Tab" needs a tab.
    pub fn sync_menu_tab_state(&mut self)
        requires
            old(self).wf(),
        ensures
            final(self).wf(),
            final(self)@ == (UiChromeView {
                menu: MenuBarView {
                    has_tab: old(self)@.tabs.len() > 0,
                    has_multiple_tabs: old(self)@.tabs.len() > 1,
                    ..old(self)@.menu
                },
                ..old(self)@
            }),
    {
        let n = self.tabs.len();
        self.menu_bar.set_tab_state(n > 0, n > 1);
    }

    /// Answer a click on an entry of the open context menu, then close it:
    /// "Close Tab" in a tab's menu closes that tab; the other entries only
    /// close the menu.  With no menu open nothing changes.
    pub fn choose_context_menu_item(&mut self, item: ContextMenuItem) -> (r: Result<
        (),
        ComponentError,
    >)
        requires
            old(self).wf(),
        ensures
            final(self).wf(),
            match (old(self)@.context_menu, item) {
                (Some(ContextMenuType::Tab(id)), ContextMenuItem::CloseTab) => final(self)@.context_menu
                    is None && closes_tab(
                    old(self)@,
                    UiChromeView { context_menu: old(self)@.context_menu, ..final(self)@ },
                    id,
                    r,
                ),
                (Some(_), _) => r is Ok && final(self)@ == (UiChromeView {
                    context_menu: None,
                    ..old(self)@
                }),
                (None, _) => r is Ok && final(self)@ == old(self)@,
            },
    {
        match self.active_context_menu {
            Some(ContextMenuType::Tab(id)) => {
                let r = match item {
                    ContextMenuItem::CloseTab => self.close_tab(id),
                    _ => Ok(()),
                };
                self.close_context_menu();
                r
            },
            Some(ContextMenuType::AddressBar) => {
                self.close_context_menu();
                Ok(())
            },
            None => Ok(()),
        }
    }

    /// Answer a click in the recently closed tabs menu: "Restore" takes the
    /// tab out of the list and hands it back, "Clear All" empties the list,
    /// "Close" hides the menu.  A hidden menu takes no click.
    pub fn choose_recently_closed(&mut self, choice: RecentlyClosedChoice) -> (r: Option<
        ClosedTabInfo,
    >)
        requires
            old(self).wf(),
        ensures
            final(self).wf(),
            !old(self)@.show_recently_closed_menu ==> r is None && final(self)@ == old(self)@,
            old(self)@.show_recently_closed_menu ==> match choice {
                RecentlyClosedChoice::Restore(id) => match closed_tab_position(
                    old(self)@.closed_tabs,
                    id,
                ) {
                    Some(i) => r == Some(old(self)@.closed_tabs[i]) && final(self)@ == (
                    UiChromeView { closed_tabs: old(self)@.closed_tabs.remove(i), ..old(self)@ }),
                    None => r is None && final(self)@ == old(self)@,
                },
                RecentlyClosedChoice::ClearAll => r is None && final(self)@ == (UiChromeView {
                    closed_tabs: Seq::empty(),
                    ..old(self)@
                }),
                RecentlyClosedChoice::Close => r is None && final(self)@ == (UiChromeView {
                    show_recently_closed_menu: false,
                    ..old(self)@
                }),
            },
    {
        match self.crash_recovery.choose_recently_closed(choice) {
            Some(id) => self.crash_recovery.remove_closed_tab(id),
            None => None,
        }
    }
}

} // verus!
