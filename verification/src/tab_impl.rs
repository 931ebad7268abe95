//! The tab manager behind the shared tab interface: tabs with their
//! navigation histories, the active tab of each window, and the (simulated)
//! renderer process of each tab.
use vstd::prelude::*;
use crate::navigation::{HistoryView, NavigationHistory};
use crate::seqs::{first_match, lemma_first_match, lemma_first_match_at, lemma_first_match_none, select};
use crate::types::{ProcessId, RenderSurfaceId, TabError, TabId, WindowId};

verus! {

/// The shared description of a tab.
#[derive(Debug)]
pub struct Tab {
    pub id: TabId,
    pub window_id: WindowId,
    pub title: String,
    pub url: Option<String>,
    pub loading: bool,
    pub can_go_back: bool,
    pub can_go_forward: bool,
    pub favicon: Option<Vec<u8>>,
    pub process_id: Option<ProcessId>,
    pub render_surface: RenderSurfaceId,
}

/// The abstract value of a `Tab`.
pub struct TabRecord {
    pub id: TabId,
    pub window_id: WindowId,
    pub title: Seq<char>,
    pub url: Option<String>,
    pub loading: bool,
    pub can_go_back: bool,
    pub can_go_forward: bool,
    pub favicon: Option<Seq<u8>>,
    pub process_id: Option<ProcessId>,
    pub render_surface: RenderSurfaceId,
}

/// The bytes of an optional icon.
pub open spec fn icon_bytes(o: Option<Vec<u8>>) -> Option<Seq<u8>> {
    match o {
        Some(v) => Some(v@),
        None => None,
    }
}

impl View for Tab {
    type V = TabRecord;

    open spec fn view(&self) -> TabRecord {
        TabRecord {
            id: self.id,
            window_id: self.window_id,
            title: self.title@,
            url: self.url,
            loading: self.loading,
            can_go_back: self.can_go_back,
            can_go_forward: self.can_go_forward,
            favicon: icon_bytes(self.favicon),
            process_id: self.process_id,
            render_surface: self.render_surface,
        }
    }
}

/// A copy of an optional icon.
fn copy_icon(o: &Option<Vec<u8>>) -> (r: Option<Vec<u8>>)
    ensures
        icon_bytes(r) == icon_bytes(*o),
{
    match o {
        Some(v) => {
            let c = v.clone();
            proof {
                assert(c@ =~= v@);
            }
            Some(c)
        },
        None => None,
    }
}

/// A copy of an optional text.
fn copy_text(o: &Option<String>) -> (r: Option<String>)
    ensures
        r == *o,
{
    match o {
        Some(s) => Some(s.clone()),
        None => None,
    }
}

impl Clone for Tab {
    fn clone(&self) -> (r: Self)
        ensures
            r@ == self@,
    {
        Tab {
            id: self.id,
            window_id: self.window_id,
            title: self.title.clone(),
            url: copy_text(&self.url),
            loading: self.loading,
            can_go_back: self.can_go_back,
            can_go_forward: self.can_go_forward,
            favicon: copy_icon(&self.favicon),
            process_id: self.process_id,
            render_surface: self.render_surface,
        }
    }
}

/// The render surface of a tab carries the tab's number.
pub open spec fn surface_of(id: TabId) -> RenderSurfaceId {
    RenderSurfaceId(id.0)
}

/// The complete state of one tab: its description, history, process and
/// surface.
#[derive(Debug)]
pub struct TabState {
    pub id: TabId,
    pub window_id: WindowId,
    pub title: String,
    pub loading: bool,
    pub history: NavigationHistory,
    pub process_id: Option<ProcessId>,
    pub render_surface: RenderSurfaceId,
    pub favicon: Option<Vec<u8>>,
}

impl TabState {
    /// A tab titled "New Tab", not loading, without process or favicon,
    /// whose history holds `initial_url` if given.
    pub fn new(id: TabId, window_id: WindowId, initial_url: Option<String>) -> (s: Self)
        ensures
            s.id == id,
            s.window_id == window_id,
            s.title@ == "New Tab"@,
            !s.loading,
            s.history@.wf(),
            s.history@.back.len() == 0,
            s.history@.forward.len() == 0,
            s.history@.current == initial_url,
            s.process_id is None,
            s.render_surface == surface_of(id),
            s.favicon is None,
    {
        let mut history = NavigationHistory::new();
        match initial_url {
            Some(url) => history.navigate(url),
            None => {},
        }
        TabState {
            id,
            window_id,
            title: String::from_str("New Tab"),
            loading: false,
            history,
            process_id: None,
            render_surface: RenderSurfaceId(id.0),
            favicon: None,
        }
    }

    /// The shared description of this tab.
    pub fn to_tab(&self) -> (t: Tab)
        requires
            self.history@.wf(),
        ensures
            t@ == (TabRecord {
                id: self.id,
                window_id: self.window_id,
                title: self.title@,
                url: self.history@.current,
                loading: self.loading,
                can_go_back: self.history@.back.len() > 0,
                can_go_forward: self.history@.forward.len() > 0,
                favicon: icon_bytes(self.favicon),
                process_id: self.process_id,
                render_surface: self.render_surface,
            }),
    {
        let url = match self.history.current_url() {
            Some(u) => Some(u.clone()),
            None => None,
        };
        Tab {
            id: self.id,
            window_id: self.window_id,
            title: self.title.clone(),
            url,
            loading: self.loading,
            can_go_back: self.history.can_go_back(),
            can_go_forward: self.history.can_go_forward(),
            favicon: copy_icon(&self.favicon),
            process_id: self.process_id,
            render_surface: self.render_surface,
        }
    }

    /// Visit `url`; the tab starts loading.
    pub fn navigate(&mut self, url: String)
        requires
            old(self).history@.wf(),
        ensures
            final(self).history@ == old(self).history@.navigated(url),
            final(self).history@.wf(),
            *final(self) == (TabState { history: final(self).history, loading: true, ..*old(self) }),
    {
        self.history.navigate(url);
        self.loading = true;
    }

    /// Go back one page; the tab starts loading when it moved.  Returns the
    /// page gone back to.
    pub fn go_back(&mut self) -> (r: Option<String>)
        requires
            old(self).history@.wf(),
        ensures
            final(self).history@ == old(self).history@.went_back(),
            final(self).history@.wf(),
            r == (if old(self).history@.back.len() > 0 {
                Some(old(self).history@.back.last())
            } else {
                None::<String>
            }),
            *final(self) == (TabState {
                history: final(self).history,
                loading: if r is Some {
                    true
                } else {
                    old(self).loading
                },
                ..*old(self)
            }),
    {
        let url = self.history.go_back();
        if url.is_some() {
            self.loading = true;
        }
        url
    }

    /// Go forward one page; the tab starts loading when it moved.  Returns
    /// the page gone forward to.
    pub fn go_forward(&mut self) -> (r: Option<String>)
        requires
            old(self).history@.wf(),
        ensures
            final(self).history@ == old(self).history@.went_forward(),
            final(self).history@.wf(),
            r == (if old(self).history@.forward.len() > 0 {
                Some(old(self).history@.forward[0])
            } else {
                None::<String>
            }),
            *final(self) == (TabState {
                history: final(self).history,
                loading: if r is Some {
                    true
                } else {
                    old(self).loading
                },
                ..*old(self)
            }),
    {
        let url = self.history.go_forward();
        if url.is_some() {
            self.loading = true;
        }
        url
    }

    /// The page finished loading.
    pub fn finish_loading(&mut self)
        ensures
            *final(self) == (TabState { loading: false, ..*old(self) }),
    {
        self.loading = false;
    }

    /// Stop loading.
    pub fn stop_loading(&mut self)
        ensures
            *final(self) == (TabState { loading: false, ..*old(self) }),
    {
        self.loading = false;
    }

    /// Record the tab's process.
    pub fn set_process(&mut self, process_id: ProcessId)
        ensures
            *final(self) == (TabState { process_id: Some(process_id), ..*old(self) }),
    {
        self.process_id = Some(process_id);
    }

    /// Retitle the tab.
    pub fn set_title(&mut self, title: String)
        ensures
            *final(self) == (TabState { title: title, ..*old(self) }),
    {
        self.title = title;
    }

    /// Give the tab an icon.
    pub fn set_favicon(&mut self, favicon: Vec<u8>)
        ensures
            *final(self) == (TabState { favicon: Some(favicon), ..*old(self) }),
    {
        self.favicon = Some(favicon);
    }
}

/// The first process number handed out, well above real process ids.
pub const FIRST_MOCK_PROCESS_ID: u32 = 1000;

/// The abstract state of a `MockProcessManager`.
pub struct ProcessTableView {
    /// Each tab with its process, in the order the tabs first got one.
    pub processes: Seq<(TabId, ProcessId)>,
    pub next_process_id: u32,
}

/// The entry is for this tab.
pub open spec fn process_of(tab_id: TabId) -> spec_fn((TabId, ProcessId)) -> bool {
    |e: (TabId, ProcessId)| e.0 == tab_id
}

/// The position of this tab's entry.
pub open spec fn process_position(s: Seq<(TabId, ProcessId)>, tab_id: TabId) -> Option<int> {
    first_match(s, process_of(tab_id))
}

/// The table with `tab_id` given `pid`, replacing its old process if any.
pub open spec fn process_assigned(s: Seq<(TabId, ProcessId)>, tab_id: TabId, pid: ProcessId) -> Seq<
    (TabId, ProcessId),
> {
    match process_position(s, tab_id) {
        Some(p) => s.update(p, (tab_id, pid)),
        None => s.push((tab_id, pid)),
    }
}

impl ProcessTableView {
    /// Each tab appears once.
    pub open spec fn wf(self) -> bool {
        forall|i: int, j: int|
            0 <= i < j < self.processes.len() ==> #[trigger] self.processes[i].0
                != #[trigger] self.processes[j].0
    }
}

/// Hands out simulated renderer processes, one per tab.
#[derive(Debug)]
pub struct MockProcessManager {
    processes: Vec<(TabId, ProcessId)>,
    next_process_id: u32,
}

impl View for MockProcessManager {
    type V = ProcessTableView;

    closed spec fn view(&self) -> ProcessTableView {
        ProcessTableView { processes: self.processes@, next_process_id: self.next_process_id }
    }
}

impl MockProcessManager {
    /// No processes; the first one is numbered 1000.
    pub fn new() -> (m: Self)
        ensures
            m@.wf(),
            m@.processes.len() == 0,
            m@.next_process_id == FIRST_MOCK_PROCESS_ID,
    {
        MockProcessManager { processes: Vec::new(), next_process_id: FIRST_MOCK_PROCESS_ID }
    }

    fn position(&self, tab_id: TabId) -> (r: Option<usize>)
        ensures
            match r {
                Some(i) => process_position(self@.processes, tab_id) == Some(i as int) && i
                    < self@.processes.len(),
                None => process_position(self@.processes, tab_id) is None,
            },
    {
        let n = self.processes.len();
        let mut i: usize = 0;
        while i < n
            invariant
                n == self.processes@.len(),
                i <= n,
                forall|j: int| 0 <= j < i ==> self.processes@[j].0 != tab_id,
            decreases n - i,
        {
            if self.processes[i].0 == tab_id {
                proof {
                    lemma_first_match_at(self@.processes, process_of(tab_id), i as int);
                }
                return Some(i);
            }
            i += 1;
        }
        proof {
            lemma_first_match_none(self@.processes, process_of(tab_id));
        }
        None
    }

    /// Give a tab the next process, replacing any process it had.
    pub fn allocate_process(&mut self, tab_id: TabId) -> (pid: ProcessId)
        requires
            old(self)@.wf(),
            old(self)@.next_process_id < u32::MAX,
        ensures
            final(self)@.wf(),
            pid == ProcessId(old(self)@.next_process_id),
            final(self)@ == (ProcessTableView {
                processes: process_assigned(old(self)@.processes, tab_id, pid),
                next_process_id: (old(self)@.next_process_id + 1) as u32,
            }),
    {
        let pid = ProcessId(self.next_process_id);
        self.next_process_id = self.next_process_id + 1;
        match self.position(tab_id) {
            Some(p) => {
                self.processes.set(p, (tab_id, pid));
                proof {
                    lemma_first_match(old(self)@.processes, process_of(tab_id));
                    assert forall|i: int, j: int|
                        0 <= i < j < self@.processes.len() implies #[trigger] self@.processes[i].0
                        != #[trigger] self@.processes[j].0 by {
                        assert(old(self)@.processes[i].0 != old(self)@.processes[j].0);
                    }
                }
            },
            None => {
                self.processes.push((tab_id, pid));
                proof {
                    lemma_first_match(old(self)@.processes, process_of(tab_id));
                    assert forall|i: int, j: int|
                        0 <= i < j < self@.processes.len() implies #[trigger] self@.processes[i].0
                        != #[trigger] self@.processes[j].0 by {
                        if j == self@.processes.len() - 1 {
                            assert(!process_of(tab_id)(old(self)@.processes[i]));
                        } else {
                            assert(old(self)@.processes[i].0 != old(self)@.processes[j].0);
                        }
                    }
                }
            },
        }
        pid
    }

    /// The process of a tab, if it has one.
    pub fn get_process(&self, tab_id: TabId) -> (r: Option<ProcessId>)
        ensures
            match process_position(self@.processes, tab_id) {
                Some(p) => r == Some(self@.processes[p].1),
                None => r is None,
            },
    {
        match self.position(tab_id) {
            Some(p) => Some(self.processes[p].1),
            None => None,
        }
    }

    /// Take a tab's process away; returns it, if the tab had one.
    pub fn release_process(&mut self, tab_id: TabId) -> (r: Option<ProcessId>)
        requires
            old(self)@.wf(),
        ensures
            final(self)@.wf(),
            match process_position(old(self)@.processes, tab_id) {
                Some(p) => r == Some(old(self)@.processes[p].1) && final(self)@ == (ProcessTableView {
                    processes: old(self)@.processes.remove(p),
                    ..old(self)@
                }),
                None => r is None && final(self)@ == old(self)@,
            },
    {
        match self.position(tab_id) {
            Some(p) => {
                let e = self.processes.remove(p);
                proof {
                    assert forall|i: int, j: int|
                        0 <= i < j < self@.processes.len() implies #[trigger] self@.processes[i].0
                        != #[trigger] self@.processes[j].0 by {
                        let i0 = if i < p { i } else { i + 1 };
                        let j0 = if j < p { j } else { j + 1 };
                        assert(old(self)@.processes[i0].0 != old(self)@.processes[j0].0);
                    }
                }
                Some(e.1)
            },
            None => None,
        }
    }

    /// The processes in use, in the order their tabs first got one.
    pub fn active_processes(&self) -> (r: Vec<ProcessId>)
        ensures
            r@ == self@.processes.map_values(|e: (TabId, ProcessId)| e.1),
    {
        let mut r: Vec<ProcessId> = Vec::new();
        let n = self.processes.len();
        let mut i: usize = 0;
        while i < n
            invariant
                n == self.processes@.len(),
                i <= n,
                r@ =~= self@.processes.take(i as int).map_values(|e: (TabId, ProcessId)| e.1),
            decreases n - i,
        {
            r.push(self.processes[i].1);
            i += 1;
            proof {
                assert(r@ =~= self@.processes.take(i as int).map_values(|e: (TabId, ProcessId)| e.1));
            }
        }
        proof {
            assert(self@.processes.take(n as int) =~= self@.processes);
        }
        r
    }

    /// The number of processes in use.
    pub fn process_count(&self) -> (n: usize)
        ensures
            n == self@.processes.len(),
    {
        self.processes.len()
    }
}

impl Default for MockProcessManager {
    fn default() -> (m: Self)
        ensures
            m@.wf(),
            m@.processes.len() == 0,
            m@.next_process_id == FIRST_MOCK_PROCESS_ID,
    {
        MockProcessManager::new()
    }
}


/// A tab as the manager holds it: its description and its history.
#[derive(Debug)]
struct ImplEntry {
    tab: Tab,
    nav: NavigationHistory,
}

/// The abstract value of a managed tab.
pub struct ImplEntryView {
    pub tab: TabRecord,
    pub history: HistoryView,
}

impl View for ImplEntry {
    type V = ImplEntryView;

    closed spec fn view(&self) -> ImplEntryView {
        ImplEntryView { tab: self.tab@, history: self.nav@ }
    }
}

impl ImplEntryView {
    /// The history is well formed and the tab's URL and flags follow it.
    pub open spec fn wf(self) -> bool {
        &&& self.history.wf()
        &&& self.tab.url == self.history.current
        &&& self.tab.can_go_back == (self.history.back.len() > 0)
        &&& self.tab.can_go_forward == (self.history.forward.len() > 0)
    }
}

/// The abstract state of a `TabManagerImpl`.
pub struct TabManagerImplView {
    /// The tabs in creation order.
    pub tabs: Seq<ImplEntryView>,
    /// The active tab of each window that has one.
    pub active: Seq<(WindowId, TabId)>,
    pub processes: ProcessTableView,
}

/// The managed tab has this identifier.
pub open spec fn entry_is(id: TabId) -> spec_fn(ImplEntryView) -> bool {
    |e: ImplEntryView| e.tab.id == id
}

/// The managed tab is in this window.
pub open spec fn entry_in(w: WindowId) -> spec_fn(ImplEntryView) -> bool {
    |e: ImplEntryView| e.tab.window_id == w
}

/// The activation is for this window.
pub open spec fn window_is(w: WindowId) -> spec_fn((WindowId, TabId)) -> bool {
    |a: (WindowId, TabId)| a.0 == w
}

/// The position of the tab with this identifier.
pub open spec fn entry_position(tabs: Seq<ImplEntryView>, id: TabId) -> Option<int> {
    first_match(tabs, entry_is(id))
}

/// The active tab of a window, if it has one.
pub open spec fn active_of(active: Seq<(WindowId, TabId)>, w: WindowId) -> Option<TabId> {
    match first_match(active, window_is(w)) {
        Some(i) => Some(active[i].1),
        None => None,
    }
}

/// The activations with `t` active in `w`, replacing `w`'s old one.
pub open spec fn activated(active: Seq<(WindowId, TabId)>, w: WindowId, t: TabId) -> Seq<
    (WindowId, TabId),
> {
    match first_match(active, window_is(w)) {
        Some(i) => active.update(i, (w, t)),
        None => active.push((w, t)),
    }
}

/// The tabs with `e` added, replacing the tab with the same identifier.
pub open spec fn entry_upserted(tabs: Seq<ImplEntryView>, e: ImplEntryView) -> Seq<ImplEntryView> {
    match entry_position(tabs, e.tab.id) {
        Some(p) => tabs.update(p, e),
        None => tabs.push(e),
    }
}

/// A new tab `id` in `w` with process `pid`, titled "New Tab", showing
/// `url` (its whole history) if given.
pub open spec fn created_entry(id: TabId, w: WindowId, url: Option<String>, pid: ProcessId) -> ImplEntryView {
    ImplEntryView {
        tab: TabRecord {
            id: id,
            window_id: w,
            title: "New Tab"@,
            url: url,
            loading: false,
            can_go_back: false,
            can_go_forward: false,
            favicon: None,
            process_id: Some(pid),
            render_surface: surface_of(id),
        },
        history: HistoryView { back: Seq::empty(), forward: Seq::empty(), current: url },
    }
}

/// The managed tab after its history became `h`, with the tab loading (or
/// not) as given and its URL and flags following the history.
pub open spec fn with_history(e: ImplEntryView, h: HistoryView, loading: bool) -> ImplEntryView {
    ImplEntryView {
        tab: TabRecord {
            url: h.current,
            loading: loading,
            can_go_back: h.back.len() > 0,
            can_go_forward: h.forward.len() > 0,
            ..e.tab
        },
        history: h,
    }
}

/// The managed tab with its loading flag set as given.
pub open spec fn with_loading(e: ImplEntryView, loading: bool) -> ImplEntryView {
    ImplEntryView { tab: TabRecord { loading: loading, ..e.tab }, ..e }
}

impl TabManagerImplView {
    /// Tab identifiers are distinct, every tab is well formed, each window
    /// has at most one active tab, and each tab has at most one process.
    pub open spec fn wf(self) -> bool {
        &&& forall|i: int, j: int|
            0 <= i < j < self.tabs.len() ==> #[trigger] self.tabs[i].tab.id != #[trigger] self.tabs[j].tab.id
        &&& forall|i: int| 0 <= i < self.tabs.len() ==> (#[trigger] self.tabs[i]).wf()
        &&& forall|i: int, j: int|
            0 <= i < j < self.active.len() ==> #[trigger] self.active[i].0 != #[trigger] self.active[j].0
        &&& self.processes.wf()
    }
}

/// Manages tabs, their histories, the active tab of each window and the
/// tabs' processes.
#[derive(Debug)]
pub struct TabManagerImpl {
    tabs: Vec<ImplEntry>,
    active_tabs: Vec<(WindowId, TabId)>,
    process_manager: MockProcessManager,
}

impl View for TabManagerImpl {
    type V = TabManagerImplView;

    closed spec fn view(&self) -> TabManagerImplView {
        TabManagerImplView {
            tabs: self.tabs@.map_values(|e: ImplEntry| e@),
            active: self.active_tabs@,
            processes: self.process_manager@,
        }
    }
}

impl TabManagerImpl {
    /// No tabs, no active tabs, no processes.
    pub fn new() -> (m: Self)
        ensures
            m@.wf(),
            m@.tabs.len() == 0,
            m@.active.len() == 0,
            m@.processes.processes.len() == 0,
            m@.processes.next_process_id == FIRST_MOCK_PROCESS_ID,
    {
        let m = TabManagerImpl {
            tabs: Vec::new(),
            active_tabs: Vec::new(),
            process_manager: MockProcessManager::new(),
        };
        proof {
            assert(m@.tabs =~= Seq::<ImplEntryView>::empty());
        }
        m
    }

    /// The number of tabs.
    pub fn tab_count(&self) -> (n: usize)
        ensures
            n == self@.tabs.len(),
    {
        self.tabs.len()
    }

    fn position(&self, id: TabId) -> (r: Option<usize>)
        ensures
            match r {
                Some(i) => entry_position(self@.tabs, id) == Some(i as int) && i < self@.tabs.len(),
                None => entry_position(self@.tabs, id) is None,
            },
    {
        let n = self.tabs.len();
        let mut i: usize = 0;
        while i < n
            invariant
                n == self.tabs@.len(),
                i <= n,
                forall|j: int| 0 <= j < i ==> self@.tabs[j].tab.id != id,
            decreases n - i,
        {
            if self.tabs[i].tab.id == id {
                proof {
                    assert(self@.tabs[i as int].tab.id == id);
                    lemma_first_match_at(self@.tabs, entry_is(id), i as int);
                }
                return Some(i);
            }
            i += 1;
        }
        proof {
            lemma_first_match_none(self@.tabs, entry_is(id));
        }
        None
    }

    fn active_position(&self, w: WindowId) -> (r: Option<usize>)
        ensures
            match r {
                Some(i) => first_match(self@.active, window_is(w)) == Some(i as int) && i
                    < self@.active.len(),
                None => first_match(self@.active, window_is(w)) is None,
            },
    {
        let n = self.active_tabs.len();
        let mut i: usize = 0;
        while i < n
            invariant
                n == self.active_tabs@.len(),
                i <= n,
                forall|j: int| 0 <= j < i ==> self@.active[j].0 != w,
            decreases n - i,
        {
            if self.active_tabs[i].0 == w {
                proof {
                    lemma_first_match_at(self@.active, window_is(w), i as int);
                }
                return Some(i);
            }
            i += 1;
        }
        proof {
            lemma_first_match_none(self@.active, window_is(w));
        }
        None
    }

    /// Whether the tab is the active tab of its window.
    pub fn is_active_tab(&self, tab_id: TabId) -> (b: bool)
        ensures
            b == match entry_position(self@.tabs, tab_id) {
                Some(p) => active_of(self@.active, self@.tabs[p].tab.window_id) == Some(tab_id),
                None => false,
            },
    {
        match self.position(tab_id) {
            Some(p) => {
                let w = self.tabs[p].tab.window_id;
                match self.active_position(w) {
                    Some(i) => self.active_tabs[i].1 == tab_id,
                    None => false,
                }
            },
            None => false,
        }
    }

    /// Make `t` the active tab of `w`.
    fn set_active(&mut self, w: WindowId, t: TabId)
        requires
            old(self)@.wf(),
        ensures
            final(self)@.wf(),
            final(self)@ == (TabManagerImplView { active: activated(old(self)@.active, w, t), ..old(self)@ }),
    {
        match self.active_position(w) {
            Some(i) => {
                self.active_tabs.set(i, (w, t));
                proof {
                    lemma_first_match(old(self)@.active, window_is(w));
                    assert forall|a: int, b: int|
                        0 <= a < b < self@.active.len() implies #[trigger] self@.active[a].0
                        != #[trigger] self@.active[b].0 by {
                        assert(old(self)@.active[a].0 != old(self)@.active[b].0);
                    }
                }
            },
            None => {
                self.active_tabs.push((w, t));
                proof {
                    lemma_first_match(old(self)@.active, window_is(w));
                    assert forall|a: int, b: int|
                        0 <= a < b < self@.active.len() implies #[trigger] self@.active[a].0
                        != #[trigger] self@.active[b].0 by {
                        if b == self@.active.len() - 1 {
                            assert(!window_is(w)(old(self)@.active[a]));
                        } else {
                            assert(old(self)@.active[a].0 != old(self)@.active[b].0);
                        }
                    }
                }
            },
        }
    }

    /// Add an entry, replacing the tab with the same identifier.
    fn upsert(&mut self, e: ImplEntry)
        requires
            old(self)@.wf(),
            e@.wf(),
        ensures
            final(self)@.wf(),
            final(self)@ == (TabManagerImplView { tabs: entry_upserted(old(self)@.tabs, e@), ..old(self)@ }),
    {
        let ghost ev = e@;
        match self.position(e.tab.id) {
            Some(p) => {
                self.tabs.set(p, e);
                proof {
                    assert(self@.tabs =~= old(self)@.tabs.update(p as int, ev));
                    lemma_first_match(old(self)@.tabs, entry_is(ev.tab.id));
                    assert forall|i: int, j: int|
                        0 <= i < j < self@.tabs.len() implies #[trigger] self@.tabs[i].tab.id
                        != #[trigger] self@.tabs[j].tab.id by {
                        assert(old(self)@.tabs[i].tab.id != old(self)@.tabs[j].tab.id);
                    }
                    assert forall|i: int| 0 <= i < self@.tabs.len() implies (#[trigger] self@.tabs[i]).wf() by {
                        if i != p {
                            assert(old(self)@.tabs[i].wf());
                        }
                    }
                }
            },
            None => {
                self.tabs.push(e);
                proof {
                    assert(self@.tabs =~= old(self)@.tabs.push(ev));
                    lemma_first_match(old(self)@.tabs, entry_is(ev.tab.id));
                    assert forall|i: int, j: int|
                        0 <= i < j < self@.tabs.len() implies #[trigger] self@.tabs[i].tab.id
                        != #[trigger] self@.tabs[j].tab.id by {
                        if j == self@.tabs.len() - 1 {
                            assert(!entry_is(ev.tab.id)(old(self)@.tabs[i]));
                        } else {
                            assert(old(self)@.tabs[i].tab.id != old(self)@.tabs[j].tab.id);
                        }
                    }
                    assert forall|i: int| 0 <= i < self@.tabs.len() implies (#[trigger] self@.tabs[i]).wf() by {
                        if i < old(self)@.tabs.len() {
                            assert(old(self)@.tabs[i].wf());
                        }
                    }
                }
            },
        }
    }

    /// Open a tab in a window, with its own process, showing `url` if
    /// given; it becomes the window's active tab when the window has none.
    pub fn create_tab(&mut self, window_id: WindowId, url: Option<String>) -> (r: Result<TabId, TabError>)
        requires
            old(self)@.wf(),
            old(self)@.processes.next_process_id < u32::MAX,
        ensures
            final(self)@.wf(),
            r matches Ok(id) && ({
                let pid = ProcessId(old(self)@.processes.next_process_id);
                &&& final(self)@.tabs == entry_upserted(
                    old(self)@.tabs,
                    created_entry(id, window_id, url, pid),
                )
                &&& final(self)@.processes == (ProcessTableView {
                    processes: process_assigned(old(self)@.processes.processes, id, pid),
                    next_process_id: (old(self)@.processes.next_process_id + 1) as u32,
                })
                &&& final(self)@.active == if active_of(old(self)@.active, window_id) is None {
                    old(self)@.active.push((window_id, id))
                } else {
                    old(self)@.active
                }
            }),
    {
        let tab_id = TabId::new();
        let process_id = self.process_manager.allocate_process(tab_id);
        let mut nav = NavigationHistory::new();
        match &url {
            Some(u) => nav.navigate(u.clone()),
            None => {},
        }
        let current = match nav.current_url() {
            Some(u) => Some(u.clone()),
            None => None,
        };
        let tab = Tab {
            id: tab_id,
            window_id,
            title: String::from_str("New Tab"),
            url: current,
            loading: false,
            can_go_back: nav.can_go_back(),
            can_go_forward: nav.can_go_forward(),
            favicon: None,
            process_id: Some(process_id),
            render_surface: RenderSurfaceId(tab_id.0),
        };
        let e = ImplEntry { tab, nav };
        proof {
            assert(e@ == created_entry(tab_id, window_id, url, process_id));
        }
        self.upsert(e);
        match self.active_position(window_id) {
            Some(_) => {},
            None => {
                self.set_active(window_id, tab_id);
                proof {
                    lemma_first_match(old(self)@.active, window_is(window_id));
                }
            },
        }
        proof {
            lemma_first_match(old(self)@.active, window_is(window_id));
        }
        Ok(tab_id)
    }
}


/// The process table after a tab's process is taken away.
pub open spec fn process_released(t: ProcessTableView, id: TabId) -> ProcessTableView {
    match process_position(t.processes, id) {
        Some(q) => ProcessTableView { processes: t.processes.remove(q), ..t },
        None => t,
    }
}

/// The activations after closing tab `id` of window `w`, with `rest` the
/// remaining tabs: when it was the window's active tab, the window's first
/// remaining tab (if any) becomes active instead.
pub open spec fn active_after_close(
    active: Seq<(WindowId, TabId)>,
    w: WindowId,
    id: TabId,
    rest: Seq<ImplEntryView>,
) -> Seq<(WindowId, TabId)> {
    if active_of(active, w) == Some(id) {
        let a = active.remove(first_match(active, window_is(w)).unwrap());
        match first_match(rest, entry_in(w)) {
            Some(k) => a.push((w, rest[k].tab.id)),
            None => a,
        }
    } else {
        active
    }
}

impl TabManagerImpl {
    fn take_entry(&mut self, p: usize) -> (e: ImplEntry)
        requires
            p < old(self)@.tabs.len(),
        ensures
            e@ == old(self)@.tabs[p as int],
            final(self)@ == (TabManagerImplView { tabs: old(self)@.tabs.remove(p as int), ..old(self)@ }),
    {
        let e = self.tabs.remove(p);
        proof {
            assert(self@.tabs =~= old(self)@.tabs.remove(p as int));
        }
        e
    }

    fn put_entry(&mut self, p: usize, e: ImplEntry)
        requires
            p <= old(self)@.tabs.len(),
        ensures
            final(self)@ == (TabManagerImplView {
                tabs: old(self)@.tabs.insert(p as int, e@),
                ..old(self)@
            }),
    {
        let ghost ev = e@;
        self.tabs.insert(p, e);
        proof {
            assert(self@.tabs =~= old(self)@.tabs.insert(p as int, ev));
        }
    }

    /// Replacing the tab at `p` by a well-formed tab with the same
    /// identifier keeps the manager well formed.
    proof fn lemma_update_wf(m: TabManagerImplView, p: int, e: ImplEntryView)
        requires
            m.wf(),
            0 <= p < m.tabs.len(),
            e.wf(),
            e.tab.id == m.tabs[p].tab.id,
        ensures
            (TabManagerImplView { tabs: m.tabs.update(p, e), ..m }).wf(),
    {
        let n = TabManagerImplView { tabs: m.tabs.update(p, e), ..m };
        assert forall|i: int, j: int|
            0 <= i < j < n.tabs.len() implies #[trigger] n.tabs[i].tab.id != #[trigger] n.tabs[j].tab.id by {
            assert(m.tabs[i].tab.id != m.tabs[j].tab.id);
        }
        assert forall|i: int| 0 <= i < n.tabs.len() implies (#[trigger] n.tabs[i]).wf() by {
            assert(m.tabs[i].wf());
        }
    }

    /// The first tab in window `w`, if any.
    fn first_in_window(&self, w: WindowId) -> (r: Option<usize>)
        ensures
            match r {
                Some(k) => first_match(self@.tabs, entry_in(w)) == Some(k as int) && k < self@.tabs.len(),
                None => first_match(self@.tabs, entry_in(w)) is None,
            },
    {
        let n = self.tabs.len();
        let mut i: usize = 0;
        while i < n
            invariant
                n == self.tabs@.len(),
                i <= n,
                forall|j: int| 0 <= j < i ==> self@.tabs[j].tab.window_id != w,
            decreases n - i,
        {
            if self.tabs[i].tab.window_id == w {
                proof {
                    assert(self@.tabs[i as int].tab.window_id == w);
                    lemma_first_match_at(self@.tabs, entry_in(w), i as int);
                }
                return Some(i);
            }
            i += 1;
        }
        proof {
            lemma_first_match_none(self@.tabs, entry_in(w));
        }
        None
    }

    /// Close a tab and release its process; when it was its window's active
    /// tab, the window's first remaining tab (if any) becomes active.  An
    /// unknown tab is refused.
    pub fn close_tab(&mut self, tab_id: TabId) -> (r: Result<(), TabError>)
        requires
            old(self)@.wf(),
        ensures
            final(self)@.wf(),
            match entry_position(old(self)@.tabs, tab_id) {
                None => r == Err::<(), TabError>(TabError::NotFound(tab_id)) && final(self)@ == old(
                    self,
                )@,
                Some(p) => r is Ok && final(self)@ == (TabManagerImplView {
                    tabs: old(self)@.tabs.remove(p),
                    active: active_after_close(
                        old(self)@.active,
                        old(self)@.tabs[p].tab.window_id,
                        tab_id,
                        old(self)@.tabs.remove(p),
                    ),
                    processes: process_released(old(self)@.processes, tab_id),
                }),
            },
    {
        let p = match self.position(tab_id) {
            Some(p) => p,
            None => {
                return Err(TabError::NotFound(tab_id));
            },
        };
        let w = self.tabs[p].tab.window_id;
        self.process_manager.release_process(tab_id);
        self.tabs.remove(p);
        let ghost rest = old(self)@.tabs.remove(p as int);
        proof {
            assert(self@.tabs =~= rest);
            assert forall|i: int, j: int|
                0 <= i < j < self@.tabs.len() implies #[trigger] self@.tabs[i].tab.id
                != #[trigger] self@.tabs[j].tab.id by {
                let i0 = if i < p { i } else { i + 1 };
                let j0 = if j < p { j } else { j + 1 };
                assert(old(self)@.tabs[i0].tab.id != old(self)@.tabs[j0].tab.id);
            }
            assert forall|i: int| 0 <= i < self@.tabs.len() implies (#[trigger] self@.tabs[i]).wf() by {
                let i0 = if i < p { i } else { i + 1 };
                assert(old(self)@.tabs[i0].wf());
            }
        }
        match self.active_position(w) {
            Some(i) => {
                if self.active_tabs[i].1 == tab_id {
                    let ghost before = self@.active;
                    self.active_tabs.remove(i);
                    proof {
                        lemma_first_match(before, window_is(w));
                        assert forall|a: int, b: int|
                            0 <= a < b < self@.active.len() implies #[trigger] self@.active[a].0
                            != #[trigger] self@.active[b].0 by {
                            let a0 = if a < i { a } else { a + 1 };
                            let b0 = if b < i { b } else { b + 1 };
                            assert(before[a0].0 != before[b0].0);
                        }
                        assert forall|a: int| 0 <= a < self@.active.len() implies !window_is(w)(
                            #[trigger] self@.active[a],
                        ) by {
                            let a0 = if a < i { a } else { a + 1 };
                            if a0 < i {
                            } else {
                                assert(before[a0].0 != before[i as int].0);
                            }
                        }
                        lemma_first_match_none(self@.active, window_is(w));
                    }
                    match self.first_in_window(w) {
                        Some(k) => {
                            let next = self.tabs[k].tab.id;
                            self.set_active(w, next);
                        },
                        None => {},
                    }
                }
            },
            None => {},
        }
        Ok(())
    }

    /// Visit `url` in a tab: it joins the history and the tab starts
    /// loading.  An unknown tab is refused.
    pub fn navigate(&mut self, tab_id: TabId, url: String) -> (r: Result<(), TabError>)
        requires
            old(self)@.wf(),
        ensures
            final(self)@.wf(),
            match entry_position(old(self)@.tabs, tab_id) {
                None => r == Err::<(), TabError>(TabError::NotFound(tab_id)) && final(self)@ == old(
                    self,
                )@,
                Some(p) => r is Ok && final(self)@ == (TabManagerImplView {
                    tabs: old(self)@.tabs.update(
                        p,
                        with_history(old(self)@.tabs[p], old(self)@.tabs[p].history.navigated(url), true),
                    ),
                    ..old(self)@
                }),
            },
    {
        let p = match self.position(tab_id) {
            Some(p) => p,
            None => {
                return Err(TabError::NotFound(tab_id));
            },
        };
        let ghost before = self@;
        proof {
            assert(before.tabs[p as int].wf());
        }
        let mut e = self.take_entry(p);
        e.nav.navigate(url.clone());
        e.tab.loading = true;
        e.tab.url = Some(url);
        e.tab.can_go_back = e.nav.can_go_back();
        e.tab.can_go_forward = e.nav.can_go_forward();
        let ghost ev = e@;
        self.put_entry(p, e);
        proof {
            assert(self@.tabs =~= before.tabs.update(p as int, ev));
            Self::lemma_update_wf(before, p as int, ev);
        }
        Ok(())
    }

    /// Mark a tab as loading again.  An unknown tab is refused.
    pub fn reload(&mut self, tab_id: TabId, ignore_cache: bool) -> (r: Result<(), TabError>)
        requires
            old(self)@.wf(),
        ensures
            final(self)@.wf(),
            match entry_position(old(self)@.tabs, tab_id) {
                None => r == Err::<(), TabError>(TabError::NotFound(tab_id)) && final(self)@ == old(
                    self,
                )@,
                Some(p) => r is Ok && final(self)@ == (TabManagerImplView {
                    tabs: old(self)@.tabs.update(p, with_loading(old(self)@.tabs[p], true)),
                    ..old(self)@
                }),
            },
    {
        self.set_loading(tab_id, true)
    }

    /// Stop a tab loading.  An unknown tab is refused.
    pub fn stop(&mut self, tab_id: TabId) -> (r: Result<(), TabError>)
        requires
            old(self)@.wf(),
        ensures
            final(self)@.wf(),
            match entry_position(old(self)@.tabs, tab_id) {
                None => r == Err::<(), TabError>(TabError::NotFound(tab_id)) && final(self)@ == old(
                    self,
                )@,
                Some(p) => r is Ok && final(self)@ == (TabManagerImplView {
                    tabs: old(self)@.tabs.update(p, with_loading(old(self)@.tabs[p], false)),
                    ..old(self)@
                }),
            },
    {
        self.set_loading(tab_id, false)
    }

    fn set_loading(&mut self, tab_id: TabId, loading: bool) -> (r: Result<(), TabError>)
        requires
            old(self)@.wf(),
        ensures
            final(self)@.wf(),
            match entry_position(old(self)@.tabs, tab_id) {
                None => r == Err::<(), TabError>(TabError::NotFound(tab_id)) && final(self)@ == old(
                    self,
                )@,
                Some(p) => r is Ok && final(self)@ == (TabManagerImplView {
                    tabs: old(self)@.tabs.update(p, with_loading(old(self)@.tabs[p], loading)),
                    ..old(self)@
                }),
            },
    {
        let p = match self.position(tab_id) {
            Some(p) => p,
            None => {
                return Err(TabError::NotFound(tab_id));
            },
        };
        let ghost before = self@;
        proof {
            assert(before.tabs[p as int].wf());
        }
        let mut e = self.take_entry(p);
        e.tab.loading = loading;
        let ghost ev = e@;
        self.put_entry(p, e);
        proof {
            assert(self@.tabs =~= before.tabs.update(p as int, ev));
            Self::lemma_update_wf(before, p as int, ev);
        }
        Ok(())
    }

    /// Go back one page in a tab, which starts loading.  An unknown tab, or
    /// one with nothing to go back to, is refused.
    pub fn go_back(&mut self, tab_id: TabId) -> (r: Result<(), TabError>)
        requires
            old(self)@.wf(),
        ensures
            final(self)@.wf(),
            match entry_position(old(self)@.tabs, tab_id) {
                None => r == Err::<(), TabError>(TabError::NotFound(tab_id)) && final(self)@ == old(
                    self,
                )@,
                Some(p) => if old(self)@.tabs[p].history.back.len() > 0 {
                    r is Ok && final(self)@ == (TabManagerImplView {
                        tabs: old(self)@.tabs.update(
                            p,
                            with_history(old(self)@.tabs[p], old(self)@.tabs[p].history.went_back(), true),
                        ),
                        ..old(self)@
                    })
                } else {
                    (r matches Err(TabError::NavigationFailed(m)) && m@ == "No back history available"@)
                        && final(self)@ == old(self)@
                },
            },
    {
        self.step(tab_id, true)
    }

    /// Go forward one page in a tab, which starts loading.  An unknown tab,
    /// or one with nothing to go forward to, is refused.
    pub fn go_forward(&mut self, tab_id: TabId) -> (r: Result<(), TabError>)
        requires
            old(self)@.wf(),
        ensures
            final(self)@.wf(),
            match entry_position(old(self)@.tabs, tab_id) {
                None => r == Err::<(), TabError>(TabError::NotFound(tab_id)) && final(self)@ == old(
                    self,
                )@,
                Some(p) => if old(self)@.tabs[p].history.forward.len() > 0 {
                    r is Ok && final(self)@ == (TabManagerImplView {
                        tabs: old(self)@.tabs.update(
                            p,
                            with_history(
                                old(self)@.tabs[p],
                                old(self)@.tabs[p].history.went_forward(),
                                true,
                            ),
                        ),
                        ..old(self)@
                    })
                } else {
                    (r matches Err(TabError::NavigationFailed(m)) && m@
                        == "No forward history available"@) && final(self)@ == old(self)@
                },
            },
    {
        self.step(tab_id, false)
    }

    fn step(&mut self, tab_id: TabId, back: bool) -> (r: Result<(), TabError>)
        requires
            old(self)@.wf(),
        ensures
            final(self)@.wf(),
            match entry_position(old(self)@.tabs, tab_id) {
                None => r == Err::<(), TabError>(TabError::NotFound(tab_id)) && final(self)@ == old(
                    self,
                )@,
                Some(p) => if (if back {
                    old(self)@.tabs[p].history.back.len() > 0
                } else {
                    old(self)@.tabs[p].history.forward.len() > 0
                }) {
                    r is Ok && final(self)@ == (TabManagerImplView {
                        tabs: old(self)@.tabs.update(
                            p,
                            with_history(
                                old(self)@.tabs[p],
                                if back {
                                    old(self)@.tabs[p].history.went_back()
                                } else {
                                    old(self)@.tabs[p].history.went_forward()
                                },
                                true,
                            ),
                        ),
                        ..old(self)@
                    })
                } else {
                    (r matches Err(TabError::NavigationFailed(m)) && m@ == (if back {
                        "No back history available"@
                    } else {
                        "No forward history available"@
                    })) && final(self)@ == old(self)@
                },
            },
    {
        let p = match self.position(tab_id) {
            Some(p) => p,
            None => {
                return Err(TabError::NotFound(tab_id));
            },
        };
        let ghost before = self@;
        proof {
            assert(before.tabs[p as int].wf());
        }
        let possible = if back {
            self.tabs[p].nav.can_go_back()
        } else {
            self.tabs[p].nav.can_go_forward()
        };
        if !possible {
            return Err(TabError::NavigationFailed(
                String::from_str(
                    if back {
                        "No back history available"
                    } else {
                        "No forward history available"
                    },
                ),
            ));
        }
        let mut e = self.take_entry(p);
        let moved = if back {
            e.nav.go_back()
        } else {
            e.nav.go_forward()
        };
        e.tab.loading = true;
        e.tab.url = moved;
        e.tab.can_go_back = e.nav.can_go_back();
        e.tab.can_go_forward = e.nav.can_go_forward();
        let ghost ev = e@;
        self.put_entry(p, e);
        proof {
            assert(self@.tabs =~= before.tabs.update(p as int, ev));
            Self::lemma_update_wf(before, p as int, ev);
        }
        Ok(())
    }

    /// The description of a tab, if it exists.
    pub fn get_tab(&self, tab_id: TabId) -> (r: Option<&Tab>)
        ensures
            match entry_position(self@.tabs, tab_id) {
                Some(p) => r matches Some(t) && t@ == self@.tabs[p].tab,
                None => r is None,
            },
    {
        match self.position(tab_id) {
            Some(p) => Some(&self.tabs[p].tab),
            None => None,
        }
    }

    /// The descriptions of the tabs in a window, in creation order.
    pub fn get_tabs(&self, window_id: WindowId) -> (r: Vec<&Tab>)
        ensures
            r@.len() == select(self@.tabs, entry_in(window_id)).len(),
            forall|k: int|
                0 <= k < r@.len() ==> r@[k]@ == select(self@.tabs, entry_in(window_id))[k].tab,
    {
        let ghost f = entry_in(window_id);
        let mut r: Vec<&Tab> = Vec::new();
        let n = self.tabs.len();
        let mut i: usize = 0;
        while i < n
            invariant
                n == self.tabs@.len(),
                f == entry_in(window_id),
                i <= n,
                r@.len() == select(self@.tabs.take(i as int), f).len(),
                forall|k: int| 0 <= k < r@.len() ==> r@[k]@ == select(self@.tabs.take(i as int), f)[k].tab,
            decreases n - i,
        {
            proof {
                assert(self@.tabs.take(i + 1).drop_last() =~= self@.tabs.take(i as int));
                assert(self@.tabs.take(i + 1).last() == self@.tabs[i as int]);
            }
            if self.tabs[i].tab.window_id == window_id {
                r.push(&self.tabs[i].tab);
            }
            i += 1;
        }
        proof {
            assert(self@.tabs.take(n as int) =~= self@.tabs);
        }
        r
    }

    /// Make a tab the active tab of its window.  An unknown tab is refused.
    pub fn activate_tab(&mut self, tab_id: TabId) -> (r: Result<(), TabError>)
        requires
            old(self)@.wf(),
        ensures
            final(self)@.wf(),
            match entry_position(old(self)@.tabs, tab_id) {
                None => r == Err::<(), TabError>(TabError::NotFound(tab_id)) && final(self)@ == old(
                    self,
                )@,
                Some(p) => r is Ok && final(self)@ == (TabManagerImplView {
                    active: activated(old(self)@.active, old(self)@.tabs[p].tab.window_id, tab_id),
                    ..old(self)@
                }),
            },
    {
        let p = match self.position(tab_id) {
            Some(p) => p,
            None => {
                return Err(TabError::NotFound(tab_id));
            },
        };
        let w = self.tabs[p].tab.window_id;
        self.set_active(w, tab_id);
        Ok(())
    }
}

impl Default for TabManagerImpl {
    fn default() -> (m: Self)
        ensures
            m@.wf(),
            m@.tabs.len() == 0,
            m@.active.len() == 0,
            m@.processes.processes.len() == 0,
            m@.processes.next_process_id == FIRST_MOCK_PROCESS_ID,
    {
        TabManagerImpl::new()
    }
}

/// Once a tab is made active, it is its window's active tab.
pub proof fn law_activated_is_active(active: Seq<(WindowId, TabId)>, w: WindowId, t: TabId)
    ensures
        active_of(activated(active, w, t), w) == Some(t),
{
    lemma_first_match(active, window_is(w));
    let a = activated(active, w, t);
    match first_match(active, window_is(w)) {
        Some(i) => {
            lemma_first_match_at(a, window_is(w), i);
        },
        None => {
            lemma_first_match_at(a, window_is(w), active.len() as int);
        },
    }
}

/// Making a tab active leaves the active tabs of the other windows alone.
pub proof fn law_activation_is_per_window(
    active: Seq<(WindowId, TabId)>,
    w: WindowId,
    t: TabId,
    other: WindowId,
)
    requires
        other != w,
    ensures
        active_of(activated(active, w, t), other) == active_of(active, other),
{
    lemma_first_match(active, window_is(w));
    lemma_first_match(active, window_is(other));
    let a = activated(active, w, t);
    match first_match(active, window_is(other)) {
        Some(i) => {
            lemma_first_match_at(a, window_is(other), i);
        },
        None => {
            assert forall|j: int| 0 <= j < a.len() implies !window_is(other)(#[trigger] a[j]) by {
                if j < active.len() {
                    assert(!window_is(other)(active[j]));
                }
            }
            lemma_first_match_none(a, window_is(other));
        },
    }
}

/// Closing a window's active tab leaves the window with an active tab
/// exactly when it still has tabs, and that tab is one of them.
pub proof fn law_close_keeps_window_active(
    active: Seq<(WindowId, TabId)>,
    w: WindowId,
    id: TabId,
    rest: Seq<ImplEntryView>,
)
    requires
        active_of(active, w) == Some(id),
        forall|a: int, b: int| 0 <= a < b < active.len() ==> #[trigger] active[a].0 != #[trigger] active[b].0,
    ensures
        match active_of(active_after_close(active, w, id, rest), w) {
            Some(t) => exists|k: int| 0 <= k < rest.len() && rest[k].tab.id == t && rest[k].tab.window_id == w,
            None => forall|k: int| 0 <= k < rest.len() ==> rest[k].tab.window_id != w,
        },
{
    lemma_first_match(active, window_is(w));
    let i = first_match(active, window_is(w)).unwrap();
    let a = active.remove(i);
    assert forall|j: int| 0 <= j < a.len() implies !window_is(w)(#[trigger] a[j]) by {
        let j0 = if j < i { j } else { j + 1 };
        if j0 > i {
            assert(active[j0].0 != active[i].0);
        }
    }
    lemma_first_match(rest, entry_in(w));
    match first_match(rest, entry_in(w)) {
        Some(k) => {
            let b = a.push((w, rest[k].tab.id));
            assert forall|j: int| 0 <= j < a.len() implies !window_is(w)(#[trigger] b[j]) by {
                assert(b[j] == a[j]);
            }
            lemma_first_match_at(b, window_is(w), a.len() as int);
        },
        None => {
            lemma_first_match_none(a, window_is(w));
        },
    }
}

} // verus!
