//! Tab lifecycle: creation (normal and private), navigation with per-tab
//! history, and the in-memory data of private tabs.
use vstd::prelude::*;
use crate::seqs::{first_match, lemma_first_match, lemma_first_match_at, lemma_first_match_none, select};
use crate::text::{chars_of, string_from_chars};
use crate::types::{ProcessId, RenderSurfaceId, TabError, TabId, WindowId};
use std::collections::HashMap;

verus! {

/// What `url::Url::parse` gives for `input`: the URL's serialisation, or
/// the message of its parse error.
pub uninterp spec fn url_parse_result(input: Seq<char>) -> Result<Seq<char>, Seq<char>>;

/// Parse a URL.
///
/// Trusted: calls `url::Url::parse` and keeps the URL's text (`as_str`) or
/// the error's `Display` text; the outcome depends on the input alone and is
/// named `url_parse_result`.
#[verifier::external_body]
fn parse_url(input: &str) -> (r: Result<String, String>)
    ensures
        match r {
            Ok(s) => url_parse_result(input@) == Ok::<Seq<char>, Seq<char>>(s@),
            Err(m) => url_parse_result(input@) == Err::<Seq<char>, Seq<char>>(m@),
        },
{
    match url::Url::parse(input) {
        Ok(u) => Ok(u.as_str().to_string()),
        Err(e) => Err(format!("{}", e)),
    }
}

/// `prefix` followed by the characters of `tail`.
pub(crate) fn prefixed(prefix: &str, tail: &String) -> (s: String)
    ensures
        s@ == prefix@ + tail@,
{
    let mut v = chars_of(prefix);
    let t = chars_of(tail.as_str());
    let ghost start = v@;
    let mut i: usize = 0;
    while i < t.len()
        invariant
            i <= t@.len(),
            v@ == start + t@.take(i as int),
        decreases t@.len() - i,
    {
        v.push(t[i]);
        i += 1;
        assert(v@ =~= start + t@.take(i as int));
    }
    assert(t@.take(t@.len() as int) =~= t@);
    string_from_chars(v.as_slice())
}

/// A tab's state.
#[derive(Debug)]
pub struct Tab {
    pub id: TabId,
    pub window_id: WindowId,
    pub title: String,
    /// The page's URL, as the URL parser writes it.
    pub url: Option<String>,
    pub loading: bool,
    pub can_go_back: bool,
    pub can_go_forward: bool,
    pub favicon: Option<Vec<u8>>,
    pub process_id: Option<ProcessId>,
    pub render_surface: RenderSurfaceId,
    /// Private tabs keep no history, cookies or cache beyond their life.
    pub is_private: bool,
}

/// One entry of a tab's history.
#[derive(Debug)]
pub struct HistoryEntry {
    pub url: String,
    pub title: String,
}

impl View for HistoryEntry {
    type V = (Seq<char>, Seq<char>);

    open spec fn view(&self) -> (Seq<char>, Seq<char>) {
        (self.url@, self.title@)
    }
}

/// A tab's history: entries and the position of the current one.
#[derive(Debug)]
pub struct TabHistory {
    entries: Vec<HistoryEntry>,
    current_index: Option<usize>,
}

/// The abstract state of a tab history: each entry's URL and title.
pub struct TabHistoryView {
    pub entries: Seq<(Seq<char>, Seq<char>)>,
    pub current: Option<usize>,
}

impl View for TabHistory {
    type V = TabHistoryView;

    closed spec fn view(&self) -> TabHistoryView {
        TabHistoryView {
            entries: self.entries@.map_values(|e: HistoryEntry| e@),
            current: self.current_index,
        }
    }
}

impl TabHistoryView {
    /// There is a current entry exactly when there are entries, and it is
    /// one of them.
    pub open spec fn wf(self) -> bool {
        &&& (self.current is None <==> self.entries.len() == 0)
        &&& (self.current matches Some(c) ==> c < self.entries.len())
    }

    /// An entry comes before the current one.
    pub open spec fn back_possible(self) -> bool {
        self.current matches Some(c) && c > 0
    }

    /// An entry comes after the current one.
    pub open spec fn forward_possible(self) -> bool {
        self.current matches Some(c) && c + 1 < self.entries.len()
    }

    /// The history after visiting a page: entries after the current one are
    /// dropped, the page is added and becomes current.
    pub open spec fn pushed(self, e: (Seq<char>, Seq<char>)) -> TabHistoryView {
        let kept = match self.current {
            Some(c) => self.entries.take(c + 1),
            None => self.entries,
        };
        TabHistoryView { entries: kept.push(e), current: Some(kept.len() as usize) }
    }
}

impl TabHistory {
    /// An empty history.
    pub fn new() -> (h: TabHistory)
        ensures
            h@.entries.len() == 0,
            h@.current is None,
    {
        TabHistory { entries: Vec::new(), current_index: None }
    }

    /// Visit a page.
    pub fn push(&mut self, url: String, title: String)
        requires
            old(self)@.wf(),
        ensures
            final(self)@.wf(),
            final(self)@ == old(self)@.pushed((url@, title@)),
    {
        let n = self.entries.len();
        match self.current_index {
            Some(c) => {
                assert(c < n);
                self.entries.truncate(c + 1);
            },
            None => {},
        }
        let ghost e = (url@, title@);
        self.entries.push(HistoryEntry { url, title });
        self.current_index = Some(self.entries.len() - 1);
        proof {
            let kept = match old(self)@.current {
                Some(c) => old(self)@.entries.take(c + 1),
                None => old(self)@.entries,
            };
            assert(self@.entries =~= kept.push(e));
        }
    }

    /// Whether an entry comes before the current one.
    pub fn can_go_back(&self) -> (b: bool)
        ensures
            b == self@.back_possible(),
    {
        match self.current_index {
            Some(c) => c > 0,
            None => false,
        }
    }

    /// Whether an entry comes after the current one.
    pub fn can_go_forward(&self) -> (b: bool)
        requires
            self@.wf(),
        ensures
            b == self@.forward_possible(),
    {
        match self.current_index {
            Some(c) => c < self.entries.len() - 1,
            None => false,
        }
    }

    /// Step back, giving the new current entry.
    pub fn go_back(&mut self) -> (r: Option<&HistoryEntry>)
        requires
            old(self)@.wf(),
        ensures
            final(self)@.wf(),
            final(self)@.entries == old(self)@.entries,
            old(self)@.back_possible() ==> final(self)@.current == Some(
                (old(self)@.current.unwrap() - 1) as usize,
            ) && (r matches Some(h) && h@ == old(self)@.entries[old(self)@.current.unwrap() - 1]),
            !old(self)@.back_possible() ==> final(self)@.current == old(self)@.current && r is None,
    {
        match self.current_index {
            Some(c) => {
                if c > 0 {
                    self.current_index = Some(c - 1);
                    return Some(&self.entries[c - 1]);
                }
                None
            },
            None => None,
        }
    }

    /// Step forward, giving the new current entry.
    pub fn go_forward(&mut self) -> (r: Option<&HistoryEntry>)
        requires
            old(self)@.wf(),
        ensures
            final(self)@.wf(),
            final(self)@.entries == old(self)@.entries,
            old(self)@.forward_possible() ==> final(self)@.current == Some(
                (old(self)@.current.unwrap() + 1) as usize,
            ) && (r matches Some(h) && h@ == old(self)@.entries[old(self)@.current.unwrap() + 1]),
            !old(self)@.forward_possible() ==> final(self)@.current == old(self)@.current && r
                is None,
    {
        match self.current_index {
            Some(c) => {
                if c < self.entries.len() - 1 {
                    self.current_index = Some(c + 1);
                    return Some(&self.entries[c + 1]);
                }
                None
            },
            None => None,
        }
    }
}

/// Going back then forward returns to the same entry.
pub proof fn law_back_then_forward(h: TabHistoryView)
    requires
        h.wf(),
        h.back_possible(),
    ensures
        (TabHistoryView { current: Some((h.current.unwrap() - 1) as usize), ..h }).forward_possible(),
{
}

/// Public information about a tab.
#[derive(Debug, Clone)]
pub struct TabInfo {
    pub id: TabId,
    pub window_id: WindowId,
    pub title: String,
    pub url: Option<String>,
    pub loading: bool,
    pub can_go_back: bool,
    pub can_go_forward: bool,
    pub is_private: bool,
}

impl TabInfo {
    /// The public information of a tab.
    pub fn from_tab(tab: &Tab) -> (i: TabInfo)
        ensures
            i.id == tab.id,
            i.window_id == tab.window_id,
            i.title == tab.title,
            i.url == tab.url,
            i.loading == tab.loading,
            i.can_go_back == tab.can_go_back,
            i.can_go_forward == tab.can_go_forward,
            i.is_private == tab.is_private,
    {
        TabInfo {
            id: tab.id,
            window_id: tab.window_id,
            title: tab.title.clone(),
            url: match &tab.url {
                Some(u) => Some(u.clone()),
                None => None,
            },
            loading: tab.loading,
            can_go_back: tab.can_go_back,
            can_go_forward: tab.can_go_forward,
            is_private: tab.is_private,
        }
    }
}

/// In-memory data of a private tab, never persisted.
#[derive(Debug, Clone, Default)]
pub struct PrivateSessionData {
    pub cookies: HashMap<String, String>,
    pub cache: HashMap<String, Vec<u8>>,
    pub form_data: HashMap<String, String>,
}

impl PrivateSessionData {
    /// Empty private data.
    pub fn new() -> (d: PrivateSessionData)
        ensures
            d.cookies@ == Map::<String, String>::empty(),
            d.cache@ == Map::<String, Vec<u8>>::empty(),
            d.form_data@ == Map::<String, String>::empty(),
    {
        PrivateSessionData { cookies: HashMap::new(), cache: HashMap::new(), form_data: HashMap::new() }
    }

    /// Drop all cookies, cache entries and form data.
    pub fn clear(&mut self)
        ensures
            final(self).cookies@ == Map::<String, String>::empty(),
            final(self).cache@ == Map::<String, Vec<u8>>::empty(),
            final(self).form_data@ == Map::<String, String>::empty(),
    {
        self.cookies.clear();
        self.cache.clear();
        self.form_data.clear();
    }
}

} // verus!

verus! {

/// The abstract value of a tab.
pub struct TabView {
    pub id: TabId,
    pub window_id: WindowId,
    pub title: Seq<char>,
    pub url: Option<Seq<char>>,
    pub loading: bool,
    pub can_go_back: bool,
    pub can_go_forward: bool,
    pub favicon: Option<Seq<u8>>,
    pub process_id: Option<ProcessId>,
    pub render_surface: RenderSurfaceId,
    pub is_private: bool,
}

impl View for Tab {
    type V = TabView;

    open spec fn view(&self) -> TabView {
        TabView {
            id: self.id,
            window_id: self.window_id,
            title: self.title@,
            url: match self.url {
                Some(u) => Some(u@),
                None => None,
            },
            loading: self.loading,
            can_go_back: self.can_go_back,
            can_go_forward: self.can_go_forward,
            favicon: match self.favicon {
                Some(f) => Some(f@),
                None => None,
            },
            process_id: self.process_id,
            render_surface: self.render_surface,
            is_private: self.is_private,
        }
    }
}

/// A tab with its history and, for a private tab, its private data.
#[derive(Debug)]
struct TabEntry {
    tab: Tab,
    history: TabHistory,
    private_data: Option<PrivateSessionData>,
}

/// The abstract state of a managed tab.
pub struct TabEntryView {
    pub tab: TabView,
    pub history: TabHistoryView,
    pub private_data: Option<PrivateSessionData>,
}

impl View for TabEntry {
    type V = TabEntryView;

    closed spec fn view(&self) -> TabEntryView {
        TabEntryView { tab: self.tab@, history: self.history@, private_data: self.private_data }
    }
}

impl TabEntryView {
    /// The history is well formed, the tab's back and forward flags follow
    /// it, and private data exists exactly for a private tab.
    pub open spec fn wf(self) -> bool {
        &&& self.history.wf()
        &&& self.tab.can_go_back == self.history.back_possible()
        &&& self.tab.can_go_forward == self.history.forward_possible()
        &&& (self.private_data is Some <==> self.tab.is_private)
    }
}

/// The characters of an optional text.
pub open spec fn opt_text(o: Option<String>) -> Option<Seq<char>> {
    match o {
        Some(s) => Some(s@),
        None => None,
    }
}

/// The entry's tab has this identifier.
pub open spec fn tab_id_is(id: TabId) -> spec_fn(TabEntryView) -> bool {
    |e: TabEntryView| e.tab.id == id
}

/// The entry's tab is private.
pub open spec fn private_entry() -> spec_fn(TabEntryView) -> bool {
    |e: TabEntryView| e.tab.is_private
}

/// The position of the tab with this identifier.
pub open spec fn tab_position(tabs: Seq<TabEntryView>, id: TabId) -> Option<int> {
    first_match(tabs, tab_id_is(id))
}

/// The tabs with `e` added, replacing a tab with the same identifier.
pub open spec fn upserted(tabs: Seq<TabEntryView>, e: TabEntryView) -> Seq<TabEntryView> {
    match tab_position(tabs, e.tab.id) {
        Some(p) => tabs.update(p, e),
        None => tabs.push(e),
    }
}

/// A freshly created tab: untitled, not loading, in this window, with this
/// page (if any) as the only history entry, and no favicon or process.
pub open spec fn fresh_entry(
    e: TabEntryView,
    window_id: WindowId,
    url: Option<Seq<char>>,
    private: bool,
) -> bool {
    &&& e.tab.window_id == window_id
    &&& e.tab.title.len() == 0
    &&& e.tab.url == url
    &&& !e.tab.loading
    &&& !e.tab.can_go_back
    &&& !e.tab.can_go_forward
    &&& e.tab.favicon is None
    &&& e.tab.process_id is None
    &&& e.tab.is_private == private
    &&& e.history.wf()
    &&& match url {
        Some(u) => e.history.entries == seq![(u, Seq::<char>::empty())] && e.history.current == Some(
            0usize,
        ),
        None => e.history.entries.len() == 0,
    }
    &&& match e.private_data {
        Some(d) => private && d.cookies@.len() == 0 && d.cache@.len() == 0 && d.form_data@.len()
            == 0,
        None => !private,
    }
}

/// The abstract state of the tab manager: its tabs in creation order.
pub struct TabManagerView {
    pub tabs: Seq<TabEntryView>,
}

impl TabManagerView {
    /// Tab identifiers are distinct and every entry is well formed.
    pub open spec fn wf(self) -> bool {
        &&& forall|i: int, j: int|
            0 <= i < j < self.tabs.len() ==> #[trigger] self.tabs[i].tab.id != #[trigger] self.tabs[j].tab.id
        &&& forall|i: int| 0 <= i < self.tabs.len() ==> (#[trigger] self.tabs[i]).wf()
    }
}

/// Manages all tabs and their lifecycles.
#[derive(Debug)]
pub struct TabManager {
    tabs: Vec<TabEntry>,
}

impl View for TabManager {
    type V = TabManagerView;

    closed spec fn view(&self) -> TabManagerView {
        TabManagerView { tabs: self.tabs@.map_values(|e: TabEntry| e@) }
    }
}

impl TabManager {
    /// A manager with no tabs.
    pub fn new() -> (m: TabManager)
        ensures
            m@.wf(),
            m@.tabs.len() == 0,
    {
        let m = TabManager { tabs: Vec::new() };
        assert(m@.tabs =~= Seq::<TabEntryView>::empty());
        m
    }

    /// The number of tabs.
    pub fn tab_count(&self) -> (n: usize)
        ensures
            n == self@.tabs.len(),
    {
        self.tabs.len()
    }

    fn position(&self, id: TabId) -> (r: Option<usize>)
        ensures
            match r {
                Some(i) => tab_position(self@.tabs, id) == Some(i as int) && i < self@.tabs.len(),
                None => tab_position(self@.tabs, id) is None,
            },
    {
        let n = self.tabs.len();
        let mut i: usize = 0;
        while i < n
            invariant
                n == self.tabs@.len(),
                i <= n,
                forall|j: int| 0 <= j < i ==> self@.tabs[j].tab.id != id,
            decreases n - i,
        {
            if self.tabs[i].tab.id == id {
                proof {
                    assert(self@.tabs[i as int].tab.id == id);
                    lemma_first_match_at(self@.tabs, tab_id_is(id), i as int);
                }
                return Some(i);
            }
            i += 1;
        }
        proof {
            lemma_first_match_none(self@.tabs, tab_id_is(id));
        }
        None
    }

    /// Add an entry, replacing the tab with the same identifier if there is
    /// one.
    fn upsert(&mut self, e: TabEntry)
        requires
            old(self)@.wf(),
            e@.wf(),
        ensures
            final(self)@.wf(),
            final(self)@.tabs == upserted(old(self)@.tabs, e@),
    {
        let ghost ev = e@;
        match self.position(e.tab.id) {
            Some(p) => {
                self.tabs.set(p, e);
                proof {
                    assert(self@.tabs =~= old(self)@.tabs.update(p as int, ev));
                    lemma_first_match(old(self)@.tabs, tab_id_is(ev.tab.id));
                    assert forall|i: int, j: int|
                        0 <= i < j < self@.tabs.len() implies #[trigger] self@.tabs[i].tab.id
                        != #[trigger] self@.tabs[j].tab.id by {
                        assert(old(self)@.tabs[i].tab.id != old(self)@.tabs[j].tab.id);
                        if i == p {
                            assert(old(self)@.tabs[p as int].tab.id == ev.tab.id);
                        }
                        if j == p {
                            assert(old(self)@.tabs[p as int].tab.id == ev.tab.id);
                        }
                    }
                }
            },
            None => {
                self.tabs.push(e);
                proof {
                    assert(self@.tabs =~= old(self)@.tabs.push(ev));
                    lemma_first_match(old(self)@.tabs, tab_id_is(ev.tab.id));
                    assert forall|i: int, j: int|
                        0 <= i < j < self@.tabs.len() implies #[trigger] self@.tabs[i].tab.id
                        != #[trigger] self@.tabs[j].tab.id by {
                        if j == self@.tabs.len() - 1 {
                            assert(!tab_id_is(ev.tab.id)(old(self)@.tabs[i]));
                        } else {
                            assert(old(self)@.tabs[i].tab.id != old(self)@.tabs[j].tab.id);
                        }
                    }
                }
            },
        }
    }

    /// A new entry for a tab in `window_id` showing `url`, if any.
    fn new_entry(window_id: WindowId, url: Option<String>, private: bool) -> (e: TabEntry)
        ensures
            e@.wf(),
            fresh_entry(e@, window_id, opt_text(url), private),
    {
        let mut history = TabHistory::new();
        let ghost url_v = opt_text(url);
        let tab_url = match url {
            Some(u) => {
                let copy = u.clone();
                history.push(copy, String::new());
                Some(u)
            },
            None => None,
        };
        let can_go_back = history.can_go_back();
        let can_go_forward = history.can_go_forward();
        let tab = Tab {
            id: TabId::new(),
            window_id,
            title: String::new(),
            url: tab_url,
            loading: false,
            can_go_back,
            can_go_forward,
            favicon: None,
            process_id: None,
            render_surface: RenderSurfaceId::new(),
            is_private: private,
        };
        let private_data = if private {
            Some(PrivateSessionData::new())
        } else {
            None
        };
        let e = TabEntry { tab, history, private_data };
        proof {
            match url_v {
                Some(u) => {
                    assert(e@.history.entries =~= seq![(u, Seq::<char>::empty())]);
                },
                None => {},
            }
        }
        e
    }

    /// Create a tab.
    fn create(&mut self, window_id: WindowId, url: Option<String>, private: bool) -> (r: Result<
        TabId,
        TabError,
    >)
        requires
            old(self)@.wf(),
        ensures
            final(self)@.wf(),
            match url {
                Some(s) => match url_parse_result(s@) {
                    Ok(u) => r matches Ok(id) && exists|e: TabEntryView|
                        #![trigger upserted(old(self)@.tabs, e)]
                        e.tab.id == id && fresh_entry(e, window_id, Some(u), private)
                            && final(self)@.tabs == upserted(old(self)@.tabs, e),
                    Err(m) => (r matches Err(TabError::CreationFailed(t)) && t@ == "Invalid URL: "@
                        + m) && final(self)@ == old(self)@,
                },
                None => r matches Ok(id) && exists|e: TabEntryView|
                    #![trigger upserted(old(self)@.tabs, e)]
                    e.tab.id == id && fresh_entry(e, window_id, None, private) && final(self)@.tabs
                        == upserted(old(self)@.tabs, e),
            },
    {
        let parsed = match url {
            Some(s) => match parse_url(s.as_str()) {
                Ok(u) => Some(u),
                Err(m) => {
                    return Err(TabError::CreationFailed(prefixed("Invalid URL: ", &m)));
                },
            },
            None => None,
        };
        let e = Self::new_entry(window_id, parsed, private);
        let id = e.tab.id;
        let ghost ev = e@;
        self.upsert(e);
        assert(ev.tab.id == id && final(self)@.tabs == upserted(old(self)@.tabs, ev));
        Ok(id)
    }

    /// Create a tab in a window, showing `url` if given; an invalid URL is
    /// refused.
    pub fn create_tab(&mut self, window_id: WindowId, url: Option<String>) -> (r: Result<
        TabId,
        TabError,
    >)
        requires
            old(self)@.wf(),
        ensures
            final(self)@.wf(),
            match url {
                Some(s) => match url_parse_result(s@) {
                    Ok(u) => r matches Ok(id) && exists|e: TabEntryView|
                        #![trigger upserted(old(self)@.tabs, e)]
                        e.tab.id == id && fresh_entry(e, window_id, Some(u), false)
                            && final(self)@.tabs == upserted(old(self)@.tabs, e),
                    Err(m) => (r matches Err(TabError::CreationFailed(t)) && t@ == "Invalid URL: "@
                        + m) && final(self)@ == old(self)@,
                },
                None => r matches Ok(id) && exists|e: TabEntryView|
                    #![trigger upserted(old(self)@.tabs, e)]
                    e.tab.id == id && fresh_entry(e, window_id, None, false) && final(self)@.tabs
                        == upserted(old(self)@.tabs, e),
            },
    {
        self.create(window_id, url, false)
    }

    /// Create a private tab: its history stays in memory and its cookies,
    /// cache and form data live in the tab's private data.
    pub fn create_private_tab(&mut self, window_id: WindowId, url: Option<String>) -> (r: Result<
        TabId,
        TabError,
    >)
        requires
            old(self)@.wf(),
        ensures
            final(self)@.wf(),
            match url {
                Some(s) => match url_parse_result(s@) {
                    Ok(u) => r matches Ok(id) && exists|e: TabEntryView|
                        #![trigger upserted(old(self)@.tabs, e)]
                        e.tab.id == id && fresh_entry(e, window_id, Some(u), true)
                            && final(self)@.tabs == upserted(old(self)@.tabs, e),
                    Err(m) => (r matches Err(TabError::CreationFailed(t)) && t@ == "Invalid URL: "@
                        + m) && final(self)@ == old(self)@,
                },
                None => r matches Ok(id) && exists|e: TabEntryView|
                    #![trigger upserted(old(self)@.tabs, e)]
                    e.tab.id == id && fresh_entry(e, window_id, None, true) && final(self)@.tabs
                        == upserted(old(self)@.tabs, e),
            },
    {
        self.create(window_id, url, true)
    }

    /// Close a tab, dropping its private data with it.
    pub fn close_tab(&mut self, tab_id: TabId) -> (r: Result<(), TabError>)
        requires
            old(self)@.wf(),
        ensures
            final(self)@.wf(),
            match tab_position(old(self)@.tabs, tab_id) {
                Some(p) => r is Ok && final(self)@.tabs == old(self)@.tabs.remove(p),
                None => r == Err::<(), TabError>(TabError::NotFound(tab_id)) && final(self)@
                    == old(self)@,
            },
    {
        match self.position(tab_id) {
            Some(p) => {
                self.tabs.remove(p);
                proof {
                    assert(self@.tabs =~= old(self)@.tabs.remove(p as int));
                    assert forall|i: int, j: int|
                        0 <= i < j < self@.tabs.len() implies #[trigger] self@.tabs[i].tab.id
                        != #[trigger] self@.tabs[j].tab.id by {
                        let i2 = if i < p { i } else { i + 1 };
                        let j2 = if j < p { j } else { j + 1 };
                        assert(old(self)@.tabs[i2].tab.id != old(self)@.tabs[j2].tab.id);
                    }
                    assert forall|i: int| 0 <= i < self@.tabs.len() implies (
                    #[trigger] self@.tabs[i]).wf() by {
                        let i2 = if i < p { i } else { i + 1 };
                        assert(old(self)@.tabs[i2].wf());
                    }
                }
                Ok(())
            },
            None => Err(TabError::NotFound(tab_id)),
        }
    }

    /// The public information of a tab.
    pub fn get_tab_info(&self, tab_id: TabId) -> (r: Option<TabInfo>)
        ensures
            match tab_position(self@.tabs, tab_id) {
                Some(p) => r matches Some(i) && i.id == self@.tabs[p].tab.id && i.window_id
                    == self@.tabs[p].tab.window_id && i.title@ == self@.tabs[p].tab.title && opt_text(i.url) == self@.tabs[p].tab.url && i.loading == self@.tabs[p].tab.loading
                    && i.can_go_back == self@.tabs[p].tab.can_go_back && i.can_go_forward
                    == self@.tabs[p].tab.can_go_forward && i.is_private == self@.tabs[p].tab.is_private,
                None => r is None,
            },
    {
        match self.position(tab_id) {
            Some(p) => Some(TabInfo::from_tab(&self.tabs[p].tab)),
            None => None,
        }
    }

    /// Whether the tab exists and is private.
    pub fn is_private(&self, tab_id: TabId) -> (b: bool)
        ensures
            b == (tab_position(self@.tabs, tab_id) matches Some(p) && self@.tabs[p].tab.is_private),
    {
        match self.position(tab_id) {
            Some(p) => self.tabs[p].tab.is_private,
            None => false,
        }
    }

    /// The number of private tabs.
    pub fn private_tab_count(&self) -> (n: usize)
        ensures
            n == select(self@.tabs, private_entry()).len(),
    {
        let n = self.tabs.len();
        let mut i: usize = 0;
        let mut count: usize = 0;
        while i < n
            invariant
                n == self.tabs@.len(),
                i <= n,
                count == select(self@.tabs.take(i as int), private_entry()).len(),
                count <= i,
            decreases n - i,
        {
            proof {
                assert(self@.tabs.take(i + 1).drop_last() =~= self@.tabs.take(i as int));
            }
            if self.tabs[i].tab.is_private {
                count += 1;
            }
            i += 1;
        }
        proof {
            assert(self@.tabs.take(n as int) =~= self@.tabs);
        }
        count
    }

    /// The identifiers of the private tabs, in creation order.
    pub fn get_private_tab_ids(&self) -> (r: Vec<TabId>)
        ensures
            r@ == select(self@.tabs, private_entry()).map_values(|e: TabEntryView| e.tab.id),
    {
        let mut r: Vec<TabId> = Vec::new();
        let n = self.tabs.len();
        let mut i: usize = 0;
        while i < n
            invariant
                n == self.tabs@.len(),
                i <= n,
                r@ == select(self@.tabs.take(i as int), private_entry()).map_values(
                    |e: TabEntryView| e.tab.id,
                ),
            decreases n - i,
        {
            proof {
                assert(self@.tabs.take(i + 1).drop_last() =~= self@.tabs.take(i as int));
            }
            if self.tabs[i].tab.is_private {
                r.push(self.tabs[i].tab.id);
            }
            i += 1;
            proof {
                assert(r@ =~= select(self@.tabs.take(i as int), private_entry()).map_values(
                    |e: TabEntryView| e.tab.id,
                ));
            }
        }
        proof {
            assert(self@.tabs.take(n as int) =~= self@.tabs);
        }
        r
    }

    /// The private data of a private tab, to change in place; whatever is
    /// written through the reference becomes the tab's private data.
    pub fn get_private_session_mut(&mut self, tab_id: TabId) -> (r: Option<&mut PrivateSessionData>)
        requires
            old(self)@.wf(),
        ensures
            match tab_position(old(self)@.tabs, tab_id) {
                Some(p) => if old(self)@.tabs[p].tab.is_private {
                    r.is_some() && Some(*r.unwrap()) == old(self)@.tabs[p].private_data
                        && final(self)@ == (TabManagerView {
                        tabs: old(self)@.tabs.update(
                            p,
                            TabEntryView { private_data: Some(*final(r.unwrap())), ..old(self)@.tabs[p] },
                        ),
                    })
                } else {
                    r is None && final(self)@ == old(self)@
                },
                None => r is None && final(self)@ == old(self)@,
            },
    {
        match self.position(tab_id) {
            Some(p) => {
                if self.tabs[p].tab.is_private {
                    let ghost before = self.tabs@;
                    let entry = &mut self.tabs[p];
                    proof {
                        lemma_entry_update_view(before, p as int, *final(entry));
                    }
                    entry.private_data.as_mut()
                } else {
                    None
                }
            },
            None => None,
        }
    }

    /// The private data of a private tab.
    pub fn get_private_session(&self, tab_id: TabId) -> (r: Option<&PrivateSessionData>)
        requires
            self@.wf(),
        ensures
            match tab_position(self@.tabs, tab_id) {
                Some(p) => if self@.tabs[p].tab.is_private {
                    r matches Some(d) && Some(*d) == self@.tabs[p].private_data
                } else {
                    r is None
                },
                None => r is None,
            },
    {
        match self.position(tab_id) {
            Some(p) => {
                proof {
                    assert(self@.tabs[p as int].wf());
                }
                if self.tabs[p].tab.is_private {
                    match &self.tabs[p].private_data {
                        Some(d) => Some(d),
                        None => None,
                    }
                } else {
                    None
                }
            },
            None => None,
        }
    }
}

/// Replacing one entry changes only that entry's view.
proof fn lemma_entry_update_view(s: Seq<TabEntry>, i: int, e: TabEntry)
    requires
        0 <= i < s.len(),
    ensures
        s.update(i, e).map_values(|x: TabEntry| x@) == s.map_values(|x: TabEntry| x@).update(i, e@),
{
    assert(s.update(i, e).map_values(|x: TabEntry| x@) =~= s.map_values(|x: TabEntry| x@).update(i, e@));
}

/// The entry after visiting `u`: the page joins the history and becomes
/// the tab's URL, loading stops and the flags follow the history.
pub open spec fn navigated(e: TabEntryView, u: Seq<char>) -> TabEntryView {
    let h = e.history.pushed((u, Seq::<char>::empty()));
    TabEntryView {
        tab: TabView {
            url: Some(u),
            loading: false,
            can_go_back: h.back_possible(),
            can_go_forward: h.forward_possible(),
            ..e.tab
        },
        history: h,
        ..e
    }
}

/// The entry after moving its history to entry `k`, whose URL and title the
/// tab takes.
pub open spec fn moved_to(e: TabEntryView, k: int) -> TabEntryView {
    let h = TabHistoryView { current: Some(k as usize), ..e.history };
    TabEntryView {
        tab: TabView {
            url: Some(e.history.entries[k].0),
            title: e.history.entries[k].1,
            can_go_back: h.back_possible(),
            can_go_forward: h.forward_possible(),
            ..e.tab
        },
        history: h,
        ..e
    }
}

/// The entry with loading stopped.
pub open spec fn stopped(e: TabEntryView) -> TabEntryView {
    TabEntryView { tab: TabView { loading: false, ..e.tab }, ..e }
}

impl TabManager {
    /// Take the entry at `p` out.
    fn take_entry(&mut self, p: usize) -> (e: TabEntry)
        requires
            p < old(self)@.tabs.len(),
        ensures
            e@ == old(self)@.tabs[p as int],
            final(self)@.tabs == old(self)@.tabs.remove(p as int),
    {
        let e = self.tabs.remove(p);
        proof {
            assert(self@.tabs =~= old(self)@.tabs.remove(p as int));
        }
        e
    }

    /// Put an entry back at `p`.
    fn put_entry(&mut self, p: usize, e: TabEntry)
        requires
            p <= old(self)@.tabs.len(),
        ensures
            final(self)@.tabs == old(self)@.tabs.insert(p as int, e@),
    {
        let ghost ev = e@;
        self.tabs.insert(p, e);
        proof {
            assert(self@.tabs =~= old(self)@.tabs.insert(p as int, ev));
        }
    }

    /// Navigate a tab to a URL; an unknown tab or an invalid URL is refused.
    pub fn navigate(&mut self, tab_id: TabId, url: String) -> (r: Result<(), TabError>)
        requires
            old(self)@.wf(),
        ensures
            final(self)@.wf(),
            match tab_position(old(self)@.tabs, tab_id) {
                Some(p) => match url_parse_result(url@) {
                    Ok(u) => r is Ok && final(self)@.tabs == old(self)@.tabs.update(
                        p,
                        navigated(old(self)@.tabs[p], u),
                    ),
                    Err(m) => (r matches Err(TabError::NavigationFailed(t)) && t@ == "Invalid URL: "@
                        + m) && final(self)@ == old(self)@,
                },
                None => r == Err::<(), TabError>(TabError::NotFound(tab_id)) && final(self)@
                    == old(self)@,
            },
    {
        let p = match self.position(tab_id) {
            Some(p) => p,
            None => {
                return Err(TabError::NotFound(tab_id));
            },
        };
        let u = match parse_url(url.as_str()) {
            Ok(u) => u,
            Err(m) => {
                return Err(TabError::NavigationFailed(prefixed("Invalid URL: ", &m)));
            },
        };
        let ghost before = self@;
        let mut e = self.take_entry(p);
        proof {
            assert(before.tabs[p as int].wf());
        }
        let copy = u.clone();
        e.history.push(copy, String::new());
        e.tab.url = Some(u);
        e.tab.loading = false;
        e.tab.can_go_back = e.history.can_go_back();
        e.tab.can_go_forward = e.history.can_go_forward();
        let ghost ev = e@;
        self.put_entry(p, e);
        proof {
            assert(ev == navigated(before.tabs[p as int], url_parse_result(url@)->Ok_0));
            assert(self@.tabs =~= before.tabs.update(p as int, ev));
            assert forall|i: int, j: int|
                0 <= i < j < self@.tabs.len() implies #[trigger] self@.tabs[i].tab.id
                != #[trigger] self@.tabs[j].tab.id by {
                assert(before.tabs[i].tab.id != before.tabs[j].tab.id);
            }
            assert forall|i: int| 0 <= i < self@.tabs.len() implies (#[trigger] self@.tabs[i]).wf() by {
                if i != p {
                    assert(before.tabs[i].wf());
                }
            }
        }
        Ok(())
    }

    /// Reload a tab: loading stops (the reload itself is the renderer's).
    pub fn reload(&mut self, tab_id: TabId, ignore_cache: bool) -> (r: Result<(), TabError>)
        requires
            old(self)@.wf(),
        ensures
            final(self)@.wf(),
            match tab_position(old(self)@.tabs, tab_id) {
                Some(p) => r is Ok && final(self)@.tabs == old(self)@.tabs.update(
                    p,
                    stopped(old(self)@.tabs[p]),
                ),
                None => r == Err::<(), TabError>(TabError::NotFound(tab_id)) && final(self)@
                    == old(self)@,
            },
    {
        self.stop(tab_id)
    }

    /// Stop loading a tab.
    pub fn stop(&mut self, tab_id: TabId) -> (r: Result<(), TabError>)
        requires
            old(self)@.wf(),
        ensures
            final(self)@.wf(),
            match tab_position(old(self)@.tabs, tab_id) {
                Some(p) => r is Ok && final(self)@.tabs == old(self)@.tabs.update(
                    p,
                    stopped(old(self)@.tabs[p]),
                ),
                None => r == Err::<(), TabError>(TabError::NotFound(tab_id)) && final(self)@
                    == old(self)@,
            },
    {
        let p = match self.position(tab_id) {
            Some(p) => p,
            None => {
                return Err(TabError::NotFound(tab_id));
            },
        };
        let ghost before = self@;
        let mut e = self.take_entry(p);
        e.tab.loading = false;
        let ghost ev = e@;
        self.put_entry(p, e);
        proof {
            assert(ev == stopped(before.tabs[p as int]));
            assert(self@.tabs =~= before.tabs.update(p as int, ev));
            assert forall|i: int, j: int|
                0 <= i < j < self@.tabs.len() implies #[trigger] self@.tabs[i].tab.id
                != #[trigger] self@.tabs[j].tab.id by {
                assert(before.tabs[i].tab.id != before.tabs[j].tab.id);
            }
            assert forall|i: int| 0 <= i < self@.tabs.len() implies (#[trigger] self@.tabs[i]).wf() by {
                assert(before.tabs[i].wf());
            }
        }
        Ok(())
    }

    /// Go back in a tab's history; a tab with nothing before its current
    /// entry is refused.
    pub fn go_back(&mut self, tab_id: TabId) -> (r: Result<(), TabError>)
        requires
            old(self)@.wf(),
        ensures
            final(self)@.wf(),
            match tab_position(old(self)@.tabs, tab_id) {
                Some(p) => if old(self)@.tabs[p].history.back_possible() {
                    r is Ok && final(self)@.tabs == old(self)@.tabs.update(
                        p,
                        moved_to(old(self)@.tabs[p], old(self)@.tabs[p].history.current.unwrap() - 1),
                    )
                } else {
                    (r matches Err(TabError::NavigationFailed(t)) && t@ == "No back history"@)
                        && final(self)@ == old(self)@
                },
                None => r == Err::<(), TabError>(TabError::NotFound(tab_id)) && final(self)@
                    == old(self)@,
            },
    {
        self.step(tab_id, true)
    }

    /// Go forward in a tab's history; a tab with nothing after its current
    /// entry is refused.
    pub fn go_forward(&mut self, tab_id: TabId) -> (r: Result<(), TabError>)
        requires
            old(self)@.wf(),
        ensures
            final(self)@.wf(),
            match tab_position(old(self)@.tabs, tab_id) {
                Some(p) => if old(self)@.tabs[p].history.forward_possible() {
                    r is Ok && final(self)@.tabs == old(self)@.tabs.update(
                        p,
                        moved_to(old(self)@.tabs[p], old(self)@.tabs[p].history.current.unwrap() + 1),
                    )
                } else {
                    (r matches Err(TabError::NavigationFailed(t)) && t@ == "No forward history"@)
                        && final(self)@ == old(self)@
                },
                None => r == Err::<(), TabError>(TabError::NotFound(tab_id)) && final(self)@
                    == old(self)@,
            },
    {
        self.step(tab_id, false)
    }

    /// Move one entry back (or forward) in a tab's history.
    fn step(&mut self, tab_id: TabId, back: bool) -> (r: Result<(), TabError>)
        requires
            old(self)@.wf(),
        ensures
            final(self)@.wf(),
            match tab_position(old(self)@.tabs, tab_id) {
                Some(p) => if (if back {
                    old(self)@.tabs[p].history.back_possible()
                } else {
                    old(self)@.tabs[p].history.forward_possible()
                }) {
                    r is Ok && final(self)@.tabs == old(self)@.tabs.update(
                        p,
                        moved_to(
                            old(self)@.tabs[p],
                            if back {
                                old(self)@.tabs[p].history.current.unwrap() - 1
                            } else {
                                old(self)@.tabs[p].history.current.unwrap() + 1
                            },
                        ),
                    )
                } else {
                    (r matches Err(TabError::NavigationFailed(t)) && t@ == (if back {
                        "No back history"@
                    } else {
                        "No forward history"@
                    })) && final(self)@ == old(self)@
                },
                None => r == Err::<(), TabError>(TabError::NotFound(tab_id)) && final(self)@
                    == old(self)@,
            },
    {
        let p = match self.position(tab_id) {
            Some(p) => p,
            None => {
                return Err(TabError::NotFound(tab_id));
            },
        };
        proof {
            assert(self@.tabs[p as int].wf());
        }
        let possible = if back {
            self.tabs[p].history.can_go_back()
        } else {
            self.tabs[p].history.can_go_forward()
        };
        if !possible {
            return Err(TabError::NavigationFailed(
                String::from_str(
                    if back {
                        "No back history"
                    } else {
                        "No forward history"
                    },
                ),
            ));
        }
        let ghost before = self@;
        let mut e = self.take_entry(p);
        let (url, title) = {
            let entry = if back {
                e.history.go_back()
            } else {
                e.history.go_forward()
            };
            match entry {
                Some(h) => (h.url.clone(), h.title.clone()),
                None => (String::new(), String::new()),
            }
        };
        e.tab.url = Some(url);
        e.tab.title = title;
        e.tab.can_go_back = e.history.can_go_back();
        e.tab.can_go_forward = e.history.can_go_forward();
        let ghost ev = e@;
        self.put_entry(p, e);
        proof {
            let k = if back {
                before.tabs[p as int].history.current.unwrap() - 1
            } else {
                before.tabs[p as int].history.current.unwrap() + 1
            };
            assert(ev == moved_to(before.tabs[p as int], k));
            assert(self@.tabs =~= before.tabs.update(p as int, ev));
            assert forall|i: int, j: int|
                0 <= i < j < self@.tabs.len() implies #[trigger] self@.tabs[i].tab.id
                != #[trigger] self@.tabs[j].tab.id by {
                assert(before.tabs[i].tab.id != before.tabs[j].tab.id);
            }
            assert forall|i: int| 0 <= i < self@.tabs.len() implies (#[trigger] self@.tabs[i]).wf() by {
                assert(before.tabs[i].wf());
            }
        }
        Ok(())
    }

    /// Clear the cookies, cache and form data of every private tab; the tabs
    /// stay open.
    pub fn clear_all_private_data(&mut self)
        requires
            old(self)@.wf(),
        ensures
            final(self)@.wf(),
            final(self)@.tabs.len() == old(self)@.tabs.len(),
            forall|i: int|
                0 <= i < final(self)@.tabs.len() ==> (#[trigger] final(self)@.tabs[i]).tab == old(
                    self,
                )@.tabs[i].tab && final(self)@.tabs[i].history == old(self)@.tabs[i].history
                    && match final(self)@.tabs[i].private_data {
                    Some(d) => old(self)@.tabs[i].private_data is Some && d.cookies@.len() == 0
                        && d.cache@.len() == 0 && d.form_data@.len() == 0,
                    None => old(self)@.tabs[i].private_data is None,
                },
    {
        let n = self.tabs.len();
        let mut i: usize = 0;
        while i < n
            invariant
                n == self@.tabs.len(),
                n == old(self)@.tabs.len(),
                i <= n,
                self@.wf(),
                forall|k: int|
                    0 <= k < n ==> (#[trigger] self@.tabs[k]).tab == old(self)@.tabs[k].tab
                        && self@.tabs[k].history == old(self)@.tabs[k].history,
                forall|k: int|
                    i <= k < n ==> (#[trigger] self@.tabs[k]).private_data == old(
                        self,
                    )@.tabs[k].private_data,
                forall|k: int|
                    0 <= k < i ==> match (#[trigger] self@.tabs[k]).private_data {
                        Some(d) => old(self)@.tabs[k].private_data is Some && d.cookies@.len() == 0
                            && d.cache@.len() == 0 && d.form_data@.len() == 0,
                        None => old(self)@.tabs[k].private_data is None,
                    },
            decreases n - i,
        {
            let ghost before = self@;
            let mut e = self.take_entry(i);
            match e.private_data {
                Some(ref mut d) => {
                    d.clear();
                },
                None => {},
            }
            let ghost ev = e@;
            self.put_entry(i, e);
            proof {
                assert(self@.tabs =~= before.tabs.update(i as int, ev));
                assert(before.tabs[i as int].wf());
                assert forall|a: int, b: int|
                    0 <= a < b < self@.tabs.len() implies #[trigger] self@.tabs[a].tab.id
                    != #[trigger] self@.tabs[b].tab.id by {
                    assert(before.tabs[a].tab.id != before.tabs[b].tab.id);
                }
                assert forall|k: int| 0 <= k < self@.tabs.len() implies (
                #[trigger] self@.tabs[k]).wf() by {
                    assert(before.tabs[k].wf());
                }
            }
            i += 1;
        }
    }
}

impl Default for TabManager {
    /// A manager with no tabs.
    fn default() -> (m: Self)
        ensures
            m@.wf(),
            m@.tabs.len() == 0,
    {
        TabManager::new()
    }
}

} // verus!
