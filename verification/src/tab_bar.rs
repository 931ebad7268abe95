//! Tab strip widget: tabs in display order, the active tab, and numbering of
//! new tabs.
use vstd::prelude::*;
use crate::seqs::{first_match, lemma_first_match, lemma_first_match_at, lemma_first_match_none};

verus! {

/// Tab identifier used by the tab bar.
pub type TabId = u64;

/// Information about a tab displayed in the tab bar.
#[derive(Debug, Clone, PartialEq)]
pub struct TabInfo {
    pub title: String,
    pub url: Option<String>,
    pub favicon: Option<Vec<u8>>,
    pub loading: bool,
}

/// Error types for tab bar operations.
#[derive(Debug, Clone, Copy, PartialEq, Eq, Structural)]
pub enum TabError {
    TabNotFound,
    InvalidTabId,
}

impl TabError {
    /// The message of this error.
    pub fn message(&self) -> (s: &'static str)
        ensures
            s@ == match self {
                TabError::TabNotFound => "Tab not found"@,
                TabError::InvalidTabId => "Invalid tab ID"@,
            },
    {
        match self {
            TabError::TabNotFound => "Tab not found",
            TabError::InvalidTabId => "Invalid tab ID",
        }
    }
}

/// The abstract state of a tab bar.
pub struct TabBarView {
    /// Tabs in display order.
    pub tabs: Seq<(TabId, TabInfo)>,
    pub active: Option<TabId>,
    /// The identifier the next tab receives.
    pub next_id: nat,
}

/// The first position of the tab with identifier `id`.
pub open spec fn bar_position(tabs: Seq<(TabId, TabInfo)>, id: TabId) -> Option<int> {
    first_match(tabs, id_is(id))
}

/// The entry has this identifier.
pub open spec fn id_is(id: TabId) -> spec_fn((TabId, TabInfo)) -> bool {
    |e: (TabId, TabInfo)| e.0 == id
}

/// The tabs after closing the tab at position `i`; the active tab becomes
/// the last one when the closed tab was active.
pub open spec fn closed_bar(v: TabBarView, i: int) -> TabBarView {
    let tabs = v.tabs.remove(i);
    TabBarView {
        tabs,
        active: if v.active == Some(v.tabs[i].0) {
            if tabs.len() > 0 {
                Some(tabs.last().0)
            } else {
                None
            }
        } else {
            v.active
        },
        next_id: v.next_id,
    }
}

impl TabBarView {
    /// Identifiers are distinct and below the next one, and the active tab,
    /// if any, is one of the tabs.
    pub open spec fn wf(self) -> bool {
        &&& forall|i: int, j: int|
            0 <= i < j < self.tabs.len() ==> #[trigger] self.tabs[i].0 != #[trigger] self.tabs[j].0
        &&& forall|i: int| 0 <= i < self.tabs.len() ==> (#[trigger] self.tabs[i]).0 < self.next_id
        &&& self.active matches Some(a) ==> bar_position(self.tabs, a) is Some
    }
}

/// Tab Bar widget state.
#[derive(Debug)]
pub struct TabBar {
    tabs: Vec<(TabId, TabInfo)>,
    active_tab: Option<TabId>,
    next_tab_id: TabId,
}

impl View for TabBar {
    type V = TabBarView;

    closed spec fn view(&self) -> TabBarView {
        TabBarView { tabs: self.tabs@, active: self.active_tab, next_id: self.next_tab_id as nat }
    }
}

impl TabBar {
    /// An empty tab bar; the first tab will be number 1.
    pub fn new() -> (b: TabBar)
        ensures
            b@.wf(),
            b@.tabs == Seq::<(TabId, TabInfo)>::empty(),
            b@.active is None,
            b@.next_id == 1,
    {
        TabBar { tabs: Vec::new(), active_tab: None, next_tab_id: 1 }
    }

    /// The number of tabs.
    pub fn tab_count(&self) -> (n: usize)
        ensures
            n == self@.tabs.len(),
    {
        self.tabs.len()
    }

    /// The active tab.
    pub fn active_tab(&self) -> (a: Option<TabId>)
        ensures
            a == self@.active,
    {
        self.active_tab
    }

    fn position(&self, id: TabId) -> (r: Option<usize>)
        ensures
            match r {
                Some(i) => bar_position(self@.tabs, id) == Some(i as int) && i < self@.tabs.len(),
                None => bar_position(self@.tabs, id) is None,
            },
    {
        let n = self.tabs.len();
        let mut i: usize = 0;
        while i < n
            invariant
                n == self.tabs@.len(),
                i <= n,
                forall|j: int| 0 <= j < i ==> self.tabs@[j].0 != id,
            decreases n - i,
        {
            if self.tabs[i].0 == id {
                proof {
                    lemma_first_match_at(self.tabs@, id_is(id), i as int);
                }
                return Some(i);
            }
            i += 1;
        }
        proof {
            lemma_first_match_none(self.tabs@, id_is(id));
        }
        None
    }

    /// Add a tab at the end, make it active and return its new identifier.
    pub fn add_tab(&mut self, info: TabInfo) -> (id: TabId)
        requires
            old(self)@.wf(),
            old(self)@.next_id < u64::MAX,
        ensures
            final(self)@.wf(),
            id == old(self)@.next_id,
            final(self)@ == (TabBarView {
                tabs: old(self)@.tabs.push((id, info)),
                active: Some(id),
                next_id: old(self)@.next_id + 1,
            }),
    {
        let id = self.next_tab_id;
        self.next_tab_id = self.next_tab_id + 1;
        self.tabs.push((id, info));
        self.active_tab = Some(id);
        proof {
            let n = (self.tabs@.len() - 1) as int;
            assert forall|j: int| 0 <= j < n implies !id_is(id)(self.tabs@[j]) by {
                assert(self.tabs@[j] == old(self).tabs@[j]);
            }
            lemma_first_match_at(self.tabs@, id_is(id), n);
        }
        id
    }

    /// Close a tab; when it was active, the last remaining tab becomes
    /// active.
    pub fn close_tab(&mut self, tab_id: TabId) -> (r: Result<(), TabError>)
        requires
            old(self)@.wf(),
        ensures
            final(self)@.wf(),
            match bar_position(old(self)@.tabs, tab_id) {
                Some(i) => r is Ok && final(self)@ == closed_bar(old(self)@, i),
                None => r == Err::<(), TabError>(TabError::TabNotFound) && final(self)@ == old(
                    self,
                )@,
            },
    {
        let i = match self.position(tab_id) {
            Some(i) => i,
            None => {
                return Err(TabError::TabNotFound);
            },
        };
        self.tabs.remove(i);
        if self.active_tab == Some(tab_id) {
            let n = self.tabs.len();
            self.active_tab = if n > 0 {
                Some(self.tabs[n - 1].0)
            } else {
                None
            };
        }
        proof {
            let o = old(self).tabs@;
            let t = self.tabs@;
            lemma_first_match(o, id_is(tab_id));
            assert(t =~= o.remove(i as int));
            assert forall|a: int, b: int| 0 <= a < b < t.len() implies #[trigger] t[a].0
                != #[trigger] t[b].0 by {
                let a2 = if a < i { a } else { a + 1 };
                let b2 = if b < i { b } else { b + 1 };
                assert(t[a] == o[a2] && t[b] == o[b2]);
            }
            assert forall|a: int| 0 <= a < t.len() implies (#[trigger] t[a]).0 < self@.next_id by {
                let a2 = if a < i { a } else { a + 1 };
                assert(t[a] == o[a2]);
            }
            match self.active_tab {
                Some(a) => {
                    if old(self).active_tab == Some(tab_id) {
                        assert forall|j: int| 0 <= j < t.len() - 1 implies !id_is(a)(t[j]) by {}
                        lemma_first_match_at(t, id_is(a), t.len() - 1);
                    } else {
                        lemma_first_match(o, id_is(a));
                        let k = bar_position(o, a).unwrap();
                        assert(o[k].0 == a && o[i as int].0 == tab_id);
                        let k2 = if k < i { k } else { k - 1 };
                        assert(t[k2] == o[k]);
                        assert forall|j: int| 0 <= j < k2 implies !id_is(a)(t[j]) by {
                            let j2 = if j < i { j } else { j + 1 };
                            assert(t[j] == o[j2]);
                        }
                        lemma_first_match_at(t, id_is(a), k2);
                    }
                },
                None => {},
            }
        }
        Ok(())
    }

    /// Make a tab active.
    pub fn set_active_tab(&mut self, tab_id: TabId) -> (r: Result<(), TabError>)
        requires
            old(self)@.wf(),
        ensures
            final(self)@.wf(),
            match bar_position(old(self)@.tabs, tab_id) {
                Some(i) => r is Ok && final(self)@ == (TabBarView {
                    active: Some(tab_id),
                    ..old(self)@
                }),
                None => r == Err::<(), TabError>(TabError::TabNotFound) && final(self)@ == old(
                    self,
                )@,
            },
    {
        match self.position(tab_id) {
            Some(_) => {
                self.active_tab = Some(tab_id);
                Ok(())
            },
            None => Err(TabError::TabNotFound),
        }
    }

    /// The information of a tab.
    pub fn get_tab_info(&self, tab_id: TabId) -> (r: Option<&TabInfo>)
        ensures
            match bar_position(self@.tabs, tab_id) {
                Some(i) => r == Some(&self@.tabs[i].1),
                None => r is None,
            },
    {
        match self.position(tab_id) {
            Some(i) => Some(&self.tabs[i].1),
            None => None,
        }
    }

    /// Replace the information of a tab.
    pub fn update_tab_info(&mut self, tab_id: TabId, info: TabInfo) -> (r: Result<(), TabError>)
        requires
            old(self)@.wf(),
        ensures
            final(self)@.wf(),
            match bar_position(old(self)@.tabs, tab_id) {
                Some(i) => r is Ok && final(self)@ == (TabBarView {
                    tabs: old(self)@.tabs.update(i, (tab_id, info)),
                    ..old(self)@
                }),
                None => r == Err::<(), TabError>(TabError::TabNotFound) && final(self)@ == old(
                    self,
                )@,
            },
    {
        match self.position(tab_id) {
            Some(i) => {
                self.tabs.set(i, (tab_id, info));
                proof {
                    let o = old(self).tabs@;
                    let t = self.tabs@;
                    lemma_first_match(o, id_is(tab_id));
                    assert(t == o.update(i as int, (tab_id, info)));
                    assert forall|k: int| 0 <= k < t.len() implies (#[trigger] t[k]).0 == o[k].0 by {
                        if k != i as int {
                            assert(t[k] == o[k]);
                        }
                    }
                    match self.active_tab {
                        Some(a) => {
                            lemma_first_match(o, id_is(a));
                            let k = bar_position(o, a).unwrap();
                            assert forall|j: int| 0 <= j < k implies !id_is(a)(t[j]) by {
                                assert(t[j].0 == o[j].0);
                            }
                            lemma_first_match_at(t, id_is(a), k);
                        },
                        None => {},
                    }
                }
                Ok(())
            },
            None => Err(TabError::TabNotFound),
        }
    }

    /// All tabs in display order.
    pub fn get_all_tabs(&self) -> (v: Vec<(TabId, &TabInfo)>)
        ensures
            v@.len() == self@.tabs.len(),
            forall|i: int|
                0 <= i < v@.len() ==> (#[trigger] v@[i]).0 == self@.tabs[i].0 && *v@[i].1
                    == self@.tabs[i].1,
    {
        let mut v: Vec<(TabId, &TabInfo)> = Vec::new();
        let n = self.tabs.len();
        let mut i: usize = 0;
        while i < n
            invariant
                n == self.tabs@.len(),
                i <= n,
                v@.len() == i,
                forall|j: int|
                    0 <= j < i ==> (#[trigger] v@[j]).0 == self.tabs@[j].0 && *v@[j].1
                        == self.tabs@[j].1,
            decreases n - i,
        {
            let e = &self.tabs[i];
            v.push((e.0, &e.1));
            i += 1;
        }
        v
    }
}

} // verus!

verus! {

impl Default for TabBar {
    /// An empty tab bar.
    fn default() -> (b: Self)
        ensures
            b@.wf(),
            b@.tabs == Seq::<(TabId, TabInfo)>::empty(),
            b@.active is None,
            b@.next_id == 1,
    {
        TabBar::new()
    }
}

} // verus!
