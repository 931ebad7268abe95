//! Crash recovery state: the session-restore dialog and the list of
//! recently closed tabs.
use vstd::prelude::*;
use std::collections::VecDeque;
use crate::types::TabId;

verus! {

/// Information about a recently closed tab.
#[derive(Debug, Clone, PartialEq, Eq)]
pub struct ClosedTabInfo {
    /// Original tab ID.
    pub id: TabId,
    /// Tab title.
    pub title: String,
    /// URL that was loaded.
    pub url: String,
    /// Timestamp when closed (seconds since UNIX epoch).
    pub closed_at: u64,
}

/// Session restore dialog state.
#[derive(Debug, Clone, Copy, PartialEq, Eq, Structural)]
pub enum SessionRestoreDialog {
    /// Dialog is hidden.
    Hidden,
    /// Dialog is visible.
    Visible,
    /// User chose to restore.
    RestoreChosen,
    /// User chose not to restore.
    DismissChosen,
}

impl Default for SessionRestoreDialog {
    /// The hidden dialog.
    fn default() -> (d: SessionRestoreDialog)
        ensures
            d == SessionRestoreDialog::Hidden,
    {
        SessionRestoreDialog::Hidden
    }
}

/// The first position in `tabs` whose tab has identifier `id`, if any.
pub open spec fn closed_tab_position(tabs: Seq<ClosedTabInfo>, id: TabId) -> Option<int>
    decreases tabs.len(),
{
    if tabs.len() == 0 {
        None
    } else if tabs[0].id == id {
        Some(0)
    } else {
        match closed_tab_position(tabs.drop_first(), id) {
            Some(i) => Some(i + 1),
            None => None,
        }
    }
}

proof fn lemma_closed_tab_position(tabs: Seq<ClosedTabInfo>, id: TabId)
    ensures
        match closed_tab_position(tabs, id) {
            Some(i) => 0 <= i < tabs.len() && tabs[i].id == id && forall|j: int|
                0 <= j < i ==> tabs[j].id != id,
            None => forall|j: int| 0 <= j < tabs.len() ==> tabs[j].id != id,
        },
    decreases tabs.len(),
{
    if tabs.len() > 0 && tabs[0].id != id {
        lemma_closed_tab_position(tabs.drop_first(), id);
        assert forall|j: int| 1 <= j < tabs.len() implies tabs[j] == tabs.drop_first()[j - 1] by {}
    }
}

/// The list that results from adding `tab` in front of `tabs` and keeping at
/// most `max` entries.
pub open spec fn add_closed_tab_spec(tabs: Seq<ClosedTabInfo>, tab: ClosedTabInfo, max: nat) -> Seq<
    ClosedTabInfo,
> {
    let all = seq![tab] + tabs;
    if all.len() <= max {
        all
    } else {
        all.take(max as int)
    }
}

/// Recently closed tabs tracker (most recent first).
#[derive(Debug, Clone)]
pub struct RecentlyClosedTabs {
    tabs: VecDeque<ClosedTabInfo>,
    max_tabs: usize,
}

impl RecentlyClosedTabs {
    /// The tracked tabs, most recent first.
    pub closed spec fn spec_tabs(&self) -> Seq<ClosedTabInfo> {
        self.tabs@
    }

    /// The maximum number of tabs tracked.
    pub closed spec fn spec_max_tabs(&self) -> nat {
        self.max_tabs as nat
    }

    /// Never more tabs than the maximum.
    pub open spec fn wf(&self) -> bool {
        self.spec_tabs().len() <= self.spec_max_tabs()
    }

    /// An empty tracker that keeps at most `max_tabs` tabs.
    pub fn new(max_tabs: usize) -> (r: RecentlyClosedTabs)
        ensures
            r.wf(),
            r.spec_tabs() == Seq::<ClosedTabInfo>::empty(),
            r.spec_max_tabs() == max_tabs,
    {
        RecentlyClosedTabs { tabs: VecDeque::new(), max_tabs }
    }

    /// Add a closed tab in front, dropping the oldest entries beyond the limit.
    pub fn add(&mut self, tab: ClosedTabInfo)
        requires
            old(self).wf(),
        ensures
            final(self).wf(),
            final(self).spec_max_tabs() == old(self).spec_max_tabs(),
            final(self).spec_tabs() == add_closed_tab_spec(
                old(self).spec_tabs(),
                tab,
                old(self).spec_max_tabs(),
            ),
    {
        let ghost all = seq![tab] + self.tabs@;
        self.tabs.push_front(tab);
        while self.tabs.len() > self.max_tabs
            invariant
                self.tabs@.len() <= all.len(),
                self.tabs@ == all.take(self.tabs@.len() as int),
                self.tabs@.len() < all.len() ==> all.len() > self.max_tabs && self.tabs@.len()
                    >= self.max_tabs,
                self.max_tabs == old(self).max_tabs,
            decreases self.tabs@.len(),
        {
            self.tabs.pop_back();
        }
        proof {
            if self.tabs@.len() == all.len() {
                assert(self.tabs@ =~= all);
            }
        }
    }

    /// All closed tabs, most recent first.
    pub fn get_all(&self) -> (r: &VecDeque<ClosedTabInfo>)
        ensures
            r@ == self.spec_tabs(),
    {
        &self.tabs
    }

    /// Remove the first tab with this identifier (when it's restored).
    pub fn remove(&mut self, tab_id: TabId) -> (r: Option<ClosedTabInfo>)
        requires
            old(self).wf(),
        ensures
            final(self).wf(),
            final(self).spec_max_tabs() == old(self).spec_max_tabs(),
            match closed_tab_position(old(self).spec_tabs(), tab_id) {
                Some(i) => r == Some(old(self).spec_tabs()[i]) && final(self).spec_tabs()
                    == old(self).spec_tabs().remove(i),
                None => r is None && final(self).spec_tabs() == old(self).spec_tabs(),
            },
    {
        proof {
            lemma_closed_tab_position(self.tabs@, tab_id);
        }
        let n = self.tabs.len();
        let mut i: usize = 0;
        while i < n
            invariant
                n == self.tabs@.len(),
                self.tabs@ == old(self).tabs@,
                self.max_tabs == old(self).max_tabs,
                self.tabs@.len() <= self.max_tabs,
                i <= n,
                forall|j: int| 0 <= j < i ==> self.tabs@[j].id != tab_id,
            decreases n - i,
        {
            if self.tabs[i].id == tab_id {
                proof {
                    lemma_closed_tab_position(self.tabs@, tab_id);
                }
                return self.tabs.remove(i);
            }
            i += 1;
        }
        proof {
            lemma_closed_tab_position(self.tabs@, tab_id);
        }
        None
    }

    /// Clear all closed tabs.
    pub fn clear(&mut self)
        ensures
            final(self).wf(),
            final(self).spec_max_tabs() == old(self).spec_max_tabs(),
            final(self).spec_tabs() == Seq::<ClosedTabInfo>::empty(),
    {
        self.tabs.clear();
    }

    /// Whether no closed tab is tracked.
    pub fn is_empty(&self) -> (b: bool)
        ensures
            b == (self.spec_tabs().len() == 0),
    {
        self.tabs.len() == 0
    }

    /// The number of closed tabs tracked.
    pub fn count(&self) -> (n: usize)
        ensures
            n == self.spec_tabs().len(),
    {
        self.tabs.len()
    }
}

/// A click in the recently closed tabs menu.
#[derive(Debug, Clone, Copy, PartialEq, Eq)]
pub enum RecentlyClosedChoice {
    /// "Restore" beside this tab.
    Restore(TabId),
    /// "Clear All".
    ClearAll,
    /// "Close".
    Close,
}

/// Crash recovery UI state.
#[derive(Debug, Clone)]
pub struct CrashRecoveryUi {
    /// Session restore dialog state.
    pub restore_dialog: SessionRestoreDialog,
    /// Recently closed tabs tracker.
    pub recently_closed: RecentlyClosedTabs,
    /// Whether to show the recently closed tabs menu.
    pub show_recently_closed_menu: bool,
}

impl CrashRecoveryUi {
    /// Well-formed when the tracker is.
    pub open spec fn wf(&self) -> bool {
        self.recently_closed.wf()
    }

    /// Hidden dialog, no closed tab (at most 10 kept), menu hidden.
    pub fn new() -> (r: CrashRecoveryUi)
        ensures
            r.wf(),
            r.restore_dialog == SessionRestoreDialog::Hidden,
            r.recently_closed.spec_tabs() == Seq::<ClosedTabInfo>::empty(),
            r.recently_closed.spec_max_tabs() == 10,
            !r.show_recently_closed_menu,
    {
        CrashRecoveryUi {
            restore_dialog: SessionRestoreDialog::Hidden,
            recently_closed: RecentlyClosedTabs::new(10),
            show_recently_closed_menu: false,
        }
    }

    /// Show the session restore dialog.
    pub fn show_restore_dialog(&mut self)
        ensures
            *final(self) == (CrashRecoveryUi {
                restore_dialog: SessionRestoreDialog::Visible,
                ..*old(self)
            }),
    {
        self.restore_dialog = SessionRestoreDialog::Visible;
    }

    /// Whether the user chose to restore the session.
    pub fn should_restore_session(&self) -> (b: bool)
        ensures
            b == (self.restore_dialog == SessionRestoreDialog::RestoreChosen),
    {
        self.restore_dialog == SessionRestoreDialog::RestoreChosen
    }

    /// Whether the user dismissed the restore dialog.
    pub fn restore_dialog_dismissed(&self) -> (b: bool)
        ensures
            b == (self.restore_dialog == SessionRestoreDialog::DismissChosen),
    {
        self.restore_dialog == SessionRestoreDialog::DismissChosen
    }

    /// Reset the restore dialog (after handling the choice).
    pub fn reset_restore_dialog(&mut self)
        ensures
            *final(self) == (CrashRecoveryUi {
                restore_dialog: SessionRestoreDialog::Hidden,
                ..*old(self)
            }),
    {
        self.restore_dialog = SessionRestoreDialog::Hidden;
    }

    /// Record the user's answer to a visible restore dialog: the dialog
    /// becomes `RestoreChosen` or `DismissChosen`, and `true` says that a
    /// choice was made.  A dialog that is not visible takes no answer.
    pub fn choose_restore(&mut self, restore: bool) -> (made: bool)
        ensures
            made == (old(self).restore_dialog == SessionRestoreDialog::Visible),
            final(self).recently_closed == old(self).recently_closed,
            final(self).show_recently_closed_menu == old(self).show_recently_closed_menu,
            final(self).restore_dialog == (if !made {
                old(self).restore_dialog
            } else if restore {
                SessionRestoreDialog::RestoreChosen
            } else {
                SessionRestoreDialog::DismissChosen
            }),
    {
        if self.restore_dialog != SessionRestoreDialog::Visible {
            return false;
        }
        if restore {
            self.restore_dialog = SessionRestoreDialog::RestoreChosen;
        } else {
            self.restore_dialog = SessionRestoreDialog::DismissChosen;
        }
        true
    }

    /// Answer a click in the recently closed tabs menu: "Restore" names the
    /// tab to restore, "Clear All" empties the list, "Close" hides the menu.
    /// A menu that is not shown takes no click.
    pub fn choose_recently_closed(&mut self, choice: RecentlyClosedChoice) -> (r: Option<TabId>)
        requires
            old(self).wf(),
        ensures
            final(self).wf(),
            final(self).restore_dialog == old(self).restore_dialog,
            final(self).recently_closed.spec_max_tabs() == old(self).recently_closed.spec_max_tabs(),
            !old(self).show_recently_closed_menu ==> r is None && *final(self) == *old(self),
            old(self).show_recently_closed_menu ==> match choice {
                RecentlyClosedChoice::Restore(id) => r == Some(id) && *final(self) == *old(self),
                RecentlyClosedChoice::ClearAll => r is None
                    && final(self).show_recently_closed_menu
                    && final(self).recently_closed.spec_tabs() == Seq::<ClosedTabInfo>::empty(),
                RecentlyClosedChoice::Close => r is None && *final(self) == (CrashRecoveryUi {
                    show_recently_closed_menu: false,
                    ..*old(self)
                }),
            },
    {
        if !self.show_recently_closed_menu {
            return None;
        }
        match choice {
            RecentlyClosedChoice::Restore(id) => Some(id),
            RecentlyClosedChoice::ClearAll => {
                if !self.recently_closed.is_empty() {
                    self.recently_closed.clear();
                }
                None
            },
            RecentlyClosedChoice::Close => {
                self.show_recently_closed_menu = false;
                None
            },
        }
    }

    /// Toggle the recently closed tabs menu.
    pub fn toggle_recently_closed_menu(&mut self)
        ensures
            *final(self) == (CrashRecoveryUi {
                show_recently_closed_menu: !old(self).show_recently_closed_menu,
                ..*old(self)
            }),
    {
        self.show_recently_closed_menu = !self.show_recently_closed_menu;
    }

    /// Add a closed tab to the recently closed list.
    pub fn add_closed_tab(&mut self, tab: ClosedTabInfo)
        requires
            old(self).wf(),
        ensures
            final(self).wf(),
            final(self).restore_dialog == old(self).restore_dialog,
            final(self).show_recently_closed_menu == old(self).show_recently_closed_menu,
            final(self).recently_closed.spec_max_tabs() == old(
                self,
            ).recently_closed.spec_max_tabs(),
            final(self).recently_closed.spec_tabs() == add_closed_tab_spec(
                old(self).recently_closed.spec_tabs(),
                tab,
                old(self).recently_closed.spec_max_tabs(),
            ),
    {
        self.recently_closed.add(tab);
    }

    /// Remove a tab from recently closed (when restored).
    pub fn remove_closed_tab(&mut self, tab_id: TabId) -> (r: Option<ClosedTabInfo>)
        requires
            old(self).wf(),
        ensures
            final(self).wf(),
            final(self).restore_dialog == old(self).restore_dialog,
            final(self).show_recently_closed_menu == old(self).show_recently_closed_menu,
            final(self).recently_closed.spec_max_tabs() == old(
                self,
            ).recently_closed.spec_max_tabs(),
            match closed_tab_position(old(self).recently_closed.spec_tabs(), tab_id) {
                Some(i) => r == Some(old(self).recently_closed.spec_tabs()[i])
                    && final(self).recently_closed.spec_tabs() == old(
                    self,
                ).recently_closed.spec_tabs().remove(i),
                None => r is None && final(self).recently_closed.spec_tabs() == old(
                    self,
                ).recently_closed.spec_tabs(),
            },
    {
        self.recently_closed.remove(tab_id)
    }

    /// Clear the recently closed list (the menu's "Clear All").
    pub fn clear_closed_tabs(&mut self)
        ensures
            final(self).wf(),
            final(self).restore_dialog == old(self).restore_dialog,
            final(self).show_recently_closed_menu == old(self).show_recently_closed_menu,
            final(self).recently_closed.spec_max_tabs() == old(
                self,
            ).recently_closed.spec_max_tabs(),
            final(self).recently_closed.spec_tabs() == Seq::<ClosedTabInfo>::empty(),
    {
        self.recently_closed.clear();
    }

    /// The number of recently closed tabs.
    pub fn closed_tab_count(&self) -> (n: usize)
        ensures
            n == self.recently_closed.spec_tabs().len(),
    {
        self.recently_closed.count()
    }
}

} // verus!

verus! {

impl Default for RecentlyClosedTabs {
    /// An empty tracker that keeps the last 10 closed tabs.
    fn default() -> (r: Self)
        ensures
            r.wf(),
            r.spec_tabs() == Seq::<ClosedTabInfo>::empty(),
            r.spec_max_tabs() == 10,
    {
        RecentlyClosedTabs::new(10)
    }
}

impl Default for CrashRecoveryUi {
    /// Hidden dialog, no closed tab (at most 10 kept), menu hidden.
    fn default() -> (r: Self)
        ensures
            r.wf(),
            r.restore_dialog == SessionRestoreDialog::Hidden,
            r.recently_closed.spec_tabs() == Seq::<ClosedTabInfo>::empty(),
            r.recently_closed.spec_max_tabs() == 10,
            !r.show_recently_closed_menu,
    {
        CrashRecoveryUi::new()
    }
}

} // verus!
