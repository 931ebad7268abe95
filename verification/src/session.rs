//! Session state kept for crash recovery: windows, tabs and their pages, and
//! the settings of periodic saving.
use vstd::prelude::*;
use crate::seqs::{first_match, lemma_first_match_at, lemma_first_match_none};
use crate::sync::SyncTime;
use crate::text::{chars_of, decimal, decimal_chars, string_from_chars};
use crate::types::{SessionError, TabId, WindowId};
use std::collections::HashMap;

verus! {

/// Seconds between automatic saves, by default.
pub const DEFAULT_AUTO_SAVE_INTERVAL_SECS: u64 = 30;

/// The session format this library writes and reads.
pub const SESSION_FORMAT_VERSION: u32 = 1;

/// Saved form field values of a tab, by field name.
#[derive(Debug, Clone, Default)]
pub struct FormData {
    pub fields: HashMap<String, String>,
}

/// Saved state of one tab.
#[derive(Debug)]
pub struct TabSessionState {
    pub tab_id: TabId,
    pub url: Option<String>,
    pub title: String,
    /// Scroll position (x, y).
    pub scroll_position: (i32, i32),
    pub form_data: Option<FormData>,
    /// URLs of the tab's history.
    pub history: Vec<String>,
    pub history_index: usize,
    pub pinned: bool,
    pub muted: bool,
}

impl Clone for TabSessionState {
    fn clone(&self) -> (r: Self)
        ensures
            r.tab_id == self.tab_id,
            r.scroll_position == self.scroll_position,
            r.history_index == self.history_index,
            r.pinned == self.pinned,
            r.muted == self.muted,
    {
        TabSessionState {
            tab_id: self.tab_id,
            url: self.url.clone(),
            title: self.title.clone(),
            scroll_position: self.scroll_position,
            form_data: self.form_data.clone(),
            history: self.history.clone(),
            history_index: self.history_index,
            pinned: self.pinned,
            muted: self.muted,
        }
    }
}

impl TabSessionState {
    /// The state of a blank tab.
    pub fn new(tab_id: TabId) -> (t: TabSessionState)
        ensures
            t.tab_id == tab_id,
            t.url is None,
            t.title@.len() == 0,
            t.scroll_position == (0i32, 0i32),
            t.form_data is None,
            t.history@.len() == 0,
            t.history_index == 0,
            !t.pinned,
            !t.muted,
    {
        TabSessionState {
            tab_id,
            url: None,
            title: String::new(),
            scroll_position: (0, 0),
            form_data: None,
            history: Vec::new(),
            history_index: 0,
            pinned: false,
            muted: false,
        }
    }
}

/// Saved state of one window.
#[derive(Debug)]
pub struct WindowState {
    pub window_id: WindowId,
    /// Tabs in order.
    pub tabs: Vec<TabSessionState>,
    pub active_tab_index: usize,
    /// Bounds (x, y, width, height).
    pub bounds: Option<(i32, i32, u32, u32)>,
    pub maximized: bool,
    pub minimized: bool,
}

impl Clone for WindowState {
    fn clone(&self) -> (r: Self)
        ensures
            r.window_id == self.window_id,
            r.tabs@.len() == self.tabs@.len(),
            r.active_tab_index == self.active_tab_index,
            r.bounds == self.bounds,
            r.maximized == self.maximized,
            r.minimized == self.minimized,
    {
        WindowState {
            window_id: self.window_id,
            tabs: self.tabs.clone(),
            active_tab_index: self.active_tab_index,
            bounds: self.bounds,
            maximized: self.maximized,
            minimized: self.minimized,
        }
    }
}

impl WindowState {
    /// The state of an empty window.
    pub fn new(window_id: WindowId) -> (w: WindowState)
        ensures
            w.window_id == window_id,
            w.tabs@.len() == 0,
            w.active_tab_index == 0,
            w.bounds is None,
            !w.maximized,
            !w.minimized,
    {
        WindowState {
            window_id,
            tabs: Vec::new(),
            active_tab_index: 0,
            bounds: None,
            maximized: false,
            minimized: false,
        }
    }
}

/// The number of tabs over the windows.
pub open spec fn total_tabs(windows: Seq<WindowState>) -> nat
    decreases windows.len(),
{
    if windows.len() == 0 {
        0
    } else {
        total_tabs(windows.drop_last()) + windows.last().tabs@.len()
    }
}

/// The window has this identifier.
pub open spec fn window_id_is(id: WindowId) -> spec_fn(WindowState) -> bool {
    |w: WindowState| w.window_id == id
}

/// A whole saved session.
#[derive(Debug, Clone)]
pub struct SessionState {
    pub windows: Vec<WindowState>,
    /// When it was last saved.
    pub last_saved: SyncTime,
    /// Format version.
    pub version: u32,
    /// The focused window's index.
    pub focused_window_index: Option<usize>,
}

impl SessionState {
    /// An empty session, saved now, in the current format.
    pub fn new() -> (s: SessionState)
        ensures
            s.windows@.len() == 0,
            s.version == SESSION_FORMAT_VERSION,
            s.focused_window_index is None,
    {
        SessionState {
            windows: Vec::new(),
            last_saved: SyncTime::now(),
            version: SESSION_FORMAT_VERSION,
            focused_window_index: None,
        }
    }

    /// The number of tabs over all windows.
    pub fn tab_count(&self) -> (n: usize)
        requires
            total_tabs(self.windows@) <= usize::MAX,
        ensures
            n == total_tabs(self.windows@),
    {
        let m = self.windows.len();
        let mut i: usize = 0;
        let mut n: usize = 0;
        while i < m
            invariant
                m == self.windows@.len(),
                i <= m,
                n == total_tabs(self.windows@.take(i as int)),
                total_tabs(self.windows@) <= usize::MAX,
            decreases m - i,
        {
            proof {
                assert(self.windows@.take(i + 1).drop_last() =~= self.windows@.take(i as int));
                lemma_total_tabs_prefix(self.windows@, i + 1);
            }
            n = n + self.windows[i].tabs.len();
            i += 1;
        }
        proof {
            assert(self.windows@.take(m as int) =~= self.windows@);
        }
        n
    }

    /// The number of windows.
    pub fn window_count(&self) -> (n: usize)
        ensures
            n == self.windows@.len(),
    {
        self.windows.len()
    }

    /// A session is empty when it has no window or no tab.
    pub fn is_empty(&self) -> (b: bool)
        requires
            total_tabs(self.windows@) <= usize::MAX,
        ensures
            b == (self.windows@.len() == 0 || total_tabs(self.windows@) == 0),
    {
        self.windows.len() == 0 || self.tab_count() == 0
    }

    /// Add a window at the end.
    pub fn add_window(&mut self, window: WindowState)
        ensures
            final(self).windows@ == old(self).windows@.push(window),
            final(self).last_saved == old(self).last_saved,
            final(self).version == old(self).version,
            final(self).focused_window_index == old(self).focused_window_index,
    {
        self.windows.push(window);
    }

    /// The first window with this identifier.
    pub fn get_window(&self, window_id: WindowId) -> (r: Option<&WindowState>)
        ensures
            match first_match(self.windows@, window_id_is(window_id)) {
                Some(i) => r == Some(&self.windows@[i]),
                None => r is None,
            },
    {
        let n = self.windows.len();
        let mut i: usize = 0;
        while i < n
            invariant
                n == self.windows@.len(),
                i <= n,
                forall|j: int| 0 <= j < i ==> self.windows@[j].window_id != window_id,
            decreases n - i,
        {
            if self.windows[i].window_id == window_id {
                proof {
                    lemma_first_match_at(self.windows@, window_id_is(window_id), i as int);
                }
                return Some(&self.windows[i]);
            }
            i += 1;
        }
        proof {
            lemma_first_match_none(self.windows@, window_id_is(window_id));
        }
        None
    }

    /// The position of the first window with this identifier.
    fn window_position(&self, window_id: WindowId) -> (r: Option<usize>)
        ensures
            match r {
                Some(i) => first_match(self.windows@, window_id_is(window_id)) == Some(i as int) && i
                    < self.windows@.len(),
                None => first_match(self.windows@, window_id_is(window_id)) is None,
            },
    {
        let n = self.windows.len();
        let mut i: usize = 0;
        while i < n
            invariant
                n == self.windows@.len(),
                i <= n,
                forall|j: int| 0 <= j < i ==> self.windows@[j].window_id != window_id,
            decreases n - i,
        {
            if self.windows[i].window_id == window_id {
                proof {
                    lemma_first_match_at(self.windows@, window_id_is(window_id), i as int);
                }
                return Some(i);
            }
            i += 1;
        }
        proof {
            lemma_first_match_none(self.windows@, window_id_is(window_id));
        }
        None
    }

    /// The first window with this identifier, to change it.
    pub fn get_window_mut(&mut self, window_id: WindowId) -> (r: Option<&mut WindowState>)
        ensures
            match first_match(old(self).windows@, window_id_is(window_id)) {
                Some(i) => r matches Some(w) && *w == old(self).windows@[i] && final(self).windows@
                    == old(self).windows@.update(i, *final(w)) && final(self).last_saved == old(
                    self,
                ).last_saved && final(self).version == old(self).version
                    && final(self).focused_window_index == old(self).focused_window_index,
                None => r is None && *final(self) == *old(self),
            },
    {
        match self.window_position(window_id) {
            Some(i) => Some(&mut self.windows[i]),
            None => None,
        }
    }
}

/// A prefix holds at most as many tabs as the whole.
proof fn lemma_total_tabs_prefix(w: Seq<WindowState>, k: int)
    requires
        0 <= k <= w.len(),
    ensures
        total_tabs(w.take(k)) <= total_tabs(w),
    decreases w.len() - k,
{
    if k < w.len() {
        lemma_total_tabs_prefix(w, k + 1);
        assert(w.take(k + 1).drop_last() =~= w.take(k));
    } else {
        assert(w.take(k) =~= w);
    }
}

/// Settings of the session manager.
#[derive(Debug, Clone, PartialEq, Eq)]
pub struct SessionConfig {
    /// Directory of the session files.
    pub session_dir: String,
    /// Seconds between automatic saves.
    pub auto_save_interval_secs: u64,
    pub auto_save_enabled: bool,
    /// Sessions kept in history.
    pub max_session_history: usize,
}

impl Default for SessionConfig {
    /// The current directory, saving every 30 seconds, 5 sessions kept.
    fn default() -> (c: Self)
        ensures
            c.session_dir@ == seq!['.'],
            c.auto_save_interval_secs == DEFAULT_AUTO_SAVE_INTERVAL_SECS,
            c.auto_save_enabled,
            c.max_session_history == 5,
    {
        let mut v: Vec<char> = Vec::new();
        v.push('.');
        assert(v@ =~= seq!['.']);
        let dir = string_from_chars(v.as_slice());
        SessionConfig {
            session_dir: dir,
            auto_save_interval_secs: DEFAULT_AUTO_SAVE_INTERVAL_SECS,
            auto_save_enabled: true,
            max_session_history: 5,
        }
    }
}

impl SessionConfig {
    /// The default settings with another directory.
    pub fn with_session_dir(session_dir: String) -> (c: SessionConfig)
        ensures
            c.session_dir == session_dir,
            c.auto_save_interval_secs == DEFAULT_AUTO_SAVE_INTERVAL_SECS,
            c.auto_save_enabled,
            c.max_session_history == 5,
    {
        SessionConfig { session_dir, ..SessionConfig::default() }
    }
}

/// Information about a saved session, for the restore dialog.
#[derive(Debug, Clone, Copy, PartialEq, Eq)]
pub struct SessionInfo {
    pub window_count: usize,
    pub tab_count: usize,
    pub last_saved: SyncTime,
    /// Whether the previous session ended in a crash.
    pub was_crash: bool,
}

/// Handle of the periodic save task.
#[derive(Debug, Clone, PartialEq, Eq)]
pub struct AutoSaveHandle {
    session_path: String,
    interval_secs: u64,
}

impl AutoSaveHandle {
    /// The file written.
    pub closed spec fn path_spec(self) -> Seq<char> {
        self.session_path@
    }

    /// The seconds between saves.
    pub closed spec fn interval_spec(self) -> u64 {
        self.interval_secs
    }

    /// The file written.
    pub fn session_path(&self) -> (p: &str)
        ensures
            p@ == self.path_spec(),
    {
        self.session_path.as_str()
    }

    /// The seconds between saves.
    pub fn interval_secs(&self) -> (n: u64)
        ensures
            n == self.interval_spec(),
    {
        self.interval_secs
    }
}

/// `name` inside the directory `dir`, with a `/` between them unless `dir`
/// is empty or already ends with one.
pub open spec fn path_in(dir: Seq<char>, name: Seq<char>) -> Seq<char> {
    if dir.len() == 0 {
        name
    } else if dir.last() == '/' {
        dir + name
    } else {
        dir + seq!['/'] + name
    }
}

/// The path of `name` inside `dir`.
fn join_path(dir: &str, name: &str) -> (p: String)
    ensures
        p@ == path_in(dir@, name@),
{
    let mut v = chars_of(dir);
    let n = chars_of(name);
    if v.len() > 0 && v[v.len() - 1] != '/' {
        v.push('/');
    }
    let ghost start = v@;
    let mut i: usize = 0;
    while i < n.len()
        invariant
            i <= n@.len(),
            v@ == start + n@.take(i as int),
        decreases n@.len() - i,
    {
        v.push(n[i]);
        i += 1;
        assert(v@ =~= start + n@.take(i as int));
    }
    assert(n@.take(n@.len() as int) =~= n@);
    assert(v@ =~= path_in(dir@, name@));
    string_from_chars(v.as_slice())
}

/// Session persistence: settings and the session being kept.  Reading and
/// writing the files is done by the caller with the paths given here.
#[derive(Debug)]
pub struct SessionManager {
    config: SessionConfig,
    current_session: SessionState,
}

impl SessionManager {
    /// A manager with these settings and an empty session.
    pub fn new(config: SessionConfig) -> (m: SessionManager)
        ensures
            m.config_spec() == config,
            m.session_spec().windows@.len() == 0,
            m.session_spec().version == SESSION_FORMAT_VERSION,
    {
        SessionManager { config, current_session: SessionState::new() }
    }

    /// The settings.
    pub closed spec fn config_spec(self) -> SessionConfig {
        self.config
    }

    /// The session being kept.
    pub closed spec fn session_spec(self) -> SessionState {
        self.current_session
    }

    /// The session file: `session.json` in the session directory.
    pub fn session_file_path(&self) -> (p: String)
        ensures
            p@ == path_in(self.config_spec().session_dir@, "session.json"@),
    {
        join_path(self.config.session_dir.as_str(), "session.json")
    }

    /// The lock file, present while a session runs: `session.lock` in the
    /// session directory.
    pub fn lock_file_path(&self) -> (p: String)
        ensures
            p@ == path_in(self.config_spec().session_dir@, "session.lock"@),
    {
        join_path(self.config.session_dir.as_str(), "session.lock")
    }

    /// The session being kept.
    pub fn current_session(&self) -> (s: &SessionState)
        ensures
            *s == self.session_spec(),
    {
        &self.current_session
    }

    /// The session being kept, for changing in place.
    pub fn current_session_mut(&mut self) -> (s: &mut SessionState)
        ensures
            *s == old(self).session_spec(),
            final(self).session_spec() == *final(s),
            final(self).config_spec() == old(self).config_spec(),
    {
        &mut self.current_session
    }

    /// Replace the session being kept.
    pub fn set_session(&mut self, session: SessionState)
        ensures
            final(self).session_spec() == session,
            final(self).config_spec() == old(self).config_spec(),
    {
        self.current_session = session;
    }

    /// The handle of periodic saving, when it is enabled: the session file
    /// and the interval.
    pub fn start_auto_save(&self) -> (h: Option<AutoSaveHandle>)
        ensures
            self.config_spec().auto_save_enabled ==> (h matches Some(x) && x.path_spec() == path_in(
                self.config_spec().session_dir@,
                "session.json"@,
            ) && x.interval_spec() == self.config_spec().auto_save_interval_secs),
            !self.config_spec().auto_save_enabled ==> h is None,
    {
        if !self.config.auto_save_enabled {
            return None;
        }
        Some(AutoSaveHandle {
            session_path: self.session_file_path(),
            interval_secs: self.config.auto_save_interval_secs,
        })
    }

    /// Accept a session read back from disk: one in a newer format than
    /// this library's is refused; otherwise it becomes the session kept.
    pub fn accept_restored(&mut self, session: SessionState) -> (r: Result<(), SessionError>)
        ensures
            final(self).config_spec() == old(self).config_spec(),
            session.version <= SESSION_FORMAT_VERSION ==> r is Ok && final(self).session_spec()
                == session,
            session.version > SESSION_FORMAT_VERSION ==> (r matches Err(SessionError::Corrupted(m))
                && m@ == "Session version "@ + decimal(session.version as nat)
                + " is newer than supported version 1"@) && final(self).session_spec() == old(
                self,
            ).session_spec(),
    {
        if session.version > SESSION_FORMAT_VERSION {
            let mut v = chars_of("Session version ");
            let d = decimal_chars(session.version as u64);
            let tail = chars_of(" is newer than supported version 1");
            let ghost a = v@;
            let mut i: usize = 0;
            while i < d.len()
                invariant
                    i <= d@.len(),
                    v@ == a + d@.take(i as int),
                decreases d@.len() - i,
            {
                v.push(d[i]);
                i += 1;
                assert(v@ =~= a + d@.take(i as int));
            }
            assert(d@.take(d@.len() as int) =~= d@);
            let ghost b = v@;
            let mut j: usize = 0;
            while j < tail.len()
                invariant
                    j <= tail@.len(),
                    v@ == b + tail@.take(j as int),
                decreases tail@.len() - j,
            {
                v.push(tail[j]);
                j += 1;
                assert(v@ =~= b + tail@.take(j as int));
            }
            assert(tail@.take(tail@.len() as int) =~= tail@);
            return Err(SessionError::Corrupted(string_from_chars(v.as_slice())));
        }
        self.current_session = session;
        Ok(())
    }
}

} // verus!
