//! Web views: their settings, the manager that tracks each view's page,
//! history and load state, a resource cache with expiry, and the log of
//! navigation events.
use vstd::prelude::*;
use crate::seqs::{
    first_match, lemma_first_match, lemma_first_match_at, lemma_first_match_none, lemma_select_all,
    lemma_select_push, select,
};
use crate::tabs::{prefixed, url_parse_result};
use crate::text::{chars_eq, chars_of};
use crate::types::unix_millis_now;

verus! {

/// Errors of web views.
#[derive(Debug, Clone, PartialEq, Eq)]
pub enum WebViewError {
    InvalidUrl(String),
    NavigationFailed(String),
    JsError(String),
    NotInitialized,
    ResourceNotFound(String),
}

/// Load state of a page.
#[derive(Debug, Clone, Copy, PartialEq, Eq, Structural)]
pub enum LoadState {
    Idle,
    Loading,
    Interactive,
    Complete,
    Failed,
}

/// Settings of a web view.
#[derive(Debug, PartialEq, Eq)]
pub struct WebViewConfig {
    pub javascript_enabled: bool,
    pub devtools_enabled: bool,
    pub user_agent: String,
    pub clipboard_enabled: bool,
    pub autoplay_enabled: bool,
    /// Cache size in bytes.
    pub cache_size: usize,
}

/// The default settings: JavaScript and clipboard on, no devtools or
/// autoplay, a 100 MiB cache.
pub open spec fn default_config(c: WebViewConfig) -> bool {
    &&& c.javascript_enabled
    &&& !c.devtools_enabled
    &&& c.user_agent@ == "CortenBrowser/0.4.0"@
    &&& c.clipboard_enabled
    &&& !c.autoplay_enabled
    &&& c.cache_size == 100 * 1024 * 1024
}

impl Clone for WebViewConfig {
    fn clone(&self) -> (r: Self)
        ensures
            r == *self,
    {
        WebViewConfig {
            javascript_enabled: self.javascript_enabled,
            devtools_enabled: self.devtools_enabled,
            user_agent: self.user_agent.clone(),
            clipboard_enabled: self.clipboard_enabled,
            autoplay_enabled: self.autoplay_enabled,
            cache_size: self.cache_size,
        }
    }
}

impl Default for WebViewConfig {
    /// JavaScript and clipboard on, no devtools or autoplay, a 100 MiB
    /// cache.
    fn default() -> (c: Self)
        ensures
            default_config(c),
    {
        WebViewConfig {
            javascript_enabled: true,
            devtools_enabled: false,
            user_agent: String::from_str("CortenBrowser/0.4.0"),
            clipboard_enabled: true,
            autoplay_enabled: false,
            cache_size: 100 * 1024 * 1024,
        }
    }
}

/// Settings of an embedded web view.
#[derive(Debug, Clone, PartialEq, Eq)]
pub struct EmbedConfig {
    pub initial_url: String,
    /// Background colour (RGBA).
    pub background_color: [u8; 4],
    pub transparent: bool,
    pub devtools_enabled: bool,
    pub javascript_enabled: bool,
    pub user_agent: Option<String>,
    pub autoplay_enabled: bool,
    pub clipboard_enabled: bool,
    /// Name of the JavaScript bridge handler.
    pub ipc_handler_name: String,
    pub initialization_script: Option<String>,
}

impl Default for EmbedConfig {
    /// A blank page on white, JavaScript and clipboard on, the bridge named
    /// `cortenIpc`.
    fn default() -> (c: Self)
        ensures
            c.initial_url@ == "about:blank"@,
            c.background_color@ == seq![255u8, 255u8, 255u8, 255u8],
            !c.transparent,
            !c.devtools_enabled,
            c.javascript_enabled,
            c.user_agent is None,
            !c.autoplay_enabled,
            c.clipboard_enabled,
            c.ipc_handler_name@ == "cortenIpc"@,
            c.initialization_script is None,
    {
        let c = EmbedConfig {
            initial_url: String::from_str("about:blank"),
            background_color: [255, 255, 255, 255],
            transparent: false,
            devtools_enabled: false,
            javascript_enabled: true,
            user_agent: None,
            autoplay_enabled: false,
            clipboard_enabled: true,
            ipc_handler_name: String::from_str("cortenIpc"),
            initialization_script: None,
        };
        assert(c.background_color@ =~= seq![255u8, 255u8, 255u8, 255u8]);
        c
    }
}

/// Bounds of a web view in its window, in pixels.
#[derive(Debug, Clone, Copy, PartialEq, Eq, Structural)]
pub struct WebViewBounds {
    pub x: i32,
    pub y: i32,
    pub width: u32,
    pub height: u32,
}

impl Default for WebViewBounds {
    /// 800 by 600 at the origin.
    fn default() -> (b: Self)
        ensures
            b == (WebViewBounds { x: 0, y: 0, width: 800, height: 600 }),
    {
        WebViewBounds { x: 0, y: 0, width: 800, height: 600 }
    }
}


/// What a view shows and how far it has loaded.
#[derive(Debug)]
pub struct WebViewState {
    pub id: u64,
    pub current_url: String,
    pub title: String,
    pub load_state: LoadState,
    pub can_go_back: bool,
    pub can_go_forward: bool,
    pub is_loading: bool,
    /// Zoom as a percentage of the actual size.
    pub zoom_percent: u32,
}

/// The abstract value of a `WebViewState`.
pub struct WebViewStateView {
    pub id: u64,
    pub current_url: Seq<char>,
    pub title: Seq<char>,
    pub load_state: LoadState,
    pub can_go_back: bool,
    pub can_go_forward: bool,
    pub is_loading: bool,
    pub zoom_percent: u32,
}

impl View for WebViewState {
    type V = WebViewStateView;

    open spec fn view(&self) -> WebViewStateView {
        WebViewStateView {
            id: self.id,
            current_url: self.current_url@,
            title: self.title@,
            load_state: self.load_state,
            can_go_back: self.can_go_back,
            can_go_forward: self.can_go_forward,
            is_loading: self.is_loading,
            zoom_percent: self.zoom_percent,
        }
    }
}

impl Clone for WebViewState {
    fn clone(&self) -> (r: Self)
        ensures
            r@ == self@,
    {
        WebViewState {
            id: self.id,
            current_url: self.current_url.clone(),
            title: self.title.clone(),
            load_state: self.load_state,
            can_go_back: self.can_go_back,
            can_go_forward: self.can_go_forward,
            is_loading: self.is_loading,
            zoom_percent: self.zoom_percent,
        }
    }
}

/// The state of a fresh view with this identifier: a blank page titled
/// "New Tab", idle, at actual size, with nowhere to go back or forward.
pub open spec fn initial_state(id: u64) -> WebViewStateView {
    WebViewStateView {
        id: id,
        current_url: "about:blank"@,
        title: "New Tab"@,
        load_state: LoadState::Idle,
        can_go_back: false,
        can_go_forward: false,
        is_loading: false,
        zoom_percent: 100,
    }
}

impl Default for WebViewState {
    /// The state of a fresh view, numbered zero.
    fn default() -> (s: Self)
        ensures
            s@ == initial_state(0),
    {
        WebViewState {
            id: 0,
            current_url: String::from_str("about:blank"),
            title: String::from_str("New Tab"),
            load_state: LoadState::Idle,
            can_go_back: false,
            can_go_forward: false,
            is_loading: false,
            zoom_percent: 100,
        }
    }
}

/// A step of a navigation, with the time it was recorded (milliseconds
/// since the UNIX epoch).
#[derive(Debug)]
pub enum NavigationEvent {
    Started { url: String, timestamp: u64 },
    Committed { url: String, timestamp: u64 },
    Completed { url: String, timestamp: u64 },
    Failed { url: String, error: String, timestamp: u64 },
}

/// The abstract value of a `NavigationEvent`.
pub enum NavigationEventView {
    Started { url: Seq<char>, timestamp: u64 },
    Committed { url: Seq<char>, timestamp: u64 },
    Completed { url: Seq<char>, timestamp: u64 },
    Failed { url: Seq<char>, error: Seq<char>, timestamp: u64 },
}

impl View for NavigationEvent {
    type V = NavigationEventView;

    open spec fn view(&self) -> NavigationEventView {
        match self {
            NavigationEvent::Started { url, timestamp } => NavigationEventView::Started {
                url: url@,
                timestamp: *timestamp,
            },
            NavigationEvent::Committed { url, timestamp } => NavigationEventView::Committed {
                url: url@,
                timestamp: *timestamp,
            },
            NavigationEvent::Completed { url, timestamp } => NavigationEventView::Completed {
                url: url@,
                timestamp: *timestamp,
            },
            NavigationEvent::Failed { url, error, timestamp } => NavigationEventView::Failed {
                url: url@,
                error: error@,
                timestamp: *timestamp,
            },
        }
    }
}

impl Clone for NavigationEvent {
    fn clone(&self) -> (r: Self)
        ensures
            r@ == self@,
    {
        match self {
            NavigationEvent::Started { url, timestamp } => NavigationEvent::Started {
                url: url.clone(),
                timestamp: *timestamp,
            },
            NavigationEvent::Committed { url, timestamp } => NavigationEvent::Committed {
                url: url.clone(),
                timestamp: *timestamp,
            },
            NavigationEvent::Completed { url, timestamp } => NavigationEvent::Completed {
                url: url.clone(),
                timestamp: *timestamp,
            },
            NavigationEvent::Failed { url, error, timestamp } => NavigationEvent::Failed {
                url: url.clone(),
                error: error.clone(),
                timestamp: *timestamp,
            },
        }
    }
}

/// One view as the manager holds it: its state, the pages of its history
/// and the position of the current page.
struct ViewEntry {
    state: WebViewState,
    history: Vec<String>,
    position: usize,
}

/// The abstract value of a view entry.
pub struct ViewRecord {
    pub state: WebViewStateView,
    pub history: Seq<Seq<char>>,
    pub position: int,
}

impl View for ViewEntry {
    type V = ViewRecord;

    closed spec fn view(&self) -> ViewRecord {
        ViewRecord {
            state: self.state@,
            history: self.history@.map_values(|s: String| s@),
            position: self.position as int,
        }
    }
}

impl ViewRecord {
    /// The history is not empty, the position is inside it, the view shows
    /// the page at the position, and the back and forward flags follow the
    /// position.
    pub open spec fn wf(self) -> bool {
        &&& self.history.len() >= 1
        &&& 0 <= self.position < self.history.len()
        &&& self.state.current_url == self.history[self.position]
        &&& self.state.can_go_back == (self.position > 0)
        &&& self.state.can_go_forward == (self.position + 1 < self.history.len())
    }
}

/// A resource in the cache, with the times (milliseconds since the UNIX
/// epoch) it was stored and stops being served.
struct CachedResource {
    url: String,
    data: Vec<u8>,
    mime_type: String,
    cached_at: u64,
    expires_at: u64,
}

/// The abstract value of a cached resource.
pub struct CacheRecord {
    pub url: Seq<char>,
    pub data: Seq<u8>,
    pub mime_type: Seq<char>,
    pub cached_at: u64,
    pub expires_at: u64,
}

impl View for CachedResource {
    type V = CacheRecord;

    closed spec fn view(&self) -> CacheRecord {
        CacheRecord {
            url: self.url@,
            data: self.data@,
            mime_type: self.mime_type@,
            cached_at: self.cached_at,
            expires_at: self.expires_at,
        }
    }
}

/// How long a cached resource is served: a day, in milliseconds.
pub const CACHE_LIFETIME_MS: u64 = 86_400_000;

/// The abstract state of a `WebViewManager`.
pub struct WebViewManagerView {
    pub views: Seq<ViewRecord>,
    pub cache: Seq<CacheRecord>,
    pub config: WebViewConfig,
    pub events: Seq<NavigationEventView>,
    pub next_id: u64,
}

impl WebViewManagerView {
    /// View identifiers are distinct and below the next one handed out, and
    /// every view is well formed.
    pub open spec fn wf(self) -> bool {
        &&& forall|i: int, j: int|
            0 <= i < j < self.views.len() ==> #[trigger] self.views[i].state.id
                != #[trigger] self.views[j].state.id
        &&& forall|i: int|
            0 <= i < self.views.len() ==> (#[trigger] self.views[i]).wf() && self.views[i].state.id
                < self.next_id
    }
}

/// The view has this identifier.
pub open spec fn view_id_is(id: u64) -> spec_fn(ViewRecord) -> bool {
    |r: ViewRecord| r.state.id == id
}

/// The position of the view with this identifier.
pub open spec fn view_position(views: Seq<ViewRecord>, id: u64) -> Option<int> {
    first_match(views, view_id_is(id))
}

/// A new view: the blank page is its whole history.
pub open spec fn created_view(id: u64) -> ViewRecord {
    ViewRecord { state: initial_state(id), history: seq!["about:blank"@], position: 0 }
}

/// Keeps track of web views, their histories, a resource cache and the
/// navigation events.
pub struct WebViewManager {
    views: Vec<ViewEntry>,
    cache: Vec<CachedResource>,
    config: WebViewConfig,
    navigation_events: Vec<NavigationEvent>,
    next_id: u64,
}

impl View for WebViewManager {
    type V = WebViewManagerView;

    closed spec fn view(&self) -> WebViewManagerView {
        WebViewManagerView {
            views: self.views@.map_values(|e: ViewEntry| e@),
            cache: self.cache@.map_values(|c: CachedResource| c@),
            config: self.config,
            events: self.navigation_events@.map_values(|e: NavigationEvent| e@),
            next_id: self.next_id,
        }
    }
}

impl WebViewManager {
    /// A manager with no views, an empty cache, default settings and no
    /// events; the first view gets identifier 1.
    pub fn new() -> (m: Self)
        ensures
            m@.wf(),
            m@.views.len() == 0,
            m@.cache.len() == 0,
            m@.events.len() == 0,
            m@.next_id == 1,
            default_config(m@.config),
    {
        let m = WebViewManager {
            views: Vec::new(),
            cache: Vec::new(),
            config: WebViewConfig::default(),
            navigation_events: Vec::new(),
            next_id: 1,
        };
        proof {
            assert(m@.views =~= Seq::<ViewRecord>::empty());
            assert(m@.cache =~= Seq::<CacheRecord>::empty());
            assert(m@.events =~= Seq::<NavigationEventView>::empty());
        }
        m
    }

    fn position(&self, id: u64) -> (r: Option<usize>)
        ensures
            match r {
                Some(i) => view_position(self@.views, id) == Some(i as int) && i < self@.views.len(),
                None => view_position(self@.views, id) is None,
            },
    {
        let n = self.views.len();
        let mut i: usize = 0;
        while i < n
            invariant
                n == self.views@.len(),
                i <= n,
                forall|j: int| 0 <= j < i ==> self@.views[j].state.id != id,
            decreases n - i,
        {
            if self.views[i].state.id == id {
                proof {
                    assert(self@.views[i as int].state.id == id);
                    lemma_first_match_at(self@.views, view_id_is(id), i as int);
                }
                return Some(i);
            }
            i += 1;
        }
        proof {
            lemma_first_match_none(self@.views, view_id_is(id));
        }
        None
    }

    /// Open a new view showing a blank page and return its identifier.
    pub fn create_webview(&mut self) -> (id: u64)
        requires
            old(self)@.wf(),
            old(self)@.next_id < u64::MAX,
        ensures
            final(self)@.wf(),
            id == old(self)@.next_id,
            final(self)@ == (WebViewManagerView {
                views: old(self)@.views.push(created_view(id)),
                next_id: (id + 1) as u64,
                ..old(self)@
            }),
    {
        let id = self.next_id;
        self.next_id = id + 1;
        let mut history: Vec<String> = Vec::new();
        history.push(String::from_str("about:blank"));
        let state = WebViewState { id, ..WebViewState::default() };
        let e = ViewEntry { state, history, position: 0 };
        proof {
            assert(e@.history =~= seq!["about:blank"@]);
        }
        let ghost ev = e@;
        self.views.push(e);
        proof {
            assert(self@.views =~= old(self)@.views.push(ev));
            assert forall|i: int, j: int|
                0 <= i < j < self@.views.len() implies #[trigger] self@.views[i].state.id
                != #[trigger] self@.views[j].state.id by {
                if j < old(self)@.views.len() {
                    assert(old(self)@.views[i].state.id != old(self)@.views[j].state.id);
                } else {
                    assert(old(self)@.views[i].state.id < old(self)@.next_id);
                }
            }
            assert forall|i: int| 0 <= i < self@.views.len() implies (#[trigger] self@.views[i]).wf()
                && self@.views[i].state.id < self@.next_id by {
                if i < old(self)@.views.len() {
                    assert(old(self)@.views[i].wf());
                }
            }
        }
        id
    }

    /// Close a view; an unknown view is refused.
    pub fn destroy_webview(&mut self, id: u64) -> (r: Result<(), WebViewError>)
        requires
            old(self)@.wf(),
        ensures
            final(self)@.wf(),
            match view_position(old(self)@.views, id) {
                Some(p) => r is Ok && final(self)@ == (WebViewManagerView {
                    views: old(self)@.views.remove(p),
                    ..old(self)@
                }),
                None => r == Err::<(), WebViewError>(WebViewError::NotInitialized) && final(self)@
                    == old(self)@,
            },
    {
        match self.position(id) {
            Some(p) => {
                self.views.remove(p);
                proof {
                    assert(self@.views =~= old(self)@.views.remove(p as int));
                    assert forall|i: int, j: int|
                        0 <= i < j < self@.views.len() implies #[trigger] self@.views[i].state.id
                        != #[trigger] self@.views[j].state.id by {
                        let i0 = if i < p { i } else { i + 1 };
                        let j0 = if j < p { j } else { j + 1 };
                        assert(old(self)@.views[i0].state.id != old(self)@.views[j0].state.id);
                    }
                    assert forall|i: int| 0 <= i < self@.views.len() implies (#[trigger] self@.views[i]).wf()
                        && self@.views[i].state.id < self@.next_id by {
                        let i0 = if i < p { i } else { i + 1 };
                        assert(old(self)@.views[i0].wf());
                    }
                }
                Ok(())
            },
            None => Err(WebViewError::NotInitialized),
        }
    }

    /// The state of a view; an unknown view is refused.
    pub fn get_state(&self, id: u64) -> (r: Result<WebViewState, WebViewError>)
        ensures
            match view_position(self@.views, id) {
                Some(p) => r matches Ok(s) && s@ == self@.views[p].state,
                None => r == Err::<WebViewState, WebViewError>(WebViewError::NotInitialized),
            },
    {
        match self.position(id) {
            Some(p) => Ok(self.views[p].state.clone()),
            None => Err(WebViewError::NotInitialized),
        }
    }
}


/// The host of the URL that `url::Url::parse` makes of `input`, when the
/// text parses and the URL has a host.
pub uninterp spec fn url_host_of(input: Seq<char>) -> Option<Seq<char>>;

/// Parse a URL and take its host.
///
/// Trusted: calls `url::Url::parse` and, on success, `Url::host_str`; on
/// failure keeps the error's `Display` text.  Whether the text parses is the
/// outcome named `url_parse_result`, the host is named `url_host_of`; both
/// depend on the input alone.
#[verifier::external_body]
fn parse_url_host(input: &str) -> (r: Result<Option<String>, String>)
    ensures
        match r {
            Ok(h) => url_parse_result(input@) is Ok && match h {
                Some(s) => url_host_of(input@) == Some(s@),
                None => url_host_of(input@) is None,
            },
            Err(m) => url_parse_result(input@) == Err::<Seq<char>, Seq<char>>(m@),
        },
{
    match url::Url::parse(input) {
        Ok(u) => match u.host_str() {
            Some(h) => Ok(Some(h.to_string())),
            None => Ok(None),
        },
        Err(e) => Err(format!("{}", e)),
    }
}

/// The title of a page while it loads: the URL's host, or "Loading..." when
/// it has none.
pub open spec fn loading_title(host: Option<Seq<char>>) -> Seq<char> {
    match host {
        Some(h) => h,
        None => "Loading..."@,
    }
}

/// The view after visiting `url` under `title`: the pages after the current
/// one are dropped, `url` joins the history as the current page, and the
/// load completes.
pub open spec fn navigated_view(r: ViewRecord, url: Seq<char>, title: Seq<char>) -> ViewRecord {
    let h = r.history.take(r.position + 1).push(url);
    ViewRecord {
        state: WebViewStateView {
            current_url: url,
            title: title,
            load_state: LoadState::Complete,
            is_loading: false,
            can_go_back: true,
            can_go_forward: false,
            ..r.state
        },
        history: h,
        position: h.len() - 1,
    }
}

/// The view after moving to history entry `k`, whose page it shows, loaded.
pub open spec fn moved_view(r: ViewRecord, k: int) -> ViewRecord {
    ViewRecord {
        state: WebViewStateView {
            current_url: r.history[k],
            load_state: LoadState::Complete,
            is_loading: false,
            can_go_back: k > 0,
            can_go_forward: k + 1 < r.history.len(),
            ..r.state
        },
        position: k,
        ..r
    }
}

/// The view with its state replaced by `s`.
pub open spec fn with_state(r: ViewRecord, s: WebViewStateView) -> ViewRecord {
    ViewRecord { state: s, ..r }
}

/// `after` is `before` followed by a start and a completion event for `url`.
pub open spec fn navigation_recorded(
    before: Seq<NavigationEventView>,
    after: Seq<NavigationEventView>,
    url: Seq<char>,
) -> bool {
    &&& after.len() == before.len() + 2
    &&& after.take(before.len() as int) == before
    &&& after[before.len() as int] matches NavigationEventView::Started { url: u, .. } && u == url
    &&& after[before.len() + 1int] matches NavigationEventView::Completed { url: u, .. } && u == url
}

impl WebViewManager {
    fn take_view(&mut self, p: usize) -> (e: ViewEntry)
        requires
            p < old(self)@.views.len(),
        ensures
            e@ == old(self)@.views[p as int],
            final(self)@ == (WebViewManagerView { views: old(self)@.views.remove(p as int), ..old(self)@ }),
    {
        let e = self.views.remove(p);
        proof {
            assert(self@.views =~= old(self)@.views.remove(p as int));
        }
        e
    }

    fn put_view(&mut self, p: usize, e: ViewEntry)
        requires
            p <= old(self)@.views.len(),
        ensures
            final(self)@ == (WebViewManagerView {
                views: old(self)@.views.insert(p as int, e@),
                ..old(self)@
            }),
    {
        let ghost ev = e@;
        self.views.insert(p, e);
        proof {
            assert(self@.views =~= old(self)@.views.insert(p as int, ev));
        }
    }

    /// Replacing the view at `p` by a well-formed view with the same
    /// identifier keeps the manager well formed.
    proof fn lemma_update_wf(m: WebViewManagerView, p: int, r: ViewRecord)
        requires
            m.wf(),
            0 <= p < m.views.len(),
            r.wf(),
            r.state.id == m.views[p].state.id,
        ensures
            (WebViewManagerView { views: m.views.update(p, r), ..m }).wf(),
    {
        let n = WebViewManagerView { views: m.views.update(p, r), ..m };
        assert forall|i: int, j: int|
            0 <= i < j < n.views.len() implies #[trigger] n.views[i].state.id
            != #[trigger] n.views[j].state.id by {
            assert(m.views[i].state.id != m.views[j].state.id);
        }
        assert forall|i: int| 0 <= i < n.views.len() implies (#[trigger] n.views[i]).wf()
            && n.views[i].state.id < n.next_id by {
            assert(m.views[i].wf());
        }
    }

    /// Visit a URL in a view: the page joins the view's history (dropping
    /// the pages after the current one), the view is titled by the URL's
    /// host, and a start and a completion event are recorded.  An
    /// unparsable URL, then an unknown view, is refused.
    pub fn navigate(&mut self, id: u64, url: String) -> (r: Result<(), WebViewError>)
        requires
            old(self)@.wf(),
        ensures
            final(self)@.wf(),
            match url_parse_result(url@) {
                Err(m) => (r matches Err(WebViewError::InvalidUrl(t)) && t@ == m) && final(self)@
                    == old(self)@,
                Ok(_) => match view_position(old(self)@.views, id) {
                    None => r == Err::<(), WebViewError>(WebViewError::NotInitialized)
                        && final(self)@ == old(self)@,
                    Some(p) => r is Ok && navigation_recorded(
                        old(self)@.events,
                        final(self)@.events,
                        url@,
                    ) && final(self)@ == (WebViewManagerView {
                        views: old(self)@.views.update(
                            p,
                            navigated_view(old(self)@.views[p], url@, loading_title(url_host_of(url@))),
                        ),
                        events: final(self)@.events,
                        ..old(self)@
                    }),
                },
            },
    {
        let host = match parse_url_host(url.as_str()) {
            Ok(h) => h,
            Err(m) => {
                return Err(WebViewError::InvalidUrl(m));
            },
        };
        let p = match self.position(id) {
            Some(p) => p,
            None => {
                return Err(WebViewError::NotInitialized);
            },
        };
        let ghost before = self@;
        let started = unix_millis_now();
        let ghost ev0 = NavigationEventView::Started { url: url@, timestamp: started };
        self.navigation_events.push(NavigationEvent::Started { url: url.clone(), timestamp: started });
        proof {
            assert(self@.views == before.views);
            assert(self@.events =~= before.events.push(ev0));
            assert(before.views[p as int].wf());
        }
        let ghost mid = self@;
        let mut e = self.take_view(p);
        e.state.current_url = url.clone();
        e.state.load_state = LoadState::Loading;
        e.state.is_loading = true;
        e.state.title = match host {
            Some(h) => h,
            None => String::from_str("Loading..."),
        };
        let ghost h0 = e.history@;
        let n = e.history.len();
        proof {
            assert(e@.history.len() == n);
        }
        e.history.truncate(e.position + 1);
        e.history.push(url.clone());
        e.position = e.history.len() - 1;
        e.state.can_go_back = e.position > 0;
        e.state.can_go_forward = e.position < e.history.len() - 1;
        e.state.load_state = LoadState::Complete;
        e.state.is_loading = false;
        let ghost ev = e@;
        proof {
            let r0 = before.views[p as int];
            assert(e.history@ =~= h0.take(r0.position + 1).push(url));
            assert(ev.history =~= r0.history.take(r0.position + 1).push(url@));
            assert(ev == navigated_view(r0, url@, loading_title(url_host_of(url@))));
        }
        self.put_view(p, e);
        let completed = unix_millis_now();
        let ghost ev1 = NavigationEventView::Completed { url: url@, timestamp: completed };
        let ghost mid2 = self@;
        self.navigation_events.push(NavigationEvent::Completed { url, timestamp: completed });
        proof {
            assert(mid2.events == mid.events);
            assert(self@.views == mid2.views);
            assert(self@.events =~= before.events.push(ev0).push(ev1));
            assert(self@.views =~= before.views.update(p as int, ev));
            Self::lemma_update_wf(before, p as int, ev);
            assert(self@.events.take(before.events.len() as int) =~= before.events);
        }
        Ok(())
    }
}


/// The view with loading finished at its current page.
pub open spec fn reloaded_view(r: ViewRecord) -> ViewRecord {
    with_state(r, WebViewStateView { load_state: LoadState::Complete, is_loading: false, ..r.state })
}

/// The view with loading stopped and idle.
pub open spec fn stopped_view(r: ViewRecord) -> ViewRecord {
    with_state(r, WebViewStateView { load_state: LoadState::Idle, is_loading: false, ..r.state })
}

impl WebViewManager {
    /// Go back one page in a view; an unknown view, or one with nothing
    /// before its current page, is refused.
    pub fn go_back(&mut self, id: u64) -> (r: Result<(), WebViewError>)
        requires
            old(self)@.wf(),
        ensures
            final(self)@.wf(),
            match view_position(old(self)@.views, id) {
                None => r == Err::<(), WebViewError>(WebViewError::NotInitialized) && final(self)@
                    == old(self)@,
                Some(p) => if old(self)@.views[p].state.can_go_back {
                    r is Ok && final(self)@ == (WebViewManagerView {
                        views: old(self)@.views.update(
                            p,
                            moved_view(old(self)@.views[p], old(self)@.views[p].position - 1),
                        ),
                        ..old(self)@
                    })
                } else {
                    (r matches Err(WebViewError::NavigationFailed(t)) && t@ == "Cannot go back"@)
                        && final(self)@ == old(self)@
                },
            },
    {
        self.step(id, true)
    }

    /// Go forward one page in a view; an unknown view, or one with nothing
    /// after its current page, is refused.
    pub fn go_forward(&mut self, id: u64) -> (r: Result<(), WebViewError>)
        requires
            old(self)@.wf(),
        ensures
            final(self)@.wf(),
            match view_position(old(self)@.views, id) {
                None => r == Err::<(), WebViewError>(WebViewError::NotInitialized) && final(self)@
                    == old(self)@,
                Some(p) => if old(self)@.views[p].state.can_go_forward {
                    r is Ok && final(self)@ == (WebViewManagerView {
                        views: old(self)@.views.update(
                            p,
                            moved_view(old(self)@.views[p], old(self)@.views[p].position + 1),
                        ),
                        ..old(self)@
                    })
                } else {
                    (r matches Err(WebViewError::NavigationFailed(t)) && t@ == "Cannot go forward"@)
                        && final(self)@ == old(self)@
                },
            },
    {
        self.step(id, false)
    }

    fn step(&mut self, id: u64, back: bool) -> (r: Result<(), WebViewError>)
        requires
            old(self)@.wf(),
        ensures
            final(self)@.wf(),
            match view_position(old(self)@.views, id) {
                None => r == Err::<(), WebViewError>(WebViewError::NotInitialized) && final(self)@
                    == old(self)@,
                Some(p) => if (if back {
                    old(self)@.views[p].state.can_go_back
                } else {
                    old(self)@.views[p].state.can_go_forward
                }) {
                    r is Ok && final(self)@ == (WebViewManagerView {
                        views: old(self)@.views.update(
                            p,
                            moved_view(
                                old(self)@.views[p],
                                if back {
                                    old(self)@.views[p].position - 1
                                } else {
                                    old(self)@.views[p].position + 1
                                },
                            ),
                        ),
                        ..old(self)@
                    })
                } else {
                    (r matches Err(WebViewError::NavigationFailed(t)) && t@ == (if back {
                        "Cannot go back"@
                    } else {
                        "Cannot go forward"@
                    })) && final(self)@ == old(self)@
                },
            },
    {
        let p = match self.position(id) {
            Some(p) => p,
            None => {
                return Err(WebViewError::NotInitialized);
            },
        };
        let possible = if back {
            self.views[p].state.can_go_back
        } else {
            self.views[p].state.can_go_forward
        };
        if !possible {
            return Err(WebViewError::NavigationFailed(
                String::from_str(
                    if back {
                        "Cannot go back"
                    } else {
                        "Cannot go forward"
                    },
                ),
            ));
        }
        let ghost before = self@;
        proof {
            assert(before.views[p as int].wf());
        }
        let mut e = self.take_view(p);
        let n = e.history.len();
        proof {
            assert(e@.history.len() == n);
        }
        if back {
            e.position = e.position - 1;
        } else {
            e.position = e.position + 1;
        }
        e.state.current_url = e.history[e.position].clone();
        e.state.load_state = LoadState::Complete;
        e.state.is_loading = false;
        e.state.can_go_back = e.position > 0;
        e.state.can_go_forward = e.position < n - 1;
        let ghost ev = e@;
        proof {
            let k = if back {
                before.views[p as int].position - 1
            } else {
                before.views[p as int].position + 1
            };
            assert(ev == moved_view(before.views[p as int], k));
        }
        self.put_view(p, e);
        proof {
            assert(self@.views =~= before.views.update(p as int, ev));
            Self::lemma_update_wf(before, p as int, ev);
        }
        Ok(())
    }

    /// Reload the current page of a view (its load completes at once); an
    /// unknown view is refused.
    pub fn reload(&mut self, id: u64) -> (r: Result<(), WebViewError>)
        requires
            old(self)@.wf(),
        ensures
            final(self)@.wf(),
            match view_position(old(self)@.views, id) {
                None => r == Err::<(), WebViewError>(WebViewError::NotInitialized) && final(self)@
                    == old(self)@,
                Some(p) => r is Ok && final(self)@ == (WebViewManagerView {
                    views: old(self)@.views.update(p, reloaded_view(old(self)@.views[p])),
                    ..old(self)@
                }),
            },
    {
        let p = match self.position(id) {
            Some(p) => p,
            None => {
                return Err(WebViewError::NotInitialized);
            },
        };
        let ghost before = self@;
        let mut e = self.take_view(p);
        e.state.load_state = LoadState::Complete;
        e.state.is_loading = false;
        let ghost ev = e@;
        self.put_view(p, e);
        proof {
            assert(ev == reloaded_view(before.views[p as int]));
            assert(self@.views =~= before.views.update(p as int, ev));
            assert(before.views[p as int].wf());
            Self::lemma_update_wf(before, p as int, ev);
        }
        Ok(())
    }

    /// Stop loading a view, leaving it idle; an unknown view is refused.
    pub fn stop_loading(&mut self, id: u64) -> (r: Result<(), WebViewError>)
        requires
            old(self)@.wf(),
        ensures
            final(self)@.wf(),
            match view_position(old(self)@.views, id) {
                None => r == Err::<(), WebViewError>(WebViewError::NotInitialized) && final(self)@
                    == old(self)@,
                Some(p) => r is Ok && final(self)@ == (WebViewManagerView {
                    views: old(self)@.views.update(p, stopped_view(old(self)@.views[p])),
                    ..old(self)@
                }),
            },
    {
        let p = match self.position(id) {
            Some(p) => p,
            None => {
                return Err(WebViewError::NotInitialized);
            },
        };
        let ghost before = self@;
        let mut e = self.take_view(p);
        e.state.is_loading = false;
        e.state.load_state = LoadState::Idle;
        let ghost ev = e@;
        self.put_view(p, e);
        proof {
            assert(ev == stopped_view(before.views[p as int]));
            assert(self@.views =~= before.views.update(p as int, ev));
            assert(before.views[p as int].wf());
            Self::lemma_update_wf(before, p as int, ev);
        }
        Ok(())
    }

    /// Give a view a title; an unknown view is refused.
    pub fn set_title(&mut self, id: u64, title: String) -> (r: Result<(), WebViewError>)
        requires
            old(self)@.wf(),
        ensures
            final(self)@.wf(),
            match view_position(old(self)@.views, id) {
                None => r == Err::<(), WebViewError>(WebViewError::NotInitialized) && final(self)@
                    == old(self)@,
                Some(p) => r is Ok && final(self)@ == (WebViewManagerView {
                    views: old(self)@.views.update(
                        p,
                        with_state(
                            old(self)@.views[p],
                            WebViewStateView { title: title@, ..old(self)@.views[p].state },
                        ),
                    ),
                    ..old(self)@
                }),
            },
    {
        let p = match self.position(id) {
            Some(p) => p,
            None => {
                return Err(WebViewError::NotInitialized);
            },
        };
        let ghost before = self@;
        let mut e = self.take_view(p);
        e.state.title = title;
        let ghost ev = e@;
        self.put_view(p, e);
        proof {
            assert(self@.views =~= before.views.update(p as int, ev));
            assert(before.views[p as int].wf());
            Self::lemma_update_wf(before, p as int, ev);
        }
        Ok(())
    }

    /// Set a view's zoom, as a percentage from 25 to 500; an unknown view,
    /// then a zoom out of range, is refused.
    pub fn set_zoom(&mut self, id: u64, percent: u32) -> (r: Result<(), WebViewError>)
        requires
            old(self)@.wf(),
        ensures
            final(self)@.wf(),
            match view_position(old(self)@.views, id) {
                None => r == Err::<(), WebViewError>(WebViewError::NotInitialized) && final(self)@
                    == old(self)@,
                Some(p) => if 25 <= percent <= 500 {
                    r is Ok && final(self)@ == (WebViewManagerView {
                        views: old(self)@.views.update(
                            p,
                            with_state(
                                old(self)@.views[p],
                                WebViewStateView { zoom_percent: percent, ..old(self)@.views[p].state },
                            ),
                        ),
                        ..old(self)@
                    })
                } else {
                    (r matches Err(WebViewError::JsError(t)) && t@
                        == "Zoom level must be between 0.25 and 5.0"@) && final(self)@ == old(self)@
                },
            },
    {
        let p = match self.position(id) {
            Some(p) => p,
            None => {
                return Err(WebViewError::NotInitialized);
            },
        };
        if percent < 25 || percent > 500 {
            return Err(WebViewError::JsError(String::from_str("Zoom level must be between 0.25 and 5.0")));
        }
        let ghost before = self@;
        let mut e = self.take_view(p);
        e.state.zoom_percent = percent;
        let ghost ev = e@;
        self.put_view(p, e);
        proof {
            assert(self@.views =~= before.views.update(p as int, ev));
            assert(before.views[p as int].wf());
            Self::lemma_update_wf(before, p as int, ev);
        }
        Ok(())
    }

    /// A view's zoom percentage; an unknown view is refused.
    pub fn get_zoom(&self, id: u64) -> (r: Result<u32, WebViewError>)
        ensures
            match view_position(self@.views, id) {
                Some(p) => r == Ok::<u32, WebViewError>(self@.views[p].state.zoom_percent),
                None => r == Err::<u32, WebViewError>(WebViewError::NotInitialized),
            },
    {
        match self.position(id) {
            Some(p) => Ok(self.views[p].state.zoom_percent),
            None => Err(WebViewError::NotInitialized),
        }
    }

    /// Run a script in a view.  An unknown view, then disabled JavaScript,
    /// is refused; otherwise the answer reports the script as executed.
    pub fn execute_js(&self, id: u64, script: String) -> (r: Result<String, WebViewError>)
        ensures
            match view_position(self@.views, id) {
                None => r == Err::<String, WebViewError>(WebViewError::NotInitialized),
                Some(_) => if self@.config.javascript_enabled {
                    r matches Ok(s) && s@ == "Executed: "@ + script@
                } else {
                    r matches Err(WebViewError::JsError(t)) && t@ == "JavaScript is disabled"@
                },
            },
    {
        match self.position(id) {
            Some(_) => {},
            None => {
                return Err(WebViewError::NotInitialized);
            },
        }
        if !self.config.javascript_enabled {
            return Err(WebViewError::JsError(String::from_str("JavaScript is disabled")));
        }
        Ok(prefixed("Executed: ", &script))
    }

    /// The settings.
    pub fn get_config(&self) -> (c: WebViewConfig)
        ensures
            c == self@.config,
    {
        self.config.clone()
    }

    /// Replace the settings.
    pub fn set_config(&mut self, config: WebViewConfig)
        requires
            old(self)@.wf(),
        ensures
            final(self)@.wf(),
            final(self)@ == (WebViewManagerView { config: config, ..old(self)@ }),
    {
        self.config = config;
    }

    /// The navigation events recorded so far, oldest first.
    pub fn get_navigation_events(&self) -> (r: Vec<NavigationEvent>)
        ensures
            r@.map_values(|e: NavigationEvent| e@) == self@.events,
    {
        let mut r: Vec<NavigationEvent> = Vec::new();
        let n = self.navigation_events.len();
        let mut i: usize = 0;
        while i < n
            invariant
                n == self.navigation_events@.len(),
                i <= n,
                r@.len() == i,
                r@.map_values(|e: NavigationEvent| e@) =~= self@.events.take(i as int),
            decreases n - i,
        {
            let e = self.navigation_events[i].clone();
            let ghost prev = r@;
            proof {
                assert(e@ == self.navigation_events@[i as int]@);
                assert(self@.events[i as int] == self.navigation_events@[i as int]@);
                assert(prev.len() == i);
            }
            r.push(e);
            proof {
                assert(r@ == prev.push(e));
                assert forall|k: int| 0 <= k < i + 1 implies (#[trigger] r@[k])@ == self@.events.take(
                    i + 1,
                )[k] by {
                    if k < i {
                        assert(prev.map_values(|e: NavigationEvent| e@)[k] == self@.events.take(
                            i as int,
                        )[k]);
                    }
                }
                assert(r@.map_values(|e: NavigationEvent| e@) =~= self@.events.take(i + 1));
            }
            i += 1;
        }
        proof {
            assert(self@.events.take(n as int) =~= self@.events);
        }
        r
    }

    /// Forget the recorded navigation events.
    pub fn clear_navigation_events(&mut self)
        requires
            old(self)@.wf(),
        ensures
            final(self)@.wf(),
            final(self)@ == (WebViewManagerView { events: Seq::empty(), ..old(self)@ }),
    {
        self.navigation_events.clear();
        proof {
            assert(self@.events =~= Seq::<NavigationEventView>::empty());
        }
    }

    /// The identifiers of the open views, oldest first.
    pub fn get_active_views(&self) -> (r: Vec<u64>)
        ensures
            r@ == self@.views.map_values(|v: ViewRecord| v.state.id),
    {
        let mut r: Vec<u64> = Vec::new();
        let n = self.views.len();
        let mut i: usize = 0;
        while i < n
            invariant
                n == self.views@.len(),
                i <= n,
                r@ =~= self@.views.take(i as int).map_values(|v: ViewRecord| v.state.id),
            decreases n - i,
        {
            r.push(self.views[i].state.id);
            i += 1;
            proof {
                assert(r@ =~= self@.views.take(i as int).map_values(|v: ViewRecord| v.state.id));
            }
        }
        proof {
            assert(self@.views.take(n as int) =~= self@.views);
        }
        r
    }
}


/// A cached resource for another URL than `u`.
pub open spec fn other_url(u: Seq<char>) -> spec_fn(CacheRecord) -> bool {
    |c: CacheRecord| c.url != u
}

/// A cached resource for the URL `u`.
pub open spec fn for_url(u: Seq<char>) -> spec_fn(CacheRecord) -> bool {
    |c: CacheRecord| c.url == u
}

/// A cached resource still served at time `now`.
pub open spec fn unexpired(now: u64) -> spec_fn(CacheRecord) -> bool {
    |c: CacheRecord| now <= c.expires_at
}

/// When a resource cached at `now` stops being served: a day later (the
/// largest time when that is out of range).
pub open spec fn lifetime_end(now: u64) -> u64 {
    if now <= u64::MAX - CACHE_LIFETIME_MS {
        (now + CACHE_LIFETIME_MS) as u64
    } else {
        u64::MAX
    }
}

/// The cache after storing `rec` at time `now`: `rec` replaces any resource
/// for its URL, then the resources no longer served at `now` are dropped.
pub open spec fn cache_stored(cache: Seq<CacheRecord>, rec: CacheRecord, now: u64) -> Seq<CacheRecord> {
    select(select(cache, other_url(rec.url)).push(rec), unexpired(now))
}

/// What the cache serves for `url` at time `now`: the data and media type of
/// the first resource for `url`, unless it has expired.
pub open spec fn cache_lookup(cache: Seq<CacheRecord>, url: Seq<char>, now: u64) -> Option<
    (Seq<u8>, Seq<char>),
> {
    match first_match(cache, for_url(url)) {
        Some(i) => if now > cache[i].expires_at {
            None
        } else {
            Some((cache[i].data, cache[i].mime_type))
        },
        None => None,
    }
}

/// The data and media type of a cache answer.
pub open spec fn served(r: Option<(Vec<u8>, String)>) -> Option<(Seq<u8>, Seq<char>)> {
    match r {
        Some((d, m)) => Some((d@, m@)),
        None => None,
    }
}

/// The views of a sequence of cached resources.
pub open spec fn cache_views(v: Seq<CachedResource>) -> Seq<CacheRecord> {
    v.map_values(|c: CachedResource| c@)
}

/// The resources of `entries` that are for another URL than `url` (when
/// `by_url`) or still served at `now` (otherwise), in order.
fn cache_filter(entries: Vec<CachedResource>, url: &Vec<char>, by_url: bool, now: u64) -> (r: Vec<
    CachedResource,
>)
    ensures
        cache_views(r@) == select(
            cache_views(entries@),
            if by_url {
                other_url(url@)
            } else {
                unexpired(now)
            },
        ),
{
    let ghost f = if by_url {
        other_url(url@)
    } else {
        unexpired(now)
    };
    let ghost orig = cache_views(entries@);
    let mut rest = entries;
    let mut kept: Vec<CachedResource> = Vec::new();
    let ghost mut i: int = 0;
    while rest.len() > 0
        invariant
            0 <= i <= orig.len(),
            cache_views(rest@) == orig.skip(i),
            cache_views(kept@) == select(orig.take(i), f),
            f == (if by_url {
                other_url(url@)
            } else {
                unexpired(now)
            }),
        decreases rest@.len(),
    {
        let ghost rest_before = rest@;
        let c = rest.remove(0);
        proof {
            assert(cache_views(rest_before).len() == rest_before.len());
            assert(orig[i] == cache_views(rest_before)[0]);
            assert(c@ == orig[i]);
            assert(rest@ =~= rest_before.subrange(1, rest_before.len() as int));
            assert forall|k: int| 0 <= k < rest@.len() implies #[trigger] cache_views(rest@)[k]
                == orig.skip(i + 1)[k] by {
                assert(cache_views(rest_before)[k + 1] == orig.skip(i)[k + 1]);
            }
            assert(cache_views(rest@) =~= orig.skip(i + 1));
            assert(orig.take(i + 1).drop_last() =~= orig.take(i));
            assert(orig.take(i + 1).last() == orig[i]);
        }
        let keep = if by_url {
            let cu = chars_of(c.url.as_str());
            !chars_eq(&cu, url)
        } else {
            now <= c.expires_at
        };
        let ghost kept_before = kept@;
        if keep {
            kept.push(c);
            proof {
                assert(cache_views(kept@) =~= cache_views(kept_before).push(orig[i]));
            }
        }
        proof {
            i = i + 1;
        }
    }
    proof {
        assert(orig.take(i) =~= orig);
    }
    kept
}

impl WebViewManager {
    /// Store a resource at time `now` (milliseconds since the UNIX epoch):
    /// it replaces any resource for the same URL and is served for a day;
    /// the resources no longer served at `now` are dropped.
    pub fn cache_resource_at(&mut self, url: String, data: Vec<u8>, mime_type: String, now: u64)
        requires
            old(self)@.wf(),
        ensures
            final(self)@.wf(),
            final(self)@ == (WebViewManagerView {
                cache: cache_stored(
                    old(self)@.cache,
                    CacheRecord {
                        url: url@,
                        data: data@,
                        mime_type: mime_type@,
                        cached_at: now,
                        expires_at: lifetime_end(now),
                    },
                    now,
                ),
                ..old(self)@
            }),
    {
        let expires_at = if now <= u64::MAX - CACHE_LIFETIME_MS {
            now + CACHE_LIFETIME_MS
        } else {
            u64::MAX
        };
        let key = chars_of(url.as_str());
        let rec = CachedResource { url, data, mime_type, cached_at: now, expires_at };
        let ghost rv = rec@;
        let mut entries: Vec<CachedResource> = Vec::new();
        std::mem::swap(&mut entries, &mut self.cache);
        let ghost before = cache_views(entries@);
        let mut kept = cache_filter(entries, &key, true, 0);
        let ghost mid = kept@;
        kept.push(rec);
        proof {
            assert(cache_views(kept@) =~= cache_views(mid).push(rv));
        }
        let empty: Vec<char> = Vec::new();
        let fresh = cache_filter(kept, &empty, false, now);
        self.cache = fresh;
        proof {
            assert(self@.cache == cache_views(self.cache@));
            assert(before == old(self)@.cache);
        }
    }

    /// Store a resource, served for a day from now by the system clock.
    pub fn cache_resource(&mut self, url: String, data: Vec<u8>, mime_type: String)
        requires
            old(self)@.wf(),
        ensures
            final(self)@.wf(),
            exists|now: u64|
                #![trigger lifetime_end(now)]
                final(self)@ == (WebViewManagerView {
                    cache: cache_stored(
                        old(self)@.cache,
                        CacheRecord {
                            url: url@,
                            data: data@,
                            mime_type: mime_type@,
                            cached_at: now,
                            expires_at: lifetime_end(now),
                        },
                        now,
                    ),
                    ..old(self)@
                }),
    {
        let now = unix_millis_now();
        self.cache_resource_at(url, data, mime_type, now);
    }

    /// What the cache serves for `url` at time `now`.
    pub fn get_cached_resource_at(&self, url: &str, now: u64) -> (r: Option<(Vec<u8>, String)>)
        ensures
            served(r) == cache_lookup(self@.cache, url@, now),
    {
        let key = chars_of(url);
        let n = self.cache.len();
        let mut i: usize = 0;
        while i < n
            invariant
                n == self.cache@.len(),
                i <= n,
                key@ == url@,
                forall|j: int| 0 <= j < i ==> self@.cache[j].url != url@,
            decreases n - i,
        {
            let cu = chars_of(self.cache[i].url.as_str());
            if chars_eq(&cu, &key) {
                proof {
                    assert(self@.cache[i as int].url == url@);
                    lemma_first_match_at(self@.cache, for_url(url@), i as int);
                }
                if now > self.cache[i].expires_at {
                    return None;
                }
                let data = copy_bytes(&self.cache[i].data);
                let mime = self.cache[i].mime_type.clone();
                return Some((data, mime));
            }
            i += 1;
        }
        proof {
            lemma_first_match_none(self@.cache, for_url(url@));
        }
        None
    }

    /// What the cache serves for `url` now, by the system clock.
    pub fn get_cached_resource(&self, url: &str) -> (r: Option<(Vec<u8>, String)>)
        ensures
            exists|now: u64| served(r) == #[trigger] cache_lookup(self@.cache, url@, now),
    {
        let now = unix_millis_now();
        self.get_cached_resource_at(url, now)
    }

    /// Empty the cache.
    pub fn clear_cache(&mut self)
        requires
            old(self)@.wf(),
        ensures
            final(self)@.wf(),
            final(self)@ == (WebViewManagerView { cache: Seq::empty(), ..old(self)@ }),
    {
        self.cache.clear();
        proof {
            assert(self@.cache =~= Seq::<CacheRecord>::empty());
        }
    }
}

/// A copy of the bytes of `v`.
fn copy_bytes(v: &Vec<u8>) -> (r: Vec<u8>)
    ensures
        r@ == v@,
{
    let r = v.clone();
    proof {
        assert(r@ =~= v@);
    }
    r
}

impl Default for WebViewManager {
    fn default() -> (m: Self)
        ensures
            m@.wf(),
            m@.views.len() == 0,
            m@.cache.len() == 0,
            m@.events.len() == 0,
            m@.next_id == 1,
            default_config(m@.config),
    {
        WebViewManager::new()
    }
}


/// After a visit, going back shows the page that was current before it, and
/// the visited page is then one step forward.
pub proof fn law_back_after_navigate(r: ViewRecord, url: Seq<char>, title: Seq<char>)
    requires
        r.wf(),
    ensures
        navigated_view(r, url, title).wf(),
        navigated_view(r, url, title).state.can_go_back,
        ({
            let n = navigated_view(r, url, title);
            let b = moved_view(n, n.position - 1);
            &&& b.wf()
            &&& b.state.current_url == r.state.current_url
            &&& b.state.can_go_forward
            &&& b.history[b.position + 1] == url
        }),
{
    let n = navigated_view(r, url, title);
    assert(n.history[n.position - 1] == r.history[r.position]);
}

/// Going back and then forward again shows the same page, with the same
/// history and position, as moving to the current page.
pub proof fn law_back_then_forward(r: ViewRecord)
    requires
        r.wf(),
        r.state.can_go_back,
    ensures
        moved_view(r, r.position - 1).wf(),
        moved_view(r, r.position - 1).state.can_go_forward,
        moved_view(moved_view(r, r.position - 1), r.position) == moved_view(r, r.position),
{
}

/// Every operation on a view keeps it well formed: visiting, moving back
/// or forward, reloading, stopping and retitling.
pub proof fn law_view_operations_keep_wf(r: ViewRecord, url: Seq<char>, title: Seq<char>, k: int)
    requires
        r.wf(),
        0 <= k < r.history.len(),
    ensures
        navigated_view(r, url, title).wf(),
        moved_view(r, k).wf(),
        reloaded_view(r).wf(),
        stopped_view(r).wf(),
        with_state(r, WebViewStateView { title: title, ..r.state }).wf(),
{
}

/// A resource just cached is served for its URL at the time it was cached,
/// whatever the cache held before.
pub proof fn law_cached_resource_is_served(
    cache: Seq<CacheRecord>,
    url: Seq<char>,
    data: Seq<u8>,
    mime_type: Seq<char>,
    now: u64,
)
    ensures
        cache_lookup(
            cache_stored(
                cache,
                CacheRecord {
                    url: url,
                    data: data,
                    mime_type: mime_type,
                    cached_at: now,
                    expires_at: lifetime_end(now),
                },
                now,
            ),
            url,
            now,
        ) == Some((data, mime_type)),
{
    let rec = CacheRecord {
        url: url,
        data: data,
        mime_type: mime_type,
        cached_at: now,
        expires_at: lifetime_end(now),
    };
    let others = select(cache, other_url(url));
    let all = |c: CacheRecord| true;
    lemma_select_all(cache, other_url(url), all);
    lemma_select_all(others, unexpired(now), other_url(url));
    lemma_select_push(others, rec, unexpired(now));
    let stored = cache_stored(cache, rec, now);
    let kept = select(others, unexpired(now));
    assert(stored == kept.push(rec));
    assert forall|j: int| 0 <= j < kept.len() implies !for_url(url)(#[trigger] stored[j]) by {
        assert(stored[j] == kept[j]);
        assert(other_url(url)(kept[j]));
    }
    lemma_first_match_at(stored, for_url(url), kept.len() as int);
}

/// An emptied cache serves nothing.
pub proof fn law_cleared_cache_serves_nothing(url: Seq<char>, now: u64)
    ensures
        cache_lookup(Seq::<CacheRecord>::empty(), url, now) is None,
{
    lemma_first_match_none(Seq::<CacheRecord>::empty(), for_url(url));
}

} // verus!
