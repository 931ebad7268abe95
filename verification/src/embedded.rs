//! A web view embedded in the browser window: the message bridge between
//! the window and the page, the view's own history, focus, zoom and
//! developer tools, and a builder for it.
use vstd::prelude::*;
use crate::tabs::prefixed;
use crate::text::{chars_of, decimal, decimal_string, string_from_chars};
use crate::webview::{EmbedConfig, WebViewBounds, WebViewError};

verus! {

/// Smallest zoom of an embedded view, in percent.
pub const MIN_ZOOM_PERCENT: u32 = 25;

/// Largest zoom of an embedded view, in percent.
pub const MAX_ZOOM_PERCENT: u32 = 500;

/// A zoom percentage brought into the allowed range.
pub open spec fn clamped_zoom(percent: u32) -> u32 {
    if percent < MIN_ZOOM_PERCENT {
        MIN_ZOOM_PERCENT
    } else if percent > MAX_ZOOM_PERCENT {
        MAX_ZOOM_PERCENT
    } else {
        percent
    }
}

/// A request from the window to the page.
#[derive(Debug)]
pub enum BridgeMessage {
    Navigate { url: String },
    GoBack,
    GoForward,
    Reload,
    StopLoading,
    ExecuteJs { script: String, callback_id: Option<String> },
    /// Zoom, in percent.
    SetZoom { percent: u32 },
    ToggleDevTools,
    OpenDevTools,
    CloseDevTools,
    Print,
    Find { text: String, forward: bool, case_sensitive: bool },
    ClearFind,
    /// A message for the page's script bridge; `params` is JSON text.
    IpcMessage { method: String, params: String },
}

/// The abstract value of a `BridgeMessage`.
pub enum BridgeMessageView {
    Navigate { url: Seq<char> },
    GoBack,
    GoForward,
    Reload,
    StopLoading,
    ExecuteJs { script: Seq<char>, callback_id: Option<Seq<char>> },
    SetZoom { percent: u32 },
    ToggleDevTools,
    OpenDevTools,
    CloseDevTools,
    Print,
    Find { text: Seq<char>, forward: bool, case_sensitive: bool },
    ClearFind,
    IpcMessage { method: Seq<char>, params: Seq<char> },
}

/// The characters of an optional text.
pub open spec fn opt_chars(o: Option<String>) -> Option<Seq<char>> {
    match o {
        Some(s) => Some(s@),
        None => None,
    }
}

impl View for BridgeMessage {
    type V = BridgeMessageView;

    open spec fn view(&self) -> BridgeMessageView {
        match self {
            BridgeMessage::Navigate { url } => BridgeMessageView::Navigate { url: url@ },
            BridgeMessage::GoBack => BridgeMessageView::GoBack,
            BridgeMessage::GoForward => BridgeMessageView::GoForward,
            BridgeMessage::Reload => BridgeMessageView::Reload,
            BridgeMessage::StopLoading => BridgeMessageView::StopLoading,
            BridgeMessage::ExecuteJs { script, callback_id } => BridgeMessageView::ExecuteJs {
                script: script@,
                callback_id: opt_chars(*callback_id),
            },
            BridgeMessage::SetZoom { percent } => BridgeMessageView::SetZoom { percent: *percent },
            BridgeMessage::ToggleDevTools => BridgeMessageView::ToggleDevTools,
            BridgeMessage::OpenDevTools => BridgeMessageView::OpenDevTools,
            BridgeMessage::CloseDevTools => BridgeMessageView::CloseDevTools,
            BridgeMessage::Print => BridgeMessageView::Print,
            BridgeMessage::Find { text, forward, case_sensitive } => BridgeMessageView::Find {
                text: text@,
                forward: *forward,
                case_sensitive: *case_sensitive,
            },
            BridgeMessage::ClearFind => BridgeMessageView::ClearFind,
            BridgeMessage::IpcMessage { method, params } => BridgeMessageView::IpcMessage {
                method: method@,
                params: params@,
            },
        }
    }
}

/// Something the page reports to the window.
#[derive(Debug)]
pub enum WebViewEvent {
    NavigationStarted { url: String },
    NavigationCommitted { url: String },
    NavigationCompleted { url: String },
    NavigationFailed { url: String, error: String },
    TitleChanged { title: String },
    FaviconChanged { url: Option<String> },
    /// The result of a script, as JSON text.
    JsResult { callback_id: String, result: String },
    JsError { callback_id: Option<String>, error: String },
    /// A message from the page's script bridge; `params` is JSON text.
    IpcReceived { method: String, params: String },
    Focused,
    Blurred,
    NewWindowRequested { url: String },
    DownloadStarted { url: String, suggested_filename: String },
    ContextMenuRequested { x: i32, y: i32 },
    DevToolsOpened,
    DevToolsClosed,
    FindResult { active_match: u32, total_matches: u32 },
}

/// The abstract value of a `WebViewEvent`.
pub enum WebViewEventView {
    NavigationStarted { url: Seq<char> },
    NavigationCommitted { url: Seq<char> },
    NavigationCompleted { url: Seq<char> },
    NavigationFailed { url: Seq<char>, error: Seq<char> },
    TitleChanged { title: Seq<char> },
    FaviconChanged { url: Option<Seq<char>> },
    JsResult { callback_id: Seq<char>, result: Seq<char> },
    JsError { callback_id: Option<Seq<char>>, error: Seq<char> },
    IpcReceived { method: Seq<char>, params: Seq<char> },
    Focused,
    Blurred,
    NewWindowRequested { url: Seq<char> },
    DownloadStarted { url: Seq<char>, suggested_filename: Seq<char> },
    ContextMenuRequested { x: i32, y: i32 },
    DevToolsOpened,
    DevToolsClosed,
    FindResult { active_match: u32, total_matches: u32 },
}

impl View for WebViewEvent {
    type V = WebViewEventView;

    open spec fn view(&self) -> WebViewEventView {
        match self {
            WebViewEvent::NavigationStarted { url } => WebViewEventView::NavigationStarted { url: url@ },
            WebViewEvent::NavigationCommitted { url } => WebViewEventView::NavigationCommitted {
                url: url@,
            },
            WebViewEvent::NavigationCompleted { url } => WebViewEventView::NavigationCompleted {
                url: url@,
            },
            WebViewEvent::NavigationFailed { url, error } => WebViewEventView::NavigationFailed {
                url: url@,
                error: error@,
            },
            WebViewEvent::TitleChanged { title } => WebViewEventView::TitleChanged { title: title@ },
            WebViewEvent::FaviconChanged { url } => WebViewEventView::FaviconChanged {
                url: opt_chars(*url),
            },
            WebViewEvent::JsResult { callback_id, result } => WebViewEventView::JsResult {
                callback_id: callback_id@,
                result: result@,
            },
            WebViewEvent::JsError { callback_id, error } => WebViewEventView::JsError {
                callback_id: opt_chars(*callback_id),
                error: error@,
            },
            WebViewEvent::IpcReceived { method, params } => WebViewEventView::IpcReceived {
                method: method@,
                params: params@,
            },
            WebViewEvent::Focused => WebViewEventView::Focused,
            WebViewEvent::Blurred => WebViewEventView::Blurred,
            WebViewEvent::NewWindowRequested { url } => WebViewEventView::NewWindowRequested {
                url: url@,
            },
            WebViewEvent::DownloadStarted { url, suggested_filename } =>
                WebViewEventView::DownloadStarted {
                url: url@,
                suggested_filename: suggested_filename@,
            },
            WebViewEvent::ContextMenuRequested { x, y } => WebViewEventView::ContextMenuRequested {
                x: *x,
                y: *y,
            },
            WebViewEvent::DevToolsOpened => WebViewEventView::DevToolsOpened,
            WebViewEvent::DevToolsClosed => WebViewEventView::DevToolsClosed,
            WebViewEvent::FindResult { active_match, total_matches } => WebViewEventView::FindResult {
                active_match: *active_match,
                total_matches: *total_matches,
            },
        }
    }
}

/// The views of a sequence of messages.
pub open spec fn message_views(v: Seq<BridgeMessage>) -> Seq<BridgeMessageView> {
    v.map_values(|m: BridgeMessage| m@)
}

/// The views of a sequence of events.
pub open spec fn event_views(v: Seq<WebViewEvent>) -> Seq<WebViewEventView> {
    v.map_values(|e: WebViewEvent| e@)
}

/// The identifier of the `n`th script callback.
pub open spec fn callback_name(n: u64) -> Seq<char> {
    "js_callback_"@ + decimal(n as nat)
}

/// Message passing between the window and a web page: requests queued for
/// the page, events queued for the window, and a counter naming script
/// callbacks.
pub struct WebViewBridge {
    outgoing: Vec<BridgeMessage>,
    incoming: Vec<WebViewEvent>,
    next_callback_id: u64,
}

/// The abstract state of a `WebViewBridge`.
pub struct BridgeView {
    pub outgoing: Seq<BridgeMessageView>,
    pub incoming: Seq<WebViewEventView>,
    pub next_callback_id: u64,
}

impl View for WebViewBridge {
    type V = BridgeView;

    closed spec fn view(&self) -> BridgeView {
        BridgeView {
            outgoing: message_views(self.outgoing@),
            incoming: event_views(self.incoming@),
            next_callback_id: self.next_callback_id,
        }
    }
}

impl WebViewBridge {
    /// A bridge with nothing queued; the first callback is number 1.
    pub fn new() -> (b: Self)
        ensures
            b@ == (BridgeView { outgoing: Seq::empty(), incoming: Seq::empty(), next_callback_id: 1 }),
    {
        let b = WebViewBridge { outgoing: Vec::new(), incoming: Vec::new(), next_callback_id: 1 };
        proof {
            assert(b@.outgoing =~= Seq::<BridgeMessageView>::empty());
            assert(b@.incoming =~= Seq::<WebViewEventView>::empty());
        }
        b
    }

    /// Queue a request for the page.
    pub fn send(&mut self, message: BridgeMessage)
        ensures
            final(self)@ == (BridgeView { outgoing: old(self)@.outgoing.push(message@), ..old(self)@ }),
    {
        let ghost m = message@;
        self.outgoing.push(message);
        proof {
            assert(self@.outgoing =~= old(self)@.outgoing.push(m));
        }
    }

    /// Ask the page to visit `url`.
    pub fn navigate(&mut self, url: &str)
        ensures
            final(self)@ == (BridgeView {
                outgoing: old(self)@.outgoing.push(BridgeMessageView::Navigate { url: url@ }),
                ..old(self)@
            }),
    {
        let u = String::from_str(url);
        self.send(BridgeMessage::Navigate { url: u });
    }

    /// Ask the page to go back.
    pub fn go_back(&mut self)
        ensures
            final(self)@ == (BridgeView {
                outgoing: old(self)@.outgoing.push(BridgeMessageView::GoBack),
                ..old(self)@
            }),
    {
        self.send(BridgeMessage::GoBack);
    }

    /// Ask the page to go forward.
    pub fn go_forward(&mut self)
        ensures
            final(self)@ == (BridgeView {
                outgoing: old(self)@.outgoing.push(BridgeMessageView::GoForward),
                ..old(self)@
            }),
    {
        self.send(BridgeMessage::GoForward);
    }

    /// Ask the page to reload.
    pub fn reload(&mut self)
        ensures
            final(self)@ == (BridgeView {
                outgoing: old(self)@.outgoing.push(BridgeMessageView::Reload),
                ..old(self)@
            }),
    {
        self.send(BridgeMessage::Reload);
    }

    /// Ask the page to stop loading.
    pub fn stop_loading(&mut self)
        ensures
            final(self)@ == (BridgeView {
                outgoing: old(self)@.outgoing.push(BridgeMessageView::StopLoading),
                ..old(self)@
            }),
    {
        self.send(BridgeMessage::StopLoading);
    }

    /// Ask the page to run a script whose result comes back under a fresh
    /// callback identifier, which is returned.
    pub fn execute_js(&mut self, script: &str) -> (r: Option<String>)
        ensures
            r matches Some(id) && id@ == callback_name(old(self)@.next_callback_id),
            final(self)@ == (BridgeView {
                outgoing: old(self)@.outgoing.push(
                    BridgeMessageView::ExecuteJs {
                        script: script@,
                        callback_id: Some(callback_name(old(self)@.next_callback_id)),
                    },
                ),
                next_callback_id: old(self)@.next_callback_id.wrapping_add(1),
                ..old(self)@
            }),
    {
        let n = self.next_callback_id;
        self.next_callback_id = n.wrapping_add(1);
        let digits = decimal_string(n);
        let id = prefixed("js_callback_", &digits);
        let id_copy = id.clone();
        self.send(BridgeMessage::ExecuteJs { script: String::from_str(script), callback_id: Some(id) });
        Some(id_copy)
    }

    /// Ask the page to run a script whose result is not wanted.
    pub fn execute_js_fire_and_forget(&mut self, script: &str)
        ensures
            final(self)@ == (BridgeView {
                outgoing: old(self)@.outgoing.push(
                    BridgeMessageView::ExecuteJs { script: script@, callback_id: None },
                ),
                ..old(self)@
            }),
    {
        self.send(BridgeMessage::ExecuteJs { script: String::from_str(script), callback_id: None });
    }

    /// Ask the page to zoom, brought into 25..=500 percent.
    pub fn set_zoom(&mut self, percent: u32)
        ensures
            final(self)@ == (BridgeView {
                outgoing: old(self)@.outgoing.push(
                    BridgeMessageView::SetZoom { percent: clamped_zoom(percent) },
                ),
                ..old(self)@
            }),
    {
        let p = if percent < MIN_ZOOM_PERCENT {
            MIN_ZOOM_PERCENT
        } else if percent > MAX_ZOOM_PERCENT {
            MAX_ZOOM_PERCENT
        } else {
            percent
        };
        self.send(BridgeMessage::SetZoom { percent: p });
    }

    /// Ask the page to show or hide its developer tools.
    pub fn toggle_devtools(&mut self)
        ensures
            final(self)@ == (BridgeView {
                outgoing: old(self)@.outgoing.push(BridgeMessageView::ToggleDevTools),
                ..old(self)@
            }),
    {
        self.send(BridgeMessage::ToggleDevTools);
    }

    /// Ask the page to open its developer tools.
    pub fn open_devtools(&mut self)
        ensures
            final(self)@ == (BridgeView {
                outgoing: old(self)@.outgoing.push(BridgeMessageView::OpenDevTools),
                ..old(self)@
            }),
    {
        self.send(BridgeMessage::OpenDevTools);
    }

    /// Ask the page to close its developer tools.
    pub fn close_devtools(&mut self)
        ensures
            final(self)@ == (BridgeView {
                outgoing: old(self)@.outgoing.push(BridgeMessageView::CloseDevTools),
                ..old(self)@
            }),
    {
        self.send(BridgeMessage::CloseDevTools);
    }

    /// Ask the page to print.
    pub fn print(&mut self)
        ensures
            final(self)@ == (BridgeView {
                outgoing: old(self)@.outgoing.push(BridgeMessageView::Print),
                ..old(self)@
            }),
    {
        self.send(BridgeMessage::Print);
    }

    /// Ask the page to find text.
    pub fn find(&mut self, text: &str, forward: bool, case_sensitive: bool)
        ensures
            final(self)@ == (BridgeView {
                outgoing: old(self)@.outgoing.push(
                    BridgeMessageView::Find { text: text@, forward, case_sensitive },
                ),
                ..old(self)@
            }),
    {
        self.send(BridgeMessage::Find { text: String::from_str(text), forward, case_sensitive });
    }

    /// Ask the page to clear the highlights of a search.
    pub fn clear_find(&mut self)
        ensures
            final(self)@ == (BridgeView {
                outgoing: old(self)@.outgoing.push(BridgeMessageView::ClearFind),
                ..old(self)@
            }),
    {
        self.send(BridgeMessage::ClearFind);
    }

    /// Hand over the queued requests, oldest first, and empty the queue.
    pub fn take_outgoing(&mut self) -> (r: Vec<BridgeMessage>)
        ensures
            message_views(r@) == old(self)@.outgoing,
            final(self)@ == (BridgeView { outgoing: Seq::empty(), ..old(self)@ }),
    {
        let mut r: Vec<BridgeMessage> = Vec::new();
        std::mem::swap(&mut r, &mut self.outgoing);
        proof {
            assert(self@.outgoing =~= Seq::<BridgeMessageView>::empty());
        }
        r
    }

    /// Queue an event from the page.
    pub fn push_event(&mut self, event: WebViewEvent)
        ensures
            final(self)@ == (BridgeView { incoming: old(self)@.incoming.push(event@), ..old(self)@ }),
    {
        let ghost e = event@;
        self.incoming.push(event);
        proof {
            assert(self@.incoming =~= old(self)@.incoming.push(e));
        }
    }

    /// Hand over the queued events, oldest first, and empty the queue.
    pub fn take_events(&mut self) -> (r: Vec<WebViewEvent>)
        ensures
            event_views(r@) == old(self)@.incoming,
            final(self)@ == (BridgeView { incoming: Seq::empty(), ..old(self)@ }),
    {
        let mut r: Vec<WebViewEvent> = Vec::new();
        std::mem::swap(&mut r, &mut self.incoming);
        proof {
            assert(self@.incoming =~= Seq::<WebViewEventView>::empty());
        }
        r
    }

    /// The queued events, oldest first; the queue is emptied.
    pub fn poll_events(&mut self) -> (r: Vec<WebViewEvent>)
        ensures
            event_views(r@) == old(self)@.incoming,
            final(self)@ == (BridgeView { incoming: Seq::empty(), ..old(self)@ }),
    {
        self.take_events()
    }
}

impl Default for WebViewBridge {
    fn default() -> (b: Self)
        ensures
            b@ == (BridgeView { outgoing: Seq::empty(), incoming: Seq::empty(), next_callback_id: 1 }),
    {
        WebViewBridge::new()
    }
}


/// What an embedded view shows and how.
#[derive(Debug)]
pub struct EmbeddedWebViewState {
    pub url: String,
    pub title: String,
    pub is_loading: bool,
    pub can_go_back: bool,
    pub can_go_forward: bool,
    /// Zoom, in percent.
    pub zoom_percent: u32,
    pub devtools_open: bool,
    pub bounds: WebViewBounds,
    pub has_focus: bool,
    pub favicon_url: Option<String>,
    /// How far the page has loaded, in percent.
    pub load_percent: u32,
}

/// The abstract value of an `EmbeddedWebViewState`.
pub struct EmbeddedStateView {
    pub url: Seq<char>,
    pub title: Seq<char>,
    pub is_loading: bool,
    pub can_go_back: bool,
    pub can_go_forward: bool,
    pub zoom_percent: u32,
    pub devtools_open: bool,
    pub bounds: WebViewBounds,
    pub has_focus: bool,
    pub favicon_url: Option<Seq<char>>,
    pub load_percent: u32,
}

impl View for EmbeddedWebViewState {
    type V = EmbeddedStateView;

    open spec fn view(&self) -> EmbeddedStateView {
        EmbeddedStateView {
            url: self.url@,
            title: self.title@,
            is_loading: self.is_loading,
            can_go_back: self.can_go_back,
            can_go_forward: self.can_go_forward,
            zoom_percent: self.zoom_percent,
            devtools_open: self.devtools_open,
            bounds: self.bounds,
            has_focus: self.has_focus,
            favicon_url: opt_chars(self.favicon_url),
            load_percent: self.load_percent,
        }
    }
}

/// The state of an embedded view that has just opened `url`: titled
/// "New Tab", not loading, at actual size, 800 by 600 at the origin,
/// without focus, favicon or developer tools.
pub open spec fn opening_state(url: Seq<char>) -> EmbeddedStateView {
    EmbeddedStateView {
        url: url,
        title: "New Tab"@,
        is_loading: false,
        can_go_back: false,
        can_go_forward: false,
        zoom_percent: 100,
        devtools_open: false,
        bounds: WebViewBounds { x: 0, y: 0, width: 800, height: 600 },
        has_focus: false,
        favicon_url: None,
        load_percent: 0,
    }
}

impl Default for EmbeddedWebViewState {
    /// The state of a view that has just opened a blank page.
    fn default() -> (s: Self)
        ensures
            s@ == opening_state("about:blank"@),
    {
        EmbeddedWebViewState {
            url: String::from_str("about:blank"),
            title: String::from_str("New Tab"),
            is_loading: false,
            can_go_back: false,
            can_go_forward: false,
            zoom_percent: 100,
            devtools_open: false,
            bounds: WebViewBounds::default(),
            has_focus: false,
            favicon_url: None,
            load_percent: 0,
        }
    }
}

/// What processing one request does to the view's state and the events for
/// the window: a visit completes at once and is reported, a zoom is taken
/// over, other requests are for the page alone.
pub open spec fn apply_message(
    st: EmbeddedStateView,
    ev: Seq<WebViewEventView>,
    m: BridgeMessageView,
) -> (EmbeddedStateView, Seq<WebViewEventView>) {
    match m {
        BridgeMessageView::Navigate { url } => (
            EmbeddedStateView { is_loading: false, url: url, load_percent: 100, ..st },
            ev.push(WebViewEventView::NavigationCompleted { url: url }),
        ),
        BridgeMessageView::SetZoom { percent } => (EmbeddedStateView { zoom_percent: percent, ..st }, ev),
        _ => (st, ev),
    }
}

/// Processing the requests `msgs` in order.
pub open spec fn apply_messages(
    st: EmbeddedStateView,
    ev: Seq<WebViewEventView>,
    msgs: Seq<BridgeMessageView>,
) -> (EmbeddedStateView, Seq<WebViewEventView>)
    decreases msgs.len(),
{
    if msgs.len() == 0 {
        (st, ev)
    } else {
        let prev = apply_messages(st, ev, msgs.drop_last());
        apply_message(prev.0, prev.1, msgs.last())
    }
}

/// A web view embedded in the window, with its own history of pages.
pub struct EmbeddedWebView {
    config: EmbedConfig,
    state: EmbeddedWebViewState,
    bridge: WebViewBridge,
    history: Vec<String>,
    history_position: usize,
    last_bounds: Option<WebViewBounds>,
}

/// The abstract state of an `EmbeddedWebView`.
pub struct EmbeddedView {
    pub config: EmbedConfig,
    pub state: EmbeddedStateView,
    pub bridge: BridgeView,
    pub history: Seq<Seq<char>>,
    pub position: int,
    pub last_bounds: Option<WebViewBounds>,
}

impl View for EmbeddedWebView {
    type V = EmbeddedView;

    closed spec fn view(&self) -> EmbeddedView {
        EmbeddedView {
            config: self.config,
            state: self.state@,
            bridge: self.bridge@,
            history: self.history@.map_values(|s: String| s@),
            position: self.history_position as int,
            last_bounds: self.last_bounds,
        }
    }
}

impl EmbeddedView {
    /// The history is not empty, the position is inside it and the back and
    /// forward flags follow the position.
    pub open spec fn wf(self) -> bool {
        &&& self.history.len() >= 1
        &&& 0 <= self.position < self.history.len()
        &&& self.state.can_go_back == (self.position > 0)
        &&& self.state.can_go_forward == (self.position + 1 < self.history.len())
    }
}

/// The zoom ten points up or down, saturating at the ends of `u32`.
pub open spec fn zoom_step(z: u32, up: bool) -> u32 {
    if up {
        if z <= u32::MAX - 10 {
            (z + 10) as u32
        } else {
            u32::MAX
        }
    } else {
        if z >= 10 {
            (z - 10) as u32
        } else {
            0
        }
    }
}

/// `s` is `a`, a line break and `b`.
fn joined_lines(a: &String, b: &str) -> (s: String)
    ensures
        s@ == a@ + seq!['\n'] + b@,
{
    let mut v = chars_of(a.as_str());
    v.push('\n');
    let t = chars_of(b);
    let ghost start = v@;
    let mut i: usize = 0;
    while i < t.len()
        invariant
            i <= t@.len(),
            v@ == start + t@.take(i as int),
        decreases t@.len() - i,
    {
        v.push(t[i]);
        i += 1;
        proof {
            assert(v@ =~= start + t@.take(i as int));
        }
    }
    proof {
        assert(t@.take(t@.len() as int) =~= t@);
        assert(v@ =~= a@ + seq!['\n'] + b@);
    }
    string_from_chars(v.as_slice())
}

impl EmbeddedWebView {
    /// A view that has opened the configured page, which is its whole
    /// history; nothing is queued on its bridge.
    pub fn new(config: EmbedConfig) -> (w: Self)
        ensures
            w@.wf(),
            w@ == (EmbeddedView {
                config: config,
                state: opening_state(config.initial_url@),
                bridge: BridgeView { outgoing: Seq::empty(), incoming: Seq::empty(), next_callback_id: 1 },
                history: seq![config.initial_url@],
                position: 0,
                last_bounds: None,
            }),
    {
        let initial_url = config.initial_url.clone();
        let mut history: Vec<String> = Vec::new();
        history.push(config.initial_url.clone());
        let state = EmbeddedWebViewState { url: initial_url, ..EmbeddedWebViewState::default() };
        let w = EmbeddedWebView {
            config,
            state,
            bridge: WebViewBridge::new(),
            history,
            history_position: 0,
            last_bounds: None,
        };
        proof {
            assert(w@.history =~= seq![w.config.initial_url@]);
        }
        w
    }

    /// The bridge to the page.
    pub fn bridge(&self) -> (b: &WebViewBridge)
        ensures
            b@ == self@.bridge,
    {
        &self.bridge
    }

    /// The bridge to the page, to queue requests or events on it.
    pub fn bridge_mut(&mut self) -> (b: &mut WebViewBridge)
        ensures
            b@ == old(self)@.bridge,
            final(self)@ == (EmbeddedView { bridge: final(b)@, ..old(self)@ }),
    {
        &mut self.bridge
    }

    /// The current state.
    pub fn state(&self) -> (s: &EmbeddedWebViewState)
        ensures
            s@ == self@.state,
    {
        &self.state
    }

    /// The settings.
    pub fn config(&self) -> (c: &EmbedConfig)
        ensures
            *c == self@.config,
    {
        &self.config
    }

    /// Visit `url`: the pages after the current one are dropped, `url` joins
    /// the history as the current page and starts loading; the page is asked
    /// to visit it and the window is told the visit started.
    pub fn navigate(&mut self, url: &str)
        requires
            old(self)@.wf(),
        ensures
            final(self)@.wf(),
            ({
                let h = old(self)@.history.take(old(self)@.position + 1).push(url@);
                final(self)@ == (EmbeddedView {
                    state: EmbeddedStateView {
                        url: url@,
                        is_loading: true,
                        load_percent: 0,
                        can_go_back: true,
                        can_go_forward: false,
                        ..old(self)@.state
                    },
                    bridge: BridgeView {
                        outgoing: old(self)@.bridge.outgoing.push(BridgeMessageView::Navigate { url: url@ }),
                        incoming: old(self)@.bridge.incoming.push(
                            WebViewEventView::NavigationStarted { url: url@ },
                        ),
                        ..old(self)@.bridge
                    },
                    history: h,
                    position: h.len() - 1,
                    ..old(self)@
                })
            }),
    {
        let u = String::from_str(url);
        self.state.is_loading = true;
        self.state.load_percent = 0;
        let n = self.history.len();
        proof {
            assert(self@.history.len() == n);
        }
        let ghost h0 = self.history@;
        self.history.truncate(self.history_position + 1);
        self.history.push(u.clone());
        self.history_position = self.history.len() - 1;
        self.state.url = u;
        self.update_navigation_state();
        self.bridge.navigate(url);
        let started = String::from_str(url);
        self.bridge.push_event(WebViewEvent::NavigationStarted { url: started });
        proof {
            assert(self.history@ =~= h0.take(old(self)@.position + 1).push(self.history@.last()));
            assert(self@.history =~= old(self)@.history.take(old(self)@.position + 1).push(url@));
        }
    }

    fn update_navigation_state(&mut self)
        requires
            old(self).history@.len() >= 1,
            old(self).history_position < old(self).history@.len(),
        ensures
            *final(self) == (EmbeddedWebView {
                state: EmbeddedWebViewState {
                    can_go_back: old(self).history_position > 0,
                    can_go_forward: old(self).history_position + 1 < old(self).history@.len(),
                    ..old(self).state
                },
                ..*old(self)
            }),
    {
        self.state.can_go_back = self.history_position > 0;
        self.state.can_go_forward = self.history_position < self.history.len() - 1;
    }

    /// Go back one page, if there is one before the current page; the page
    /// is asked to go back.  Whether it moved is returned.
    pub fn go_back(&mut self) -> (moved: bool)
        requires
            old(self)@.wf(),
        ensures
            final(self)@.wf(),
            moved == old(self)@.state.can_go_back,
            moved ==> final(self)@ == (EmbeddedView {
                state: EmbeddedStateView {
                    url: old(self)@.history[old(self)@.position - 1],
                    is_loading: true,
                    can_go_back: old(self)@.position - 1 > 0,
                    can_go_forward: true,
                    ..old(self)@.state
                },
                bridge: BridgeView {
                    outgoing: old(self)@.bridge.outgoing.push(BridgeMessageView::GoBack),
                    ..old(self)@.bridge
                },
                position: old(self)@.position - 1,
                ..old(self)@
            }),
            !moved ==> final(self)@ == old(self)@,
    {
        if self.state.can_go_back && self.history_position > 0 {
            proof {
                assert(self@.history.len() == self.history@.len());
            }
            self.history_position = self.history_position - 1;
            let url = self.history[self.history_position].clone();
            self.state.url = url;
            self.state.is_loading = true;
            self.update_navigation_state();
            self.bridge.go_back();
            true
        } else {
            false
        }
    }

    /// Go forward one page, if there is one after the current page; the page
    /// is asked to go forward.  Whether it moved is returned.
    pub fn go_forward(&mut self) -> (moved: bool)
        requires
            old(self)@.wf(),
        ensures
            final(self)@.wf(),
            moved == old(self)@.state.can_go_forward,
            moved ==> final(self)@ == (EmbeddedView {
                state: EmbeddedStateView {
                    url: old(self)@.history[old(self)@.position + 1],
                    is_loading: true,
                    can_go_back: true,
                    can_go_forward: old(self)@.position + 2 < old(self)@.history.len(),
                    ..old(self)@.state
                },
                bridge: BridgeView {
                    outgoing: old(self)@.bridge.outgoing.push(BridgeMessageView::GoForward),
                    ..old(self)@.bridge
                },
                position: old(self)@.position + 1,
                ..old(self)@
            }),
            !moved ==> final(self)@ == old(self)@,
    {
        let n = self.history.len();
        proof {
            assert(self@.history.len() == n);
        }
        if self.state.can_go_forward && self.history_position < n - 1 {
            self.history_position = self.history_position + 1;
            let url = self.history[self.history_position].clone();
            self.state.url = url;
            self.state.is_loading = true;
            self.update_navigation_state();
            self.bridge.go_forward();
            true
        } else {
            false
        }
    }

    /// Reload: the page starts loading again and is asked to reload.
    pub fn reload(&mut self)
        requires
            old(self)@.wf(),
        ensures
            final(self)@.wf(),
            final(self)@ == (EmbeddedView {
                state: EmbeddedStateView { is_loading: true, load_percent: 0, ..old(self)@.state },
                bridge: BridgeView {
                    outgoing: old(self)@.bridge.outgoing.push(BridgeMessageView::Reload),
                    ..old(self)@.bridge
                },
                ..old(self)@
            }),
    {
        self.state.is_loading = true;
        self.state.load_percent = 0;
        self.bridge.reload();
    }

    /// Stop loading, and ask the page to stop.
    pub fn stop_loading(&mut self)
        requires
            old(self)@.wf(),
        ensures
            final(self)@.wf(),
            final(self)@ == (EmbeddedView {
                state: EmbeddedStateView { is_loading: false, ..old(self)@.state },
                bridge: BridgeView {
                    outgoing: old(self)@.bridge.outgoing.push(BridgeMessageView::StopLoading),
                    ..old(self)@.bridge
                },
                ..old(self)@
            }),
    {
        self.state.is_loading = false;
        self.bridge.stop_loading();
    }

    /// Ask the page to run a script; the callback identifier is returned.
    pub fn execute_js(&mut self, script: &str) -> (r: Option<String>)
        requires
            old(self)@.wf(),
        ensures
            final(self)@.wf(),
            r matches Some(id) && id@ == callback_name(old(self)@.bridge.next_callback_id),
            final(self)@ == (EmbeddedView {
                bridge: BridgeView {
                    outgoing: old(self)@.bridge.outgoing.push(
                        BridgeMessageView::ExecuteJs {
                            script: script@,
                            callback_id: Some(callback_name(old(self)@.bridge.next_callback_id)),
                        },
                    ),
                    next_callback_id: old(self)@.bridge.next_callback_id.wrapping_add(1),
                    ..old(self)@.bridge
                },
                ..old(self)@
            }),
    {
        self.bridge.execute_js(script)
    }

    /// Ask the page to run a script whose result is not wanted.
    pub fn execute_js_fire_and_forget(&mut self, script: &str)
        requires
            old(self)@.wf(),
        ensures
            final(self)@.wf(),
            final(self)@ == (EmbeddedView {
                bridge: BridgeView {
                    outgoing: old(self)@.bridge.outgoing.push(
                        BridgeMessageView::ExecuteJs { script: script@, callback_id: None },
                    ),
                    ..old(self)@.bridge
                },
                ..old(self)@
            }),
    {
        self.bridge.execute_js_fire_and_forget(script);
    }

    /// Add a script to run on every page load, after those added before.
    pub fn inject_js(&mut self, script: &str)
        requires
            old(self)@.wf(),
        ensures
            final(self)@.wf(),
            final(self)@.state == old(self)@.state,
            final(self)@.bridge == old(self)@.bridge,
            final(self)@.history == old(self)@.history,
            final(self)@.position == old(self)@.position,
            final(self)@.last_bounds == old(self)@.last_bounds,
            final(self)@.config == (EmbedConfig {
                initialization_script: final(self)@.config.initialization_script,
                ..old(self)@.config
            }),
            final(self)@.config.initialization_script matches Some(s) && s@ == match old(
                self,
            )@.config.initialization_script {
                Some(prev) => prev@ + seq!['\n'] + script@,
                None => script@,
            },
    {
        let next = match &self.config.initialization_script {
            Some(prev) => joined_lines(prev, script),
            None => String::from_str(script),
        };
        self.config.initialization_script = Some(next);
    }

    /// Zoom to a percentage brought into 25..=500, and ask the page to.
    pub fn set_zoom(&mut self, percent: u32)
        requires
            old(self)@.wf(),
        ensures
            final(self)@.wf(),
            final(self)@ == (EmbeddedView {
                state: EmbeddedStateView { zoom_percent: clamped_zoom(percent), ..old(self)@.state },
                bridge: BridgeView {
                    outgoing: old(self)@.bridge.outgoing.push(
                        BridgeMessageView::SetZoom { percent: clamped_zoom(percent) },
                    ),
                    ..old(self)@.bridge
                },
                ..old(self)@
            }),
    {
        let p = if percent < MIN_ZOOM_PERCENT {
            MIN_ZOOM_PERCENT
        } else if percent > MAX_ZOOM_PERCENT {
            MAX_ZOOM_PERCENT
        } else {
            percent
        };
        self.state.zoom_percent = p;
        self.bridge.set_zoom(p);
    }

    /// Zoom in or out by ten points, within 25..=500.
    pub fn step_zoom(&mut self, up: bool)
        requires
            old(self)@.wf(),
        ensures
            final(self)@.wf(),
            final(self)@ == (EmbeddedView {
                state: EmbeddedStateView {
                    zoom_percent: clamped_zoom(zoom_step(old(self)@.state.zoom_percent, up)),
                    ..old(self)@.state
                },
                bridge: BridgeView {
                    outgoing: old(self)@.bridge.outgoing.push(
                        BridgeMessageView::SetZoom {
                            percent: clamped_zoom(zoom_step(old(self)@.state.zoom_percent, up)),
                        },
                    ),
                    ..old(self)@.bridge
                },
                ..old(self)@
            }),
    {
        let z = self.state.zoom_percent;
        let next = if up {
            if z <= u32::MAX - 10 {
                z + 10
            } else {
                u32::MAX
            }
        } else {
            if z >= 10 {
                z - 10
            } else {
                0
            }
        };
        self.set_zoom(next);
    }

    /// The line under the page address: loading progress while the page
    /// loads, otherwise "Ready".
    pub fn status_text(&self) -> (s: String)
        ensures
            s@ == if self@.state.is_loading {
                "Loading... "@ + decimal(self@.state.load_percent as nat) + "%"@
            } else {
                "Ready"@
            },
    {
        if self.state.is_loading {
            let mut s = String::from_str("Loading... ");
            let digits = decimal_string(self.state.load_percent as u64);
            s.append(digits.as_str());
            s.append("%");
            s
        } else {
            String::from_str("Ready")
        }
    }

    /// The zoom, in percent.
    pub fn zoom_percent(&self) -> (p: u32)
        ensures
            p == self@.state.zoom_percent,
    {
        self.state.zoom_percent
    }
}


impl EmbeddedWebView {
    /// Show or hide the developer tools; the page is asked to, and the
    /// window is told which happened.
    pub fn toggle_devtools(&mut self)
        requires
            old(self)@.wf(),
        ensures
            final(self)@.wf(),
            final(self)@ == (EmbeddedView {
                state: EmbeddedStateView {
                    devtools_open: !old(self)@.state.devtools_open,
                    ..old(self)@.state
                },
                bridge: BridgeView {
                    outgoing: old(self)@.bridge.outgoing.push(BridgeMessageView::ToggleDevTools),
                    incoming: old(self)@.bridge.incoming.push(
                        if old(self)@.state.devtools_open {
                            WebViewEventView::DevToolsClosed
                        } else {
                            WebViewEventView::DevToolsOpened
                        },
                    ),
                    ..old(self)@.bridge
                },
                ..old(self)@
            }),
    {
        self.state.devtools_open = !self.state.devtools_open;
        self.bridge.toggle_devtools();
        if self.state.devtools_open {
            self.bridge.push_event(WebViewEvent::DevToolsOpened);
        } else {
            self.bridge.push_event(WebViewEvent::DevToolsClosed);
        }
    }

    /// Open the developer tools unless they are open; the page is asked to
    /// and the window told.
    pub fn open_devtools(&mut self)
        requires
            old(self)@.wf(),
        ensures
            final(self)@.wf(),
            old(self)@.state.devtools_open ==> final(self)@ == old(self)@,
            !old(self)@.state.devtools_open ==> final(self)@ == (EmbeddedView {
                state: EmbeddedStateView { devtools_open: true, ..old(self)@.state },
                bridge: BridgeView {
                    outgoing: old(self)@.bridge.outgoing.push(BridgeMessageView::OpenDevTools),
                    incoming: old(self)@.bridge.incoming.push(WebViewEventView::DevToolsOpened),
                    ..old(self)@.bridge
                },
                ..old(self)@
            }),
    {
        if !self.state.devtools_open {
            self.state.devtools_open = true;
            self.bridge.open_devtools();
            self.bridge.push_event(WebViewEvent::DevToolsOpened);
        }
    }

    /// Close the developer tools if they are open; the page is asked to and
    /// the window told.
    pub fn close_devtools(&mut self)
        requires
            old(self)@.wf(),
        ensures
            final(self)@.wf(),
            !old(self)@.state.devtools_open ==> final(self)@ == old(self)@,
            old(self)@.state.devtools_open ==> final(self)@ == (EmbeddedView {
                state: EmbeddedStateView { devtools_open: false, ..old(self)@.state },
                bridge: BridgeView {
                    outgoing: old(self)@.bridge.outgoing.push(BridgeMessageView::CloseDevTools),
                    incoming: old(self)@.bridge.incoming.push(WebViewEventView::DevToolsClosed),
                    ..old(self)@.bridge
                },
                ..old(self)@
            }),
    {
        if self.state.devtools_open {
            self.state.devtools_open = false;
            self.bridge.close_devtools();
            self.bridge.push_event(WebViewEvent::DevToolsClosed);
        }
    }

    /// Whether developer tools are allowed.
    pub fn devtools_enabled(&self) -> (b: bool)
        ensures
            b == self@.config.devtools_enabled,
    {
        self.config.devtools_enabled
    }

    /// Whether the developer tools are open.
    pub fn devtools_open(&self) -> (b: bool)
        ensures
            b == self@.state.devtools_open,
    {
        self.state.devtools_open
    }

    /// Ask the page to find text.
    pub fn find(&mut self, text: &str, forward: bool, case_sensitive: bool)
        requires
            old(self)@.wf(),
        ensures
            final(self)@.wf(),
            final(self)@ == (EmbeddedView {
                bridge: BridgeView {
                    outgoing: old(self)@.bridge.outgoing.push(
                        BridgeMessageView::Find { text: text@, forward, case_sensitive },
                    ),
                    ..old(self)@.bridge
                },
                ..old(self)@
            }),
    {
        self.bridge.find(text, forward, case_sensitive);
    }

    /// Ask the page to clear the highlights of a search.
    pub fn clear_find(&mut self)
        requires
            old(self)@.wf(),
        ensures
            final(self)@.wf(),
            final(self)@ == (EmbeddedView {
                bridge: BridgeView {
                    outgoing: old(self)@.bridge.outgoing.push(BridgeMessageView::ClearFind),
                    ..old(self)@.bridge
                },
                ..old(self)@
            }),
    {
        self.bridge.clear_find();
    }

    /// Ask the page to print.
    pub fn print(&mut self)
        requires
            old(self)@.wf(),
        ensures
            final(self)@.wf(),
            final(self)@ == (EmbeddedView {
                bridge: BridgeView {
                    outgoing: old(self)@.bridge.outgoing.push(BridgeMessageView::Print),
                    ..old(self)@.bridge
                },
                ..old(self)@
            }),
    {
        self.bridge.print();
    }

    /// Take new bounds, when they differ from the last ones taken.
    pub fn set_bounds(&mut self, bounds: WebViewBounds)
        requires
            old(self)@.wf(),
        ensures
            final(self)@.wf(),
            old(self)@.last_bounds == Some(bounds) ==> final(self)@ == old(self)@,
            old(self)@.last_bounds != Some(bounds) ==> final(self)@ == (EmbeddedView {
                state: EmbeddedStateView { bounds: bounds, ..old(self)@.state },
                last_bounds: Some(bounds),
                ..old(self)@
            }),
    {
        let changed = match self.last_bounds {
            Some(last) => last != bounds,
            None => true,
        };
        if changed {
            self.state.bounds = bounds;
            self.last_bounds = Some(bounds);
        }
    }

    /// The current bounds.
    pub fn bounds(&self) -> (b: &WebViewBounds)
        ensures
            *b == self@.state.bounds,
    {
        &self.state.bounds
    }

    /// Take the focus, telling the window if it was elsewhere.
    pub fn focus(&mut self)
        requires
            old(self)@.wf(),
        ensures
            final(self)@.wf(),
            old(self)@.state.has_focus ==> final(self)@ == old(self)@,
            !old(self)@.state.has_focus ==> final(self)@ == (EmbeddedView {
                state: EmbeddedStateView { has_focus: true, ..old(self)@.state },
                bridge: BridgeView {
                    incoming: old(self)@.bridge.incoming.push(WebViewEventView::Focused),
                    ..old(self)@.bridge
                },
                ..old(self)@
            }),
    {
        if !self.state.has_focus {
            self.state.has_focus = true;
            self.bridge.push_event(WebViewEvent::Focused);
        }
    }

    /// Give up the focus, telling the window if it was held.
    pub fn blur(&mut self)
        requires
            old(self)@.wf(),
        ensures
            final(self)@.wf(),
            !old(self)@.state.has_focus ==> final(self)@ == old(self)@,
            old(self)@.state.has_focus ==> final(self)@ == (EmbeddedView {
                state: EmbeddedStateView { has_focus: false, ..old(self)@.state },
                bridge: BridgeView {
                    incoming: old(self)@.bridge.incoming.push(WebViewEventView::Blurred),
                    ..old(self)@.bridge
                },
                ..old(self)@
            }),
    {
        if self.state.has_focus {
            self.state.has_focus = false;
            self.bridge.push_event(WebViewEvent::Blurred);
        }
    }

    /// Whether the view has the focus.
    pub fn has_focus(&self) -> (b: bool)
        ensures
            b == self@.state.has_focus,
    {
        self.state.has_focus
    }

    /// The events queued for the window, oldest first; the queue is emptied.
    pub fn poll_events(&mut self) -> (r: Vec<WebViewEvent>)
        requires
            old(self)@.wf(),
        ensures
            final(self)@.wf(),
            event_views(r@) == old(self)@.bridge.incoming,
            final(self)@ == (EmbeddedView {
                bridge: BridgeView { incoming: Seq::empty(), ..old(self)@.bridge },
                ..old(self)@
            }),
    {
        self.bridge.poll_events()
    }

    /// Process the queued requests in order: a visit completes at once and
    /// is reported to the window, a zoom is taken over, and the rest are for
    /// the page alone.  The queue is emptied.
    pub fn process_messages(&mut self)
        requires
            old(self)@.wf(),
        ensures
            final(self)@.wf(),
            ({
                let done = apply_messages(
                    old(self)@.state,
                    old(self)@.bridge.incoming,
                    old(self)@.bridge.outgoing,
                );
                final(self)@ == (EmbeddedView {
                    state: done.0,
                    bridge: BridgeView { outgoing: Seq::empty(), incoming: done.1, ..old(self)@.bridge },
                    ..old(self)@
                })
            }),
    {
        let msgs = self.bridge.take_outgoing();
        let ghost mv = message_views(msgs@);
        let ghost st0 = old(self)@.state;
        let ghost ev0 = old(self)@.bridge.incoming;
        let n = msgs.len();
        let mut i: usize = 0;
        while i < n
            invariant
                n == msgs@.len(),
                i <= n,
                mv == message_views(msgs@),
                (self@.state, self@.bridge.incoming) == apply_messages(st0, ev0, mv.take(i as int)),
                self@.bridge.outgoing == Seq::<BridgeMessageView>::empty(),
                self@.bridge.next_callback_id == old(self)@.bridge.next_callback_id,
                self@.config == old(self)@.config,
                self@.history == old(self)@.history,
                self@.position == old(self)@.position,
                self@.last_bounds == old(self)@.last_bounds,
                self@.state.can_go_back == old(self)@.state.can_go_back,
                self@.state.can_go_forward == old(self)@.state.can_go_forward,
            decreases n - i,
        {
            proof {
                assert(mv.take(i + 1).drop_last() =~= mv.take(i as int));
                assert(mv.take(i + 1).last() == msgs@[i as int]@);
            }
            match &msgs[i] {
                BridgeMessage::Navigate { url } => {
                    self.state.is_loading = true;
                    self.state.url = url.clone();
                    self.state.is_loading = false;
                    self.state.load_percent = 100;
                    let done = url.clone();
                    self.bridge.push_event(WebViewEvent::NavigationCompleted { url: done });
                },
                BridgeMessage::SetZoom { percent } => {
                    self.state.zoom_percent = *percent;
                },
                _ => {},
            }
            i += 1;
        }
        proof {
            assert(mv.take(n as int) =~= mv);
        }
    }
}

impl Default for EmbeddedWebView {
    /// A view that has opened a blank page with the default settings.
    fn default() -> (w: Self)
        ensures
            w@.wf(),
            w@.state == opening_state("about:blank"@),
            w@.bridge == (BridgeView {
                outgoing: Seq::empty(),
                incoming: Seq::empty(),
                next_callback_id: 1,
            }),
            w@.history == seq!["about:blank"@],
            w@.position == 0,
            w@.last_bounds is None,
    {
        EmbeddedWebView::new(EmbedConfig::default())
    }
}

/// A native window for a web view to live in, by platform.  A pointer to a
/// native object is held as its address.
#[derive(Debug, Clone, Copy, PartialEq, Eq)]
pub enum WindowHandle {
    /// A Windows `HWND`.
    Windows(isize),
    /// The address of a macOS `NSView`.
    MacOS(usize),
    /// An X11 window identifier.
    X11(u64),
    /// The address of a Wayland surface.
    Wayland(usize),
    /// No native window.
    Unsupported,
}

impl Default for WindowHandle {
    fn default() -> (h: Self)
        ensures
            h == WindowHandle::Unsupported,
    {
        WindowHandle::Unsupported
    }
}

/// Collects the settings of an embedded view before building it.
pub struct WebViewBuilder {
    config: EmbedConfig,
    bounds: WebViewBounds,
    window_handle: Option<WindowHandle>,
}

/// The abstract state of a `WebViewBuilder`.
pub struct BuilderView {
    pub config: EmbedConfig,
    pub bounds: WebViewBounds,
    pub window_handle: Option<WindowHandle>,
}

impl View for WebViewBuilder {
    type V = BuilderView;

    closed spec fn view(&self) -> BuilderView {
        BuilderView { config: self.config, bounds: self.bounds, window_handle: self.window_handle }
    }
}

impl WebViewBuilder {
    /// Default settings and bounds, no window.
    pub fn new() -> (b: Self)
        ensures
            b@.bounds == (WebViewBounds { x: 0, y: 0, width: 800, height: 600 }),
            b@.window_handle is None,
            b@.config.initial_url@ == "about:blank"@,
            b@.config.background_color@ == seq![255u8, 255u8, 255u8, 255u8],
            !b@.config.transparent,
            !b@.config.devtools_enabled,
            b@.config.javascript_enabled,
            b@.config.user_agent is None,
            !b@.config.autoplay_enabled,
            b@.config.clipboard_enabled,
            b@.config.ipc_handler_name@ == "cortenIpc"@,
            b@.config.initialization_script is None,
    {
        WebViewBuilder {
            config: EmbedConfig::default(),
            bounds: WebViewBounds::default(),
            window_handle: None,
        }
    }

    /// Use these settings.
    pub fn with_config(self, config: EmbedConfig) -> (b: Self)
        ensures
            b@ == (BuilderView { config: config, ..self@ }),
    {
        WebViewBuilder { config, ..self }
    }

    /// Use these bounds.
    pub fn with_bounds(self, bounds: WebViewBounds) -> (b: Self)
        ensures
            b@ == (BuilderView { bounds: bounds, ..self@ }),
    {
        WebViewBuilder { bounds, ..self }
    }

    /// Live in this window.
    pub fn with_window_handle(self, handle: WindowHandle) -> (b: Self)
        ensures
            b@ == (BuilderView { window_handle: Some(handle), ..self@ }),
    {
        WebViewBuilder { window_handle: Some(handle), ..self }
    }

    /// Open this page first.
    pub fn with_url(self, url: &str) -> (b: Self)
        ensures
            b@ == (BuilderView {
                config: EmbedConfig { initial_url: b@.config.initial_url, ..self@.config },
                ..self@
            }),
            b@.config.initial_url@ == url@,
    {
        let mut b = self;
        b.config.initial_url = String::from_str(url);
        b
    }

    /// Allow developer tools or not.
    pub fn with_devtools(self, enabled: bool) -> (b: Self)
        ensures
            b@ == (BuilderView {
                config: EmbedConfig { devtools_enabled: enabled, ..self@.config },
                ..self@
            }),
    {
        let mut b = self;
        b.config.devtools_enabled = enabled;
        b
    }

    /// Allow JavaScript or not.
    pub fn with_javascript(self, enabled: bool) -> (b: Self)
        ensures
            b@ == (BuilderView {
                config: EmbedConfig { javascript_enabled: enabled, ..self@.config },
                ..self@
            }),
    {
        let mut b = self;
        b.config.javascript_enabled = enabled;
        b
    }

    /// Use a transparent background or not.
    pub fn with_transparent(self, transparent: bool) -> (b: Self)
        ensures
            b@ == (BuilderView {
                config: EmbedConfig { transparent: transparent, ..self@.config },
                ..self@
            }),
    {
        let mut b = self;
        b.config.transparent = transparent;
        b
    }

    /// Use this background colour.
    pub fn with_background_color(self, r: u8, g: u8, bl: u8, a: u8) -> (b: Self)
        ensures
            b@ == (BuilderView {
                config: EmbedConfig { background_color: b@.config.background_color, ..self@.config },
                ..self@
            }),
            b@.config.background_color@ == seq![r, g, bl, a],
    {
        let mut b = self;
        b.config.background_color = [r, g, bl, a];
        proof {
            assert(b.config.background_color@ =~= seq![r, g, bl, a]);
        }
        b
    }

    /// Present this user agent.
    pub fn with_user_agent(self, user_agent: &str) -> (b: Self)
        ensures
            b@ == (BuilderView {
                config: EmbedConfig { user_agent: b@.config.user_agent, ..self@.config },
                ..self@
            }),
            b@.config.user_agent matches Some(u) && u@ == user_agent@,
    {
        let mut b = self;
        b.config.user_agent = Some(String::from_str(user_agent));
        b
    }

    /// Run this script on every page load.
    pub fn with_init_script(self, script: &str) -> (b: Self)
        ensures
            b@ == (BuilderView {
                config: EmbedConfig { initialization_script: b@.config.initialization_script, ..self@.config },
                ..self@
            }),
            b@.config.initialization_script matches Some(s) && s@ == script@,
    {
        let mut b = self;
        b.config.initialization_script = Some(String::from_str(script));
        b
    }

    /// The embedded view with these settings, placed at these bounds.
    pub fn build(self) -> (r: Result<EmbeddedWebView, WebViewError>)
        ensures
            r matches Ok(w) && w@.wf() && w@ == (EmbeddedView {
                config: self@.config,
                state: EmbeddedStateView {
                    bounds: self@.bounds,
                    ..opening_state(self@.config.initial_url@)
                },
                bridge: BridgeView {
                    outgoing: Seq::empty(),
                    incoming: Seq::empty(),
                    next_callback_id: 1,
                },
                history: seq![self@.config.initial_url@],
                position: 0,
                last_bounds: Some(self@.bounds),
            }),
    {
        let mut w = EmbeddedWebView::new(self.config);
        w.set_bounds(self.bounds);
        Ok(w)
    }
}

impl Default for WebViewBuilder {
    fn default() -> (b: Self)
        ensures
            b@.bounds == (WebViewBounds { x: 0, y: 0, width: 800, height: 600 }),
            b@.window_handle is None,
            b@.config.initial_url@ == "about:blank"@,
            !b@.config.devtools_enabled,
            b@.config.javascript_enabled,
            b@.config.initialization_script is None,
    {
        WebViewBuilder::new()
    }
}

} // verus!
