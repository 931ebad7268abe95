//! Developer tools panel: tab and dock selection, a bounded console log and a
//! bounded network request log with filters.
use vstd::prelude::*;
use crate::theme::{rgb, Color32};
use crate::seqs::{drop_front, first_match, keep_last, lemma_first_match_at, lemma_first_match_none, select};
use crate::text::{
    chars_of, contains_seq, decimal, decimal_string, find_char, occurs_at, find_seq, first_index, first_occurrence, lowercase_of,
    slice_chars, split_chars, split_on, string_from_chars, to_lowercase,
};

verus! {

/// Tab selection for the developer tools panel.
#[derive(Debug, Clone, Copy, PartialEq, Eq, Structural, Default)]
pub enum DevToolsTab {
    Elements,
    #[default]
    Console,
    Network,
    Sources,
    Performance,
    Memory,
}

impl DevToolsTab {
    /// The display label of this tab.
    pub fn label(&self) -> (s: &'static str)
        ensures
            s@ == match self {
                DevToolsTab::Elements => "Elements"@,
                DevToolsTab::Console => "Console"@,
                DevToolsTab::Network => "Network"@,
                DevToolsTab::Sources => "Sources"@,
                DevToolsTab::Performance => "Performance"@,
                DevToolsTab::Memory => "Memory"@,
            },
    {
        match self {
            DevToolsTab::Elements => "Elements",
            DevToolsTab::Console => "Console",
            DevToolsTab::Network => "Network",
            DevToolsTab::Sources => "Sources",
            DevToolsTab::Performance => "Performance",
            DevToolsTab::Memory => "Memory",
        }
    }

    /// Every tab, in display order.
    pub open spec fn all_spec() -> Seq<DevToolsTab> {
        seq![
            DevToolsTab::Elements,
            DevToolsTab::Console,
            DevToolsTab::Network,
            DevToolsTab::Sources,
            DevToolsTab::Performance,
            DevToolsTab::Memory,
        ]
    }

    /// Every tab, in display order.
    pub fn all() -> (v: Vec<DevToolsTab>)
        ensures
            v@ == Self::all_spec(),
    {
        let v = vec![
            DevToolsTab::Elements,
            DevToolsTab::Console,
            DevToolsTab::Network,
            DevToolsTab::Sources,
            DevToolsTab::Performance,
            DevToolsTab::Memory,
        ];
        assert(v@ =~= Self::all_spec());
        v
    }
}

/// Dock position of the developer tools panel.
#[derive(Debug, Clone, Copy, PartialEq, Eq, Structural, Default)]
pub enum DockPosition {
    #[default]
    Bottom,
    Right,
    Detached,
}

impl DockPosition {
    /// The display label of this position.
    pub fn label(&self) -> (s: &'static str)
        ensures
            s@ == match self {
                DockPosition::Bottom => "Bottom"@,
                DockPosition::Right => "Right"@,
                DockPosition::Detached => "Detached"@,
            },
    {
        match self {
            DockPosition::Bottom => "Bottom",
            DockPosition::Right => "Right",
            DockPosition::Detached => "Detached",
        }
    }
}

/// Console message severity.
#[derive(Debug, Clone, Copy, PartialEq, Eq, Structural, Default)]
pub enum ConsoleLevel {
    #[default]
    Log,
    Info,
    Warn,
    Error,
    Debug,
}

impl ConsoleLevel {
    /// The colour of messages of this level.
    pub fn color(&self) -> (c: Color32)
        ensures
            c == match self {
                ConsoleLevel::Log => rgb(200, 200, 200),
                ConsoleLevel::Info => rgb(100, 180, 255),
                ConsoleLevel::Warn => rgb(255, 200, 100),
                ConsoleLevel::Error => rgb(255, 100, 100),
                ConsoleLevel::Debug => rgb(180, 180, 180),
            },
    {
        match self {
            ConsoleLevel::Log => Color32::from_rgb(200, 200, 200),
            ConsoleLevel::Info => Color32::from_rgb(100, 180, 255),
            ConsoleLevel::Warn => Color32::from_rgb(255, 200, 100),
            ConsoleLevel::Error => Color32::from_rgb(255, 100, 100),
            ConsoleLevel::Debug => Color32::from_rgb(180, 180, 180),
        }
    }

    /// The prefix shown before messages of this level.
    pub fn prefix(&self) -> (s: &'static str)
        ensures
            s@ == match self {
                ConsoleLevel::Log => ""@,
                ConsoleLevel::Info => "[INFO]"@,
                ConsoleLevel::Warn => "[WARN]"@,
                ConsoleLevel::Error => "[ERROR]"@,
                ConsoleLevel::Debug => "[DEBUG]"@,
            },
    {
        match self {
            ConsoleLevel::Log => "",
            ConsoleLevel::Info => "[INFO]",
            ConsoleLevel::Warn => "[WARN]",
            ConsoleLevel::Error => "[ERROR]",
            ConsoleLevel::Debug => "[DEBUG]",
        }
    }
}

/// A console message.
#[derive(Debug, Clone)]
pub struct ConsoleMessage {
    pub level: ConsoleLevel,
    pub message: String,
    /// Source file, when known.
    pub source: Option<String>,
    /// Line in the source, when known.
    pub line: Option<u32>,
    /// UNIX time in milliseconds when it was logged.
    pub timestamp: u64,
}

impl ConsoleMessage {
    /// A message of this level, logged now, with no source.
    pub fn new(level: ConsoleLevel, message: &str) -> (m: ConsoleMessage)
        ensures
            m.level == level,
            m.message@ == message@,
            m.source is None,
            m.line is None,
    {
        ConsoleMessage {
            level,
            message: String::from_str(message),
            source: None,
            line: None,
            timestamp: crate::types::unix_millis_now(),
        }
    }

    /// A log-level message.
    pub fn log(message: &str) -> (m: ConsoleMessage)
        ensures
            m.level == ConsoleLevel::Log,
            m.message@ == message@,
            m.source is None,
            m.line is None,
    {
        Self::new(ConsoleLevel::Log, message)
    }

    /// An info message.
    pub fn info(message: &str) -> (m: ConsoleMessage)
        ensures
            m.level == ConsoleLevel::Info,
            m.message@ == message@,
            m.source is None,
            m.line is None,
    {
        Self::new(ConsoleLevel::Info, message)
    }

    /// A warning.
    pub fn warn(message: &str) -> (m: ConsoleMessage)
        ensures
            m.level == ConsoleLevel::Warn,
            m.message@ == message@,
            m.source is None,
            m.line is None,
    {
        Self::new(ConsoleLevel::Warn, message)
    }

    /// An error message.
    pub fn error(message: &str) -> (m: ConsoleMessage)
        ensures
            m.level == ConsoleLevel::Error,
            m.message@ == message@,
            m.source is None,
            m.line is None,
    {
        Self::new(ConsoleLevel::Error, message)
    }

    /// A debug message.
    pub fn debug(message: &str) -> (m: ConsoleMessage)
        ensures
            m.level == ConsoleLevel::Debug,
            m.message@ == message@,
            m.source is None,
            m.line is None,
    {
        Self::new(ConsoleLevel::Debug, message)
    }

    /// The message with its source file and line.
    pub fn with_source(self, source: &str, line: u32) -> (m: ConsoleMessage)
        ensures
            m.level == self.level,
            m.message == self.message,
            m.timestamp == self.timestamp,
            m.source matches Some(s) && s@ == source@,
            m.line == Some(line),
    {
        ConsoleMessage { source: Some(String::from_str(source)), line: Some(line), ..self }
    }
}

/// HTTP method of a network request.
#[derive(Debug, Clone, Copy, PartialEq, Eq, Structural, Default)]
#[allow(non_camel_case_types, clippy::upper_case_acronyms)]
pub enum HttpMethod {
    #[default]
    GET,
    POST,
    PUT,
    DELETE,
    PATCH,
    HEAD,
    OPTIONS,
}

impl HttpMethod {
    /// The colour the method is shown in.
    pub fn color(&self) -> (c: Color32)
        ensures
            c == match self {
                HttpMethod::GET => rgb(100, 200, 100),
                HttpMethod::POST => rgb(255, 200, 100),
                HttpMethod::PUT => rgb(100, 180, 255),
                HttpMethod::DELETE => rgb(255, 100, 100),
                HttpMethod::PATCH => rgb(200, 150, 255),
                HttpMethod::HEAD => rgb(180, 180, 180),
                HttpMethod::OPTIONS => rgb(180, 180, 180),
            },
    {
        match self {
            HttpMethod::GET => Color32::from_rgb(100, 200, 100),
            HttpMethod::POST => Color32::from_rgb(255, 200, 100),
            HttpMethod::PUT => Color32::from_rgb(100, 180, 255),
            HttpMethod::DELETE => Color32::from_rgb(255, 100, 100),
            HttpMethod::PATCH => Color32::from_rgb(200, 150, 255),
            HttpMethod::HEAD => Color32::from_rgb(180, 180, 180),
            HttpMethod::OPTIONS => Color32::from_rgb(180, 180, 180),
        }
    }

    /// The method's name.
    pub fn as_str(&self) -> (s: &'static str)
        ensures
            s@ == match self {
                HttpMethod::GET => "GET"@,
                HttpMethod::POST => "POST"@,
                HttpMethod::PUT => "PUT"@,
                HttpMethod::DELETE => "DELETE"@,
                HttpMethod::PATCH => "PATCH"@,
                HttpMethod::HEAD => "HEAD"@,
                HttpMethod::OPTIONS => "OPTIONS"@,
            },
    {
        match self {
            HttpMethod::GET => "GET",
            HttpMethod::POST => "POST",
            HttpMethod::PUT => "PUT",
            HttpMethod::DELETE => "DELETE",
            HttpMethod::PATCH => "PATCH",
            HttpMethod::HEAD => "HEAD",
            HttpMethod::OPTIONS => "OPTIONS",
        }
    }
}

/// Status of a network request.
#[derive(Debug, Clone, PartialEq, Eq, Default)]
pub enum NetworkStatus {
    #[default]
    Pending,
    /// Completed with this HTTP status code.
    Complete(u16),
    /// Failed with this message.
    Failed(String),
    Cancelled,
}

impl NetworkStatus {
    /// The colour the status is shown in: success green, redirection blue,
    /// other codes and failures red, pending amber, cancelled grey.
    pub fn color(&self) -> (c: Color32)
        ensures
            c == match self {
                NetworkStatus::Pending => rgb(255, 200, 100),
                NetworkStatus::Complete(code) => if 200 <= *code < 300 {
                    rgb(100, 200, 100)
                } else if 300 <= *code < 400 {
                    rgb(100, 180, 255)
                } else {
                    rgb(255, 100, 100)
                },
                NetworkStatus::Failed(_) => rgb(255, 100, 100),
                NetworkStatus::Cancelled => rgb(180, 180, 180),
            },
    {
        match self {
            NetworkStatus::Pending => Color32::from_rgb(255, 200, 100),
            NetworkStatus::Complete(code) => {
                if 200 <= *code && *code < 300 {
                    Color32::from_rgb(100, 200, 100)
                } else if 300 <= *code && *code < 400 {
                    Color32::from_rgb(100, 180, 255)
                } else {
                    Color32::from_rgb(255, 100, 100)
                }
            },
            NetworkStatus::Failed(_) => Color32::from_rgb(255, 100, 100),
            NetworkStatus::Cancelled => Color32::from_rgb(180, 180, 180),
        }
    }

    /// Whether the request is still pending.
    pub fn is_pending(&self) -> (b: bool)
        ensures
            b == self is Pending,
    {
        match self {
            NetworkStatus::Pending => true,
            _ => false,
        }
    }

    /// Whether the request completed with a 2xx status.
    pub fn is_success(&self) -> (b: bool)
        ensures
            b == (*self matches NetworkStatus::Complete(code) && 200 <= code < 300),
    {
        match self {
            NetworkStatus::Complete(code) => 200 <= *code && *code < 300,
            _ => false,
        }
    }
}

/// Timing of a network request.
#[derive(Debug, Clone, Copy, PartialEq, Eq, Default)]
pub struct NetworkTiming {
    /// Time to establish the connection (ms).
    pub connect_time_ms: u64,
    /// Time to first byte (ms).
    pub ttfb_ms: u64,
    /// Total duration (ms).
    pub total_time_ms: u64,
    /// Downloaded bytes.
    pub download_size: u64,
}

/// A network request as the inspector shows it.
#[derive(Debug, Clone)]
pub struct NetworkInspectorEntry {
    pub id: u64,
    pub method: HttpMethod,
    pub url: String,
    pub status: NetworkStatus,
    pub content_type: Option<String>,
    pub timing: NetworkTiming,
    pub request_headers: Vec<(String, String)>,
    pub response_headers: Vec<(String, String)>,
    pub request_body: Option<String>,
    pub response_preview: Option<String>,
    /// UNIX time in milliseconds when the request started.
    pub start_time: u64,
}

/// The position of the first `://` in `s`, which holds one.
pub open spec fn first_scheme_sep(s: Seq<char>) -> int {
    choose|i: int| first_occurrence(s, seq![':', '/', '/'], i)
}

/// What `split("://").nth(1)` gives: the text between the first and the
/// second `://`, if there is a first.
pub open spec fn after_scheme(url: Seq<char>) -> Option<Seq<char>> {
    let sep = seq![':', '/', '/'];
    if contains_seq(url, sep) {
        let rest = url.skip(first_scheme_sep(url) + 3);
        if contains_seq(rest, sep) {
            Some(rest.take(first_scheme_sep(rest)))
        } else {
            Some(rest)
        }
    } else {
        None
    }
}

/// The short name of a URL: its last path segment when that is non-empty
/// and holds no `?`, else its host (the text after `://` up to the next
/// `/`), else the whole URL.
pub open spec fn display_name_spec(url: Seq<char>) -> Seq<char> {
    let last = split_on(url, '/').last();
    if last.len() > 0 && !last.contains('?') {
        last
    } else {
        match after_scheme(url) {
            Some(h) => split_on(h, '/')[0],
            None => url,
        }
    }
}

/// The first position where `p` occurs in `s` is the one `first_scheme_sep`
/// names, when `p` is `://`.
proof fn lemma_first_occurrence_unique(s: Seq<char>, p: Seq<char>, i: int, j: int)
    requires
        first_occurrence(s, p, i),
        first_occurrence(s, p, j),
    ensures
        i == j,
{
}

/// The text before the first `c` in `s`, as `split(c).next()` gives it.
fn before_char(s: &Vec<char>, c: char) -> (r: Vec<char>)
    ensures
        r@ == split_on(s@, c)[0],
{
    let n = s.len();
    let mut i: usize = 0;
    while i < n && s[i] != c
        invariant
            n == s@.len(),
            i <= n,
            forall|j: int| 0 <= j < i ==> s@[j] != c,
        decreases n - i,
    {
        i += 1;
    }
    proof {
        lemma_split_first(s@, c, i as int);
    }
    slice_chars(s, 0, i)
}

/// The first piece of `split_on(s, c)` is `s` up to the first `c`.
proof fn lemma_split_first(s: Seq<char>, c: char, i: int)
    requires
        0 <= i <= s.len(),
        forall|j: int| 0 <= j < i ==> s[j] != c,
        i == s.len() || s[i] == c,
    ensures
        split_on(s, c)[0] == s.take(i),
    decreases s.len(),
{
    if s.len() > 0 {
        if i == s.len() {
            let d = s.drop_last();
            lemma_split_first(d, c, i - 1);
            lemma_split_on_nonempty(d, c);
            assert(split_on(d, c).len() == 1 || split_on(d, c).len() >= 1);
            lemma_split_no_sep(s, c);
            assert(s.take(i) =~= s);
        } else {
            let d = s.drop_last();
            lemma_split_first(d, c, i);
            lemma_split_on_nonempty(d, c);
            if i < s.len() - 1 {
                assert(d.take(i) =~= s.take(i));
                let rest = split_on(d, c);
                if s.last() == c {
                    assert(split_on(s, c) == rest.push(Seq::<char>::empty()));
                } else {
                    assert(split_on(s, c) == rest.update(rest.len() - 1, rest.last().push(s.last())));
                    lemma_split_has_two(d, c, i);
                }
            } else {
                lemma_split_no_sep(d, c);
                assert(d.take(i) =~= d);
                assert(s.take(i) =~= d);
            }
        }
    }
}

proof fn lemma_split_on_nonempty(s: Seq<char>, c: char)
    ensures
        split_on(s, c).len() >= 1,
    decreases s.len(),
{
    if s.len() > 0 {
        lemma_split_on_nonempty(s.drop_last(), c);
    }
}

/// A sequence with no `c` splits into one piece, itself.
proof fn lemma_split_no_sep(s: Seq<char>, c: char)
    requires
        forall|j: int| 0 <= j < s.len() ==> s[j] != c,
    ensures
        split_on(s, c) == seq![s],
    decreases s.len(),
{
    if s.len() > 0 {
        let d = s.drop_last();
        lemma_split_no_sep(d, c);
        assert(s[s.len() - 1] != c);
        assert(d.push(s.last()) =~= s);
        assert(split_on(s, c) =~= seq![s]);
    } else {
        assert(s =~= Seq::<char>::empty());
        assert(split_on(s, c) =~= seq![s]);
    }
}

/// A sequence with a `c` at `i` splits into at least two pieces.
proof fn lemma_split_has_two(s: Seq<char>, c: char, i: int)
    requires
        0 <= i < s.len(),
        s[i] == c,
    ensures
        split_on(s, c).len() >= 2,
    decreases s.len(),
{
    let d = s.drop_last();
    lemma_split_on_nonempty(d, c);
    if i < s.len() - 1 {
        lemma_split_has_two(d, c, i);
    }
}

impl NetworkInspectorEntry {
    /// A pending request started now, with no headers or bodies.
    pub fn new(id: u64, method: HttpMethod, url: &str) -> (e: NetworkInspectorEntry)
        ensures
            e.id == id,
            e.method == method,
            e.url@ == url@,
            e.status == NetworkStatus::Pending,
            e.content_type is None,
            e.timing == (NetworkTiming {
                connect_time_ms: 0,
                ttfb_ms: 0,
                total_time_ms: 0,
                download_size: 0,
            }),
            e.request_headers@.len() == 0,
            e.response_headers@.len() == 0,
            e.request_body is None,
            e.response_preview is None,
    {
        NetworkInspectorEntry {
            id,
            method,
            url: String::from_str(url),
            status: NetworkStatus::Pending,
            content_type: None,
            timing: NetworkTiming { connect_time_ms: 0, ttfb_ms: 0, total_time_ms: 0, download_size: 0 },
            request_headers: Vec::new(),
            response_headers: Vec::new(),
            request_body: None,
            response_preview: None,
            start_time: crate::types::unix_millis_now(),
        }
    }

    /// Mark the request completed with a status code and content type.
    pub fn complete(&mut self, status_code: u16, content_type: Option<String>)
        ensures
            *final(self) == (NetworkInspectorEntry {
                status: NetworkStatus::Complete(status_code),
                content_type,
                ..*old(self)
            }),
    {
        self.status = NetworkStatus::Complete(status_code);
        self.content_type = content_type;
    }

    /// Mark the request failed.
    pub fn fail(&mut self, error: String)
        ensures
            *final(self) == (NetworkInspectorEntry {
                status: NetworkStatus::Failed(error),
                ..*old(self)
            }),
    {
        self.status = NetworkStatus::Failed(error);
    }

    /// A short name for the URL: the last path segment or the host.
    pub fn display_name(&self) -> (s: String)
        ensures
            s@ == display_name_spec(self.url@),
    {
        let url = chars_of(self.url.as_str());
        let pieces = split_chars(&url, '/');
        proof {
            lemma_split_on_nonempty(url@, '/');
        }
        let last = &pieces[pieces.len() - 1];
        if last.len() > 0 && find_char(last, '?').is_none() {
            return string_from_chars(last.as_slice());
        }
        let sep: Vec<char> = vec![':', '/', '/'];
        assert(sep@ =~= seq![':', '/', '/']);
        match find_seq(&url, &sep) {
            Some(i) => {
                proof {
                    assert(first_occurrence(url@, sep@, i as int));
                    assert(first_occurrence(url@, sep@, first_scheme_sep(url@)));
                    lemma_first_occurrence_unique(url@, sep@, i as int, first_scheme_sep(url@));
                    assert(occurs_at(url@, sep@, i as int));
                    assert(sep@.len() == 3);
                    assert(i + 3 <= url@.len());
                }
                let ulen = url.len();
                let rest = slice_chars(&url, i + 3, ulen);
                assert(rest@ =~= url@.skip(i + 3));
                let host_part = match find_seq(&rest, &sep) {
                    Some(j) => {
                        proof {
                            assert(first_occurrence(rest@, sep@, j as int));
                            assert(first_occurrence(rest@, sep@, first_scheme_sep(rest@)));
                            lemma_first_occurrence_unique(rest@, sep@, j as int, first_scheme_sep(rest@));
                        }
                        let h = slice_chars(&rest, 0, j);
                        assert(h@ =~= rest@.take(j as int));
                        h
                    },
                    None => rest,
                };
                let host = before_char(&host_part, '/');
                string_from_chars(host.as_slice())
            },
            None => string_from_chars(url.as_slice()),
        }
    }
}

} // verus!

verus! {

/// Configuration of the developer tools panel.  Panel sizes, which are
/// floating-point values, are kept by the caller that lays the panel out.
#[derive(Debug, Clone)]
pub struct DevToolsConfig {
    /// Tab order.
    pub tab_order: Vec<DevToolsTab>,
    /// Whether logs survive a navigation.
    pub preserve_log: bool,
    /// Most console messages kept.
    pub max_console_messages: usize,
    /// Most network entries kept.
    pub max_network_entries: usize,
    /// Console filter text.
    pub console_filter: String,
    /// Network filter text.
    pub network_filter: String,
}

impl Default for DevToolsConfig {
    /// Every tab in order, logs cleared on navigation, 1000 console messages
    /// and 500 network entries kept, no filters.
    fn default() -> (c: Self)
        ensures
            c.tab_order@ == DevToolsTab::all_spec(),
            !c.preserve_log,
            c.max_console_messages == 1000,
            c.max_network_entries == 500,
            c.console_filter@.len() == 0,
            c.network_filter@.len() == 0,
    {
        DevToolsConfig {
            tab_order: DevToolsTab::all(),
            preserve_log: false,
            max_console_messages: 1000,
            max_network_entries: 500,
            console_filter: String::new(),
            network_filter: String::new(),
        }
    }
}

/// State of the developer tools panel.
#[derive(Debug, Clone, Copy, PartialEq, Eq)]
pub struct DevToolsState {
    pub current_tab: DevToolsTab,
    pub dock_position: DockPosition,
    pub visible: bool,
    /// The network entry shown in detail.
    pub selected_network_entry: Option<u64>,
    /// Whether the console follows new messages.
    pub console_auto_scroll: bool,
}

impl Default for DevToolsState {
    /// Console tab, docked at the bottom, hidden, nothing selected, console
    /// following new messages.
    fn default() -> (s: Self)
        ensures
            s == (DevToolsState {
                current_tab: DevToolsTab::Console,
                dock_position: DockPosition::Bottom,
                visible: false,
                selected_network_entry: None,
                console_auto_scroll: true,
            }),
    {
        DevToolsState {
            current_tab: DevToolsTab::Console,
            dock_position: DockPosition::Bottom,
            visible: false,
            selected_network_entry: None,
            console_auto_scroll: true,
        }
    }
}

/// A message passes the console filter: there is none, or the message holds
/// the filter text, both lower-cased.
pub open spec fn console_matches(filter: Seq<char>) -> spec_fn(ConsoleMessage) -> bool {
    |m: ConsoleMessage| filter.len() == 0 || contains_seq(lowercase_of(m.message@), lowercase_of(filter))
}

/// An entry passes the network filter: there is none, or its URL holds the
/// filter text, both lower-cased.
pub open spec fn network_matches(filter: Seq<char>) -> spec_fn(NetworkInspectorEntry) -> bool {
    |e: NetworkInspectorEntry| filter.len() == 0 || contains_seq(lowercase_of(e.url@), lowercase_of(filter))
}

/// `new` is `old` with one more console message of this level and text, no
/// source, and the oldest messages beyond the limit dropped.
pub open spec fn logged(
    old: DevToolsPanelView,
    new: DevToolsPanelView,
    level: ConsoleLevel,
    text: Seq<char>,
) -> bool {
    exists|m: ConsoleMessage|
        #![trigger old.console.push(m)]
        m.level == level && m.message@ == text && m.source is None && m.line is None && new == (
        DevToolsPanelView {
            console: keep_last(old.console.push(m), old.config.max_console_messages as nat),
            ..old
        })
}

/// The entry has this identifier.
pub open spec fn entry_id_is(id: u64) -> spec_fn(NetworkInspectorEntry) -> bool {
    |e: NetworkInspectorEntry| e.id == id
}

/// The position of the first network entry with identifier `id`.
pub open spec fn entry_position(entries: Seq<NetworkInspectorEntry>, id: u64) -> Option<int> {
    first_match(entries, entry_id_is(id))
}

/// Whether the lower-cased `text` holds the lower-cased `filter`, which is
/// not empty.
fn holds_filter(text: &String, lower_filter: &Vec<char>) -> (b: bool)
    ensures
        b == contains_seq(lowercase_of(text@), lower_filter@),
{
    let lower = to_lowercase(text.as_str());
    let chars = chars_of(lower.as_str());
    find_seq(&chars, lower_filter).is_some()
}

/// Developer tools panel.
#[derive(Debug)]
pub struct DevToolsPanel {
    config: DevToolsConfig,
    state: DevToolsState,
    console_messages: Vec<ConsoleMessage>,
    network_entries: Vec<NetworkInspectorEntry>,
    next_network_id: u64,
}

/// The abstract state of the panel.
pub struct DevToolsPanelView {
    pub config: DevToolsConfig,
    pub state: DevToolsState,
    pub console: Seq<ConsoleMessage>,
    pub network: Seq<NetworkInspectorEntry>,
    /// The identifier the next network request receives.
    pub next_network_id: u64,
}

impl View for DevToolsPanel {
    type V = DevToolsPanelView;

    closed spec fn view(&self) -> DevToolsPanelView {
        DevToolsPanelView {
            config: self.config,
            state: self.state,
            console: self.console_messages@,
            network: self.network_entries@,
            next_network_id: self.next_network_id,
        }
    }
}

impl DevToolsPanel {
    /// A hidden panel on the console tab, docked at the bottom, with empty
    /// logs; the first network request gets identifier 1.
    pub fn new(config: DevToolsConfig) -> (p: DevToolsPanel)
        ensures
            p@ == (DevToolsPanelView {
                config,
                state: DevToolsState {
                    current_tab: DevToolsTab::Console,
                    dock_position: DockPosition::Bottom,
                    visible: false,
                    selected_network_entry: None,
                    console_auto_scroll: true,
                },
                console: Seq::empty(),
                network: Seq::empty(),
                next_network_id: 1,
            }),
    {
        DevToolsPanel {
            config,
            state: DevToolsState::default(),
            console_messages: Vec::new(),
            network_entries: Vec::new(),
            next_network_id: 1,
        }
    }

    /// The current state.
    pub fn state(&self) -> (s: &DevToolsState)
        ensures
            *s == self@.state,
    {
        &self.state
    }

    /// The configuration.
    pub fn config(&self) -> (c: &DevToolsConfig)
        ensures
            *c == self@.config,
    {
        &self.config
    }

    /// Whether the panel is shown.
    pub fn is_visible(&self) -> (b: bool)
        ensures
            b == self@.state.visible,
    {
        self.state.visible
    }

    /// Show the panel.
    pub fn show_panel(&mut self)
        ensures
            final(self)@ == (DevToolsPanelView {
                state: DevToolsState { visible: true, ..old(self)@.state },
                ..old(self)@
            }),
    {
        self.state.visible = true;
    }

    /// Hide the panel.
    pub fn hide_panel(&mut self)
        ensures
            final(self)@ == (DevToolsPanelView {
                state: DevToolsState { visible: false, ..old(self)@.state },
                ..old(self)@
            }),
    {
        self.state.visible = false;
    }

    /// Show the panel when hidden, hide it when shown.
    pub fn toggle(&mut self)
        ensures
            final(self)@ == (DevToolsPanelView {
                state: DevToolsState { visible: !old(self)@.state.visible, ..old(self)@.state },
                ..old(self)@
            }),
    {
        self.state.visible = !self.state.visible;
    }

    /// The selected tab.
    pub fn current_tab(&self) -> (t: DevToolsTab)
        ensures
            t == self@.state.current_tab,
    {
        self.state.current_tab
    }

    /// Select a tab.
    pub fn set_tab(&mut self, tab: DevToolsTab)
        ensures
            final(self)@ == (DevToolsPanelView {
                state: DevToolsState { current_tab: tab, ..old(self)@.state },
                ..old(self)@
            }),
    {
        self.state.current_tab = tab;
    }

    /// The dock position.
    pub fn dock_position(&self) -> (d: DockPosition)
        ensures
            d == self@.state.dock_position,
    {
        self.state.dock_position
    }

    /// Set the dock position.
    pub fn set_dock_position(&mut self, position: DockPosition)
        ensures
            final(self)@ == (DevToolsPanelView {
                state: DevToolsState { dock_position: position, ..old(self)@.state },
                ..old(self)@
            }),
    {
        self.state.dock_position = position;
    }

    /// Append a console message, dropping the oldest beyond the limit.
    pub fn add_console_message(&mut self, message: ConsoleMessage)
        ensures
            final(self)@ == (DevToolsPanelView {
                console: keep_last(
                    old(self)@.console.push(message),
                    old(self)@.config.max_console_messages as nat,
                ),
                ..old(self)@
            }),
    {
        self.console_messages.push(message);
        let n = self.console_messages.len();
        let max = self.config.max_console_messages;
        if n > max {
            drop_front(&mut self.console_messages, n - max);
        }
    }

    /// Log a message.
    pub fn console_log(&mut self, message: &str)
        ensures
            logged(old(self)@, final(self)@, ConsoleLevel::Log, message@),
    {
        let m = ConsoleMessage::log(message);
        self.add_console_message(m);
    }

    /// Log an info message.
    pub fn console_info(&mut self, message: &str)
        ensures
            logged(old(self)@, final(self)@, ConsoleLevel::Info, message@),
    {
        let m = ConsoleMessage::info(message);
        self.add_console_message(m);
    }

    /// Log a warning.
    pub fn console_warn(&mut self, message: &str)
        ensures
            logged(old(self)@, final(self)@, ConsoleLevel::Warn, message@),
    {
        let m = ConsoleMessage::warn(message);
        self.add_console_message(m);
    }

    /// Log an error.
    pub fn console_error(&mut self, message: &str)
        ensures
            logged(old(self)@, final(self)@, ConsoleLevel::Error, message@),
    {
        let m = ConsoleMessage::error(message);
        self.add_console_message(m);
    }

    /// Log a debug message.
    pub fn console_debug(&mut self, message: &str)
        ensures
            logged(old(self)@, final(self)@, ConsoleLevel::Debug, message@),
    {
        let m = ConsoleMessage::debug(message);
        self.add_console_message(m);
    }

    /// Remove every console message.
    pub fn clear_console(&mut self)
        ensures
            final(self)@ == (DevToolsPanelView { console: Seq::empty(), ..old(self)@ }),
    {
        self.console_messages.clear();
    }

    /// The console messages, oldest first.
    pub fn console_messages(&self) -> (r: &[ConsoleMessage])
        ensures
            r@ == self@.console,
    {
        self.console_messages.as_slice()
    }

    /// The console messages that pass the console filter, oldest first.
    pub fn filtered_console_messages(&self) -> (r: Vec<&ConsoleMessage>)
        ensures
            r@.len() == select(self@.console, console_matches(self@.config.console_filter@)).len(),
            forall|i: int|
                0 <= i < r@.len() ==> *r@[i] == select(
                    self@.console,
                    console_matches(self@.config.console_filter@),
                )[i],
    {
        let filter_chars = chars_of(self.config.console_filter.as_str());
        let empty = filter_chars.len() == 0;
        let lower_filter = if empty {
            Vec::new()
        } else {
            let l = to_lowercase(self.config.console_filter.as_str());
            chars_of(l.as_str())
        };
        let ghost f = console_matches(self.config.console_filter@);
        let mut r: Vec<&ConsoleMessage> = Vec::new();
        let n = self.console_messages.len();
        let mut i: usize = 0;
        while i < n
            invariant
                n == self.console_messages@.len(),
                f == console_matches(self.config.console_filter@),
                empty == (self.config.console_filter@.len() == 0),
                !empty ==> lower_filter@ == lowercase_of(self.config.console_filter@),
                i <= n,
                r@.len() == select(self.console_messages@.take(i as int), f).len(),
                forall|k: int|
                    0 <= k < r@.len() ==> *r@[k] == select(self.console_messages@.take(i as int), f)[k],
            decreases n - i,
        {
            proof {
                assert(self.console_messages@.take(i + 1).drop_last() =~= self.console_messages@.take(
                    i as int,
                ));
            }
            let m = &self.console_messages[i];
            let keep = empty || holds_filter(&m.message, &lower_filter);
            if keep {
                r.push(m);
            }
            i += 1;
        }
        proof {
            assert(self.console_messages@.take(n as int) =~= self.console_messages@);
        }
        r
    }

    /// Set the console filter text.
    pub fn set_console_filter(&mut self, filter: String)
        ensures
            final(self)@ == (DevToolsPanelView {
                config: DevToolsConfig { console_filter: filter, ..old(self)@.config },
                ..old(self)@
            }),
    {
        self.config.console_filter = filter;
    }

    /// Start tracking a request; it gets the next identifier, which is
    /// returned, and the oldest entries beyond the limit are dropped.
    pub fn add_network_request(&mut self, method: HttpMethod, url: &str) -> (id: u64)
        requires
            old(self)@.next_network_id < u64::MAX,
        ensures
            id == old(self)@.next_network_id,
            final(self)@.next_network_id == id + 1,
            final(self)@.config == old(self)@.config,
            final(self)@.state == old(self)@.state,
            final(self)@.console == old(self)@.console,
            exists|e: NetworkInspectorEntry|
                #![trigger old(self)@.network.push(e)]
                e.id == id && e.method == method && e.url@ == url@ && e.status
                    == NetworkStatus::Pending && e.content_type is None && final(self)@.network
                    == keep_last(old(self)@.network.push(e), old(self)@.config.max_network_entries as nat),
    {
        let id = self.next_network_id;
        self.next_network_id = self.next_network_id + 1;
        let entry = NetworkInspectorEntry::new(id, method, url);
        let ghost e = entry;
        self.network_entries.push(entry);
        let n = self.network_entries.len();
        let max = self.config.max_network_entries;
        if n > max {
            drop_front(&mut self.network_entries, n - max);
        }
        assert(self.network_entries@ == keep_last(old(self).network_entries@.push(e), max as nat));
        assert(e.id == id && e.method == method && e.url@ == url@ && e.status
            == NetworkStatus::Pending && e.content_type is None && self@.network == keep_last(
            old(self)@.network.push(e),
            old(self)@.config.max_network_entries as nat,
        ));
        id
    }

    fn network_position(&self, id: u64) -> (r: Option<usize>)
        ensures
            match r {
                Some(i) => entry_position(self@.network, id) == Some(i as int) && i < self@.network.len(),
                None => entry_position(self@.network, id) is None,
            },
    {
        let n = self.network_entries.len();
        let mut i: usize = 0;
        while i < n
            invariant
                n == self.network_entries@.len(),
                i <= n,
                forall|j: int| 0 <= j < i ==> self.network_entries@[j].id != id,
            decreases n - i,
        {
            if self.network_entries[i].id == id {
                proof {
                    lemma_first_match_at(self.network_entries@, entry_id_is(id), i as int);
                }
                return Some(i);
            }
            i += 1;
        }
        proof {
            lemma_first_match_none(self.network_entries@, entry_id_is(id));
        }
        None
    }

    /// Record the completion of the first request with this identifier; no
    /// change when there is none.
    pub fn complete_network_request(
        &mut self,
        id: u64,
        status_code: u16,
        content_type: Option<String>,
    )
        ensures
            final(self)@ == (DevToolsPanelView {
                network: match entry_position(old(self)@.network, id) {
                    Some(i) => old(self)@.network.update(
                        i,
                        NetworkInspectorEntry {
                            status: NetworkStatus::Complete(status_code),
                            content_type,
                            ..old(self)@.network[i]
                        },
                    ),
                    None => old(self)@.network,
                },
                ..old(self)@
            }),
    {
        match self.network_position(id) {
            Some(i) => {
                let mut e = self.network_entries.remove(i);
                e.complete(status_code, content_type);
                self.network_entries.insert(i, e);
                proof {
                    assert(self.network_entries@ =~= old(self).network_entries@.update(
                        i as int,
                        NetworkInspectorEntry {
                            status: NetworkStatus::Complete(status_code),
                            content_type,
                            ..old(self).network_entries@[i as int]
                        },
                    ));
                }
            },
            None => {},
        }
    }

    /// Record the failure of the first request with this identifier; no
    /// change when there is none.
    pub fn fail_network_request(&mut self, id: u64, error: String)
        ensures
            final(self)@ == (DevToolsPanelView {
                network: match entry_position(old(self)@.network, id) {
                    Some(i) => old(self)@.network.update(
                        i,
                        NetworkInspectorEntry {
                            status: NetworkStatus::Failed(error),
                            ..old(self)@.network[i]
                        },
                    ),
                    None => old(self)@.network,
                },
                ..old(self)@
            }),
    {
        match self.network_position(id) {
            Some(i) => {
                let mut e = self.network_entries.remove(i);
                e.fail(error);
                self.network_entries.insert(i, e);
                proof {
                    assert(self.network_entries@ =~= old(self).network_entries@.update(
                        i as int,
                        NetworkInspectorEntry {
                            status: NetworkStatus::Failed(error),
                            ..old(self).network_entries@[i as int]
                        },
                    ));
                }
            },
            None => {},
        }
    }

    /// Remove every network entry.
    pub fn clear_network(&mut self)
        ensures
            final(self)@ == (DevToolsPanelView { network: Seq::empty(), ..old(self)@ }),
    {
        self.network_entries.clear();
    }

    /// The network entries, oldest first.
    pub fn network_entries(&self) -> (r: &[NetworkInspectorEntry])
        ensures
            r@ == self@.network,
    {
        self.network_entries.as_slice()
    }

    /// The network entries that pass the network filter, oldest first.
    pub fn filtered_network_entries(&self) -> (r: Vec<&NetworkInspectorEntry>)
        ensures
            r@.len() == select(self@.network, network_matches(self@.config.network_filter@)).len(),
            forall|i: int|
                0 <= i < r@.len() ==> *r@[i] == select(
                    self@.network,
                    network_matches(self@.config.network_filter@),
                )[i],
    {
        let filter_chars = chars_of(self.config.network_filter.as_str());
        let empty = filter_chars.len() == 0;
        let lower_filter = if empty {
            Vec::new()
        } else {
            let l = to_lowercase(self.config.network_filter.as_str());
            chars_of(l.as_str())
        };
        let ghost f = network_matches(self.config.network_filter@);
        let mut r: Vec<&NetworkInspectorEntry> = Vec::new();
        let n = self.network_entries.len();
        let mut i: usize = 0;
        while i < n
            invariant
                n == self.network_entries@.len(),
                f == network_matches(self.config.network_filter@),
                empty == (self.config.network_filter@.len() == 0),
                !empty ==> lower_filter@ == lowercase_of(self.config.network_filter@),
                i <= n,
                r@.len() == select(self.network_entries@.take(i as int), f).len(),
                forall|k: int|
                    0 <= k < r@.len() ==> *r@[k] == select(self.network_entries@.take(i as int), f)[k],
            decreases n - i,
        {
            proof {
                assert(self.network_entries@.take(i + 1).drop_last() =~= self.network_entries@.take(
                    i as int,
                ));
            }
            let e = &self.network_entries[i];
            let keep = empty || holds_filter(&e.url, &lower_filter);
            if keep {
                r.push(e);
            }
            i += 1;
        }
        proof {
            assert(self.network_entries@.take(n as int) =~= self.network_entries@);
        }
        r
    }

    /// Set the network filter text.
    pub fn set_network_filter(&mut self, filter: String)
        ensures
            final(self)@ == (DevToolsPanelView {
                config: DevToolsConfig { network_filter: filter, ..old(self)@.config },
                ..old(self)@
            }),
    {
        self.config.network_filter = filter;
    }

    /// Select a network entry for the detail view, or none.
    pub fn select_network_entry(&mut self, id: Option<u64>)
        ensures
            final(self)@ == (DevToolsPanelView {
                state: DevToolsState { selected_network_entry: id, ..old(self)@.state },
                ..old(self)@
            }),
    {
        self.state.selected_network_entry = id;
    }

    /// On navigation both logs are cleared, unless logs are preserved.
    pub fn on_navigation(&mut self)
        ensures
            final(self)@ == if old(self)@.config.preserve_log {
                old(self)@
            } else {
                DevToolsPanelView { console: Seq::empty(), network: Seq::empty(), ..old(self)@ }
            },
    {
        if !self.config.preserve_log {
            self.clear_console();
            self.clear_network();
        }
    }
}

impl Default for DevToolsPanel {
    /// A panel with the default configuration.
    fn default() -> (p: Self)
        ensures
            p@.console.len() == 0,
            p@.network.len() == 0,
            p@.next_network_id == 1,
            !p@.state.visible,
            p@.state.current_tab == DevToolsTab::Console,
            p@.state.dock_position == DockPosition::Bottom,
            !p@.config.preserve_log,
            p@.config.max_console_messages == 1000,
            p@.config.max_network_entries == 500,
    {
        DevToolsPanel::new(DevToolsConfig::default())
    }
}

/// The status as the request details write it.
pub open spec fn status_detail_spec(s: NetworkStatus) -> Seq<char> {
    match s {
        NetworkStatus::Pending => "Pending"@,
        NetworkStatus::Complete(code) => decimal(code as nat),
        NetworkStatus::Failed(e) => "Failed: "@ + e@,
        NetworkStatus::Cancelled => "Cancelled"@,
    }
}

impl NetworkStatus {
    /// The status as the request details write it.
    pub fn detail_text(&self) -> (t: String)
        ensures
            t@ == status_detail_spec(*self),
    {
        match self {
            NetworkStatus::Pending => String::from_str("Pending"),
            NetworkStatus::Complete(code) => decimal_string(*code as u64),
            NetworkStatus::Failed(e) => {
                let mut t = String::from_str("Failed: ");
                t.append(e.as_str());
                t
            },
            NetworkStatus::Cancelled => String::from_str("Cancelled"),
        }
    }
}

/// Where a message was logged: "source:line", or the source alone when the
/// line is not known; nothing when the source is not known.
pub open spec fn location_spec(m: ConsoleMessage) -> Option<Seq<char>> {
    match m.source {
        Some(src) => Some(
            match m.line {
                Some(l) => src@ + ":"@ + decimal(l as nat),
                None => src@,
            },
        ),
        None => None,
    }
}

impl ConsoleMessage {
    /// Where the message was logged, as shown beside it.
    pub fn location(&self) -> (r: Option<String>)
        ensures
            match r {
                Some(t) => location_spec(*self) == Some(t@),
                None => location_spec(*self) is None,
            },
    {
        match &self.source {
            Some(src) => {
                let mut t = src.clone();
                match self.line {
                    Some(l) => {
                        t.append(":");
                        let digits = decimal_string(l as u64);
                        t.append(digits.as_str());
                    },
                    None => {},
                }
                Some(t)
            },
            None => None,
        }
    }
}

impl DevToolsPanel {
    /// Keep or drop the logs on navigation.
    pub fn set_preserve_log(&mut self, preserve: bool)
        ensures
            final(self)@ == (DevToolsPanelView {
                config: DevToolsConfig { preserve_log: preserve, ..old(self)@.config },
                ..old(self)@
            }),
    {
        self.config.preserve_log = preserve;
    }

    /// Whether the console follows new messages.
    pub fn set_console_auto_scroll(&mut self, follow: bool)
        ensures
            final(self)@ == (DevToolsPanelView {
                state: DevToolsState { console_auto_scroll: follow, ..old(self)@.state },
                ..old(self)@
            }),
    {
        self.state.console_auto_scroll = follow;
    }

    /// The entry whose details are shown: the selected one, when it passes
    /// the network filter.
    pub fn selected_network_details(&self) -> (r: Option<&NetworkInspectorEntry>)
        ensures
            match self@.state.selected_network_entry {
                Some(id) => match first_match(
                    select(self@.network, network_matches(self@.config.network_filter@)),
                    entry_id_is(id),
                ) {
                    Some(i) => r matches Some(e) && *e == select(
                        self@.network,
                        network_matches(self@.config.network_filter@),
                    )[i],
                    None => r is None,
                },
                None => r is None,
            },
    {
        let id = match self.state.selected_network_entry {
            Some(id) => id,
            None => return None,
        };
        let shown = self.filtered_network_entries();
        let ghost sel = select(self@.network, network_matches(self@.config.network_filter@));
        let n = shown.len();
        let mut i: usize = 0;
        while i < n
            invariant
                n == shown@.len(),
                n == sel.len(),
                self@.state.selected_network_entry == Some(id),
                sel == select(self@.network, network_matches(self@.config.network_filter@)),
                forall|k: int| 0 <= k < n ==> *shown@[k] == sel[k],
                i <= n,
                forall|k: int| 0 <= k < i ==> sel[k].id != id,
            decreases n - i,
        {
            if shown[i].id == id {
                proof {
                    lemma_first_match_at(sel, entry_id_is(id), i as int);
                }
                return Some(shown[i]);
            }
            i += 1;
        }
        proof {
            lemma_first_match_none(sel, entry_id_is(id));
        }
        None
    }
}

} // verus!
