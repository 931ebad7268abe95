//! Keyboard shortcut registration and matching.
use vstd::prelude::*;
use crate::seqs::{first_match, lemma_first_match, lemma_first_match_at, lemma_first_match_none};
use crate::text::{chars_eq, chars_of};

verus! {

/// Key modifier state.
#[derive(Debug, Clone, Copy, PartialEq, Eq, Hash, Structural)]
pub struct KeyModifiers {
    pub ctrl: bool,
    pub alt: bool,
    pub shift: bool,
    pub meta: bool,
}

/// Actions triggered by keyboard shortcuts.
#[derive(Debug, Clone, Copy, PartialEq, Eq, Structural)]
pub enum ShortcutAction {
    NewWindow,
    NewTab,
    CloseTab,
    CloseWindow,
    Reload,
    ReloadIgnoreCache,
    Stop,
    GoBack,
    GoForward,
    ZoomIn,
    ZoomOut,
    ZoomReset,
    ToggleFullscreen,
    Find,
    FindNext,
    FindPrevious,
    ShowDevTools,
    ShowBookmarks,
    ShowHistory,
    ShowDownloads,
    FocusAddressBar,
    Quit,
}

/// Error types for shortcut operations.
#[derive(Debug, Clone, Copy, PartialEq, Eq, Structural)]
pub enum ShortcutError {
    ShortcutNotFound,
    DuplicateShortcut,
}

impl ShortcutError {
    /// The message of this error.
    pub fn message(&self) -> (s: &'static str)
        ensures
            s@ == match self {
                ShortcutError::ShortcutNotFound => "Shortcut not found"@,
                ShortcutError::DuplicateShortcut => "Shortcut already registered"@,
            },
    {
        match self {
            ShortcutError::ShortcutNotFound => "Shortcut not found",
            ShortcutError::DuplicateShortcut => "Shortcut already registered",
        }
    }
}

/// A registered shortcut: key, modifiers and action.
pub type ShortcutEntry = (Seq<char>, KeyModifiers, ShortcutAction);

/// The first entry of `entries` for this key and these modifiers.
pub open spec fn entry_position(entries: Seq<ShortcutEntry>, key: Seq<char>, m: KeyModifiers) -> Option<
    int,
> {
    first_match(entries, key_is(key, m))
}

/// The entry binds this key and these modifiers.
pub open spec fn key_is(key: Seq<char>, m: KeyModifiers) -> spec_fn(ShortcutEntry) -> bool {
    |e: ShortcutEntry| e.0 == key && e.1 == m
}

/// The action bound to this key and these modifiers.
pub open spec fn lookup(entries: Seq<ShortcutEntry>, key: Seq<char>, m: KeyModifiers) -> Option<
    ShortcutAction,
> {
    match entry_position(entries, key, m) {
        Some(i) => Some(entries[i].2),
        None => None,
    }
}

/// No key and modifiers are bound twice.
pub open spec fn distinct_keys(entries: Seq<ShortcutEntry>) -> bool {
    forall|i: int, j: int|
        0 <= i < j < entries.len() ==> !(#[trigger] entries[i].0 == #[trigger] entries[j].0
            && entries[i].1 == entries[j].1)
}

/// The bindings after binding `key` with `m` to `action`: an existing binding
/// is replaced in place, a new one is added at the end.
pub open spec fn registered(
    entries: Seq<ShortcutEntry>,
    key: Seq<char>,
    m: KeyModifiers,
    action: ShortcutAction,
) -> Seq<ShortcutEntry> {
    match entry_position(entries, key, m) {
        Some(i) => entries.update(i, (key, m, action)),
        None => entries.push((key, m, action)),
    }
}

/// Shortcut handler state.
#[derive(Debug)]
pub struct ShortcutHandler {
    shortcuts: Vec<(String, KeyModifiers, ShortcutAction)>,
}

impl View for ShortcutHandler {
    type V = Seq<ShortcutEntry>;

    closed spec fn view(&self) -> Seq<ShortcutEntry> {
        self.shortcuts@.map_values(|e: (String, KeyModifiers, ShortcutAction)| (e.0@, e.1, e.2))
    }
}

/// Binding a key keeps every other binding and sets this one.
pub proof fn lemma_registered_lookup(
    entries: Seq<ShortcutEntry>,
    key: Seq<char>,
    m: KeyModifiers,
    action: ShortcutAction,
    k2: Seq<char>,
    m2: KeyModifiers,
)
    requires
        distinct_keys(entries),
    ensures
        distinct_keys(registered(entries, key, m, action)),
        lookup(registered(entries, key, m, action), k2, m2) == if k2 == key && m2 == m {
            Some(action)
        } else {
            lookup(entries, k2, m2)
        },
{
    let f = key_is(key, m);
    let g = key_is(k2, m2);
    lemma_first_match(entries, f);
    lemma_first_match(entries, g);
    let r = registered(entries, key, m, action);
    lemma_first_match(r, g);
    match first_match(entries, f) {
        Some(i) => {
            assert(f(entries[i]));
            assert(r[i] == (key, m, action));
            assert forall|a: int, b: int| 0 <= a < b < r.len() implies !(#[trigger] r[a].0
                == #[trigger] r[b].0 && r[a].1 == r[b].1) by {
                assert(r[a].0 == entries[a].0 && r[a].1 == entries[a].1);
                assert(r[b].0 == entries[b].0 && r[b].1 == entries[b].1);
            }
            if k2 == key && m2 == m {
                lemma_first_match_at(r, g, i);
            } else {
                assert forall|j: int| 0 <= j < r.len() implies (g(r[j]) == g(entries[j])) by {
                    if j == i {
                        assert(!g(r[j]));
                        assert(!g(entries[j]));
                    }
                }
                match first_match(entries, g) {
                    Some(j) => {
                        lemma_first_match_at(r, g, j);
                    },
                    None => {
                        lemma_first_match_none(r, g);
                    },
                }
            }
        },
        None => {
            let n = entries.len() as int;
            assert(r[n] == (key, m, action));
            assert forall|a: int, b: int| 0 <= a < b < r.len() implies !(#[trigger] r[a].0
                == #[trigger] r[b].0 && r[a].1 == r[b].1) by {
                assert(r[a] == entries[a]);
                if b == n {
                    assert(!f(entries[a]));
                } else {
                    assert(r[b] == entries[b]);
                }
            }
            if k2 == key && m2 == m {
                assert forall|j: int| 0 <= j < n implies !g(#[trigger] r[j]) by {
                    assert(r[j] == entries[j]);
                    assert(!f(entries[j]));
                }
                lemma_first_match_at(r, g, n);
            } else {
                assert forall|j: int| 0 <= j < r.len() implies (g(r[j]) == (j < n && g(
                    entries[j],
                ))) by {
                    if j < n {
                        assert(r[j] == entries[j]);
                    }
                }
                match first_match(entries, g) {
                    Some(j) => {
                        lemma_first_match_at(r, g, j);
                    },
                    None => {
                        lemma_first_match_none(r, g);
                    },
                }
            }
        },
    }
}

impl ShortcutHandler {
    /// No key and modifiers are bound twice.
    pub open spec fn wf(&self) -> bool {
        distinct_keys(self@)
    }

    /// A handler with no shortcuts.
    pub fn new() -> (h: ShortcutHandler)
        ensures
            h.wf(),
            h@ == Seq::<ShortcutEntry>::empty(),
    {
        let h = ShortcutHandler { shortcuts: Vec::new() };
        assert(h@ =~= Seq::<ShortcutEntry>::empty());
        h
    }

    /// The number of registered shortcuts.
    pub fn shortcut_count(&self) -> (n: usize)
        ensures
            n == self@.len(),
    {
        self.shortcuts.len()
    }

    /// The position of the binding for this key and these modifiers.
    fn position(&self, key: &str, modifiers: &KeyModifiers) -> (r: Option<usize>)
        ensures
            match r {
                Some(i) => entry_position(self@, key@, *modifiers) == Some(i as int) && i < self@.len(),
                None => entry_position(self@, key@, *modifiers) is None,
            },
    {
        let target = chars_of(key);
        let ghost f = key_is(key@, *modifiers);
        let n = self.shortcuts.len();
        let mut i: usize = 0;
        while i < n
            invariant
                n == self@.len(),
                n == self.shortcuts@.len(),
                i <= n,
                target@ == key@,
                f == key_is(key@, *modifiers),
                forall|j: int| 0 <= j < i ==> !f(self@[j]),
            decreases n - i,
        {
            let k = chars_of(self.shortcuts[i].0.as_str());
            assert(self@[i as int] == (self.shortcuts@[i as int].0@, self.shortcuts@[i as int].1, self.shortcuts@[i as int].2));
            if chars_eq(&k, &target) && self.shortcuts[i].1 == *modifiers {
                proof {
                    lemma_first_match_at(self@, f, i as int);
                }
                return Some(i);
            }
            i += 1;
        }
        proof {
            lemma_first_match_none(self@, f);
        }
        None
    }

    /// Bind a key with modifiers to an action, replacing an earlier binding
    /// of the same key and modifiers.
    pub fn register(&mut self, key: String, modifiers: KeyModifiers, action: ShortcutAction)
        requires
            old(self).wf(),
        ensures
            final(self).wf(),
            final(self)@ == registered(old(self)@, key@, modifiers, action),
    {
        proof {
            lemma_registered_lookup(old(self)@, key@, modifiers, action, key@, modifiers);
        }
        let ghost kv = key@;
        match self.position(key.as_str(), &modifiers) {
            Some(i) => {
                self.shortcuts.set(i, (key, modifiers, action));
                assert(self@ =~= old(self)@.update(i as int, (kv, modifiers, action)));
            },
            None => {
                self.shortcuts.push((key, modifiers, action));
                assert(self@ =~= old(self)@.push((kv, modifiers, action)));
            },
        }
    }

    /// The action bound to a key press.
    pub fn match_shortcut(&self, key: &str, modifiers: &KeyModifiers) -> (r: Option<ShortcutAction>)
        ensures
            r == lookup(self@, key@, *modifiers),
    {
        match self.position(key, modifiers) {
            Some(i) => Some(self.shortcuts[i].2),
            None => None,
        }
    }

    /// Remove the binding of a key press.
    pub fn unregister(&mut self, key: &str, modifiers: &KeyModifiers) -> (r: Result<(), ShortcutError>)
        requires
            old(self).wf(),
        ensures
            final(self).wf(),
            match entry_position(old(self)@, key@, *modifiers) {
                Some(i) => r is Ok && final(self)@ == old(self)@.remove(i),
                None => r == Err::<(), ShortcutError>(ShortcutError::ShortcutNotFound) && final(self)@
                    == old(self)@,
            },
    {
        match self.position(key, modifiers) {
            Some(i) => {
                self.shortcuts.remove(i);
                proof {
                    let o = old(self)@;
                    assert(self@ =~= o.remove(i as int));
                    let n = self@;
                    assert forall|a: int, b: int| 0 <= a < b < n.len() implies !(#[trigger] n[a].0
                        == #[trigger] n[b].0 && n[a].1 == n[b].1) by {
                        let a2 = if a < i { a } else { a + 1 };
                        let b2 = if b < i { b } else { b + 1 };
                        assert(n[a] == o[a2] && n[b] == o[b2]);
                    }
                }
                Ok(())
            },
            None => Err(ShortcutError::ShortcutNotFound),
        }
    }

    /// All bindings, in registration order.
    pub fn get_all_shortcuts(&self) -> (v: Vec<(String, KeyModifiers, ShortcutAction)>)
        ensures
            v@.len() == self@.len(),
            forall|i: int|
                0 <= i < v@.len() ==> (#[trigger] v@[i]).0@ == self@[i].0 && v@[i].1 == self@[i].1
                    && v@[i].2 == self@[i].2,
    {
        let mut v: Vec<(String, KeyModifiers, ShortcutAction)> = Vec::new();
        let n = self.shortcuts.len();
        let mut i: usize = 0;
        while i < n
            invariant
                n == self.shortcuts@.len(),
                n == self@.len(),
                i <= n,
                v@.len() == i,
                forall|j: int|
                    0 <= j < i ==> (#[trigger] v@[j]).0@ == self@[j].0 && v@[j].1 == self@[j].1
                        && v@[j].2 == self@[j].2,
            decreases n - i,
        {
            let e = &self.shortcuts[i];
            v.push((e.0.clone(), e.1, e.2));
            i += 1;
        }
        v
    }

    /// Remove every binding.
    pub fn clear(&mut self)
        ensures
            final(self).wf(),
            final(self)@ == Seq::<ShortcutEntry>::empty(),
    {
        self.shortcuts.clear();
        assert(self@ =~= Seq::<ShortcutEntry>::empty());
    }

    /// Bind the default browser shortcuts: Ctrl+N, T, W, R, L, F, +, -, 0 and
    /// Ctrl+Shift+I.
    pub fn register_defaults(&mut self)
        requires
            old(self).wf(),
        ensures
            final(self).wf(),
            final(self)@ == default_bindings(old(self)@),
    {
        let ctrl = KeyModifiers { ctrl: true, alt: false, shift: false, meta: false };
        let ctrl_shift = KeyModifiers { ctrl: true, alt: false, shift: true, meta: false };
        self.register(String::from_str("N"), ctrl, ShortcutAction::NewWindow);
        self.register(String::from_str("T"), ctrl, ShortcutAction::NewTab);
        self.register(String::from_str("W"), ctrl, ShortcutAction::CloseTab);
        self.register(String::from_str("R"), ctrl, ShortcutAction::Reload);
        self.register(String::from_str("L"), ctrl, ShortcutAction::FocusAddressBar);
        self.register(String::from_str("F"), ctrl, ShortcutAction::Find);
        self.register(String::from_str("+"), ctrl, ShortcutAction::ZoomIn);
        self.register(String::from_str("-"), ctrl, ShortcutAction::ZoomOut);
        self.register(String::from_str("0"), ctrl, ShortcutAction::ZoomReset);
        self.register(String::from_str("I"), ctrl_shift, ShortcutAction::ShowDevTools);
    }
}

/// Ctrl alone.
pub open spec fn ctrl_only() -> KeyModifiers {
    KeyModifiers { ctrl: true, alt: false, shift: false, meta: false }
}

/// The bindings after registering the default browser shortcuts in order.
pub open spec fn default_bindings(e: Seq<ShortcutEntry>) -> Seq<ShortcutEntry> {
    let e1 = registered(e, "N"@, ctrl_only(), ShortcutAction::NewWindow);
    let e2 = registered(e1, "T"@, ctrl_only(), ShortcutAction::NewTab);
    let e3 = registered(e2, "W"@, ctrl_only(), ShortcutAction::CloseTab);
    let e4 = registered(e3, "R"@, ctrl_only(), ShortcutAction::Reload);
    let e5 = registered(e4, "L"@, ctrl_only(), ShortcutAction::FocusAddressBar);
    let e6 = registered(e5, "F"@, ctrl_only(), ShortcutAction::Find);
    let e7 = registered(e6, "+"@, ctrl_only(), ShortcutAction::ZoomIn);
    let e8 = registered(e7, "-"@, ctrl_only(), ShortcutAction::ZoomOut);
    let e9 = registered(e8, "0"@, ctrl_only(), ShortcutAction::ZoomReset);
    registered(
        e9,
        "I"@,
        KeyModifiers { ctrl: true, alt: false, shift: true, meta: false },
        ShortcutAction::ShowDevTools,
    )
}

/// A binding, once registered, is found by its key and modifiers, and other
/// bindings are kept.
pub proof fn law_register_then_match(
    entries: Seq<ShortcutEntry>,
    key: Seq<char>,
    m: KeyModifiers,
    action: ShortcutAction,
    k2: Seq<char>,
    m2: KeyModifiers,
)
    requires
        distinct_keys(entries),
    ensures
        lookup(registered(entries, key, m, action), key, m) == Some(action),
        !(k2 == key && m2 == m) ==> lookup(registered(entries, key, m, action), k2, m2) == lookup(
            entries,
            k2,
            m2,
        ),
{
    lemma_registered_lookup(entries, key, m, action, key, m);
    lemma_registered_lookup(entries, key, m, action, k2, m2);
}

/// A binding, once removed, no longer matches, and every other binding
/// still matches as before.
pub proof fn law_unregister_then_no_match(
    entries: Seq<ShortcutEntry>,
    key: Seq<char>,
    m: KeyModifiers,
    k2: Seq<char>,
    m2: KeyModifiers,
)
    requires
        distinct_keys(entries),
        entry_position(entries, key, m) is Some,
    ensures
        lookup(entries.remove(entry_position(entries, key, m)->0), key, m) is None,
        !(k2 == key && m2 == m) ==> lookup(
            entries.remove(entry_position(entries, key, m)->0),
            k2,
            m2,
        ) == lookup(entries, k2, m2),
{
    lemma_first_match(entries, key_is(key, m));
    let k = entry_position(entries, key, m)->0;
    let s = entries.remove(k);
    assert forall|j: int| 0 <= j < s.len() implies !key_is(key, m)(#[trigger] s[j]) by {
        let b = if j < k { j } else { j + 1 };
        assert(s[j] == entries[b]);
    }
    lemma_first_match_none(s, key_is(key, m));
    if !(k2 == key && m2 == m) {
        lemma_first_match(entries, key_is(k2, m2));
        match entry_position(entries, k2, m2) {
            Some(q) => {
                assert(q != k);
                let p = if q < k { q } else { q - 1 };
                assert(s[p] == entries[q]);
                assert forall|j: int| 0 <= j < p implies !key_is(k2, m2)(#[trigger] s[j]) by {
                    let b = if j < k { j } else { j + 1 };
                    assert(s[j] == entries[b]);
                }
                lemma_first_match_at(s, key_is(k2, m2), p);
            },
            None => {
                assert forall|j: int| 0 <= j < s.len() implies !key_is(k2, m2)(#[trigger] s[j]) by {
                    let b = if j < k { j } else { j + 1 };
                    assert(s[j] == entries[b]);
                }
                lemma_first_match_none(s, key_is(k2, m2));
            },
        }
    }
}

} // verus!

verus! {

impl Default for ShortcutHandler {
    /// A handler with no shortcuts.
    fn default() -> (h: Self)
        ensures
            h.wf(),
            h@ == Seq::<ShortcutEntry>::empty(),
    {
        ShortcutHandler::new()
    }
}

} // verus!
