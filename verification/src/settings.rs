//! The settings panel's state: the selected tab and a local cache of
//! setting values with a flag for unsaved changes.
use vstd::prelude::*;
use crate::seqs::{first_match, lemma_first_match, lemma_first_match_at, lemma_first_match_none};
use crate::text::{
    chars_eq, chars_of, contains_seq, find_seq, replace_all, replace_all_chars, string_from_chars,
};
use crate::theme::SettingsTab;

verus! {

/// The value of one setting.
#[derive(Debug, PartialEq, Eq)]
pub enum SettingValue {
    String(String),
    Boolean(bool),
    Integer(i64),
}

/// The abstract value of a `SettingValue`.
pub enum SettingValueView {
    String(Seq<char>),
    Boolean(bool),
    Integer(i64),
}

impl View for SettingValue {
    type V = SettingValueView;

    open spec fn view(&self) -> SettingValueView {
        match self {
            SettingValue::String(s) => SettingValueView::String(s@),
            SettingValue::Boolean(b) => SettingValueView::Boolean(*b),
            SettingValue::Integer(i) => SettingValueView::Integer(*i),
        }
    }
}

impl Clone for SettingValue {
    fn clone(&self) -> (r: Self)
        ensures
            r@ == self@,
    {
        match self {
            SettingValue::String(s) => SettingValue::String(s.clone()),
            SettingValue::Boolean(b) => SettingValue::Boolean(*b),
            SettingValue::Integer(i) => SettingValue::Integer(*i),
        }
    }
}

/// The cached settings as key and value views.
pub open spec fn cache_view(v: Seq<(String, SettingValue)>) -> Seq<(Seq<char>, SettingValueView)> {
    v.map_values(|e: (String, SettingValue)| (e.0@, e.1@))
}

/// The entry is for this key.
pub open spec fn key_is<V>(key: Seq<char>) -> spec_fn((Seq<char>, V)) -> bool {
    |e: (Seq<char>, V)| e.0 == key
}

/// The value stored under a key, if any.
pub open spec fn lookup<V>(cache: Seq<(Seq<char>, V)>, key: Seq<char>) -> Option<V> {
    match first_match(cache, key_is(key)) {
        Some(i) => Some(cache[i].1),
        None => None,
    }
}

/// The entries with `key` set to `value`, replacing its old value.
pub open spec fn stored<V>(cache: Seq<(Seq<char>, V)>, key: Seq<char>, value: V) -> Seq<
    (Seq<char>, V),
> {
    match first_match(cache, key_is(key)) {
        Some(i) => cache.update(i, (key, value)),
        None => cache.push((key, value)),
    }
}

/// The abstract state of a `SettingsUi`.
pub struct SettingsUiView {
    pub current_tab: SettingsTab,
    pub cache: Seq<(Seq<char>, SettingValueView)>,
    pub has_unsaved_changes: bool,
}

/// State of the settings panel.
#[derive(Debug)]
pub struct SettingsUi {
    /// The selected tab.
    pub current_tab: SettingsTab,
    /// Local copies of the settings, by key.
    settings_cache: Vec<(String, SettingValue)>,
    /// Whether settings changed since they were last loaded or saved.
    pub has_unsaved_changes: bool,
}

impl View for SettingsUi {
    type V = SettingsUiView;

    closed spec fn view(&self) -> SettingsUiView {
        SettingsUiView {
            current_tab: self.current_tab,
            cache: cache_view(self.settings_cache@),
            has_unsaved_changes: self.has_unsaved_changes,
        }
    }
}

impl Default for SettingsUi {
    /// The general tab, nothing cached, nothing unsaved.
    fn default() -> (u: Self)
        ensures
            u@.current_tab == SettingsTab::General,
            u@.cache.len() == 0,
            !u@.has_unsaved_changes,
    {
        let u = SettingsUi {
            current_tab: SettingsTab::General,
            settings_cache: Vec::new(),
            has_unsaved_changes: false,
        };
        proof {
            assert(u@.cache =~= Seq::<(Seq<char>, SettingValueView)>::empty());
        }
        u
    }
}

impl SettingsUi {
    /// The general tab, nothing cached, nothing unsaved.
    pub fn new() -> (u: Self)
        ensures
            u@.current_tab == SettingsTab::General,
            u@.cache.len() == 0,
            !u@.has_unsaved_changes,
    {
        Self::default()
    }

    /// Replace the cache with these settings; nothing is unsaved.
    pub fn load_settings(&mut self, settings: Vec<(String, SettingValue)>)
        ensures
            final(self)@ == (SettingsUiView {
                cache: cache_view(settings@),
                has_unsaved_changes: false,
                ..old(self)@
            }),
    {
        self.settings_cache = settings;
        self.has_unsaved_changes = false;
    }

    /// The cached settings, for saving.
    pub fn get_all_settings(&self) -> (r: &Vec<(String, SettingValue)>)
        ensures
            cache_view(r@) == self@.cache,
    {
        &self.settings_cache
    }

    /// Whether settings changed since they were last loaded or saved.
    pub fn has_unsaved(&self) -> (b: bool)
        ensures
            b == self@.has_unsaved_changes,
    {
        self.has_unsaved_changes
    }

    /// The settings were saved.
    pub fn mark_saved(&mut self)
        ensures
            final(self)@ == (SettingsUiView { has_unsaved_changes: false, ..old(self)@ }),
    {
        self.has_unsaved_changes = false;
    }

    fn position(&self, key: &str) -> (r: Option<usize>)
        ensures
            match r {
                Some(i) => first_match(self@.cache, key_is(key@)) == Some(i as int) && i
                    < self@.cache.len(),
                None => first_match(self@.cache, key_is(key@)) is None,
            },
    {
        let k = chars_of(key);
        let n = self.settings_cache.len();
        let mut i: usize = 0;
        while i < n
            invariant
                n == self.settings_cache@.len(),
                i <= n,
                k@ == key@,
                forall|j: int| 0 <= j < i ==> self@.cache[j].0 != key@,
            decreases n - i,
        {
            let c = chars_of(self.settings_cache[i].0.as_str());
            if chars_eq(&c, &k) {
                proof {
                    assert(self@.cache[i as int].0 == key@);
                    lemma_first_match_at(self@.cache, key_is(key@), i as int);
                }
                return Some(i);
            }
            i += 1;
        }
        proof {
            lemma_first_match_none(self@.cache, key_is(key@));
        }
        None
    }

    /// Set a setting in the cache; the change is unsaved.
    pub fn update_setting(&mut self, key: String, value: SettingValue)
        ensures
            final(self)@ == (SettingsUiView {
                cache: stored(old(self)@.cache, key@, value@),
                has_unsaved_changes: true,
                ..old(self)@
            }),
    {
        let ghost kv = key@;
        let ghost vv = value@;
        match self.position(key.as_str()) {
            Some(i) => {
                self.settings_cache.set(i, (key, value));
                proof {
                    assert(self@.cache =~= old(self)@.cache.update(i as int, (kv, vv)));
                }
            },
            None => {
                self.settings_cache.push((key, value));
                proof {
                    assert(self@.cache =~= old(self)@.cache.push((kv, vv)));
                }
            },
        }
        self.has_unsaved_changes = true;
    }

    /// The cached value of a setting, if any.
    pub fn get_setting(&self, key: &str) -> (r: Option<&SettingValue>)
        ensures
            match lookup(self@.cache, key@) {
                Some(v) => r matches Some(x) && x@ == v,
                None => r is None,
            },
    {
        match self.position(key) {
            Some(i) => Some(&self.settings_cache[i].1),
            None => None,
        }
    }

    /// A text setting, or `default` when it is missing or not text.
    pub fn get_string(&self, key: &str, default: &str) -> (r: String)
        ensures
            r@ == match lookup(self@.cache, key@) {
                Some(SettingValueView::String(s)) => s,
                _ => default@,
            },
    {
        match self.get_setting(key) {
            Some(SettingValue::String(s)) => s.clone(),
            _ => String::from_str(default),
        }
    }

    /// A yes/no setting, or `default` when it is missing or not yes/no.
    pub fn get_bool(&self, key: &str, default: bool) -> (r: bool)
        ensures
            r == match lookup(self@.cache, key@) {
                Some(SettingValueView::Boolean(b)) => b,
                _ => default,
            },
    {
        match self.get_setting(key) {
            Some(SettingValue::Boolean(b)) => *b,
            _ => default,
        }
    }

    /// A whole-number setting, or `default` when it is missing or not a
    /// number.
    pub fn get_int(&self, key: &str, default: i64) -> (r: i64)
        ensures
            r == match lookup(self@.cache, key@) {
                Some(SettingValueView::Integer(i)) => i,
                _ => default,
            },
    {
        match self.get_setting(key) {
            Some(SettingValue::Integer(i)) => *i,
            _ => default,
        }
    }
}

/// A value just stored under a key is read back under that key.
pub proof fn law_read_after_update<V>(cache: Seq<(Seq<char>, V)>, key: Seq<char>, value: V)
    ensures
        lookup(stored(cache, key, value), key) == Some(value),
{
    lemma_first_match(cache, key_is(key));
    let c = stored(cache, key, value);
    match first_match(cache, key_is(key)) {
        Some(i) => {
            lemma_first_match_at(c, key_is(key), i);
        },
        None => {
            lemma_first_match_at(c, key_is(key), cache.len() as int);
        },
    }
}

/// Storing a value under one key leaves every other key as it was.
pub proof fn law_update_leaves_other_keys<V>(
    cache: Seq<(Seq<char>, V)>,
    key: Seq<char>,
    value: V,
    other: Seq<char>,
)
    requires
        other != key,
    ensures
        lookup(stored(cache, key, value), other) == lookup(cache, other),
{
    lemma_first_match(cache, key_is(key));
    lemma_first_match(cache, key_is(other));
    let c = stored(cache, key, value);
    match first_match(cache, key_is(other)) {
        Some(i) => {
            lemma_first_match_at(c, key_is(other), i);
        },
        None => {
            assert forall|j: int| 0 <= j < c.len() implies !key_is(other)(#[trigger] c[j]) by {
                if j < cache.len() {
                    assert(!key_is(other)(cache[j]));
                }
            }
            lemma_first_match_none(c, key_is(other));
        },
    }
}

/// The ad-blocker's filter-list setting with the list `name` switched on
/// (appended after a comma) or off (every occurrence removed, then doubled
/// commas merged into one).
pub open spec fn filter_lists_toggled(lists: Seq<char>, name: Seq<char>, on: bool) -> Seq<char> {
    if on {
        lists + ","@ + name
    } else {
        replace_all(replace_all(lists, name, Seq::empty()), ",,"@, ","@)
    }
}

/// Whether the filter-list setting names the list `name`.
pub fn filter_list_enabled(lists: &str, name: &str) -> (b: bool)
    ensures
        b == contains_seq(lists@, name@),
{
    let l = chars_of(lists);
    let n = chars_of(name);
    find_seq(&l, &n).is_some()
}

/// The filter-list setting with the list `name` switched on or off.
pub fn toggle_filter_list(lists: &str, name: &str, on: bool) -> (r: String)
    ensures
        r@ == filter_lists_toggled(lists@, name@, on),
{
    if on {
        let mut r = String::from_str(lists);
        r.append(",");
        r.append(name);
        return r;
    }
    let l = chars_of(lists);
    let n = chars_of(name);
    let without = if n.len() == 0 {
        l
    } else {
        let empty: Vec<char> = Vec::new();
        replace_all_chars(&l, &n, &empty)
    };
    let mut double: Vec<char> = Vec::new();
    double.push(',');
    double.push(',');
    let mut single: Vec<char> = Vec::new();
    single.push(',');
    proof {
        assert(double@ =~= ",,"@) by {
            reveal_strlit(",,");
        }
        assert(single@ =~= ","@) by {
            reveal_strlit(",");
        }
        assert(n@.len() == 0 ==> replace_all(lists@, name@, Seq::<char>::empty()) == lists@);
    }
    let merged = replace_all_chars(&without, &double, &single);
    string_from_chars(merged.as_slice())
}

} // verus!
