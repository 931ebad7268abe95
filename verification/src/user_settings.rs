//! Persistent key-value settings: the settings table, one row per key, and
//! the manager that checks keys before they reach it.
//!
//! The table is the state that a database holds between runs; reading it
//! from disk and writing it back happen outside this crate, which hands the
//! rows in with `SettingsStorage::load` and takes them out with `list_all`.
use vstd::prelude::*;
use crate::seqs::{first_match, lemma_first_match, lemma_first_match_at, lemma_first_match_none};
use crate::settings::{key_is, lookup, stored};
use crate::text::{chars_eq, chars_of};

verus! {

/// Why a settings operation failed.
#[derive(Debug, PartialEq, Eq)]
pub enum SettingsError {
    /// The database behind the table failed; the text says how.
    DatabaseError(String),
    /// The key cannot name a setting.
    InvalidKey(String),
    /// The value cannot be stored.
    InvalidValue(String),
}

/// The result of a settings operation.
pub type SettingsResult<T> = Result<T, SettingsError>;

/// The rows of a table as key and value views.
pub open spec fn table_view(v: Seq<(String, String)>) -> Seq<(Seq<char>, Seq<char>)> {
    v.map_values(|e: (String, String)| (e.0@, e.1@))
}

/// No key names two rows.
pub open spec fn keys_distinct(t: Seq<(Seq<char>, Seq<char>)>) -> bool {
    forall|i: int, j: int| 0 <= i < j < t.len() ==> t[i].0 != t[j].0
}

/// The table without the row for `key`.
pub open spec fn without_key(t: Seq<(Seq<char>, Seq<char>)>, key: Seq<char>) -> Seq<
    (Seq<char>, Seq<char>),
> {
    match first_match(t, key_is(key)) {
        Some(i) => t.remove(i),
        None => t,
    }
}

/// The table that storing `rows` one after another into an empty table
/// gives: a later row for a key replaces an earlier one.
pub open spec fn loaded(rows: Seq<(Seq<char>, Seq<char>)>) -> Seq<(Seq<char>, Seq<char>)>
    decreases rows.len(),
{
    if rows.len() == 0 {
        Seq::empty()
    } else {
        stored(loaded(rows.drop_last()), rows.last().0, rows.last().1)
    }
}

/// An optional text as an optional sequence of characters.
pub open spec fn opt_text(v: Option<String>) -> Option<Seq<char>> {
    match v {
        Some(s) => Some(s@),
        None => None,
    }
}

/// Storing a row keeps the keys distinct.
pub proof fn lemma_stored_distinct(t: Seq<(Seq<char>, Seq<char>)>, key: Seq<char>, value: Seq<char>)
    requires
        keys_distinct(t),
    ensures
        keys_distinct(stored(t, key, value)),
{
    lemma_first_match(t, key_is(key));
    let s = stored(t, key, value);
    match first_match(t, key_is(key)) {
        Some(k) => {
            assert forall|i: int, j: int| 0 <= i < j < s.len() implies s[i].0 != s[j].0 by {
                assert(s[i].0 == t[i].0);
                assert(s[j].0 == t[j].0);
            }
        },
        None => {
            assert forall|i: int, j: int| 0 <= i < j < s.len() implies s[i].0 != s[j].0 by {
                if j == t.len() {
                    assert(!key_is(key)(t[i]));
                }
            }
        },
    }
}

/// Deleting a key forgets that key and no other: nothing is read back under
/// it, every other key reads as before, and no key names two rows.
pub proof fn law_delete_forgets_only_key(t: Seq<(Seq<char>, Seq<char>)>, key: Seq<char>)
    requires
        keys_distinct(t),
    ensures
        keys_distinct(without_key(t, key)),
        lookup(without_key(t, key), key) is None,
        forall|other: Seq<char>|
            other != key ==> lookup(#[trigger] without_key(t, key), other) == lookup(t, other),
{
    lemma_first_match(t, key_is(key));
    let s = without_key(t, key);
    match first_match(t, key_is(key)) {
        Some(k) => {
            assert forall|i: int, j: int| 0 <= i < j < s.len() implies s[i].0 != s[j].0 by {
                let a = if i < k { i } else { i + 1 };
                let b = if j < k { j } else { j + 1 };
                assert(s[i] == t[a]);
                assert(s[j] == t[b]);
            }
            assert forall|j: int| 0 <= j < s.len() implies !key_is(key)(#[trigger] s[j]) by {
                let b = if j < k { j } else { j + 1 };
                assert(s[j] == t[b]);
            }
            lemma_first_match_none(s, key_is(key));
            assert forall|other: Seq<char>| other != key implies lookup(
                #[trigger] without_key(t, key),
                other,
            ) == lookup(t, other) by {
                lemma_first_match(t, key_is(other));
                match first_match(t, key_is(other)) {
                    Some(m) => {
                        assert(m != k);
                        let p = if m < k { m } else { m - 1 };
                        assert(s[p] == t[m]);
                        assert forall|j: int| 0 <= j < p implies !key_is(other)(#[trigger] s[j]) by {
                            let b = if j < k { j } else { j + 1 };
                            assert(s[j] == t[b]);
                        }
                        lemma_first_match_at(s, key_is(other), p);
                    },
                    None => {
                        assert forall|j: int| 0 <= j < s.len() implies !key_is(other)(
                            #[trigger] s[j],
                        ) by {
                            let b = if j < k { j } else { j + 1 };
                            assert(s[j] == t[b]);
                        }
                        lemma_first_match_none(s, key_is(other));
                    },
                }
            }
        },
        None => {},
    }
}

/// Opening again a table that was saved reads back the same settings, row
/// for row.
pub proof fn law_reload_keeps_settings(t: Seq<(Seq<char>, Seq<char>)>)
    requires
        keys_distinct(t),
    ensures
        loaded(t) == t,
    decreases t.len(),
{
    if t.len() > 0 {
        let s = t.drop_last();
        assert forall|i: int, j: int| 0 <= i < j < s.len() implies s[i].0 != s[j].0 by {
            assert(s[i] == t[i] && s[j] == t[j]);
        }
        law_reload_keeps_settings(s);
        assert forall|j: int| 0 <= j < s.len() implies !key_is(t.last().0)(#[trigger] s[j]) by {
            assert(s[j] == t[j]);
        }
        lemma_first_match_none(s, key_is(t.last().0));
        assert(s.push(t.last()) =~= t);
    }
}

/// The settings table: one row per key.
#[derive(Debug)]
pub struct SettingsStorage {
    rows: Vec<(String, String)>,
}

impl View for SettingsStorage {
    type V = Seq<(Seq<char>, Seq<char>)>;

    closed spec fn view(&self) -> Seq<(Seq<char>, Seq<char>)> {
        table_view(self.rows@)
    }
}

impl SettingsStorage {
    /// No key names two rows.
    pub open spec fn wf(&self) -> bool {
        keys_distinct(self@)
    }

    /// An empty table.
    pub fn new() -> (r: SettingsResult<Self>)
        ensures
            match r {
                Ok(s) => s@.len() == 0 && s.wf(),
                Err(_) => false,
            },
    {
        let s = SettingsStorage { rows: Vec::new() };
        proof {
            assert(s@ =~= Seq::<(Seq<char>, Seq<char>)>::empty());
        }
        Ok(s)
    }

    /// The table that storing `rows` in order into an empty table gives, as
    /// when a table kept from an earlier run is opened again.
    pub fn load(rows: Vec<(String, String)>) -> (s: Self)
        ensures
            s.wf(),
            s@ == loaded(table_view(rows@)),
    {
        let mut s = SettingsStorage { rows: Vec::new() };
        proof {
            assert(s@ =~= Seq::<(Seq<char>, Seq<char>)>::empty());
        }
        let n = rows.len();
        let mut i: usize = 0;
        while i < n
            invariant
                n == rows@.len(),
                i <= n,
                s.wf(),
                s@ == loaded(table_view(rows@).take(i as int)),
            decreases n - i,
        {
            let ghost before = table_view(rows@).take(i as int);
            let key = rows[i].0.as_str();
            let value = rows[i].1.as_str();
            s.store(key, value);
            proof {
                let after = table_view(rows@).take(i + 1);
                assert(after.drop_last() =~= before);
                assert(after.last() == (rows@[i as int].0@, rows@[i as int].1@));
            }
            i += 1;
        }
        proof {
            assert(table_view(rows@).take(n as int) =~= table_view(rows@));
        }
        s
    }

    fn position(&self, key: &str) -> (r: Option<usize>)
        ensures
            match r {
                Some(i) => first_match(self@, key_is(key@)) == Some(i as int) && i < self@.len(),
                None => first_match(self@, key_is(key@)) is None,
            },
    {
        let k = chars_of(key);
        let n = self.rows.len();
        let mut i: usize = 0;
        while i < n
            invariant
                n == self.rows@.len(),
                i <= n,
                k@ == key@,
                forall|j: int| 0 <= j < i ==> self@[j].0 != key@,
            decreases n - i,
        {
            let c = chars_of(self.rows[i].0.as_str());
            if chars_eq(&c, &k) {
                proof {
                    assert(self@[i as int].0 == key@);
                    lemma_first_match_at(self@, key_is(key@), i as int);
                }
                return Some(i);
            }
            i += 1;
        }
        proof {
            lemma_first_match_none(self@, key_is(key@));
        }
        None
    }

    fn store(&mut self, key: &str, value: &str)
        requires
            old(self).wf(),
        ensures
            final(self).wf(),
            final(self)@ == stored(old(self)@, key@, value@),
    {
        proof {
            lemma_stored_distinct(self@, key@, value@);
        }
        let row = (String::from_str(key), String::from_str(value));
        match self.position(key) {
            Some(i) => {
                self.rows.set(i, row);
                proof {
                    assert(self@ =~= old(self)@.update(i as int, (key@, value@)));
                }
            },
            None => {
                self.rows.push(row);
                proof {
                    assert(self@ =~= old(self)@.push((key@, value@)));
                }
            },
        }
    }

    /// Store `value` under `key`, replacing the value it had.
    pub fn set(&mut self, key: &str, value: &str) -> (r: SettingsResult<()>)
        requires
            old(self).wf(),
        ensures
            final(self).wf(),
            r is Ok,
            final(self)@ == stored(old(self)@, key@, value@),
    {
        self.store(key, value);
        Ok(())
    }

    /// The value stored under `key`, if any.
    pub fn get(&self, key: &str) -> (r: SettingsResult<Option<String>>)
        ensures
            match r {
                Ok(v) => opt_text(v) == lookup(self@, key@),
                Err(_) => false,
            },
    {
        match self.position(key) {
            Some(i) => {
                proof {
                    lemma_first_match(self@, key_is(key@));
                }
                Ok(Some(self.rows[i].1.clone()))
            },
            None => Ok(None),
        }
    }

    /// Remove the row for `key`; whether there was one.
    pub fn delete(&mut self, key: &str) -> (r: SettingsResult<bool>)
        requires
            old(self).wf(),
        ensures
            final(self).wf(),
            final(self)@ == without_key(old(self)@, key@),
            match r {
                Ok(b) => b == (lookup(old(self)@, key@) is Some),
                Err(_) => false,
            },
    {
        proof {
            law_delete_forgets_only_key(self@, key@);
        }
        match self.position(key) {
            Some(i) => {
                self.rows.remove(i);
                proof {
                    assert(self@ =~= old(self)@.remove(i as int));
                }
                Ok(true)
            },
            None => Ok(false),
        }
    }

    /// Every row, in the table's order.
    pub fn list_all(&self) -> (r: SettingsResult<Vec<(String, String)>>)
        ensures
            match r {
                Ok(v) => table_view(v@) == self@,
                Err(_) => false,
            },
    {
        let mut out: Vec<(String, String)> = Vec::new();
        let n = self.rows.len();
        let mut i: usize = 0;
        while i < n
            invariant
                n == self.rows@.len(),
                i <= n,
                out@.len() == i,
                table_view(out@) == self@.take(i as int),
            decreases n - i,
        {
            let row = (self.rows[i].0.clone(), self.rows[i].1.clone());
            out.push(row);
            proof {
                assert(table_view(out@) =~= self@.take(i + 1));
            }
            i += 1;
        }
        proof {
            assert(self@.take(n as int) =~= self@);
        }
        Ok(out)
    }

    /// Remove every row.
    pub fn clear_all(&mut self) -> (r: SettingsResult<()>)
        ensures
            r is Ok,
            final(self)@.len() == 0,
            final(self).wf(),
    {
        self.rows.clear();
        Ok(())
    }
}

/// Settings stored by key, with keys checked before they are stored.
#[derive(Debug)]
pub struct SettingsManager {
    storage: SettingsStorage,
}

impl View for SettingsManager {
    type V = Seq<(Seq<char>, Seq<char>)>;

    closed spec fn view(&self) -> Seq<(Seq<char>, Seq<char>)> {
        self.storage@
    }
}

impl SettingsManager {
    /// No key names two rows.
    pub open spec fn wf(&self) -> bool {
        keys_distinct(self@)
    }

    /// A manager over the given table.
    pub fn new(storage: SettingsStorage) -> (r: SettingsResult<Self>)
        requires
            storage.wf(),
        ensures
            match r {
                Ok(m) => m@ == storage@ && m.wf(),
                Err(_) => false,
            },
    {
        Ok(SettingsManager { storage })
    }

    /// Store `value` under `key`; an empty key is refused and nothing
    /// changes.
    pub fn set(&mut self, key: &str, value: &str) -> (r: SettingsResult<()>)
        requires
            old(self).wf(),
        ensures
            final(self).wf(),
            key@.len() == 0 ==> final(self)@ == old(self)@ && (r matches Err(
                SettingsError::InvalidKey(m),
            ) && m@ == "Key cannot be empty"@),
            key@.len() != 0 ==> r is Ok && final(self)@ == stored(old(self)@, key@, value@),
    {
        if chars_of(key).len() == 0 {
            return Err(SettingsError::InvalidKey(String::from_str("Key cannot be empty")));
        }
        self.storage.set(key, value)
    }

    /// The value stored under `key`, if any.
    pub fn get(&self, key: &str) -> (r: SettingsResult<Option<String>>)
        ensures
            match r {
                Ok(v) => opt_text(v) == lookup(self@, key@),
                Err(_) => false,
            },
    {
        self.storage.get(key)
    }

    /// Remove the setting under `key`; whether it existed.
    pub fn delete(&mut self, key: &str) -> (r: SettingsResult<bool>)
        requires
            old(self).wf(),
        ensures
            final(self).wf(),
            final(self)@ == without_key(old(self)@, key@),
            match r {
                Ok(b) => b == (lookup(old(self)@, key@) is Some),
                Err(_) => false,
            },
    {
        self.storage.delete(key)
    }

    /// Every setting as a key and value.
    pub fn list_all(&self) -> (r: SettingsResult<Vec<(String, String)>>)
        ensures
            match r {
                Ok(v) => table_view(v@) == self@,
                Err(_) => false,
            },
    {
        self.storage.list_all()
    }

    /// Remove every setting.
    pub fn clear_all(&mut self) -> (r: SettingsResult<()>)
        ensures
            r is Ok,
            final(self)@.len() == 0,
            final(self).wf(),
    {
        self.storage.clear_all()
    }
}

} // verus!
