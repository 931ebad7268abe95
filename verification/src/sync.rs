//! Cross-device synchronisation: data types, changes and the resolution of
//! conflicting changes.
use vstd::prelude::*;
use crate::text::{chars_of, decimal, decimal_chars, string_from_chars};

verus! {

/// Kinds of data that are synchronised across devices.
#[derive(Debug, Clone, Copy, PartialEq, Eq, Hash, Structural)]
pub enum SyncDataType {
    Bookmarks,
    History,
    Settings,
    Passwords,
    OpenTabs,
}

impl SyncDataType {
    /// Every data type.
    pub open spec fn all_spec() -> Seq<SyncDataType> {
        seq![
            SyncDataType::Bookmarks,
            SyncDataType::History,
            SyncDataType::Settings,
            SyncDataType::Passwords,
            SyncDataType::OpenTabs,
        ]
    }

    /// Every data type.
    pub fn all() -> (v: Vec<SyncDataType>)
        ensures
            v@ == Self::all_spec(),
    {
        let v = vec![
            SyncDataType::Bookmarks,
            SyncDataType::History,
            SyncDataType::Settings,
            SyncDataType::Passwords,
            SyncDataType::OpenTabs,
        ];
        assert(v@ =~= Self::all_spec());
        v
    }

    /// Passwords and settings are encrypted.
    pub open spec fn encrypted(self) -> bool {
        self is Passwords || self is Settings
    }

    /// Whether this data type is encrypted before it leaves the device.
    pub fn requires_encryption(&self) -> (b: bool)
        ensures
            b == self.encrypted(),
    {
        match self {
            SyncDataType::Passwords | SyncDataType::Settings => true,
            _ => false,
        }
    }

    /// Sync priority of each type; lower goes first.
    pub open spec fn priority_spec(self) -> u8 {
        match self {
            SyncDataType::Settings => 1,
            SyncDataType::Passwords => 2,
            SyncDataType::Bookmarks => 3,
            SyncDataType::OpenTabs => 4,
            SyncDataType::History => 5,
        }
    }

    /// The sync priority (lower goes first).
    pub fn priority(&self) -> (p: u8)
        ensures
            p == self.priority_spec(),
    {
        match self {
            SyncDataType::Settings => 1,
            SyncDataType::Passwords => 2,
            SyncDataType::Bookmarks => 3,
            SyncDataType::OpenTabs => 4,
            SyncDataType::History => 5,
        }
    }

    /// The type's name as it is written.
    pub fn name(&self) -> (s: &'static str)
        ensures
            s@ == match self {
                SyncDataType::Bookmarks => "bookmarks"@,
                SyncDataType::History => "history"@,
                SyncDataType::Settings => "settings"@,
                SyncDataType::Passwords => "passwords"@,
                SyncDataType::OpenTabs => "open_tabs"@,
            },
    {
        match self {
            SyncDataType::Bookmarks => "bookmarks",
            SyncDataType::History => "history",
            SyncDataType::Settings => "settings",
            SyncDataType::Passwords => "passwords",
            SyncDataType::OpenTabs => "open_tabs",
        }
    }
}

/// Distinct data types have distinct priorities.
pub proof fn law_priorities_distinct(a: SyncDataType, b: SyncDataType)
    requires
        a != b,
    ensures
        a.priority_spec() != b.priority_spec(),
{
}

/// The operation a change performs on an entity.
#[derive(Debug, Clone, Copy, PartialEq, Eq, Structural)]
pub enum ChangeOperation {
    Create,
    Update,
    Delete,
}

/// A point in UTC time: seconds since the UNIX epoch and the nanoseconds
/// within that second, ordered first by seconds, then by nanoseconds.
#[derive(Debug, Clone, Copy, PartialEq, Eq, Hash, Structural)]
pub struct SyncTime {
    pub secs: i64,
    pub nanos: u32,
}

/// `a` is strictly later than `b`.
pub open spec fn later(a: SyncTime, b: SyncTime) -> bool {
    a.secs > b.secs || (a.secs == b.secs && a.nanos > b.nanos)
}

impl SyncTime {
    /// Whether this time is strictly later than `other`.
    pub fn is_after(&self, other: &SyncTime) -> (b: bool)
        ensures
            b == later(*self, *other),
    {
        self.secs > other.secs || (self.secs == other.secs && self.nanos > other.nanos)
    }

    /// The current time, by the system clock (the epoch itself when the
    /// clock reads earlier).
    pub fn now() -> (t: SyncTime)
        ensures
            t.nanos < 1_000_000_000,
    {
        clock_now()
    }
}

/// The current time.
///
/// Trusted: calls `std::time::SystemTime::now`, measures it from
/// `UNIX_EPOCH` and keeps the whole seconds and the sub-second nanoseconds
/// (zero for both when the clock reads before the epoch).  The value depends
/// on the clock; all that is stated is that the nanoseconds stay under one
/// second, as `Duration::subsec_nanos` documents.
#[verifier::external_body]
fn clock_now() -> (t: SyncTime)
    ensures
        t.nanos < 1_000_000_000,
{
    match std::time::SystemTime::now().duration_since(std::time::UNIX_EPOCH) {
        Ok(d) => SyncTime { secs: d.as_secs() as i64, nanos: d.subsec_nanos() },
        Err(_) => SyncTime { secs: 0, nanos: 0 },
    }
}

/// A fresh random 128-bit identifier (a version 4 UUID).
///
/// Trusted: calls `uuid::Uuid::new_v4` and returns its 128 bits.  The value
/// rests on chance; nothing is stated of it.
#[verifier::external_body]
pub(crate) fn random_u128() -> u128 {
    uuid::Uuid::new_v4().as_u128()
}

/// One member of a JSON object: its key and its value as JSON text.
#[derive(Debug, PartialEq, Eq)]
pub struct JsonEntry {
    pub key: String,
    pub value: String,
}

impl Clone for JsonEntry {
    fn clone(&self) -> (r: Self)
        ensures
            r == *self,
    {
        JsonEntry { key: self.key.clone(), value: self.value.clone() }
    }
}

/// The payload of a change: a JSON object, member by member, or any other
/// JSON value as text.
#[derive(Debug, PartialEq, Eq)]
pub enum ChangeData {
    Object(Vec<JsonEntry>),
    Other(String),
}

/// A copy of the entries.
pub fn clone_entries(v: &Vec<JsonEntry>) -> (r: Vec<JsonEntry>)
    ensures
        r@ == v@,
{
    let mut r: Vec<JsonEntry> = Vec::new();
    let n = v.len();
    let mut i: usize = 0;
    while i < n
        invariant
            n == v@.len(),
            i <= n,
            r@ == v@.take(i as int),
        decreases n - i,
    {
        r.push(v[i].clone());
        i += 1;
        assert(r@ =~= v@.take(i as int));
    }
    assert(v@.take(n as int) =~= v@);
    r
}

/// The abstract value of a change payload.
pub enum ChangeDataView {
    Object(Seq<JsonEntry>),
    Other(String),
}

impl View for ChangeData {
    type V = ChangeDataView;

    open spec fn view(&self) -> ChangeDataView {
        match self {
            ChangeData::Object(v) => ChangeDataView::Object(v@),
            ChangeData::Other(s) => ChangeDataView::Other(*s),
        }
    }
}

impl Clone for ChangeData {
    fn clone(&self) -> (r: Self)
        ensures
            r@ == self@,
    {
        match self {
            ChangeData::Object(v) => ChangeData::Object(clone_entries(v)),
            ChangeData::Other(s) => ChangeData::Other(s.clone()),
        }
    }
}

/// The members of an object as a map from key to value; a later member
/// replaces an earlier one with the same key.
pub open spec fn entries_map(s: Seq<JsonEntry>) -> Map<Seq<char>, Seq<char>>
    decreases s.len(),
{
    if s.len() == 0 {
        Map::empty()
    } else {
        entries_map(s.drop_last()).insert(s.last().key@, s.last().value@)
    }
}

/// No key occurs twice.
pub open spec fn distinct_keys(s: Seq<JsonEntry>) -> bool {
    forall|i: int, j: int| 0 <= i < j < s.len() ==> s[i].key@ != s[j].key@
}

impl ChangeDataView {
    /// A JSON object holds each key once.
    pub open spec fn wf(self) -> bool {
        match self {
            ChangeDataView::Object(v) => distinct_keys(v),
            ChangeDataView::Other(_) => true,
        }
    }
}

/// A single change to synchronised data.
#[derive(Debug)]
pub struct Change {
    /// Unique identifier of this change.
    pub id: u128,
    pub data_type: SyncDataType,
    /// The entity changed (a bookmark id, a setting key, ...).
    pub entity_id: String,
    pub operation: ChangeOperation,
    pub data: ChangeData,
    /// When the change was made.
    pub timestamp: SyncTime,
    /// The device where it was made.
    pub device_id: String,
    /// Version, for conflict detection.
    pub version: u64,
    /// Hash of the previous state.
    pub previous_hash: Option<String>,
}

/// The abstract value of a change.
pub struct ChangeView {
    pub id: u128,
    pub data_type: SyncDataType,
    pub entity_id: String,
    pub operation: ChangeOperation,
    pub data: ChangeDataView,
    pub timestamp: SyncTime,
    pub device_id: String,
    pub version: u64,
    pub previous_hash: Option<String>,
}

impl View for Change {
    type V = ChangeView;

    open spec fn view(&self) -> ChangeView {
        ChangeView {
            id: self.id,
            data_type: self.data_type,
            entity_id: self.entity_id,
            operation: self.operation,
            data: self.data@,
            timestamp: self.timestamp,
            device_id: self.device_id,
            version: self.version,
            previous_hash: self.previous_hash,
        }
    }
}

impl Clone for Change {
    fn clone(&self) -> (r: Self)
        ensures
            r@ == self@,
    {
        Change {
            id: self.id,
            data_type: self.data_type,
            entity_id: self.entity_id.clone(),
            operation: self.operation,
            data: self.data.clone(),
            timestamp: self.timestamp,
            device_id: self.device_id.clone(),
            version: self.version,
            previous_hash: match &self.previous_hash {
                Some(h) => Some(h.clone()),
                None => None,
            },
        }
    }
}

impl Change {
    /// A change made now on the device `device_id`, at version 1, with a
    /// fresh identifier and no previous hash.
    pub fn new(
        data_type: SyncDataType,
        entity_id: String,
        operation: ChangeOperation,
        data: ChangeData,
        device_id: String,
    ) -> (c: Change)
        ensures
            c.data_type == data_type,
            c.entity_id == entity_id,
            c.operation == operation,
            c.data@ == data@,
            c.device_id == device_id,
            c.version == 1,
            c.previous_hash is None,
    {
        Change {
            id: random_u128(),
            data_type,
            entity_id,
            operation,
            data,
            timestamp: SyncTime::now(),
            device_id,
            version: 1,
            previous_hash: None,
        }
    }

    /// The change with another device identifier.
    pub fn with_device_id(self, device_id: String) -> (c: Change)
        ensures
            c@ == (ChangeView { device_id, ..self@ }),
    {
        Change { device_id, ..self }
    }

    /// The change with another version.
    pub fn with_version(self, version: u64) -> (c: Change)
        ensures
            c@ == (ChangeView { version, ..self@ }),
    {
        Change { version, ..self }
    }

    /// The change with a previous-state hash.
    pub fn with_previous_hash(self, hash: String) -> (c: Change)
        ensures
            c@ == (ChangeView { previous_hash: Some(hash), ..self@ }),
    {
        Change { previous_hash: Some(hash), ..self }
    }

}

impl ChangeView {
    /// Two distinct changes conflict when they touch the same entity of the
    /// same data type.
    pub open spec fn conflicts(self, other: ChangeView) -> bool {
        self.entity_id@ == other.entity_id@ && self.data_type == other.data_type && self.id
            != other.id
    }
}

impl Change {

    /// Whether this change conflicts with `other`.
    pub fn conflicts_with(&self, other: &Change) -> (b: bool)
        ensures
            b == self@.conflicts(other@),
    {
        let same_entity = self.entity_id == other.entity_id;
        same_entity && self.data_type == other.data_type && self.id != other.id
    }

    /// Whether this change deletes its entity.
    pub fn is_delete(&self) -> (b: bool)
        ensures
            b == (self.operation == ChangeOperation::Delete),
    {
        match self.operation {
            ChangeOperation::Delete => true,
            _ => false,
        }
    }

    /// Whether this change creates its entity.
    pub fn is_create(&self) -> (b: bool)
        ensures
            b == (self.operation == ChangeOperation::Create),
    {
        match self.operation {
            ChangeOperation::Create => true,
            _ => false,
        }
    }

    /// The key by which changes are ordered: time, then version.
    pub fn sort_key(&self) -> (k: (SyncTime, u64))
        ensures
            k == (self.timestamp, self.version),
    {
        (self.timestamp, self.version)
    }
}

/// Conflict is symmetric.
pub proof fn law_conflict_symmetric(a: ChangeView, b: ChangeView)
    ensures
        a.conflicts(b) == b.conflicts(a),
{
}

/// No change conflicts with itself.
pub proof fn law_no_self_conflict(a: ChangeView)
    ensures
        !a.conflicts(a),
{
}

} // verus!

verus! {

/// Strategy for resolving conflicting changes.
#[derive(Debug, Clone, Copy, PartialEq, Eq, Structural)]
pub enum ConflictStrategy {
    /// The most recent change wins.
    LastWriteWins,
    /// The local change wins.
    LocalWins,
    /// The remote change wins.
    RemoteWins,
    /// Merge the members of two JSON objects.
    Merge,
    /// Keep both; the newer one is the result.
    KeepBoth,
}

impl Default for ConflictStrategy {
    /// Last write wins.
    fn default() -> (s: Self)
        ensures
            s == ConflictStrategy::LastWriteWins,
    {
        ConflictStrategy::LastWriteWins
    }
}

/// The later of two times.
pub open spec fn latest(a: SyncTime, b: SyncTime) -> SyncTime {
    if later(b, a) {
        b
    } else {
        a
    }
}

/// The merged members: with a newer remote change, remote members replace
/// local ones; otherwise remote members are only added where the key is new.
pub open spec fn merged_members(
    local: Map<Seq<char>, Seq<char>>,
    remote: Map<Seq<char>, Seq<char>>,
    remote_newer: bool,
) -> Map<Seq<char>, Seq<char>> {
    if remote_newer {
        local.union_prefer_right(remote)
    } else {
        remote.union_prefer_right(local)
    }
}

/// The newer of two changes, the local one on a tie.
pub open spec fn newer_or_local(local: ChangeView, remote: ChangeView) -> ChangeView {
    if later(remote.timestamp, local.timestamp) {
        remote
    } else {
        local
    }
}

/// `r` is the merge of `local` and `remote`: for two JSON objects, the local
/// change with the merged members, the later time and the next version
/// after both; otherwise the newer change, the local one on a tie.
pub open spec fn merge_outcome(local: ChangeView, remote: ChangeView, r: ChangeView) -> bool {
    match (local.data, remote.data) {
        (ChangeDataView::Object(l), ChangeDataView::Object(m)) => match r.data {
            ChangeDataView::Object(e) => {
                &&& distinct_keys(e)
                &&& entries_map(e) == merged_members(
                    entries_map(l),
                    entries_map(m),
                    later(remote.timestamp, local.timestamp),
                )
                &&& r == ChangeView {
                    data: r.data,
                    timestamp: latest(local.timestamp, remote.timestamp),
                    version: (if local.version >= remote.version {
                        local.version
                    } else {
                        remote.version
                    } + 1) as u64,
                    ..local
                }
            },
            ChangeDataView::Other(_) => false,
        },
        _ => r == newer_or_local(local, remote),
    }
}

/// The change that resolves a conflict under `strategy`.
pub open spec fn resolution_holds(
    strategy: ConflictStrategy,
    local: ChangeView,
    remote: ChangeView,
    r: ChangeView,
) -> bool {
    match strategy {
        ConflictStrategy::LastWriteWins => r == if later(local.timestamp, remote.timestamp) {
            local
        } else if later(remote.timestamp, local.timestamp) {
            remote
        } else if local.version >= remote.version {
            local
        } else {
            remote
        },
        ConflictStrategy::LocalWins => r == local,
        ConflictStrategy::RemoteWins => r == remote,
        ConflictStrategy::Merge => merge_outcome(local, remote, r),
        ConflictStrategy::KeepBoth => r == newer_or_local(local, remote),
    }
}

/// Keeping both changes resolves to one of the two, never to one strictly
/// older than the other, and to the local change unless the remote one is
/// strictly newer.
pub proof fn law_keep_both_keeps_newer(local: ChangeView, remote: ChangeView, r: ChangeView)
    requires
        resolution_holds(ConflictStrategy::KeepBoth, local, remote, r),
    ensures
        r == local || r == remote,
        r.timestamp.secs > local.timestamp.secs || (r.timestamp.secs == local.timestamp.secs
            && r.timestamp.nanos >= local.timestamp.nanos),
        r.timestamp.secs > remote.timestamp.secs || (r.timestamp.secs == remote.timestamp.secs
            && r.timestamp.nanos >= remote.timestamp.nanos),
        (remote.timestamp.secs < local.timestamp.secs || (remote.timestamp.secs
            == local.timestamp.secs && remote.timestamp.nanos <= local.timestamp.nanos)) ==> r
            == local,
{
}

/// Last write wins: the resolution is one of the two changes, never one
/// strictly older than the other; at the same time the higher version wins,
/// the local change on equal versions.
pub proof fn law_last_write_wins_keeps_newer(local: ChangeView, remote: ChangeView, r: ChangeView)
    requires
        resolution_holds(ConflictStrategy::LastWriteWins, local, remote, r),
    ensures
        r == local || r == remote,
        r.timestamp.secs > local.timestamp.secs || (r.timestamp.secs == local.timestamp.secs
            && r.timestamp.nanos >= local.timestamp.nanos),
        r.timestamp.secs > remote.timestamp.secs || (r.timestamp.secs == remote.timestamp.secs
            && r.timestamp.nanos >= remote.timestamp.nanos),
        local.timestamp == remote.timestamp ==> (r == if local.version >= remote.version {
            local
        } else {
            remote
        }),
{
}

/// Merging two JSON objects keeps every key of either side and no other;
/// a key present on the strictly newer remote side takes the remote value,
/// otherwise a key present locally keeps the local value.  The result
/// carries the later time and a version one above both.
pub proof fn law_merge_keeps_all_keys(
    local: ChangeView,
    remote: ChangeView,
    r: ChangeView,
    l: Seq<JsonEntry>,
    m: Seq<JsonEntry>,
    e: Seq<JsonEntry>,
    key: Seq<char>,
)
    requires
        resolution_holds(ConflictStrategy::Merge, local, remote, r),
        local.data == ChangeDataView::Object(l),
        remote.data == ChangeDataView::Object(m),
        r.data == ChangeDataView::Object(e),
        local.version < u64::MAX,
        remote.version < u64::MAX,
    ensures
        entries_map(e).dom().contains(key) <==> (entries_map(l).dom().contains(key)
            || entries_map(m).dom().contains(key)),
        (remote.timestamp.secs > local.timestamp.secs || (remote.timestamp.secs
            == local.timestamp.secs && remote.timestamp.nanos > local.timestamp.nanos))
            && entries_map(m).dom().contains(key) ==> entries_map(e)[key] == entries_map(m)[key],
        !(remote.timestamp.secs > local.timestamp.secs || (remote.timestamp.secs
            == local.timestamp.secs && remote.timestamp.nanos > local.timestamp.nanos))
            && entries_map(l).dom().contains(key) ==> entries_map(e)[key] == entries_map(l)[key],
        r.version > local.version,
        r.version > remote.version,
        r.timestamp == local.timestamp || r.timestamp == remote.timestamp,
        r.id == local.id && r.entity_id == local.entity_id,
{
}

/// Local wins and remote wins resolve to the named side, whatever the times.
pub proof fn law_fixed_side_wins(local: ChangeView, remote: ChangeView, r: ChangeView)
    ensures
        resolution_holds(ConflictStrategy::LocalWins, local, remote, r) ==> r == local,
        resolution_holds(ConflictStrategy::RemoteWins, local, remote, r) ==> r == remote,
{
}

/// Whether `key` occurs among the members.
pub open spec fn has_key(s: Seq<JsonEntry>, key: Seq<char>) -> bool {
    exists|i: int| 0 <= i < s.len() && s[i].key@ == key
}

proof fn lemma_entries_map_dom(s: Seq<JsonEntry>, key: Seq<char>)
    ensures
        entries_map(s).dom().contains(key) <==> has_key(s, key),
    decreases s.len(),
{
    if s.len() > 0 {
        let d = s.drop_last();
        lemma_entries_map_dom(d, key);
        if has_key(d, key) {
            let i = choose|i: int| 0 <= i < d.len() && d[i].key@ == key;
            assert(s[i].key@ == key);
        }
        if has_key(s, key) {
            let i = choose|i: int| 0 <= i < s.len() && s[i].key@ == key;
            if i < s.len() - 1 {
                assert(d[i].key@ == key);
            }
        }
    }
}

proof fn lemma_entries_map_update(s: Seq<JsonEntry>, i: int, e: JsonEntry)
    requires
        distinct_keys(s),
        0 <= i < s.len(),
        s[i].key@ == e.key@,
    ensures
        entries_map(s.update(i, e)) == entries_map(s).insert(e.key@, e.value@),
        distinct_keys(s.update(i, e)),
    decreases s.len(),
{
    let u = s.update(i, e);
    let d = s.drop_last();
    if i == s.len() - 1 {
        assert(u.drop_last() =~= d);
        assert(entries_map(u) =~= entries_map(s).insert(e.key@, e.value@));
    } else {
        lemma_entries_map_update(d, i, e);
        assert(u.drop_last() =~= d.update(i, e));
        assert(entries_map(u) =~= entries_map(s).insert(e.key@, e.value@));
    }
}

/// The position of the member with this key.
fn find_key(v: &Vec<JsonEntry>, key: &String) -> (r: Option<usize>)
    ensures
        match r {
            Some(i) => i < v@.len() && v@[i as int].key@ == key@,
            None => !has_key(v@, key@),
        },
{
    let n = v.len();
    let mut i: usize = 0;
    while i < n
        invariant
            n == v@.len(),
            i <= n,
            forall|j: int| 0 <= j < i ==> v@[j].key@ != key@,
        decreases n - i,
    {
        if v[i].key == *key {
            return Some(i);
        }
        i += 1;
    }
    None
}

/// Merge remote members into a copy of the local ones.
fn merge_members(local: &Vec<JsonEntry>, remote: &Vec<JsonEntry>, remote_newer: bool) -> (r: Vec<
    JsonEntry,
>)
    requires
        distinct_keys(local@),
        distinct_keys(remote@),
    ensures
        distinct_keys(r@),
        entries_map(r@) == merged_members(entries_map(local@), entries_map(remote@), remote_newer),
{
    let mut merged = clone_entries(local);
    let n = remote.len();
    let mut j: usize = 0;
    proof {
        assert(remote@.take(0) =~= Seq::<JsonEntry>::empty());
        assert(entries_map(merged@) =~= merged_members(
            entries_map(local@),
            entries_map(remote@.take(0)),
            remote_newer,
        ));
    }
    while j < n
        invariant
            n == remote@.len(),
            j <= n,
            distinct_keys(local@),
            distinct_keys(remote@),
            distinct_keys(merged@),
            entries_map(merged@) == merged_members(
                entries_map(local@),
                entries_map(remote@.take(j as int)),
                remote_newer,
            ),
        decreases n - j,
    {
        let e = remote[j].clone();
        let ghost lm = entries_map(local@);
        let ghost rm = entries_map(remote@.take(j as int));
        proof {
            assert(remote@.take(j + 1).drop_last() =~= remote@.take(j as int));
            assert(remote@.take(j + 1).last() == e);
            lemma_entries_map_dom(remote@.take(j as int), e.key@);
            assert(!has_key(remote@.take(j as int), e.key@)) by {
                if has_key(remote@.take(j as int), e.key@) {
                    let k = choose|k: int| 0 <= k < j && remote@.take(j as int)[k].key@ == e.key@;
                    assert(remote@[k].key@ == remote@[j as int].key@);
                }
            }
            lemma_entries_map_dom(merged@, e.key@);
            lemma_entries_map_dom(local@, e.key@);
        }
        match find_key(&merged, &e.key) {
            None => {
                let ghost before = merged@;
                merged.push(e);
                proof {
                    assert(merged@.drop_last() =~= before);
                    assert(entries_map(merged@) =~= merged_members(
                        lm,
                        entries_map(remote@.take(j + 1)),
                        remote_newer,
                    ));
                }
            },
            Some(i) => {
                if remote_newer {
                    let ghost before = merged@;
                    merged.set(i, e);
                    proof {
                        lemma_entries_map_update(before, i as int, e);
                        assert(merged@ == before.update(i as int, e));
                        assert(entries_map(merged@) =~= merged_members(
                            lm,
                            entries_map(remote@.take(j + 1)),
                            remote_newer,
                        ));
                    }
                } else {
                    proof {
                        assert(entries_map(merged@) =~= merged_members(
                            lm,
                            entries_map(remote@.take(j + 1)),
                            remote_newer,
                        ));
                    }
                }
            },
        }
        j += 1;
    }
    proof {
        assert(remote@.take(n as int) =~= remote@);
    }
    merged
}

/// Resolves conflicts between local and remote changes.
#[derive(Debug, Clone, Copy, PartialEq, Eq)]
pub struct ConflictResolution {
    strategy: ConflictStrategy,
}

impl ConflictResolution {
    /// A resolver with this strategy.
    pub fn new(strategy: ConflictStrategy) -> (r: ConflictResolution)
        ensures
            r.strategy_spec() == strategy,
    {
        ConflictResolution { strategy }
    }

    /// The resolver's strategy.
    pub closed spec fn strategy_spec(self) -> ConflictStrategy {
        self.strategy
    }

    /// The resolver's strategy.
    pub fn strategy(&self) -> (s: ConflictStrategy)
        ensures
            s == self.strategy_spec(),
    {
        self.strategy
    }

    /// The newer change, the local one on a tie.
    fn newer_of(local: &Change, remote: &Change) -> (r: Change)
        ensures
            r@ == newer_or_local(local@, remote@),
    {
        if remote.timestamp.is_after(&local.timestamp) {
            remote.clone()
        } else {
            local.clone()
        }
    }

    /// Merge two changes.
    fn merge_changes(&self, local: &Change, remote: &Change) -> (r: Change)
        requires
            local@.data.wf(),
            remote@.data.wf(),
            (local@.data is Object && remote@.data is Object) ==> local.version < u64::MAX
                && remote.version < u64::MAX,
        ensures
            merge_outcome(local@, remote@, r@),
    {
        match (&local.data, &remote.data) {
            (ChangeData::Object(l), ChangeData::Object(m)) => {
                let remote_newer = remote.timestamp.is_after(&local.timestamp);
                let merged = merge_members(l, m, remote_newer);
                let mut result = local.clone();
                result.data = ChangeData::Object(merged);
                result.timestamp = if remote_newer {
                    remote.timestamp
                } else {
                    local.timestamp
                };
                let v = if local.version >= remote.version {
                    local.version
                } else {
                    remote.version
                };
                result.version = v + 1;
                result
            },
            _ => Self::newer_of(local, remote),
        }
    }

    /// Resolve a conflict between a local and a remote change.
    pub fn resolve(&self, local: &Change, remote: &Change) -> (r: Change)
        requires
            self.strategy_spec() == ConflictStrategy::Merge ==> {
                &&& local@.data.wf()
                &&& remote@.data.wf()
                &&& (local@.data is Object && remote@.data is Object) ==> local.version < u64::MAX
                    && remote.version < u64::MAX
            },
        ensures
            resolution_holds(self.strategy_spec(), local@, remote@, r@),
            self.strategy_spec() == ConflictStrategy::LocalWins ==> r@ == local@,
            self.strategy_spec() == ConflictStrategy::RemoteWins ==> r@ == remote@,
            self.strategy_spec() == ConflictStrategy::LastWriteWins ==> (r@ == local@ || r@
                == remote@) && !(local.timestamp.secs > r.timestamp.secs || (local.timestamp.secs
                == r.timestamp.secs && local.timestamp.nanos > r.timestamp.nanos))
                && !(remote.timestamp.secs > r.timestamp.secs || (remote.timestamp.secs
                == r.timestamp.secs && remote.timestamp.nanos > r.timestamp.nanos)),
            self.strategy_spec() == ConflictStrategy::KeepBoth ==> r@ == (if remote.timestamp.secs
                > local.timestamp.secs || (remote.timestamp.secs == local.timestamp.secs
                && remote.timestamp.nanos > local.timestamp.nanos) {
                remote@
            } else {
                local@
            }),
    {
        match self.strategy {
            ConflictStrategy::LastWriteWins => {
                if local.timestamp.is_after(&remote.timestamp) {
                    local.clone()
                } else if remote.timestamp.is_after(&local.timestamp) {
                    remote.clone()
                } else if local.version >= remote.version {
                    local.clone()
                } else {
                    remote.clone()
                }
            },
            ConflictStrategy::LocalWins => local.clone(),
            ConflictStrategy::RemoteWins => remote.clone(),
            ConflictStrategy::Merge => self.merge_changes(local, remote),
            ConflictStrategy::KeepBoth => Self::newer_of(local, remote),
        }
    }
}

impl Default for ConflictResolution {
    /// A last-write-wins resolver.
    fn default() -> (r: Self)
        ensures
            r.strategy_spec() == ConflictStrategy::LastWriteWins,
    {
        ConflictResolution::new(ConflictStrategy::LastWriteWins)
    }
}

/// A detected conflict and, once resolved, its resolution.
#[derive(Debug, Clone)]
pub struct Conflict {
    pub local: Change,
    pub remote: Change,
    pub resolved: Option<Change>,
    pub resolution_strategy: Option<ConflictStrategy>,
}

impl Conflict {
    /// An unresolved conflict.
    pub fn new(local: Change, remote: Change) -> (c: Conflict)
        ensures
            c.local == local,
            c.remote == remote,
            c.resolved is None,
            c.resolution_strategy is None,
    {
        Conflict { local, remote, resolved: None, resolution_strategy: None }
    }

    /// Resolve with `resolver`, recording the result and the strategy.
    pub fn resolve(&mut self, resolver: &ConflictResolution)
        requires
            resolver.strategy_spec() == ConflictStrategy::Merge ==> {
                &&& old(self).local@.data.wf()
                &&& old(self).remote@.data.wf()
                &&& (old(self).local@.data is Object && old(self).remote@.data is Object)
                    ==> old(self).local.version < u64::MAX && old(self).remote.version < u64::MAX
            },
        ensures
            final(self).local == old(self).local,
            final(self).remote == old(self).remote,
            final(self).resolution_strategy == Some(resolver.strategy_spec()),
            final(self).resolved matches Some(r) && resolution_holds(
                resolver.strategy_spec(),
                old(self).local@,
                old(self).remote@,
                r@,
            ),
    {
        self.resolved = Some(resolver.resolve(&self.local, &self.remote));
        self.resolution_strategy = Some(resolver.strategy());
    }

    /// Whether the conflict has been resolved.
    pub fn is_resolved(&self) -> (b: bool)
        ensures
            b == self.resolved is Some,
    {
        self.resolved.is_some()
    }
}

} // verus!

verus! {

/// Errors of sync operations.
#[derive(Debug, Clone, PartialEq, Eq)]
pub enum SyncError {
    NotLoggedIn,
    Network(String),
    AuthFailed(String),
    ServerError(String),
    ConflictError { entity_id: String, reason: String },
    EncryptionError(String),
    SerializationError(String),
    InvalidData(String),
    RateLimited { retry_after_seconds: u64 },
    SyncInProgress,
    TypeNotEnabled(SyncDataType),
    StorageError(String),
    Internal(String),
}

/// Length in bytes of an encryption key (256 bits).
pub const KEY_LENGTH: usize = 32;

/// Length in bytes of an AES-GCM nonce (96 bits).
pub const NONCE_LENGTH: usize = 12;

/// The 32-byte key that PBKDF2-HMAC-SHA256 with 100 000 iterations derives
/// from a password, salted with an e-mail address (both as UTF-8).
pub uninterp spec fn pbkdf2_key(password: Seq<char>, salt: Seq<char>) -> Seq<u8>;

/// The AES-256-GCM ciphertext, tag appended, of `plaintext` under `key` and
/// `nonce`, with no associated data.
pub uninterp spec fn aes_gcm_sealed(key: Seq<u8>, nonce: Seq<u8>, plaintext: Seq<u8>) -> Seq<u8>;

/// The plaintext AES-256-GCM recovers from `ciphertext` (tag appended) under
/// `key` and `nonce`, or none when the tag does not authenticate.
pub uninterp spec fn aes_gcm_opened(key: Seq<u8>, nonce: Seq<u8>, ciphertext: Seq<u8>) -> Option<
    Seq<u8>,
>;

/// The character of the standard base64 alphabet for a six-bit value:
/// `A`-`Z`, `a`-`z`, `0`-`9`, `+`, `/`.
pub open spec fn base64_digit(v: int) -> char {
    if v < 26 {
        (65 + v) as char
    } else if v < 52 {
        (97 + v - 26) as char
    } else if v < 62 {
        (48 + v - 52) as char
    } else if v == 62 {
        '+'
    } else {
        '/'
    }
}

/// The standard, padded base64 text of `bytes` (RFC 4648): each group of
/// three bytes gives four characters, and a last group of one or two bytes
/// is padded with `=`.
pub open spec fn base64_text(bytes: Seq<u8>) -> Seq<char>
    decreases bytes.len(),
{
    if bytes.len() == 0 {
        Seq::empty()
    } else if bytes.len() == 1 {
        let x = bytes[0] as int;
        seq![base64_digit(x / 4), base64_digit((x % 4) * 16), '=', '=']
    } else if bytes.len() == 2 {
        let x = bytes[0] as int;
        let y = bytes[1] as int;
        seq![
            base64_digit(x / 4),
            base64_digit((x % 4) * 16 + y / 16),
            base64_digit((y % 16) * 4),
            '=',
        ]
    } else {
        let x = bytes[0] as int;
        let y = bytes[1] as int;
        let z = bytes[2] as int;
        seq![
            base64_digit(x / 4),
            base64_digit((x % 4) * 16 + y / 16),
            base64_digit((y % 16) * 4 + z / 64),
            base64_digit(z % 64),
        ] + base64_text(bytes.subrange(3, bytes.len() as int))
    }
}

/// The bytes that standard, padded base64 decoding gives for `text`, or the
/// decoder's error message.
pub uninterp spec fn base64_decoded(text: Seq<char>) -> Result<Seq<u8>, Seq<char>>;

/// Derive a key with PBKDF2-HMAC-SHA256.
///
/// Trusted: calls `ring::pbkdf2::derive` with 100 000 iterations, the e-mail
/// as salt and the password as secret, into a 32-byte buffer.  The result is
/// a function of the two texts, named `pbkdf2_key`.  Ring panics only for
/// inputs too large to hold in memory.
#[verifier::external_body]
fn pbkdf2_derive(password: &str, email: &str) -> (r: Vec<u8>)
    ensures
        r@ == pbkdf2_key(password@, email@),
        r@.len() == KEY_LENGTH,
{
    let mut out = vec![0u8; KEY_LENGTH];
    ring::pbkdf2::derive(
        ring::pbkdf2::PBKDF2_HMAC_SHA256,
        std::num::NonZeroU32::new(100_000).unwrap(),
        email.as_bytes(),
        password.as_bytes(),
        &mut out,
    );
    out
}

/// Twelve random bytes from the system's secure generator.
///
/// Trusted: fills a buffer with `ring::rand::SystemRandom`; none when the
/// generator fails.  The bytes rest on chance; only their number is stated.
#[verifier::external_body]
fn random_nonce() -> (r: Option<Vec<u8>>)
    ensures
        r matches Some(n) ==> n@.len() == NONCE_LENGTH,
{
    let rng = ring::rand::SystemRandom::new();
    let mut buf = [0u8; NONCE_LENGTH];
    match ring::rand::SecureRandom::fill(&rng, &mut buf) {
        Ok(()) => Some(buf.to_vec()),
        Err(_) => None,
    }
}

/// Seal with AES-256-GCM.
///
/// Trusted: builds a `ring::aead::LessSafeKey` for `AES_256_GCM` from the
/// 32-byte key and calls `seal_in_place_append_tag` with the 12-byte nonce
/// and empty associated data; none when ring refuses (input too long).  The
/// ciphertext is named `aes_gcm_sealed`, and, as for any AEAD, opening it
/// under the same key and nonce gives the plaintext back.
#[verifier::external_body]
fn aes_gcm_seal(key: &Vec<u8>, nonce: &Vec<u8>, plaintext: &[u8]) -> (r: Option<Vec<u8>>)
    requires
        key@.len() == KEY_LENGTH,
        nonce@.len() == NONCE_LENGTH,
    ensures
        r matches Some(c) ==> c@ == aes_gcm_sealed(key@, nonce@, plaintext@) && aes_gcm_opened(
            key@,
            nonce@,
            c@,
        ) == Some(plaintext@),
{
    let unbound = ring::aead::UnboundKey::new(&ring::aead::AES_256_GCM, key).ok()?;
    let n: [u8; NONCE_LENGTH] = nonce.as_slice().try_into().ok()?;
    let sealing = ring::aead::LessSafeKey::new(unbound);
    let mut in_out = plaintext.to_vec();
    let nonce = ring::aead::Nonce::assume_unique_for_key(n);
    sealing.seal_in_place_append_tag(nonce, ring::aead::Aad::empty(), &mut in_out).ok()?;
    Some(in_out)
}

/// Open with AES-256-GCM.
///
/// Trusted: builds a `ring::aead::LessSafeKey` for `AES_256_GCM` from the
/// 32-byte key and calls `open_in_place` with the 12-byte nonce and empty
/// associated data.  The outcome is named `aes_gcm_opened`.
#[verifier::external_body]
fn aes_gcm_open(key: &Vec<u8>, nonce: &Vec<u8>, ciphertext: Vec<u8>) -> (r: Option<Vec<u8>>)
    requires
        key@.len() == KEY_LENGTH,
        nonce@.len() == NONCE_LENGTH,
    ensures
        match r {
            Some(p) => aes_gcm_opened(key@, nonce@, ciphertext@) == Some(p@),
            None => aes_gcm_opened(key@, nonce@, ciphertext@) is None,
        },
{
    let unbound = ring::aead::UnboundKey::new(&ring::aead::AES_256_GCM, key).ok()?;
    let n: [u8; NONCE_LENGTH] = nonce.as_slice().try_into().ok()?;
    let opening = ring::aead::LessSafeKey::new(unbound);
    let mut in_out = ciphertext;
    let nonce = ring::aead::Nonce::assume_unique_for_key(n);
    let plain = opening.open_in_place(nonce, ring::aead::Aad::empty(), &mut in_out).ok()?;
    Some(plain.to_vec())
}

/// Standard base64 with padding.
///
/// Trusted: calls `base64::engine::general_purpose::STANDARD.encode`, whose
/// text is the standard padded encoding `base64_text`; decoding it gives the
/// bytes back.
#[verifier::external_body]
fn base64_encode(bytes: &[u8]) -> (r: String)
    ensures
        r@ == base64_text(bytes@),
        base64_decoded(r@) is Ok && base64_decoded(r@)->Ok_0 == bytes@,
{
    base64::Engine::encode(&base64::engine::general_purpose::STANDARD, bytes)
}

/// Standard base64 decoding.
///
/// Trusted: calls `base64::engine::general_purpose::STANDARD.decode` and, on
/// failure, writes the decoder's error with `Display`.  The outcome is named
/// `base64_decoded`.
#[verifier::external_body]
fn base64_decode(text: &str) -> (r: Result<Vec<u8>, String>)
    ensures
        match r {
            Ok(b) => base64_decoded(text@) == Ok::<Seq<u8>, Seq<char>>(b@),
            Err(m) => base64_decoded(text@) == Err::<Seq<u8>, Seq<char>>(m@),
        },
{
    match base64::Engine::decode(&base64::engine::general_purpose::STANDARD, text) {
        Ok(b) => Ok(b),
        Err(e) => Err(format!("{}", e)),
    }
}

/// `prefix` followed by `tail`.
fn joined(prefix: &str, tail: &Vec<char>) -> (s: String)
    ensures
        s@ == prefix@ + tail@,
{
    let mut v = chars_of(prefix);
    let ghost start = v@;
    let mut i: usize = 0;
    while i < tail.len()
        invariant
            i <= tail@.len(),
            v@ == start + tail@.take(i as int),
        decreases tail@.len() - i,
    {
        v.push(tail[i]);
        i += 1;
        assert(v@ =~= start + tail@.take(i as int));
    }
    assert(tail@.take(tail@.len() as int) =~= tail@);
    string_from_chars(v.as_slice())
}

/// An encryption key for sync data: 32 bytes.
#[derive(Clone)]
pub struct EncryptionKey {
    key_bytes: Vec<u8>,
}

impl EncryptionKey {
    /// The key's bytes.
    pub closed spec fn bytes(self) -> Seq<u8> {
        self.key_bytes@
    }

    /// A key holds 32 bytes.
    pub closed spec fn wf(self) -> bool {
        self.key_bytes@.len() == KEY_LENGTH
    }

    /// The key derived from a password, salted with an e-mail address.
    pub fn derive_from_password(password: &str, email: &str) -> (k: EncryptionKey)
        ensures
            k.wf(),
            k.bytes() == pbkdf2_key(password@, email@),
            k.bytes().len() == KEY_LENGTH,
    {
        EncryptionKey { key_bytes: pbkdf2_derive(password, email) }
    }

    /// A key from raw bytes; anything but 32 bytes is refused.
    pub fn from_bytes(bytes: Vec<u8>) -> (r: Result<EncryptionKey, SyncError>)
        ensures
            bytes@.len() == KEY_LENGTH ==> (r matches Ok(k) && k.wf() && k.bytes() == bytes@),
            bytes@.len() != KEY_LENGTH ==> (r matches Err(SyncError::EncryptionError(m)) && m@
                == "Invalid key length: expected 32, got "@ + decimal(bytes@.len())),
    {
        if bytes.len() != KEY_LENGTH {
            let n = decimal_chars(bytes.len() as u64);
            return Err(SyncError::EncryptionError(joined("Invalid key length: expected 32, got ", &n)));
        }
        Ok(EncryptionKey { key_bytes: bytes })
    }

    /// The key's bytes.
    pub fn as_bytes(&self) -> (b: &[u8])
        ensures
            b@ == self.bytes(),
    {
        self.key_bytes.as_slice()
    }
}

/// Encrypted data: base64 ciphertext and nonce, and the scheme version.
#[derive(Debug, Clone, PartialEq, Eq)]
pub struct EncryptedData {
    pub ciphertext: String,
    pub nonce: String,
    pub version: u8,
}

/// What decrypting `d` under `key` gives: the plaintext, or the message of
/// the first check that fails (version, ciphertext text, nonce text, nonce
/// length, authentication).
pub open spec fn decrypt_outcome(key: Seq<u8>, d: EncryptedData) -> Result<Seq<u8>, Seq<char>> {
    if d.version != 1 {
        Err("Unsupported encryption version: "@ + decimal(d.version as nat))
    } else {
        match base64_decoded(d.ciphertext@) {
            Err(m) => Err("Invalid ciphertext: "@ + m),
            Ok(ct) => match base64_decoded(d.nonce@) {
                Err(m) => Err("Invalid nonce: "@ + m),
                Ok(n) => if n.len() != NONCE_LENGTH {
                    Err("Invalid nonce length"@)
                } else {
                    match aes_gcm_opened(key, n, ct) {
                        Some(p) => Ok(p),
                        None => Err("Decryption failed"@),
                    }
                },
            },
        }
    }
}

/// Encrypts and decrypts sync data with one key.
pub struct SyncEncryption {
    key: EncryptionKey,
}

impl SyncEncryption {
    /// An encrypter with this key.
    pub fn new(key: EncryptionKey) -> (e: SyncEncryption)
        requires
            key.wf(),
        ensures
            e.key_bytes() == key.bytes(),
            e.wf(),
    {
        SyncEncryption { key }
    }

    /// The key's bytes.
    pub closed spec fn key_bytes(self) -> Seq<u8> {
        self.key.bytes()
    }

    /// The key is well formed.
    pub closed spec fn wf(self) -> bool {
        self.key.wf()
    }

    /// Encrypt with a fresh random nonce.  The result decrypts, under the same
    /// key, to the plaintext.
    pub fn encrypt(&self, plaintext: &[u8]) -> (r: Result<EncryptedData, SyncError>)
        requires
            self.wf(),
        ensures
            match r {
                Ok(d) => d.version == 1 && decrypt_outcome(self.key_bytes(), d) == Ok::<
                    Seq<u8>,
                    Seq<char>,
                >(plaintext@) && exists|n: Seq<u8>|
                    n.len() == NONCE_LENGTH && d.nonce@ == base64_text(n) && d.ciphertext@
                        == base64_text(aes_gcm_sealed(self.key_bytes(), n, plaintext@)),
                Err(e) => e matches SyncError::EncryptionError(m) && (m@ == "Failed to generate nonce"@
                    || m@ == "Encryption failed"@),
            },
    {
        let nonce = match random_nonce() {
            Some(n) => n,
            None => {
                return Err(SyncError::EncryptionError(String::from_str("Failed to generate nonce")));
            },
        };
        let sealed = match aes_gcm_seal(&self.key.key_bytes, &nonce, plaintext) {
            Some(c) => c,
            None => {
                return Err(SyncError::EncryptionError(String::from_str("Encryption failed")));
            },
        };
        let d = EncryptedData {
            ciphertext: base64_encode(sealed.as_slice()),
            nonce: base64_encode(nonce.as_slice()),
            version: 1,
        };
        proof {
            assert(nonce@.len() == NONCE_LENGTH && d.nonce@ == base64_text(nonce@) && d.ciphertext@
                == base64_text(aes_gcm_sealed(self.key_bytes(), nonce@, plaintext@)));
        }
        Ok(d)
    }

    /// Decrypt: the version must be 1, both texts valid base64, the nonce 12
    /// bytes and the ciphertext authentic under this key.
    pub fn decrypt(&self, encrypted: &EncryptedData) -> (r: Result<Vec<u8>, SyncError>)
        requires
            self.wf(),
        ensures
            match decrypt_outcome(self.key_bytes(), *encrypted) {
                Ok(p) => r matches Ok(v) && v@ == p,
                Err(m) => r matches Err(SyncError::EncryptionError(s)) && s@ == m,
            },
    {
        if encrypted.version != 1 {
            let n = decimal_chars(encrypted.version as u64);
            return Err(SyncError::EncryptionError(joined("Unsupported encryption version: ", &n)));
        }
        let ciphertext = match base64_decode(encrypted.ciphertext.as_str()) {
            Ok(b) => b,
            Err(m) => {
                let t = chars_of(m.as_str());
                return Err(SyncError::EncryptionError(joined("Invalid ciphertext: ", &t)));
            },
        };
        let nonce = match base64_decode(encrypted.nonce.as_str()) {
            Ok(b) => b,
            Err(m) => {
                let t = chars_of(m.as_str());
                return Err(SyncError::EncryptionError(joined("Invalid nonce: ", &t)));
            },
        };
        if nonce.len() != NONCE_LENGTH {
            return Err(SyncError::EncryptionError(String::from_str("Invalid nonce length")));
        }
        match aes_gcm_open(&self.key.key_bytes, &nonce, ciphertext) {
            Some(p) => Ok(p),
            None => Err(SyncError::EncryptionError(String::from_str("Decryption failed"))),
        }
    }
}

} // verus!

verus! {

/// State of the sync system.
#[derive(Debug, Clone, Copy, PartialEq, Eq, Structural)]
pub enum SyncState {
    Idle,
    Checking,
    Uploading,
    Downloading,
    ResolvingConflicts,
    Paused,
    Error,
}

/// Sync status of one data type.
#[derive(Debug, Clone, Copy, PartialEq, Eq)]
pub struct TypeSyncStatus {
    pub data_type: SyncDataType,
    pub last_sync: Option<SyncTime>,
    pub pending_changes: usize,
    pub is_enabled: bool,
    pub items_count: usize,
}

impl TypeSyncStatus {
    /// An enabled, never synced type with nothing pending.
    pub fn new(data_type: SyncDataType) -> (s: TypeSyncStatus)
        ensures
            s == (TypeSyncStatus {
                data_type,
                last_sync: None,
                pending_changes: 0,
                is_enabled: true,
                items_count: 0,
            }),
    {
        TypeSyncStatus { data_type, last_sync: None, pending_changes: 0, is_enabled: true, items_count: 0 }
    }
}

/// Status of sync operations.
#[derive(Debug)]
pub struct SyncStatus {
    pub state: SyncState,
    /// When the last successful sync ended.
    pub last_sync: Option<SyncTime>,
    pub pending_changes: usize,
    pub conflicts_detected: usize,
    pub type_status: Vec<TypeSyncStatus>,
    /// The error, in the error state.
    pub error_message: Option<String>,
    pub is_enabled: bool,
    /// Progress (0-100) while syncing.
    pub progress: Option<u8>,
}

/// The two statuses hold the same values.
pub open spec fn same_status(a: SyncStatus, b: SyncStatus) -> bool {
    &&& a.state == b.state
    &&& a.last_sync == b.last_sync
    &&& a.pending_changes == b.pending_changes
    &&& a.conflicts_detected == b.conflicts_detected
    &&& a.type_status@ == b.type_status@
    &&& a.error_message == b.error_message
    &&& a.is_enabled == b.is_enabled
    &&& a.progress == b.progress
}

/// A copy of an optional text.
pub fn copy_opt_text(o: &Option<String>) -> (r: Option<String>)
    ensures
        r == *o,
{
    match o {
        Some(s) => Some(s.clone()),
        None => None,
    }
}

impl Clone for SyncStatus {
    fn clone(&self) -> (r: Self)
        ensures
            same_status(r, *self),
    {
        let mut types: Vec<TypeSyncStatus> = Vec::new();
        let n = self.type_status.len();
        let mut i: usize = 0;
        while i < n
            invariant
                n == self.type_status@.len(),
                i <= n,
                types@ == self.type_status@.take(i as int),
            decreases n - i,
        {
            types.push(self.type_status[i]);
            i += 1;
            proof {
                assert(types@ =~= self.type_status@.take(i as int));
            }
        }
        proof {
            assert(self.type_status@.take(n as int) =~= self.type_status@);
        }
        SyncStatus {
            state: self.state,
            last_sync: self.last_sync,
            pending_changes: self.pending_changes,
            conflicts_detected: self.conflicts_detected,
            type_status: types,
            error_message: copy_opt_text(&self.error_message),
            is_enabled: self.is_enabled,
            progress: self.progress,
        }
    }
}

impl Default for SyncStatus {
    /// Idle, enabled, never synced, nothing pending.
    fn default() -> (s: Self)
        ensures
            s.state == SyncState::Idle,
            s.last_sync is None,
            s.pending_changes == 0,
            s.conflicts_detected == 0,
            s.type_status@.len() == 0,
            s.error_message is None,
            s.is_enabled,
            s.progress is None,
    {
        SyncStatus {
            state: SyncState::Idle,
            last_sync: None,
            pending_changes: 0,
            conflicts_detected: 0,
            type_status: Vec::new(),
            error_message: None,
            is_enabled: true,
            progress: None,
        }
    }
}

impl SyncStatus {
    /// Checking, uploading, downloading and resolving conflicts are syncing.
    pub open spec fn syncing(self) -> bool {
        self.state is Checking || self.state is Uploading || self.state is Downloading
            || self.state is ResolvingConflicts
    }

    /// The idle status.
    pub fn idle() -> (s: SyncStatus)
        ensures
            s.state == SyncState::Idle,
            s.last_sync is None,
            s.pending_changes == 0,
            s.conflicts_detected == 0,
            s.type_status@.len() == 0,
            s.error_message is None,
            s.is_enabled,
            s.progress is None,
    {
        SyncStatus::default()
    }

    /// The error status with this message.
    pub fn error(message: String) -> (s: SyncStatus)
        ensures
            s.state == SyncState::Error,
            s.error_message == Some(message),
            s.last_sync is None,
            s.pending_changes == 0,
            s.conflicts_detected == 0,
            s.type_status@.len() == 0,
            s.is_enabled,
            s.progress is None,
    {
        SyncStatus { state: SyncState::Error, error_message: Some(message), ..SyncStatus::default() }
    }

    /// Whether a sync is running.
    pub fn is_syncing(&self) -> (b: bool)
        ensures
            b == self.syncing(),
    {
        match self.state {
            SyncState::Checking | SyncState::Uploading | SyncState::Downloading
            | SyncState::ResolvingConflicts => true,
            _ => false,
        }
    }

    /// Whether changes are waiting.
    pub fn has_pending_changes(&self) -> (b: bool)
        ensures
            b == (self.pending_changes > 0),
    {
        self.pending_changes > 0
    }

    /// Change the state; leaving the error state drops the error message.
    pub fn set_state(&mut self, state: SyncState)
        ensures
            *final(self) == (SyncStatus {
                state: state,
                error_message: final(self).error_message,
                ..*old(self)
            }),
            final(self).state == state,
            final(self).error_message == if state == SyncState::Error {
                old(self).error_message
            } else {
                None
            },
            final(self).last_sync == old(self).last_sync,
            final(self).pending_changes == old(self).pending_changes,
            final(self).conflicts_detected == old(self).conflicts_detected,
            final(self).type_status@ == old(self).type_status@,
            final(self).is_enabled == old(self).is_enabled,
            final(self).progress == old(self).progress,
    {
        self.state = state;
        if state != SyncState::Error {
            self.error_message = None;
        }
    }

    /// Record a finished sync: idle, synced now, no progress.
    pub fn complete(&mut self)
        ensures
            *final(self) == (SyncStatus {
                state: SyncState::Idle,
                last_sync: final(self).last_sync,
                progress: None,
                ..*old(self)
            }),
            final(self).state == SyncState::Idle,
            final(self).last_sync is Some,
            final(self).progress is None,
            final(self).error_message == old(self).error_message,
            final(self).pending_changes == old(self).pending_changes,
            final(self).conflicts_detected == old(self).conflicts_detected,
            final(self).type_status@ == old(self).type_status@,
            final(self).is_enabled == old(self).is_enabled,
    {
        self.state = SyncState::Idle;
        self.last_sync = Some(SyncTime::now());
        self.progress = None;
    }
}

/// Result of a sync operation.
#[derive(Debug, Clone, PartialEq, Eq)]
pub struct SyncOperationResult {
    pub success: bool,
    pub changes_uploaded: usize,
    pub changes_downloaded: usize,
    pub conflicts_resolved: usize,
    pub duration_ms: u64,
    pub error: Option<String>,
}

impl SyncOperationResult {
    /// A successful result with these counts.
    pub fn success(uploaded: usize, downloaded: usize, conflicts: usize, duration_ms: u64) -> (r:
        SyncOperationResult)
        ensures
            r == (SyncOperationResult {
                success: true,
                changes_uploaded: uploaded,
                changes_downloaded: downloaded,
                conflicts_resolved: conflicts,
                duration_ms,
                error: None,
            }),
    {
        SyncOperationResult {
            success: true,
            changes_uploaded: uploaded,
            changes_downloaded: downloaded,
            conflicts_resolved: conflicts,
            duration_ms,
            error: None,
        }
    }

    /// A failed result with this error and nothing done.
    pub fn failure(error: String) -> (r: SyncOperationResult)
        ensures
            r == (SyncOperationResult {
                success: false,
                changes_uploaded: 0,
                changes_downloaded: 0,
                conflicts_resolved: 0,
                duration_ms: 0,
                error: Some(error),
            }),
    {
        SyncOperationResult {
            success: false,
            changes_uploaded: 0,
            changes_downloaded: 0,
            conflicts_resolved: 0,
            duration_ms: 0,
            error: Some(error),
        }
    }
}

/// A fresh random identifier in UUID text form.
///
/// Trusted: calls `uuid::Uuid::new_v4` and writes it with `to_string` (36
/// characters, hyphenated).  The value rests on chance; only its length is
/// stated.
#[verifier::external_body]
fn random_uuid_text() -> (r: String)
    ensures
        r@.len() == 36,
{
    uuid::Uuid::new_v4().to_string()
}

/// Device-specific sync settings.
#[derive(Debug)]
pub struct DeviceSettings {
    pub device_id: String,
    pub device_name: String,
    pub registered_at: SyncTime,
    pub enabled_types: Vec<SyncDataType>,
    pub sync_on_metered: bool,
    /// Longest wait between syncs, in seconds (0 = realtime).
    pub sync_interval_seconds: u64,
}

/// The two device settings hold the same values.
pub open spec fn same_device_settings(a: DeviceSettings, b: DeviceSettings) -> bool {
    &&& a.device_id == b.device_id
    &&& a.device_name == b.device_name
    &&& a.registered_at == b.registered_at
    &&& a.enabled_types@ == b.enabled_types@
    &&& a.sync_on_metered == b.sync_on_metered
    &&& a.sync_interval_seconds == b.sync_interval_seconds
}

/// A copy of a list of data types.
pub fn copy_types(v: &Vec<SyncDataType>) -> (r: Vec<SyncDataType>)
    ensures
        r@ == v@,
{
    let mut r: Vec<SyncDataType> = Vec::new();
    let n = v.len();
    let mut i: usize = 0;
    while i < n
        invariant
            n == v@.len(),
            i <= n,
            r@ == v@.take(i as int),
        decreases n - i,
    {
        r.push(v[i]);
        i += 1;
        proof {
            assert(r@ =~= v@.take(i as int));
        }
    }
    proof {
        assert(v@.take(n as int) =~= v@);
    }
    r
}

impl Clone for DeviceSettings {
    fn clone(&self) -> (r: Self)
        ensures
            same_device_settings(r, *self),
    {
        DeviceSettings {
            device_id: self.device_id.clone(),
            device_name: self.device_name.clone(),
            registered_at: self.registered_at,
            enabled_types: copy_types(&self.enabled_types),
            sync_on_metered: self.sync_on_metered,
            sync_interval_seconds: self.sync_interval_seconds,
        }
    }
}

impl DeviceSettings {
    /// Settings for a device with this name: a fresh device id, registered
    /// now, every type enabled, no sync on metered links, every 5 minutes.
    pub fn new(device_name: String) -> (s: DeviceSettings)
        ensures
            s.device_id@.len() == 36,
            s.device_name == device_name,
            s.enabled_types@ == SyncDataType::all_spec(),
            !s.sync_on_metered,
            s.sync_interval_seconds == 300,
    {
        DeviceSettings {
            device_id: random_uuid_text(),
            device_name,
            registered_at: SyncTime::now(),
            enabled_types: SyncDataType::all(),
            sync_on_metered: false,
            sync_interval_seconds: 300,
        }
    }
}

/// A sync account.
#[derive(Debug)]
pub struct SyncAccount {
    pub id: String,
    pub email: String,
    pub display_name: Option<String>,
    pub created_at: SyncTime,
    pub last_authenticated: SyncTime,
    pub is_verified: bool,
    pub sync_server: String,
    pub device_settings: DeviceSettings,
}

/// The two accounts hold the same values.
pub open spec fn same_account(a: SyncAccount, b: SyncAccount) -> bool {
    &&& a.id == b.id
    &&& a.email == b.email
    &&& a.display_name == b.display_name
    &&& a.created_at == b.created_at
    &&& a.last_authenticated == b.last_authenticated
    &&& a.is_verified == b.is_verified
    &&& a.sync_server == b.sync_server
    &&& same_device_settings(a.device_settings, b.device_settings)
}

impl Clone for SyncAccount {
    fn clone(&self) -> (r: Self)
        ensures
            same_account(r, *self),
    {
        SyncAccount {
            id: self.id.clone(),
            email: self.email.clone(),
            display_name: copy_opt_text(&self.display_name),
            created_at: self.created_at,
            last_authenticated: self.last_authenticated,
            is_verified: self.is_verified,
            sync_server: self.sync_server.clone(),
            device_settings: self.device_settings.clone(),
        }
    }
}

impl SyncAccount {
    /// A new unverified account, created and authenticated now, for a
    /// device with this name.
    pub fn new(id: String, email: String, sync_server: String, device_name: String) -> (a:
        SyncAccount)
        ensures
            a.id == id,
            a.email == email,
            a.display_name is None,
            a.created_at == a.last_authenticated,
            !a.is_verified,
            a.sync_server == sync_server,
            a.device_settings.device_name == device_name,
            a.device_settings.enabled_types@ == SyncDataType::all_spec(),
            !a.device_settings.sync_on_metered,
            a.device_settings.sync_interval_seconds == 300,
    {
        let now = SyncTime::now();
        SyncAccount {
            id,
            email,
            display_name: None,
            created_at: now,
            last_authenticated: now,
            is_verified: false,
            sync_server,
            device_settings: DeviceSettings::new(device_name),
        }
    }

    /// Record an authentication now.
    pub fn update_authenticated(&mut self)
        ensures
            *final(self) == (SyncAccount { last_authenticated: final(self).last_authenticated, ..*old(self) }),
    {
        self.last_authenticated = SyncTime::now();
    }

    /// Whether a data type is enabled.
    pub fn is_type_enabled(&self, data_type: SyncDataType) -> (b: bool)
        ensures
            b == self.device_settings.enabled_types@.contains(data_type),
    {
        contains_type(&self.device_settings.enabled_types, data_type)
    }

    /// Enable a data type; it is appended when not already enabled.
    pub fn enable_type(&mut self, data_type: SyncDataType)
        ensures
            final(self).device_settings.enabled_types@ == if old(
                self,
            ).device_settings.enabled_types@.contains(data_type) {
                old(self).device_settings.enabled_types@
            } else {
                old(self).device_settings.enabled_types@.push(data_type)
            },
    {
        if !self.is_type_enabled(data_type) {
            self.device_settings.enabled_types.push(data_type);
        }
    }

    /// Disable a data type: every occurrence is removed, the rest keep their
    /// order.
    pub fn disable_type(&mut self, data_type: SyncDataType)
        ensures
            final(self).device_settings.enabled_types@ == crate::seqs::select(
                old(self).device_settings.enabled_types@,
                differs_from(data_type),
            ),
    {
        let mut old_types: Vec<SyncDataType> = Vec::new();
        std::mem::swap(&mut old_types, &mut self.device_settings.enabled_types);
        let mut kept: Vec<SyncDataType> = Vec::new();
        let n = old_types.len();
        let mut i: usize = 0;
        while i < n
            invariant
                n == old_types@.len(),
                i <= n,
                kept@ == crate::seqs::select(old_types@.take(i as int), differs_from(data_type)),
            decreases n - i,
        {
            proof {
                assert(old_types@.take(i + 1).drop_last() =~= old_types@.take(i as int));
            }
            if old_types[i] != data_type {
                kept.push(old_types[i]);
            }
            i += 1;
        }
        proof {
            assert(old_types@.take(n as int) =~= old_types@);
        }
        self.device_settings.enabled_types = kept;
    }
}

/// Whether `t` occurs in `v`.
fn contains_type(v: &Vec<SyncDataType>, t: SyncDataType) -> (b: bool)
    ensures
        b == v@.contains(t),
{
    let n = v.len();
    let mut i: usize = 0;
    while i < n
        invariant
            n == v@.len(),
            i <= n,
            forall|j: int| 0 <= j < i ==> v@[j] != t,
        decreases n - i,
    {
        if v[i] == t {
            assert(v@[i as int] == t);
            return true;
        }
        i += 1;
    }
    false
}

/// The data type is not `t`.
pub open spec fn differs_from(t: SyncDataType) -> spec_fn(SyncDataType) -> bool {
    |x: SyncDataType| x != t
}

/// Credentials of a sync account.
#[derive(Debug, Clone)]
pub struct SyncAccountCredentials {
    pub email: String,
    pub auth_token: String,
    pub refresh_token: Option<String>,
    pub expires_at: Option<SyncTime>,
}

impl SyncAccountCredentials {
    /// Credentials with no refresh token and no expiry.
    pub fn new(email: String, auth_token: String) -> (c: SyncAccountCredentials)
        ensures
            c.email == email,
            c.auth_token == auth_token,
            c.refresh_token is None,
            c.expires_at is None,
    {
        SyncAccountCredentials { email, auth_token, refresh_token: None, expires_at: None }
    }

    /// Whether the credentials had expired at time `now`.
    pub fn is_expired_at(&self, now: SyncTime) -> (b: bool)
        ensures
            b == (self.expires_at matches Some(exp) && later(now, exp)),
    {
        match self.expires_at {
            Some(exp) => now.is_after(&exp),
            None => false,
        }
    }

    /// Whether the credentials expire within five minutes of `now`.
    pub fn needs_refresh_at(&self, now: SyncTime) -> (b: bool)
        requires
            now.secs <= i64::MAX - 300,
        ensures
            b == (self.expires_at matches Some(exp) && later(
                SyncTime { secs: (now.secs + 300) as i64, nanos: now.nanos },
                exp,
            )),
    {
        match self.expires_at {
            Some(exp) => {
                let soon = SyncTime { secs: now.secs + 300, nanos: now.nanos };
                soon.is_after(&exp)
            },
            None => false,
        }
    }

    /// Whether the credentials have expired, by the clock.
    pub fn is_expired(&self) -> (b: bool)
        ensures
            self.expires_at is None ==> !b,
    {
        self.is_expired_at(SyncTime::now())
    }

    /// Whether the credentials expire within five minutes, by the clock.
    pub fn needs_refresh(&self) -> (b: bool)
        ensures
            self.expires_at is None ==> !b,
    {
        let now = SyncTime::now();
        if now.secs > i64::MAX - 300 {
            return self.expires_at.is_some();
        }
        self.needs_refresh_at(now)
    }
}

} // verus!

verus! {

/// A change waiting to be synced.
#[derive(Debug)]
pub struct QueuedChange {
    pub id: u128,
    pub change: Change,
    pub queued_at: SyncTime,
    /// Sync attempts made.
    pub attempts: u32,
    /// The last sync error.
    pub last_error: Option<String>,
    /// Priority (lower goes first).
    pub priority: u8,
}

/// The abstract value of a queued change.
pub struct QueuedChangeView {
    pub id: u128,
    pub change: ChangeView,
    pub queued_at: SyncTime,
    pub attempts: u32,
    pub last_error: Option<String>,
    pub priority: u8,
}

impl View for QueuedChange {
    type V = QueuedChangeView;

    open spec fn view(&self) -> QueuedChangeView {
        QueuedChangeView {
            id: self.id,
            change: self.change@,
            queued_at: self.queued_at,
            attempts: self.attempts,
            last_error: self.last_error,
            priority: self.priority,
        }
    }
}

impl Clone for QueuedChange {
    fn clone(&self) -> (r: Self)
        ensures
            r@ == self@,
    {
        QueuedChange {
            id: self.id,
            change: self.change.clone(),
            queued_at: self.queued_at,
            attempts: self.attempts,
            last_error: match &self.last_error {
                Some(e) => Some(e.clone()),
                None => None,
            },
            priority: self.priority,
        }
    }
}

impl QueuedChange {
    /// The change, queued now with its data type's priority and no attempts.
    pub fn new(change: Change) -> (q: QueuedChange)
        ensures
            q.change@ == change@,
            q.attempts == 0,
            q.last_error is None,
            q.priority == change.data_type.priority_spec(),
    {
        let priority = change.data_type.priority();
        QueuedChange {
            id: random_u128(),
            change,
            queued_at: SyncTime::now(),
            attempts: 0,
            last_error: None,
            priority,
        }
    }

    /// Record a failed attempt and its error.
    pub fn mark_failed(&mut self, error: String)
        requires
            old(self).attempts < u32::MAX,
        ensures
            final(self)@ == (QueuedChangeView {
                attempts: (old(self).attempts + 1) as u32,
                last_error: Some(error),
                ..old(self)@
            }),
    {
        self.attempts = self.attempts + 1;
        self.last_error = Some(error);
    }

    /// Whether fewer than `max_attempts` attempts were made.
    pub fn should_retry(&self, max_attempts: u32) -> (b: bool)
        ensures
            b == (self.attempts < max_attempts),
    {
        self.attempts < max_attempts
    }
}

/// The sync order: by priority, then oldest first.
pub open spec fn sync_order() -> spec_fn(QueuedChange, QueuedChange) -> bool {
    |a: QueuedChange, b: QueuedChange|
        a.priority < b.priority || (a.priority == b.priority && !later(a.queued_at, b.queued_at))
}

/// The eviction order: lowest priority (highest number) first, then oldest
/// first.
pub open spec fn eviction_order() -> spec_fn(QueuedChange, QueuedChange) -> bool {
    |a: QueuedChange, b: QueuedChange|
        a.priority > b.priority || (a.priority == b.priority && !later(a.queued_at, b.queued_at))
}

/// The order used by a sort: eviction order or sync order.
pub open spec fn queue_order(evicting: bool) -> spec_fn(QueuedChange, QueuedChange) -> bool {
    if evicting {
        eviction_order()
    } else {
        sync_order()
    }
}

/// The position at which `x` goes into `t`: before the first element that
/// does not come before or with it.
pub open spec fn insert_position(
    t: Seq<QueuedChange>,
    x: QueuedChange,
    le: spec_fn(QueuedChange, QueuedChange) -> bool,
) -> int
    decreases t.len(),
{
    if t.len() == 0 {
        0
    } else if !le(t[0], x) {
        0
    } else {
        1 + insert_position(t.drop_first(), x, le)
    }
}

/// `s` sorted stably by `le`: each element goes after every element placed
/// before it that comes before or with it.
pub open spec fn stable_sorted(
    s: Seq<QueuedChange>,
    le: spec_fn(QueuedChange, QueuedChange) -> bool,
) -> Seq<QueuedChange>
    decreases s.len(),
{
    if s.len() == 0 {
        Seq::empty()
    } else {
        let t = stable_sorted(s.drop_last(), le);
        let p = insert_position(t, s.last(), le);
        t.take(p).push(s.last()) + t.skip(p)
    }
}

/// The queue after eviction: a tenth of it (rounded down) goes, the oldest
/// changes of lowest priority, taken from the front of the eviction order.
pub open spec fn evicted(q: Seq<QueuedChange>) -> Seq<QueuedChange> {
    let to_remove = q.len() / 10;
    if to_remove == 0 {
        q
    } else {
        stable_sorted(q, eviction_order()).skip(to_remove as int)
    }
}

/// The queue before a change is added: evicted when full.
pub open spec fn room_made(q: OfflineQueueView) -> Seq<QueuedChange> {
    if q.queue.len() >= q.max_size {
        evicted(q.queue)
    } else {
        q.queue
    }
}

/// The queued change has this identifier.
pub open spec fn queued_id_is(id: u128) -> spec_fn(QueuedChange) -> bool {
    |c: QueuedChange| c.id == id
}

/// The queued change can be retried.
pub open spec fn retryable(max_attempts: u32) -> spec_fn(QueuedChange) -> bool {
    |c: QueuedChange| c.attempts < max_attempts
}

/// The queued change has used up its attempts.
pub open spec fn exhausted(max_attempts: u32) -> spec_fn(QueuedChange) -> bool {
    |c: QueuedChange| c.attempts >= max_attempts
}

proof fn lemma_insert_position_bounds(
    t: Seq<QueuedChange>,
    x: QueuedChange,
    le: spec_fn(QueuedChange, QueuedChange) -> bool,
)
    ensures
        0 <= insert_position(t, x, le) <= t.len(),
        forall|j: int| 0 <= j < insert_position(t, x, le) ==> le(#[trigger] t[j], x),
        insert_position(t, x, le) < t.len() ==> !le(t[insert_position(t, x, le)], x),
    decreases t.len(),
{
    if t.len() > 0 && le(t[0], x) {
        let d = t.drop_first();
        lemma_insert_position_bounds(d, x, le);
        assert forall|j: int| 0 <= j < insert_position(t, x, le) implies le(#[trigger] t[j], x) by {
            if j > 0 {
                assert(t[j] == d[j - 1]);
            }
        }
    }
}

proof fn lemma_insert_position_at(
    t: Seq<QueuedChange>,
    x: QueuedChange,
    le: spec_fn(QueuedChange, QueuedChange) -> bool,
    p: int,
)
    requires
        0 <= p <= t.len(),
        forall|j: int| 0 <= j < p ==> le(#[trigger] t[j], x),
        p < t.len() ==> !le(t[p], x),
    ensures
        insert_position(t, x, le) == p,
    decreases t.len(),
{
    if t.len() > 0 && p > 0 {
        let d = t.drop_first();
        assert forall|j: int| 0 <= j < p - 1 implies le(#[trigger] d[j], x) by {
            assert(d[j] == t[j + 1]);
        }
        lemma_insert_position_at(d, x, le, p - 1);
    }
}

proof fn lemma_stable_sorted_len(
    s: Seq<QueuedChange>,
    le: spec_fn(QueuedChange, QueuedChange) -> bool,
)
    ensures
        stable_sorted(s, le).len() == s.len(),
    decreases s.len(),
{
    if s.len() > 0 {
        let t = stable_sorted(s.drop_last(), le);
        lemma_stable_sorted_len(s.drop_last(), le);
        lemma_insert_position_bounds(t, s.last(), le);
    }
}

/// `s` is in the order `le`: each element comes before or with every
/// element after it.
pub open spec fn ordered_by(s: Seq<QueuedChange>, le: spec_fn(QueuedChange, QueuedChange) -> bool) -> bool {
    forall|i: int, j: int| 0 <= i < j < s.len() ==> le(#[trigger] s[i], #[trigger] s[j])
}

/// `le` orders any two elements one way or the other, and chains.
pub open spec fn total_preorder(le: spec_fn(QueuedChange, QueuedChange) -> bool) -> bool {
    &&& forall|a: QueuedChange, b: QueuedChange| #[trigger] le(a, b) || le(b, a)
    &&& forall|a: QueuedChange, b: QueuedChange, c: QueuedChange|
        #![trigger le(a, b), le(b, c)]
        le(a, b) && le(b, c) ==> le(a, c)
}

/// Sorting puts a sequence in the order, when the order is total.
proof fn lemma_stable_sorted_ordered(s: Seq<QueuedChange>, le: spec_fn(QueuedChange, QueuedChange) -> bool)
    requires
        total_preorder(le),
    ensures
        ordered_by(stable_sorted(s, le), le),
    decreases s.len(),
{
    if s.len() > 0 {
        let t = stable_sorted(s.drop_last(), le);
        let x = s.last();
        lemma_stable_sorted_ordered(s.drop_last(), le);
        lemma_insert_position_bounds(t, x, le);
        let p = insert_position(t, x, le);
        let r = stable_sorted(s, le);
        assert(r =~= t.insert(p, x));
        assert forall|i: int, j: int| 0 <= i < j < r.len() implies le(#[trigger] r[i], #[trigger] r[j]) by {
            if j < p {
                assert(r[i] == t[i] && r[j] == t[j]);
            } else if j == p {
                assert(r[i] == t[i]);
            } else if i == p {
                assert(r[j] == t[j - 1]);
                assert(!le(t[p], x));
                assert(le(x, t[p]));
                if j - 1 > p {
                    assert(le(t[p], t[j - 1]));
                }
            } else if i < p {
                assert(r[i] == t[i] && r[j] == t[j - 1]);
            } else {
                assert(r[i] == t[i - 1] && r[j] == t[j - 1]);
            }
        }
    }
}

/// Sorting keeps every element, as often as it occurs.
proof fn lemma_stable_sorted_multiset(s: Seq<QueuedChange>, le: spec_fn(QueuedChange, QueuedChange) -> bool)
    ensures
        stable_sorted(s, le).to_multiset() == s.to_multiset(),
    decreases s.len(),
{
    broadcast use vstd::seq_lib::group_to_multiset_ensures;

    if s.len() > 0 {
        let t = stable_sorted(s.drop_last(), le);
        let x = s.last();
        lemma_stable_sorted_multiset(s.drop_last(), le);
        lemma_insert_position_bounds(t, x, le);
        let p = insert_position(t, x, le);
        assert(stable_sorted(s, le) =~= t.insert(p, x));
        assert(s =~= s.drop_last().push(x));
    }
}

/// Changes are synced in order: after queueing, every change comes before
/// or with each one after it, by priority first and then oldest first.
pub proof fn law_queue_in_sync_order(s: Seq<QueuedChange>)
    ensures
        ordered_by(stable_sorted(s, sync_order()), sync_order()),
{
    lemma_stable_sorted_ordered(s, sync_order());
}

/// In the queue put in sync order, a change never comes after one of lower
/// priority (higher number), and of two changes of the same priority the one
/// queued earlier comes first.
pub proof fn law_sync_order_oldest_first(s: Seq<QueuedChange>)
    ensures
        forall|i: int, j: int|
            #![trigger stable_sorted(s, sync_order())[i], stable_sorted(s, sync_order())[j]]
            0 <= i < j < stable_sorted(s, sync_order()).len() ==> {
                let a = stable_sorted(s, sync_order())[i];
                let b = stable_sorted(s, sync_order())[j];
                a.priority < b.priority || (a.priority == b.priority && !(a.queued_at.secs
                    > b.queued_at.secs || (a.queued_at.secs == b.queued_at.secs
                    && a.queued_at.nanos > b.queued_at.nanos)))
            },
{
    lemma_stable_sorted_ordered(s, sync_order());
    let q = stable_sorted(s, sync_order());
    assert forall|i: int, j: int| #![trigger q[i], q[j]] 0 <= i < j < q.len() implies {
        let a = q[i];
        let b = q[j];
        a.priority < b.priority || (a.priority == b.priority && !(a.queued_at.secs
            > b.queued_at.secs || (a.queued_at.secs == b.queued_at.secs && a.queued_at.nanos
            > b.queued_at.nanos)))
    } by {
        assert((sync_order())(q[i], q[j]));
    }
}

/// Putting the queue in sync order loses no change and adds none.
pub proof fn law_queue_keeps_changes(s: Seq<QueuedChange>)
    ensures
        stable_sorted(s, sync_order()).to_multiset() == s.to_multiset(),
{
    lemma_stable_sorted_multiset(s, sync_order());
}

/// The first key of the sync order, for a comparison done in code.
fn comes_first(a: &QueuedChange, b: &QueuedChange, evicting: bool) -> (r: bool)
    ensures
        r == (queue_order(evicting))(*a, *b),
{
    let same_or_older = !a.queued_at.is_after(&b.queued_at);
    if evicting {
        a.priority > b.priority || (a.priority == b.priority && same_or_older)
    } else {
        a.priority < b.priority || (a.priority == b.priority && same_or_older)
    }
}

/// Sort the items stably by the sync or the eviction order.
fn sort_queue(items: Vec<QueuedChange>, evicting: bool) -> (r: Vec<QueuedChange>)
    ensures
        r@ == stable_sorted(items@, queue_order(evicting)),
{
    let ghost orig = items@;
    let ghost le = queue_order(evicting);
    let mut rest = items;
    let mut out: Vec<QueuedChange> = Vec::new();
    let mut k: usize = 0;
    let n = rest.len();
    proof {
        assert(orig.take(0) =~= Seq::<QueuedChange>::empty());
        assert(rest@ =~= orig.skip(0));
    }
    while k < n
        invariant
            n == orig.len(),
            k <= n,
            le == queue_order(evicting),
            rest@ == orig.skip(k as int),
            out@ == stable_sorted(orig.take(k as int), le),
        decreases n - k,
    {
        let x = rest.remove(0);
        proof {
            assert(x == orig[k as int]);
            assert(rest@ =~= orig.skip(k + 1));
            assert(orig.take(k + 1).drop_last() =~= orig.take(k as int));
            assert(orig.take(k + 1).last() == x);
        }
        let m = out.len();
        let mut p: usize = 0;
        while p < m && comes_first(&out[p], &x, evicting)
            invariant
                m == out@.len(),
                p <= m,
                le == queue_order(evicting),
                forall|j: int| 0 <= j < p ==> le(#[trigger] out@[j], x),
            decreases m - p,
        {
            p += 1;
        }
        proof {
            lemma_insert_position_at(out@, x, le, p as int);
        }
        let ghost before = out@;
        out.insert(p, x);
        proof {
            assert(out@ =~= before.take(p as int).push(x) + before.skip(p as int));
        }
        k += 1;
    }
    proof {
        assert(orig.take(n as int) =~= orig);
    }
    out
}

/// Changes made while offline, in sync order.
#[derive(Debug)]
pub struct OfflineQueue {
    queue: Vec<QueuedChange>,
    max_size: usize,
    max_attempts: u32,
}

/// The abstract state of an offline queue.
pub struct OfflineQueueView {
    pub queue: Seq<QueuedChange>,
    pub max_size: usize,
    pub max_attempts: u32,
}

impl View for OfflineQueue {
    type V = OfflineQueueView;

    closed spec fn view(&self) -> OfflineQueueView {
        OfflineQueueView { queue: self.queue@, max_size: self.max_size, max_attempts: self.max_attempts }
    }
}

impl OfflineQueue {
    /// An empty queue of at most 10 000 changes, each tried 5 times.
    pub fn new() -> (q: OfflineQueue)
        ensures
            q@ == (OfflineQueueView { queue: Seq::empty(), max_size: 10000, max_attempts: 5 }),
    {
        OfflineQueue { queue: Vec::new(), max_size: 10000, max_attempts: 5 }
    }

    /// An empty queue with these limits.
    pub fn with_settings(max_size: usize, max_attempts: u32) -> (q: OfflineQueue)
        ensures
            q@ == (OfflineQueueView { queue: Seq::empty(), max_size, max_attempts }),
    {
        OfflineQueue { queue: Vec::new(), max_size, max_attempts }
    }

    /// Queue a change.  A full queue first evicts a tenth of its changes;
    /// then the new change is added and the queue sorted in sync order.
    pub fn enqueue(&mut self, change: Change)
        ensures
            final(self)@.max_size == old(self)@.max_size,
            final(self)@.max_attempts == old(self)@.max_attempts,
            exists|x: QueuedChange|
                #![trigger stable_sorted(room_made(old(self)@).push(x), sync_order())]
                x.change@ == change@ && x.attempts == 0 && x.last_error is None && x.priority
                    == change.data_type.priority_spec() && final(self)@.queue == stable_sorted(
                    room_made(old(self)@).push(x),
                    sync_order(),
                ),
            forall|i: int, j: int|
                #![trigger final(self)@.queue[i], final(self)@.queue[j]]
                0 <= i < j < final(self)@.queue.len() ==> final(self)@.queue[i].priority
                    < final(self)@.queue[j].priority || (final(self)@.queue[i].priority
                    == final(self)@.queue[j].priority && !(final(self)@.queue[i].queued_at.secs
                    > final(self)@.queue[j].queued_at.secs || (final(self)@.queue[i].queued_at.secs
                    == final(self)@.queue[j].queued_at.secs
                    && final(self)@.queue[i].queued_at.nanos
                    > final(self)@.queue[j].queued_at.nanos))),
    {
        if self.queue.len() >= self.max_size {
            self.evict_if_needed();
        }
        let ghost q1 = self.queue@;
        let queued = QueuedChange::new(change);
        let ghost x = queued;
        self.queue.push(queued);
        let mut items: Vec<QueuedChange> = Vec::new();
        std::mem::swap(&mut items, &mut self.queue);
        self.queue = sort_queue(items, false);
        assert(queue_order(false) == sync_order());
        assert(q1 == room_made(old(self)@));
        assert(self.queue@ == stable_sorted(room_made(old(self)@).push(x), sync_order()));
        assert(x.change@ == change@ && x.attempts == 0 && x.last_error is None && x.priority
            == change.data_type.priority_spec());
        proof {
            law_sync_order_oldest_first(room_made(old(self)@).push(x));
        }
    }

    /// Evict a tenth of the queue (rounded down): the oldest changes of
    /// lowest priority, from the front of the eviction order; the rest
    /// stays in that order.
    fn evict_if_needed(&mut self)
        ensures
            final(self)@ == (OfflineQueueView { queue: evicted(old(self)@.queue), ..old(self)@ }),
    {
        let to_remove = self.queue.len() / 10;
        if to_remove == 0 {
            return ;
        }
        let mut items: Vec<QueuedChange> = Vec::new();
        std::mem::swap(&mut items, &mut self.queue);
        let n = items.len();
        let ghost orig = items@;
        let mut sorted = sort_queue(items, true);
        assert(queue_order(true) == eviction_order());
        proof {
            lemma_stable_sorted_len(orig, eviction_order());
        }
        let rest = sorted.split_off(to_remove);
        assert(rest@ =~= stable_sorted(orig, eviction_order()).skip(to_remove as int));
        self.queue = rest;
    }

    /// The number of queued changes.
    pub fn len(&self) -> (n: usize)
        ensures
            n == self@.queue.len(),
    {
        self.queue.len()
    }

    /// Whether nothing is queued.
    pub fn is_empty(&self) -> (b: bool)
        ensures
            b == (self@.queue.len() == 0),
    {
        self.queue.len() == 0
    }

    /// Copies of every queued change, in order.
    pub fn peek_all(&self) -> (r: Vec<QueuedChange>)
        ensures
            r@.len() == self@.queue.len(),
            forall|i: int| 0 <= i < r@.len() ==> r@[i]@ == self@.queue[i]@,
    {
        let mut r: Vec<QueuedChange> = Vec::new();
        let n = self.queue.len();
        let mut i: usize = 0;
        while i < n
            invariant
                n == self.queue@.len(),
                i <= n,
                r@.len() == i,
                forall|j: int| 0 <= j < i ==> r@[j]@ == self.queue@[j]@,
            decreases n - i,
        {
            r.push(self.queue[i].clone());
            i += 1;
        }
        r
    }

    /// Copies of the changes that can still be retried, in order.
    pub fn get_pending(&self) -> (r: Vec<QueuedChange>)
        ensures
            r@.len() == crate::seqs::select(self@.queue, retryable(self@.max_attempts)).len(),
            forall|i: int|
                0 <= i < r@.len() ==> r@[i]@ == crate::seqs::select(
                    self@.queue,
                    retryable(self@.max_attempts),
                )[i]@,
    {
        let ghost f = retryable(self.max_attempts);
        let mut r: Vec<QueuedChange> = Vec::new();
        let n = self.queue.len();
        let mut i: usize = 0;
        while i < n
            invariant
                n == self.queue@.len(),
                i <= n,
                f == retryable(self.max_attempts),
                r@.len() == crate::seqs::select(self.queue@.take(i as int), f).len(),
                forall|j: int|
                    0 <= j < r@.len() ==> r@[j]@ == crate::seqs::select(
                        self.queue@.take(i as int),
                        f,
                    )[j]@,
            decreases n - i,
        {
            proof {
                assert(self.queue@.take(i + 1).drop_last() =~= self.queue@.take(i as int));
            }
            if self.queue[i].should_retry(self.max_attempts) {
                r.push(self.queue[i].clone());
            }
            i += 1;
        }
        proof {
            assert(self.queue@.take(n as int) =~= self.queue@);
        }
        r
    }

    /// Remove and return every queued change, in order.
    pub fn drain(&mut self) -> (r: Vec<QueuedChange>)
        ensures
            r@ == old(self)@.queue,
            final(self)@ == (OfflineQueueView { queue: Seq::empty(), ..old(self)@ }),
    {
        let mut r: Vec<QueuedChange> = Vec::new();
        std::mem::swap(&mut r, &mut self.queue);
        r
    }

    fn position(&self, id: u128) -> (r: Option<usize>)
        ensures
            match r {
                Some(i) => crate::seqs::first_match(self@.queue, queued_id_is(id)) == Some(i as int)
                    && i < self@.queue.len(),
                None => crate::seqs::first_match(self@.queue, queued_id_is(id)) is None,
            },
    {
        let n = self.queue.len();
        let mut i: usize = 0;
        while i < n
            invariant
                n == self.queue@.len(),
                i <= n,
                forall|j: int| 0 <= j < i ==> self.queue@[j].id != id,
            decreases n - i,
        {
            if self.queue[i].id == id {
                proof {
                    crate::seqs::lemma_first_match_at(self.queue@, queued_id_is(id), i as int);
                }
                return Some(i);
            }
            i += 1;
        }
        proof {
            crate::seqs::lemma_first_match_none(self.queue@, queued_id_is(id));
        }
        None
    }

    /// Remove and return the first change with this identifier.
    pub fn remove(&mut self, id: u128) -> (r: Option<QueuedChange>)
        ensures
            match crate::seqs::first_match(old(self)@.queue, queued_id_is(id)) {
                Some(i) => r == Some(old(self)@.queue[i]) && final(self)@ == (OfflineQueueView {
                    queue: old(self)@.queue.remove(i),
                    ..old(self)@
                }),
                None => r is None && final(self)@ == old(self)@,
            },
    {
        match self.position(id) {
            Some(i) => Some(self.queue.remove(i)),
            None => None,
        }
    }

    /// Record a failed attempt of the first change with this identifier.
    pub fn mark_failed(&mut self, id: u128, error: String)
        requires
            crate::seqs::first_match(old(self)@.queue, queued_id_is(id)) matches Some(i) ==> old(
                self,
            )@.queue[i].attempts < u32::MAX,
        ensures
            final(self)@.max_size == old(self)@.max_size,
            final(self)@.max_attempts == old(self)@.max_attempts,
            match crate::seqs::first_match(old(self)@.queue, queued_id_is(id)) {
                Some(i) => final(self)@.queue.len() == old(self)@.queue.len() && (forall|j: int|
                    0 <= j < old(self)@.queue.len() && j != i ==> final(self)@.queue[j] == old(
                        self,
                    )@.queue[j]) && final(self)@.queue[i]@ == (QueuedChangeView {
                    attempts: (old(self)@.queue[i].attempts + 1) as u32,
                    last_error: Some(error),
                    ..old(self)@.queue[i]@
                }),
                None => final(self)@ == old(self)@,
            },
    {
        match self.position(id) {
            Some(i) => {
                let mut c = self.queue.remove(i);
                c.mark_failed(error);
                self.queue.insert(i, c);
            },
            None => {},
        }
    }

    /// Remove and return the changes that used up their attempts; the others
    /// stay in order.
    pub fn prune_failed(&mut self) -> (r: Vec<QueuedChange>)
        ensures
            r@ == crate::seqs::select(old(self)@.queue, exhausted(old(self)@.max_attempts)),
            final(self)@ == (OfflineQueueView {
                queue: crate::seqs::select(old(self)@.queue, retryable(old(self)@.max_attempts)),
                ..old(self)@
            }),
    {
        let mut items: Vec<QueuedChange> = Vec::new();
        std::mem::swap(&mut items, &mut self.queue);
        let ghost orig = items@;
        let ghost keep = retryable(self.max_attempts);
        let ghost drop = exhausted(self.max_attempts);
        let mut failed: Vec<QueuedChange> = Vec::new();
        let mut kept: Vec<QueuedChange> = Vec::new();
        let n = items.len();
        let mut k: usize = 0;
        proof {
            assert(orig.take(0) =~= Seq::<QueuedChange>::empty());
            assert(items@ =~= orig.skip(0));
        }
        while k < n
            invariant
                n == orig.len(),
                k <= n,
                keep == retryable(self.max_attempts),
                drop == exhausted(self.max_attempts),
                items@ == orig.skip(k as int),
                kept@ == crate::seqs::select(orig.take(k as int), keep),
                failed@ == crate::seqs::select(orig.take(k as int), drop),
            decreases n - k,
        {
            let c = items.remove(0);
            proof {
                assert(c == orig[k as int]);
                assert(items@ =~= orig.skip(k + 1));
                assert(orig.take(k + 1).drop_last() =~= orig.take(k as int));
                assert(orig.take(k + 1).last() == c);
            }
            if c.attempts >= self.max_attempts {
                failed.push(c);
            } else {
                kept.push(c);
            }
            k += 1;
        }
        proof {
            assert(orig.take(n as int) =~= orig);
        }
        self.queue = kept;
        failed
    }

    /// Replace the queued changes by these, in this order (as read back
    /// from storage); the limits stay.
    pub fn load(&mut self, items: Vec<QueuedChange>)
        ensures
            final(self)@ == (OfflineQueueView { queue: items@, ..old(self)@ }),
    {
        self.queue = items;
    }

    /// Remove every queued change.
    pub fn clear(&mut self)
        ensures
            final(self)@ == (OfflineQueueView { queue: Seq::empty(), ..old(self)@ }),
    {
        self.queue.clear();
    }
}

impl Default for OfflineQueue {
    /// The default queue.
    fn default() -> (q: Self)
        ensures
            q@ == (OfflineQueueView { queue: Seq::empty(), max_size: 10000, max_attempts: 5 }),
    {
        OfflineQueue::new()
    }
}

} // verus!
