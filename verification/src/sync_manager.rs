//! The sync manager: the signed-in account and its key, the sync status,
//! the offline queue, the data sources taking part, and a sync pass over
//! them.
use vstd::prelude::*;
use crate::seqs::{first_match, lemma_first_match_at, lemma_first_match_none, select};
use crate::sync::{
    copy_types, queued_id_is, retryable, same_account, same_status, Change, ConflictResolution,
    ConflictStrategy, EncryptedData, EncryptionKey, OfflineQueue, OfflineQueueView, QueuedChange,
    SyncAccount, SyncAccountCredentials, SyncDataType, SyncEncryption, SyncError,
    SyncOperationResult, SyncState, SyncStatus, SyncTime, TypeSyncStatus, decrypt_outcome,
    pbkdf2_key,
};
use crate::text::{chars_of, string_from_chars};

verus! {

#[verifier::external_type_specification]
#[verifier::external_body]
pub struct ExInstant(std::time::Instant);

/// A reading of the monotonic clock.
///
/// Trusted: calls `std::time::Instant::now`.  The value depends on the
/// clock; nothing is stated of it.
#[verifier::external_body]
fn monotonic_now() -> std::time::Instant {
    std::time::Instant::now()
}

/// Whole milliseconds since an earlier reading of the monotonic clock.
///
/// Trusted: calls `Instant::elapsed` and converts the duration to
/// milliseconds, truncated to 64 bits.  The value depends on the clock;
/// nothing is stated of it.
#[verifier::external_body]
fn millis_since(start: &std::time::Instant) -> u64 {
    start.elapsed().as_millis() as u64
}

/// The name of a data type as it is written.
pub open spec fn data_type_name(t: SyncDataType) -> Seq<char> {
    match t {
        SyncDataType::Bookmarks => "bookmarks"@,
        SyncDataType::History => "history"@,
        SyncDataType::Settings => "settings"@,
        SyncDataType::Passwords => "passwords"@,
        SyncDataType::OpenTabs => "open_tabs"@,
    }
}

/// The status message when a data type has no registered source.
pub open spec fn unregistered_message(t: SyncDataType) -> Seq<char> {
    "Error syncing "@ + data_type_name(t) + ": Data type "@ + data_type_name(t) + " is not enabled for sync"@
}

/// The last data type of `types` that has no registered source.
pub open spec fn last_unregistered(types: Seq<SyncDataType>, sources: Seq<SyncDataType>) -> Option<
    SyncDataType,
>
    decreases types.len(),
{
    if types.len() == 0 {
        None
    } else if !sources.contains(types.last()) {
        Some(types.last())
    } else {
        last_unregistered(types.drop_last(), sources)
    }
}

/// The data types a sync pass covers: those asked for that the account
/// enables, or every registered type when none are asked for.
pub open spec fn types_to_sync(
    asked: Seq<SyncDataType>,
    enabled: Seq<SyncDataType>,
    registered: Seq<SyncDataType>,
) -> Seq<SyncDataType> {
    if asked.len() == 0 {
        registered
    } else {
        select(asked, |t: SyncDataType| enabled.contains(t))
    }
}

/// The queue after removing, for each identifier in turn, the first change
/// with that identifier.
pub open spec fn without_ids(q: Seq<QueuedChange>, ids: Seq<u128>) -> Seq<QueuedChange>
    decreases ids.len(),
{
    if ids.len() == 0 {
        q
    } else {
        let rest = without_ids(q, ids.drop_last());
        match first_match(rest, queued_id_is(ids.last())) {
            Some(i) => rest.remove(i),
            None => rest,
        }
    }
}

/// The identifiers of the changes that can still be retried.
pub open spec fn pending_ids(q: OfflineQueueView) -> Seq<u128> {
    select(q.queue, retryable(q.max_attempts)).map_values(|c: QueuedChange| c.id)
}

/// When a data type was last synced, if ever.
pub open spec fn last_sync_of(times: Seq<(SyncDataType, SyncTime)>, t: SyncDataType) -> Option<SyncTime> {
    match first_match(times, |e: (SyncDataType, SyncTime)| e.0 == t) {
        Some(i) => Some(times[i].1),
        None => None,
    }
}

/// The abstract state of a `SyncManager`.
pub struct SyncManagerView {
    pub account: Option<SyncAccount>,
    pub credentials: Option<SyncAccountCredentials>,
    pub status: SyncStatus,
    pub queue: OfflineQueueView,
    pub strategy: ConflictStrategy,
    /// The bytes of the encryption key, once signed in.
    pub key: Option<Seq<u8>>,
    /// The data types with a registered source, in registration order.
    pub sources: Seq<SyncDataType>,
    /// When each data type was last synced.
    pub last_sync_times: Seq<(SyncDataType, SyncTime)>,
}

/// Coordinates sync: account, credentials, key, status, offline queue,
/// conflict strategy and data sources.
pub struct SyncManager {
    account: Option<SyncAccount>,
    credentials: Option<SyncAccountCredentials>,
    status: SyncStatus,
    offline_queue: OfflineQueue,
    conflict_resolver: ConflictResolution,
    encryption: Option<SyncEncryption>,
    data_sources: Vec<SyncDataType>,
    last_sync_times: Vec<(SyncDataType, SyncTime)>,
}

/// The key bytes of an optional encrypter.
pub open spec fn key_of(e: Option<SyncEncryption>) -> Option<Seq<u8>> {
    match e {
        Some(x) => Some(x.key_bytes()),
        None => None,
    }
}

impl View for SyncManager {
    type V = SyncManagerView;

    closed spec fn view(&self) -> SyncManagerView {
        SyncManagerView {
            account: self.account,
            credentials: self.credentials,
            status: self.status,
            queue: self.offline_queue@,
            strategy: self.conflict_resolver.strategy_spec(),
            key: key_of(self.encryption),
            sources: self.data_sources@,
            last_sync_times: self.last_sync_times@,
        }
    }
}

impl SyncManager {
    /// The encrypter, when present, is well formed.
    pub closed spec fn wf(self) -> bool {
        self.encryption matches Some(e) ==> e.wf()
    }

    /// Signed out, idle and enabled, an empty default queue, last write
    /// wins, no sources.
    pub fn new() -> (m: Self)
        ensures
            m.wf(),
            m@.account is None,
            m@.credentials is None,
            m@.status.state == SyncState::Idle,
            m@.status.last_sync is None,
            m@.status.pending_changes == 0,
            m@.status.conflicts_detected == 0,
            m@.status.type_status@.len() == 0,
            m@.status.error_message is None,
            m@.status.is_enabled,
            m@.status.progress is None,
            m@.queue == (OfflineQueueView { queue: Seq::empty(), max_size: 10000, max_attempts: 5 }),
            m@.strategy == ConflictStrategy::LastWriteWins,
            m@.key is None,
            m@.sources.len() == 0,
            m@.last_sync_times.len() == 0,
    {
        SyncManager {
            account: None,
            credentials: None,
            status: SyncStatus::default(),
            offline_queue: OfflineQueue::new(),
            conflict_resolver: ConflictResolution::default(),
            encryption: None,
            data_sources: Vec::new(),
            last_sync_times: Vec::new(),
        }
    }

    /// A new manager resolving conflicts with this strategy.
    pub fn with_conflict_strategy(strategy: ConflictStrategy) -> (m: Self)
        ensures
            m.wf(),
            m@.account is None,
            m@.key is None,
            m@.status.state == SyncState::Idle,
            m@.queue == (OfflineQueueView { queue: Seq::empty(), max_size: 10000, max_attempts: 5 }),
            m@.strategy == strategy,
            m@.sources.len() == 0,
            m@.last_sync_times.len() == 0,
    {
        let mut m = SyncManager::new();
        m.conflict_resolver = ConflictResolution::new(strategy);
        m
    }

    /// Sign in: keep the account and credentials, derive the key from the
    /// password salted with the account's e-mail, and enable sync.
    pub fn login(&mut self, account: SyncAccount, credentials: SyncAccountCredentials, password: &str) -> (r:
        Result<(), SyncError>)
        requires
            old(self).wf(),
        ensures
            final(self).wf(),
            r is Ok,
            final(self)@.account == Some(account),
            final(self)@.credentials == Some(credentials),
            final(self)@.key == Some(pbkdf2_key(password@, account.email@)),
            final(self)@.status == (SyncStatus { is_enabled: true, ..old(self)@.status }),
            final(self)@.queue == old(self)@.queue,
            final(self)@.strategy == old(self)@.strategy,
            final(self)@.sources == old(self)@.sources,
            final(self)@.last_sync_times == old(self)@.last_sync_times,
    {
        let key = EncryptionKey::derive_from_password(password, account.email.as_str());
        let encryption = SyncEncryption::new(key);
        self.account = Some(account);
        self.credentials = Some(credentials);
        self.encryption = Some(encryption);
        self.status.is_enabled = true;
        Ok(())
    }

    /// Sign out: forget the account, credentials and key, empty the queue,
    /// and go idle and disabled with nothing pending.
    pub fn logout(&mut self) -> (r: Result<(), SyncError>)
        requires
            old(self).wf(),
        ensures
            final(self).wf(),
            r is Ok,
            final(self)@.account is None,
            final(self)@.credentials is None,
            final(self)@.key is None,
            final(self)@.queue == (OfflineQueueView { queue: Seq::empty(), ..old(self)@.queue }),
            final(self)@.status == (SyncStatus {
                is_enabled: false,
                state: SyncState::Idle,
                pending_changes: 0,
                ..old(self)@.status
            }),
            final(self)@.strategy == old(self)@.strategy,
            final(self)@.sources == old(self)@.sources,
            final(self)@.last_sync_times == old(self)@.last_sync_times,
    {
        self.account = None;
        self.credentials = None;
        self.encryption = None;
        self.offline_queue.clear();
        self.status.is_enabled = false;
        self.status.state = SyncState::Idle;
        self.status.pending_changes = 0;
        Ok(())
    }

    /// Whether an account is signed in.
    pub fn is_logged_in(&self) -> (b: bool)
        ensures
            b == self@.account is Some,
    {
        self.account.is_some()
    }

    /// A copy of the signed-in account.
    pub fn get_account(&self) -> (r: Option<SyncAccount>)
        ensures
            match self@.account {
                Some(a) => r matches Some(c) && same_account(c, a),
                None => r is None,
            },
    {
        match &self.account {
            Some(a) => Some(a.clone()),
            None => None,
        }
    }

    /// Take part in sync with a source for this data type (replacing any
    /// earlier source for it).
    pub fn register_data_source(&mut self, data_type: SyncDataType)
        requires
            old(self).wf(),
        ensures
            final(self).wf(),
            final(self)@ == (SyncManagerView {
                sources: if old(self)@.sources.contains(data_type) {
                    old(self)@.sources
                } else {
                    old(self)@.sources.push(data_type)
                },
                ..old(self)@
            }),
    {
        if !has_type(&self.data_sources, data_type) {
            self.data_sources.push(data_type);
        }
    }

    /// Queue a change for the next sync; the status counts the queue.
    pub fn queue_change(&mut self, change: Change)
        requires
            old(self).wf(),
        ensures
            final(self).wf(),
            final(self)@.queue.max_size == old(self)@.queue.max_size,
            final(self)@.queue.max_attempts == old(self)@.queue.max_attempts,
            exists|x: QueuedChange|
                #![trigger crate::sync::stable_sorted(crate::sync::room_made(old(self)@.queue).push(x), crate::sync::sync_order())]
                x.change@ == change@ && x.attempts == 0 && x.last_error is None && x.priority
                    == change.data_type.priority_spec() && final(self)@.queue.queue
                    == crate::sync::stable_sorted(
                    crate::sync::room_made(old(self)@.queue).push(x),
                    crate::sync::sync_order(),
                ),
            final(self)@.status == (SyncStatus {
                pending_changes: final(self)@.queue.queue.len() as usize,
                ..old(self)@.status
            }),
            final(self)@.account == old(self)@.account,
            final(self)@.key == old(self)@.key,
            final(self)@.sources == old(self)@.sources,
            final(self)@.last_sync_times == old(self)@.last_sync_times,
    {
        self.offline_queue.enqueue(change);
        self.status.pending_changes = self.offline_queue.len();
    }

    /// A copy of the sync status.
    pub fn get_sync_status(&self) -> (s: SyncStatus)
        ensures
            same_status(s, self@.status),
    {
        self.status.clone()
    }

    /// Resolve conflicts with this strategy from now on.
    pub fn set_conflict_strategy(&mut self, strategy: ConflictStrategy)
        requires
            old(self).wf(),
        ensures
            final(self).wf(),
            final(self)@ == (SyncManagerView { strategy: strategy, ..old(self)@ }),
    {
        self.conflict_resolver = ConflictResolution::new(strategy);
    }

    /// The offline queue.
    pub fn offline_queue(&self) -> (q: &OfflineQueue)
        ensures
            q@ == self@.queue,
    {
        &self.offline_queue
    }

    /// Encrypt data with the account's key; signed out, it is refused.
    pub fn encrypt(&self, data: &[u8]) -> (r: Result<EncryptedData, SyncError>)
        requires
            self.wf(),
        ensures
            match self@.key {
                None => r == Err::<EncryptedData, SyncError>(SyncError::NotLoggedIn),
                Some(k) => match r {
                    Ok(d) => d.version == 1 && decrypt_outcome(k, d) == Ok::<Seq<u8>, Seq<char>>(data@),
                    Err(e) => e matches SyncError::EncryptionError(m) && (m@
                        == "Failed to generate nonce"@ || m@ == "Encryption failed"@),
                },
            },
    {
        match &self.encryption {
            Some(enc) => enc.encrypt(data),
            None => Err(SyncError::NotLoggedIn),
        }
    }

    /// Decrypt data with the account's key; signed out, it is refused.
    pub fn decrypt(&self, encrypted: &EncryptedData) -> (r: Result<Vec<u8>, SyncError>)
        requires
            self.wf(),
        ensures
            match self@.key {
                None => r == Err::<Vec<u8>, SyncError>(SyncError::NotLoggedIn),
                Some(k) => match decrypt_outcome(k, *encrypted) {
                    Ok(p) => r matches Ok(v) && v@ == p,
                    Err(m) => r matches Err(SyncError::EncryptionError(s)) && s@ == m,
                },
            },
    {
        match &self.encryption {
            Some(enc) => enc.decrypt(encrypted),
            None => Err(SyncError::NotLoggedIn),
        }
    }

    /// Pause syncing.
    pub fn pause(&mut self)
        requires
            old(self).wf(),
        ensures
            final(self).wf(),
            final(self)@ == (SyncManagerView {
                status: SyncStatus { state: SyncState::Paused, error_message: None, ..old(self)@.status },
                ..old(self)@
            }),
    {
        self.status.set_state(SyncState::Paused);
        proof {
            assert(self.status.type_status@ =~= old(self).status.type_status@);
        }
    }

    /// Resume syncing, when paused.
    pub fn resume(&mut self)
        requires
            old(self).wf(),
        ensures
            final(self).wf(),
            old(self)@.status.state == SyncState::Paused ==> final(self)@ == (SyncManagerView {
                status: SyncStatus { state: SyncState::Idle, error_message: None, ..old(self)@.status },
                ..old(self)@
            }),
            old(self)@.status.state != SyncState::Paused ==> final(self)@ == old(self)@,
    {
        if self.status.state == SyncState::Paused {
            self.status.set_state(SyncState::Idle);
        }
    }

    /// Enable or disable a data type for the signed-in account; signed out,
    /// it is refused.
    pub fn set_type_enabled(&mut self, data_type: SyncDataType, enabled: bool) -> (r: Result<
        (),
        SyncError,
    >)
        requires
            old(self).wf(),
        ensures
            final(self).wf(),
            match old(self)@.account {
                None => r == Err::<(), SyncError>(SyncError::NotLoggedIn) && final(self)@ == old(self)@,
                Some(a) => r is Ok && (final(self)@.account matches Some(b)
                    && b.device_settings.enabled_types@ == (if enabled {
                    if a.device_settings.enabled_types@.contains(data_type) {
                        a.device_settings.enabled_types@
                    } else {
                        a.device_settings.enabled_types@.push(data_type)
                    }
                } else {
                    select(a.device_settings.enabled_types@, crate::sync::differs_from(data_type))
                })),
            },
            final(self)@.status == old(self)@.status,
            final(self)@.queue == old(self)@.queue,
            final(self)@.key == old(self)@.key,
            final(self)@.sources == old(self)@.sources,
    {
        match &mut self.account {
            Some(a) => {
                if enabled {
                    a.enable_type(data_type);
                } else {
                    a.disable_type(data_type);
                }
                Ok(())
            },
            None => Err(SyncError::NotLoggedIn),
        }
    }
}

/// Whether `t` occurs in `v`.
fn has_type(v: &Vec<SyncDataType>, t: SyncDataType) -> (b: bool)
    ensures
        b == v@.contains(t),
{
    let n = v.len();
    let mut i: usize = 0;
    while i < n
        invariant
            n == v@.len(),
            i <= n,
            forall|j: int| 0 <= j < i ==> v@[j] != t,
        decreases n - i,
    {
        if v[i] == t {
            assert(v@[i as int] == t);
            return true;
        }
        i += 1;
    }
    false
}

impl Default for SyncManager {
    fn default() -> (m: Self)
        ensures
            m.wf(),
            m@.account is None,
            m@.key is None,
            m@.status.state == SyncState::Idle,
            m@.strategy == ConflictStrategy::LastWriteWins,
            m@.sources.len() == 0,
    {
        SyncManager::new()
    }
}


/// The time entry is for this data type.
pub open spec fn time_of(t: SyncDataType) -> spec_fn((SyncDataType, SyncTime)) -> bool {
    |e: (SyncDataType, SyncTime)| e.0 == t
}

/// The queued change is for this data type.
pub open spec fn change_of_type(t: SyncDataType) -> spec_fn(QueuedChange) -> bool {
    |c: QueuedChange| c.change.data_type == t
}

/// `v` with the characters of `s` appended.
fn append_str(v: &mut Vec<char>, s: &str)
    ensures
        final(v)@ == old(v)@ + s@,
{
    let t = chars_of(s);
    let n = t.len();
    let mut i: usize = 0;
    while i < n
        invariant
            n == t@.len(),
            i <= n,
            v@ == old(v)@ + t@.take(i as int),
        decreases n - i,
    {
        v.push(t[i]);
        i += 1;
        proof {
            assert(v@ =~= old(v)@ + t@.take(i as int));
        }
    }
    proof {
        assert(t@.take(n as int) =~= t@);
    }
}

/// The status message for a data type without a source.
fn unregistered_text(t: SyncDataType) -> (s: String)
    ensures
        s@ == unregistered_message(t),
{
    let name = t.name();
    let mut v: Vec<char> = Vec::new();
    append_str(&mut v, "Error syncing ");
    append_str(&mut v, name);
    append_str(&mut v, ": Data type ");
    append_str(&mut v, name);
    append_str(&mut v, " is not enabled for sync");
    proof {
        assert(name@ == data_type_name(t));
        assert(v@ =~= unregistered_message(t));
    }
    string_from_chars(v.as_slice())
}

/// The position of the entry for `t`, if any.
fn time_position(v: &Vec<(SyncDataType, SyncTime)>, t: SyncDataType) -> (r: Option<usize>)
    ensures
        match r {
            Some(i) => first_match(v@, time_of(t)) == Some(i as int) && i < v@.len(),
            None => first_match(v@, time_of(t)) is None,
        },
{
    let n = v.len();
    let mut i: usize = 0;
    while i < n
        invariant
            n == v@.len(),
            i <= n,
            forall|j: int| 0 <= j < i ==> v@[j].0 != t,
        decreases n - i,
    {
        if v[i].0 == t {
            proof {
                lemma_first_match_at(v@, time_of(t), i as int);
            }
            return Some(i);
        }
        i += 1;
    }
    proof {
        lemma_first_match_none(v@, time_of(t));
    }
    None
}

impl SyncManager {
    /// Record that a data type was synced at `time`.
    fn record_sync_time(&mut self, t: SyncDataType, time: SyncTime)
        requires
            old(self).wf(),
        ensures
            final(self).wf(),
            last_sync_of(final(self)@.last_sync_times, t) == Some(time),
            forall|u: SyncDataType|
                u != t ==> last_sync_of(final(self)@.last_sync_times, u) == last_sync_of(
                    old(self)@.last_sync_times,
                    u,
                ),
            final(self)@ == (SyncManagerView { last_sync_times: final(self)@.last_sync_times, ..old(self)@ }),
    {
        let ghost old_times = self.last_sync_times@;
        proof {
            crate::seqs::lemma_first_match(old_times, time_of(t));
        }
        let found = time_position(&self.last_sync_times, t);
        let n = self.last_sync_times.len();
        let i = match found {
            Some(k) => k,
            None => n,
        };
        if i < n {
            self.last_sync_times.set(i, (t, time));
            proof {
                let nt = self.last_sync_times@;
                assert(nt == old_times.update(i as int, (t, time)));
                lemma_first_match_at(nt, time_of(t), i as int);
                assert forall|u: SyncDataType| u != t implies last_sync_of(nt, u) == last_sync_of(
                    old_times,
                    u,
                ) by {
                    crate::seqs::lemma_first_match(old_times, time_of(u));
                    crate::seqs::lemma_first_match(nt, time_of(u));
                    assert(time_of(u) == (|e: (SyncDataType, SyncTime)| e.0 == u));
                    match first_match(old_times, time_of(u)) {
                        Some(k) => {
                            assert(k != i);
                            lemma_first_match_at(nt, time_of(u), k);
                        },
                        None => {
                            assert forall|j: int| 0 <= j < nt.len() implies !time_of(u)(#[trigger] nt[j]) by {
                                if j != i {
                                    assert(nt[j] == old_times[j]);
                                }
                            }
                            lemma_first_match_none(nt, time_of(u));
                        },
                    }
                }
            }
        } else {
            self.last_sync_times.push((t, time));
            proof {
                let nt = self.last_sync_times@;
                assert(nt == old_times.push((t, time)));
                assert forall|j: int| 0 <= j < old_times.len() implies !time_of(t)(#[trigger] nt[j]) by {
                    assert(nt[j] == old_times[j]);
                }
                lemma_first_match_at(nt, time_of(t), old_times.len() as int);
                assert forall|u: SyncDataType| u != t implies last_sync_of(nt, u) == last_sync_of(
                    old_times,
                    u,
                ) by {
                    crate::seqs::lemma_first_match(old_times, time_of(u));
                    assert(time_of(u) == (|e: (SyncDataType, SyncTime)| e.0 == u));
                    match first_match(old_times, time_of(u)) {
                        Some(k) => {
                            lemma_first_match_at(nt, time_of(u), k);
                        },
                        None => {
                            assert forall|j: int| 0 <= j < nt.len() implies !time_of(u)(#[trigger] nt[j]) by {
                                if j < old_times.len() {
                                    assert(nt[j] == old_times[j]);
                                }
                            }
                            lemma_first_match_none(nt, time_of(u));
                        },
                    }
                }
            }
        }
        proof {
            assert(time_of(t) == (|e: (SyncDataType, SyncTime)| e.0 == t));
        }
    }
}


/// The last-sync times after a pass over `covered`: each covered type with a
/// source has a time, every other type keeps the one it had.
pub open spec fn times_recorded(
    before: Seq<(SyncDataType, SyncTime)>,
    after: Seq<(SyncDataType, SyncTime)>,
    covered: Seq<SyncDataType>,
    sources: Seq<SyncDataType>,
) -> bool {
    forall|u: SyncDataType|
        #![trigger last_sync_of(after, u)]
        if covered.contains(u) && sources.contains(u) {
            last_sync_of(after, u) is Some
        } else {
            last_sync_of(after, u) == last_sync_of(before, u)
        }
}

/// The message a sync pass leaves: the failure of the last covered type
/// without a source, if any.
pub open spec fn pass_message(covered: Seq<SyncDataType>, sources: Seq<SyncDataType>, m: Option<String>) -> bool {
    match last_unregistered(covered, sources) {
        Some(t) => m matches Some(s) && s@ == unregistered_message(t),
        None => m is None,
    }
}

impl SyncManager {
    /// The data types a pass covers, from those asked for.
    fn covered_types(&self, types: &Vec<SyncDataType>) -> (r: Vec<SyncDataType>)
        requires
            self@.account is Some,
        ensures
            r@ == types_to_sync(
                types@,
                self@.account.unwrap().device_settings.enabled_types@,
                self@.sources,
            ),
    {
        match &self.account {
            Some(a) => {
                if types.len() == 0 {
                    copy_types(&self.data_sources)
                } else {
                    let ghost f = |t: SyncDataType| a.device_settings.enabled_types@.contains(t);
                    let mut r: Vec<SyncDataType> = Vec::new();
                    let n = types.len();
                    let mut i: usize = 0;
                    while i < n
                        invariant
                            n == types@.len(),
                            i <= n,
                            f == (|t: SyncDataType| a.device_settings.enabled_types@.contains(t)),
                            r@ == select(types@.take(i as int), f),
                        decreases n - i,
                    {
                        proof {
                            assert(types@.take(i + 1).drop_last() =~= types@.take(i as int));
                        }
                        if a.is_type_enabled(types[i]) {
                            r.push(types[i]);
                        }
                        i += 1;
                    }
                    proof {
                        assert(types@.take(n as int) =~= types@);
                    }
                    r
                }
            },
            None => Vec::new(),
        }
    }

    /// Sync the data types asked for (every registered type when none are):
    /// the changes that can still be retried are uploaded and leave the
    /// queue, each covered type with a source records its sync time, and a
    /// covered type without one sets the error message.  The pass ends idle.
    /// Signed out, or with a pass already running, it is refused.
    pub fn sync(&mut self, types: Vec<SyncDataType>) -> (r: Result<SyncOperationResult, SyncError>)
        requires
            old(self).wf(),
        ensures
            final(self).wf(),
            match old(self)@.account {
                None => r == Err::<SyncOperationResult, SyncError>(SyncError::NotLoggedIn)
                    && final(self)@ == old(self)@,
                Some(a) => if old(self)@.status.syncing() {
                    r == Err::<SyncOperationResult, SyncError>(SyncError::SyncInProgress)
                        && final(self)@ == old(self)@
                } else {
                    let covered = types_to_sync(
                        types@,
                        a.device_settings.enabled_types@,
                        old(self)@.sources,
                    );
                    let ids = pending_ids(old(self)@.queue);
                    &&& r matches Ok(res) && res.success && res.changes_uploaded == ids.len()
                        && res.changes_downloaded == 0 && res.conflicts_resolved == 0
                        && res.error is None
                    &&& final(self)@.queue == (OfflineQueueView {
                        queue: without_ids(old(self)@.queue.queue, ids),
                        ..old(self)@.queue
                    })
                    &&& final(self)@.status == (SyncStatus {
                        state: SyncState::Idle,
                        last_sync: final(self)@.status.last_sync,
                        progress: None,
                        conflicts_detected: 0,
                        error_message: final(self)@.status.error_message,
                        ..old(self)@.status
                    })
                    &&& final(self)@.status.last_sync is Some
                    &&& pass_message(covered, old(self)@.sources, final(self)@.status.error_message)
                    &&& times_recorded(
                        old(self)@.last_sync_times,
                        final(self)@.last_sync_times,
                        covered,
                        old(self)@.sources,
                    )
                    &&& final(self)@.account == old(self)@.account
                    &&& final(self)@.credentials == old(self)@.credentials
                    &&& final(self)@.key == old(self)@.key
                    &&& final(self)@.strategy == old(self)@.strategy
                    &&& final(self)@.sources == old(self)@.sources
                },
            },
    {
        if !self.is_logged_in() {
            return Err(SyncError::NotLoggedIn);
        }
        if self.status.is_syncing() {
            return Err(SyncError::SyncInProgress);
        }
        let started = monotonic_now();
        self.status.set_state(SyncState::Checking);
        let ghost checking = self.status;
        let covered = self.covered_types(&types);
        let ghost q0 = self.offline_queue@;
        let queued = self.offline_queue.get_pending();
        let uploaded = queued.len();
        let ghost ids = pending_ids(q0);
        proof {
            assert(ids.len() == queued@.len());
        }
        let mut i: usize = 0;
        proof {
            assert(ids.take(0) =~= Seq::<u128>::empty());
        }
        while i < uploaded
            invariant
                uploaded == queued@.len(),
                ids == pending_ids(q0),
                ids.len() == uploaded,
                forall|k: int| 0 <= k < uploaded ==> ids[k] == (#[trigger] queued@[k]).id,
                i <= uploaded,
                self.offline_queue@ == (OfflineQueueView {
                    queue: without_ids(q0.queue, ids.take(i as int)),
                    ..q0
                }),
                self.status == checking,
                self.account == old(self).account,
                self.credentials == old(self).credentials,
                self.encryption == old(self).encryption,
                self.conflict_resolver == old(self).conflict_resolver,
                self.data_sources == old(self).data_sources,
                self.last_sync_times == old(self).last_sync_times,
            decreases uploaded - i,
        {
            proof {
                assert(ids.take(i + 1).drop_last() =~= ids.take(i as int));
                assert(ids.take(i + 1).last() == queued@[i as int].id);
            }
            self.offline_queue.remove(queued[i].id);
            i += 1;
        }
        proof {
            assert(ids.take(uploaded as int) =~= ids);
        }
        let ghost sources = self.data_sources@;
        let ghost times0 = self.last_sync_times@;
        let n = covered.len();
        let mut j: usize = 0;
        while j < n
            invariant
                n == covered@.len(),
                j <= n,
                sources == self.data_sources@,
                self.status == (SyncStatus {
                    state: if last_unregistered(covered@.take(j as int), sources) is Some {
                        SyncState::Error
                    } else {
                        SyncState::Checking
                    },
                    error_message: self.status.error_message,
                    ..checking
                }),
                checking.error_message is None,
                pass_message(covered@.take(j as int), sources, self.status.error_message),
                times_recorded(times0, self.last_sync_times@, covered@.take(j as int), sources),
                self.wf(),
                self.offline_queue@ == (OfflineQueueView { queue: without_ids(q0.queue, ids), ..q0 }),
                self@.account == old(self)@.account,
                self@.credentials == old(self)@.credentials,
                self@.key == old(self)@.key,
                self@.strategy == old(self)@.strategy,
            decreases n - j,
        {
            let t = covered[j];
            let ghost before_times = self.last_sync_times@;
            proof {
                assert(covered@.take(j + 1).drop_last() =~= covered@.take(j as int));
                assert(covered@.take(j + 1).last() == t);
                assert(covered@.take(j + 1) =~= covered@.take(j as int).push(t));
                assert forall|u: SyncDataType| #[trigger] covered@.take(j + 1).contains(u) <==> (
                covered@.take(j as int).contains(u) || u == t) by {
                    vstd::seq_lib::lemma_seq_contains_after_push(covered@.take(j as int), t, u);
                }
            }
            if has_type(&self.data_sources, t) {
                let now = SyncTime::now();
                self.record_sync_time(t, now);
            } else {
                self.status.set_state(SyncState::Error);
                self.status.error_message = Some(unregistered_text(t));
            }
            j += 1;
        }
        proof {
            assert(covered@.take(n as int) =~= covered@);
        }
        self.status.complete();
        self.status.conflicts_detected = 0;
        let duration = millis_since(&started);
        Ok(SyncOperationResult::success(uploaded, 0, 0, duration))
    }

    /// The sync status of one data type for the signed-in account; signed
    /// out, it is refused.
    pub fn get_type_status(&self, data_type: SyncDataType) -> (r: Result<TypeSyncStatus, SyncError>)
        ensures
            match self@.account {
                None => r == Err::<TypeSyncStatus, SyncError>(SyncError::NotLoggedIn),
                Some(a) => r == Ok::<TypeSyncStatus, SyncError>(
                    TypeSyncStatus {
                        data_type: data_type,
                        last_sync: last_sync_of(self@.last_sync_times, data_type),
                        pending_changes: select(self@.queue.queue, change_of_type(data_type)).len() as usize,
                        is_enabled: a.device_settings.enabled_types@.contains(data_type),
                        items_count: 0,
                    },
                ),
            },
    {
        let enabled = match &self.account {
            Some(a) => a.is_type_enabled(data_type),
            None => {
                return Err(SyncError::NotLoggedIn);
            },
        };
        let last_sync = match time_position(&self.last_sync_times, data_type) {
            Some(i) => Some(self.last_sync_times[i].1),
            None => None,
        };
        let all = self.offline_queue.peek_all();
        let ghost q = self.offline_queue@.queue;
        let ghost f = change_of_type(data_type);
        let n = all.len();
        let mut count: usize = 0;
        let mut i: usize = 0;
        while i < n
            invariant
                n == all@.len(),
                n == q.len(),
                f == change_of_type(data_type),
                forall|k: int| 0 <= k < n ==> (#[trigger] all@[k])@ == q[k]@,
                i <= n,
                count == select(q.take(i as int), f).len(),
                count <= i,
            decreases n - i,
        {
            proof {
                assert(q.take(i + 1).drop_last() =~= q.take(i as int));
                assert(q.take(i + 1).last() == q[i as int]);
                assert(all@[i as int]@ == q[i as int]@);
            }
            if all[i].change.data_type == data_type {
                count += 1;
            }
            i += 1;
        }
        proof {
            assert(q.take(n as int) =~= q);
        }
        Ok(
            TypeSyncStatus {
                data_type,
                last_sync,
                pending_changes: count,
                is_enabled: enabled,
                items_count: 0,
            },
        )
    }
}

} // verus!
