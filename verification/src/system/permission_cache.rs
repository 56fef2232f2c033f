//! A cache of permission checks: what the last probe of each kind of
//! permission found, served until its time to live has passed.

use std::collections::HashMap;
use vstd::prelude::*;
use vstd::string::StringExecFns;

verus! {

broadcast use vstd::std_specs::hash::group_hash_axioms;

/// Milliseconds for which the result of a probe is served, unless told
/// otherwise: five minutes.
pub const DEFAULT_PERMISSION_TTL_MS: u64 = 300_000;

/// The kinds of permission that a capture may need.
#[derive(Clone, Copy, Debug, PartialEq, Eq, Hash, Structural)]
pub enum Permission {
    ScreenRecording,
    Accessibility,
    FullDiskAccess,
}

impl Permission {
    /// The number under which the cache files the kind.
    pub open spec fn spec_code(self) -> u8 {
        match self {
            Permission::ScreenRecording => 0,
            Permission::Accessibility => 1,
            Permission::FullDiskAccess => 2,
        }
    }

    fn code(self) -> (c: u8)
        ensures
            c == self.spec_code(),
    {
        match self {
            Permission::ScreenRecording => 0,
            Permission::Accessibility => 1,
            Permission::FullDiskAccess => 2,
        }
    }

    /// The name that the kind is reported under.
    pub open spec fn spec_name(self) -> Seq<char> {
        match self {
            Permission::ScreenRecording => "screen recording"@,
            Permission::Accessibility => "accessibility"@,
            Permission::FullDiskAccess => "full disk access"@,
        }
    }

    /// The name that the kind is reported under.
    pub fn name(&self) -> (text: String)
        ensures
            text@ == self.spec_name(),
    {
        match self {
            Permission::ScreenRecording => String::from_str("screen recording"),
            Permission::Accessibility => String::from_str("accessibility"),
            Permission::FullDiskAccess => String::from_str("full disk access"),
        }
    }
}

/// What a probe found, and for how long that is served.
#[derive(Clone, Copy, Debug, PartialEq, Eq, Structural)]
pub struct PermissionResult {
    /// Whether the permission was granted.
    pub granted: bool,
    /// When the probe was made.
    pub checked_at: u64,
    /// From when on the result is no longer served.
    pub expires_at: u64,
}

impl PermissionResult {
    /// Whether the result is no longer served at `now`.
    pub open spec fn expired(self, now: u64) -> bool {
        self.expires_at <= now
    }
}

/// Why a permission check gave no answer.
#[derive(Debug, PartialEq, Eq)]
pub enum PermissionError {
    /// The probe failed; the text is its own.
    ProbeFailed(String),
}

impl PermissionError {
    /// The text that the error is reported with: the probe's own.
    pub open spec fn spec_message(self) -> Seq<char> {
        match self {
            PermissionError::ProbeFailed(reason) => reason@,
        }
    }

    /// The text that the error is reported with.
    pub fn message(&self) -> (text: String)
        ensures
            text@ == self.spec_message(),
    {
        match self {
            PermissionError::ProbeFailed(reason) => reason.clone(),
        }
    }
}

/// What a cache holds, as contracts speak of it.
pub struct PermissionModel {
    /// The last result of each kind that has one.
    pub records: Map<Permission, PermissionResult>,
    /// The milliseconds for which a new result is served.
    pub default_ttl: u64,
}

/// What a check of `perm` at `now` is answered with from the cache alone:
/// the recorded result, if there is one and it has not expired.
pub open spec fn cached_grant(m: PermissionModel, perm: Permission, now: u64) -> Option<bool> {
    if m.records.contains_key(perm) && !m.records[perm].expired(now) {
        Some(m.records[perm].granted)
    } else {
        None
    }
}

/// The result that a probe made at `now` is recorded as.
pub open spec fn fresh_result(granted: bool, now: u64, ttl: u64) -> PermissionResult {
    PermissionResult { granted, checked_at: now, expires_at: (now + ttl) as u64 }
}

/// The cache after a probe of `perm` at `now` has been recorded.
pub open spec fn with_result(m: PermissionModel, perm: Permission, granted: bool, now: u64) -> PermissionModel {
    PermissionModel {
        records: m.records.insert(perm, fresh_result(granted, now, m.default_ttl)),
        ..m
    }
}

/// What a check is answered with once the probe has come back with
/// `outcome`.
pub open spec fn probe_answer(outcome: Result<bool, String>) -> Result<bool, PermissionError> {
    match outcome {
        Ok(granted) => Ok(granted),
        Err(reason) => Err(PermissionError::ProbeFailed(reason)),
    }
}

/// The cache once the probe of `perm` at `now` has come back with
/// `outcome`: with the result recorded, or unchanged where the probe failed.
pub open spec fn after_probe(
    m: PermissionModel,
    perm: Permission,
    outcome: Result<bool, String>,
    now: u64,
) -> PermissionModel {
    match outcome {
        Ok(granted) => with_result(m, perm, granted, now),
        Err(_) => m,
    }
}

/// Whether a check of `perm` at `now` has to go to the probe: the cache has
/// no result for it that has not expired.
pub open spec fn needs_probe(m: PermissionModel, perm: Permission, now: u64) -> bool {
    cached_grant(m, perm, now) is None
}

/// What a check of `perm` at `now` is answered with, where `outcome` is what
/// the probe comes back with if it is asked.
pub open spec fn check_answer(
    m: PermissionModel,
    perm: Permission,
    now: u64,
    outcome: Result<bool, String>,
) -> Result<bool, PermissionError> {
    match cached_grant(m, perm, now) {
        Some(granted) => Ok(granted),
        None => probe_answer(outcome),
    }
}

/// The cache after a check of `perm` at `now`, where `outcome` is what the
/// probe comes back with if it is asked.
pub open spec fn check_model(
    m: PermissionModel,
    perm: Permission,
    now: u64,
    outcome: Result<bool, String>,
) -> PermissionModel {
    if needs_probe(m, perm, now) {
        after_probe(m, perm, outcome, now)
    } else {
        m
    }
}

/// One if the cache has a result for `perm`, else nothing.
pub open spec fn held(m: PermissionModel, perm: Permission) -> nat {
    if m.records.contains_key(perm) {
        1
    } else {
        0
    }
}

/// One if the cache has a result for `perm` that has expired at `now`, else
/// nothing.
pub open spec fn held_expired(m: PermissionModel, perm: Permission, now: u64) -> nat {
    if m.records.contains_key(perm) && m.records[perm].expired(now) {
        1
    } else {
        0
    }
}

/// How many results the cache holds.
pub open spec fn entry_count(m: PermissionModel) -> nat {
    held(m, Permission::ScreenRecording) + held(m, Permission::Accessibility) + held(
        m,
        Permission::FullDiskAccess,
    )
}

/// The count of results is the number of kinds that have one.
pub proof fn lemma_entry_count(m: PermissionModel)
    ensures
        m.records.dom().finite(),
        m.records.dom().len() == entry_count(m),
{
    let d = m.records.dom();
    let e0 = Set::<Permission>::empty();
    let e1 = if d.contains(Permission::ScreenRecording) {
        e0.insert(Permission::ScreenRecording)
    } else {
        e0
    };
    let e2 = if d.contains(Permission::Accessibility) {
        e1.insert(Permission::Accessibility)
    } else {
        e1
    };
    let e3 = if d.contains(Permission::FullDiskAccess) {
        e2.insert(Permission::FullDiskAccess)
    } else {
        e2
    };
    assert(d =~= e3);
}

/// How many of the results that the cache holds have expired at `now`.
pub open spec fn expired_count(m: PermissionModel, now: u64) -> nat {
    held_expired(m, Permission::ScreenRecording, now) + held_expired(
        m,
        Permission::Accessibility,
        now,
    ) + held_expired(m, Permission::FullDiskAccess, now)
}

/// The cache without the results that have expired at `now`.
pub open spec fn without_expired(m: PermissionModel, now: u64) -> PermissionModel {
    PermissionModel {
        records: Map::new(
            |p: Permission| m.records.contains_key(p) && !m.records[p].expired(now),
            |p: Permission| m.records[p],
        ),
        ..m
    }
}

/// The permission cache.
pub struct PermissionCache {
    cache: HashMap<u8, PermissionResult>,
    default_ttl: u64,
}

impl View for PermissionCache {
    type V = PermissionModel;

    closed spec fn view(&self) -> PermissionModel {
        PermissionModel {
            records: Map::new(
                |p: Permission| self.cache@.contains_key(p.spec_code()),
                |p: Permission| self.cache@[p.spec_code()],
            ),
            default_ttl: self.default_ttl,
        }
    }
}

impl PermissionCache {
    /// The cache files results under the numbers of the kinds and no others.
    pub closed spec fn wf(&self) -> bool {
        forall|k: u8| self.cache@.contains_key(k) ==> k < 3
    }

    /// An empty cache that serves each result for five minutes.
    pub fn new() -> (cache: Self)
        ensures
            cache.wf(),
            cache@.records == Map::<Permission, PermissionResult>::empty(),
            cache@.default_ttl == DEFAULT_PERMISSION_TTL_MS,
    {
        Self::with_ttl(DEFAULT_PERMISSION_TTL_MS)
    }

    /// An empty cache that serves each result for `default_ttl` milliseconds.
    pub fn with_ttl(default_ttl: u64) -> (cache: Self)
        ensures
            cache.wf(),
            cache@.records == Map::<Permission, PermissionResult>::empty(),
            cache@.default_ttl == default_ttl,
    {
        let cache = PermissionCache { cache: HashMap::new(), default_ttl };
        assert(cache@.records =~= Map::<Permission, PermissionResult>::empty());
        cache
    }

    /// The milliseconds for which a new result is served.
    pub fn default_ttl(&self) -> (ttl: u64)
        ensures
            ttl == self@.default_ttl,
    {
        self.default_ttl
    }

    /// The cached answer for `perm` at `now`, if there is one that has not
    /// expired.
    pub fn lookup(&self, perm: Permission, now: u64) -> (r: Option<bool>)
        requires
            self.wf(),
        ensures
            r == cached_grant(self@, perm, now),
    {
        match self.cache.get(&perm.code()) {
            Some(result) => if now < result.expires_at {
                Some(result.granted)
            } else {
                None
            },
            None => None,
        }
    }

    /// Records what a probe of `perm` found at `now`, in place of any
    /// earlier result of that kind.
    pub fn record(&mut self, perm: Permission, granted: bool, now: u64)
        requires
            old(self).wf(),
            now + old(self)@.default_ttl <= u64::MAX,
        ensures
            final(self).wf(),
            final(self)@ == with_result(old(self)@, perm, granted, now),
    {
        let result = PermissionResult {
            granted,
            checked_at: now,
            expires_at: now + self.default_ttl,
        };
        self.cache.insert(perm.code(), result);
        assert(self@.records =~= with_result(old(self)@, perm, granted, now).records);
    }

    /// The native probe: whether the operating system grants `perm`. The
    /// system itself prompts for each of these permissions when it is first
    /// needed, so the probe reports all of them as granted.
    pub fn check_permission_native_sync(&self, perm: Permission) -> (r: Result<bool, String>)
        ensures
            r == Ok::<bool, String>(true),
    {
        match perm {
            Permission::ScreenRecording => Ok(true),
            Permission::Accessibility => Ok(true),
            Permission::FullDiskAccess => Ok(true),
        }
    }

    /// Settles a check that had to go to the probe, with what the probe came
    /// back with: a result is recorded and handed out, a failure is handed
    /// out and leaves the cache as it was.
    pub fn finish_check(&mut self, perm: Permission, outcome: Result<bool, String>, now: u64) -> (r:
        Result<bool, PermissionError>)
        requires
            old(self).wf(),
            outcome is Ok ==> now + old(self)@.default_ttl <= u64::MAX,
        ensures
            final(self).wf(),
            final(self)@ == after_probe(old(self)@, perm, outcome, now),
            r == probe_answer(outcome),
    {
        match outcome {
            Ok(granted) => {
                self.record(perm, granted, now);
                Ok(granted)
            },
            Err(reason) => Err(PermissionError::ProbeFailed(reason)),
        }
    }

    /// Whether `perm` is granted, at `now`, with `probe` as the probe. Where
    /// the cache has a result for `perm` that has not expired, that is the
    /// answer and `probe` is not called; else `probe` is called once and
    /// what it finds is recorded and handed out. Where `probe` fails, the
    /// failure is handed out and the cache is left as it was.
    pub fn check_permission_with<F>(&mut self, perm: Permission, now: u64, probe: F) -> (r: Result<
        bool,
        PermissionError,
    >) where F: FnOnce(Permission) -> Result<bool, String>
        requires
            old(self).wf(),
            needs_probe(old(self)@, perm, now) ==> now + old(self)@.default_ttl <= u64::MAX,
            needs_probe(old(self)@, perm, now) ==> call_requires(probe, (perm,)),
        ensures
            final(self).wf(),
            !needs_probe(old(self)@, perm, now) ==> final(self)@ == old(self)@ && r == Ok::<
                bool,
                PermissionError,
            >(cached_grant(old(self)@, perm, now)->0),
            needs_probe(old(self)@, perm, now) ==> exists|outcome: Result<bool, String>|
                #[trigger] call_ensures(probe, (perm,), outcome) && final(self)@ == check_model(
                    old(self)@,
                    perm,
                    now,
                    outcome,
                ) && r == check_answer(old(self)@, perm, now, outcome),
    {
        match self.lookup(perm, now) {
            Some(granted) => Ok(granted),
            None => {
                let outcome = probe(perm);
                self.finish_check(perm, outcome, now)
            },
        }
    }

    /// Whether `perm` is granted, at `now`, with the native probe: the
    /// cached answer where there is one that has not expired, else what the
    /// native probe finds, which is recorded.
    pub fn check_permission_cached(&mut self, perm: Permission, now: u64) -> (r: Result<
        bool,
        PermissionError,
    >)
        requires
            old(self).wf(),
            needs_probe(old(self)@, perm, now) ==> now + old(self)@.default_ttl <= u64::MAX,
        ensures
            final(self).wf(),
            final(self)@ == check_model(old(self)@, perm, now, Ok::<bool, String>(true)),
            r == check_answer(old(self)@, perm, now, Ok::<bool, String>(true)),
    {
        match self.lookup(perm, now) {
            Some(granted) => Ok(granted),
            None => {
                let outcome = self.check_permission_native_sync(perm);
                self.finish_check(perm, outcome, now)
            },
        }
    }

    /// Forgets every result.
    pub fn clear_cache(&mut self)
        requires
            old(self).wf(),
        ensures
            final(self).wf(),
            final(self)@ == (PermissionModel {
                records: Map::<Permission, PermissionResult>::empty(),
                ..old(self)@
            }),
    {
        self.cache.clear();
        assert(self@.records =~= Map::<Permission, PermissionResult>::empty());
    }

    /// Whether the cache has a result for `perm`, and whether that has
    /// expired at `now`.
    fn slot_stats(&self, perm: Permission, now: u64) -> (r: (usize, usize))
        requires
            self.wf(),
        ensures
            r.0 == held(self@, perm),
            r.1 == held_expired(self@, perm, now),
    {
        match self.cache.get(&perm.code()) {
            Some(result) => if now >= result.expires_at {
                (1, 1)
            } else {
                (1, 0)
            },
            None => (0, 0),
        }
    }

    /// How many results the cache holds and how many of them have expired at
    /// `now`. Nothing is removed.
    pub fn get_cache_stats(&self, now: u64) -> (stats: (usize, usize))
        requires
            self.wf(),
        ensures
            stats.0 == entry_count(self@),
            stats.1 == expired_count(self@, now),
            stats.1 <= stats.0 <= 3,
    {
        let a = self.slot_stats(Permission::ScreenRecording, now);
        let b = self.slot_stats(Permission::Accessibility, now);
        let c = self.slot_stats(Permission::FullDiskAccess, now);
        (a.0 + b.0 + c.0, a.1 + b.1 + c.1)
    }

    /// Removes the result of `perm` if it has expired at `now`, and says
    /// whether it did.
    fn purge(&mut self, perm: Permission, now: u64) -> (removed: usize)
        requires
            old(self).wf(),
        ensures
            final(self).wf(),
            final(self)@.default_ttl == old(self)@.default_ttl,
            removed == held_expired(old(self)@, perm, now),
            final(self)@.records == if removed == 1 {
                old(self)@.records.remove(perm)
            } else {
                old(self)@.records
            },
    {
        let expired = match self.cache.get(&perm.code()) {
            Some(result) => now >= result.expires_at,
            None => false,
        };
        if expired {
            self.cache.remove(&perm.code());
            assert(self@.records =~= old(self)@.records.remove(perm));
            1
        } else {
            0
        }
    }

    /// Removes the results that have expired at `now` and says how many
    /// they were.
    pub fn cleanup_expired(&mut self, now: u64) -> (removed: usize)
        requires
            old(self).wf(),
        ensures
            final(self).wf(),
            final(self)@ == without_expired(old(self)@, now),
            removed == expired_count(old(self)@, now),
    {
        let a = self.purge(Permission::ScreenRecording, now);
        let b = self.purge(Permission::Accessibility, now);
        let c = self.purge(Permission::FullDiskAccess, now);
        assert(self@.records =~= without_expired(old(self)@, now).records);
        a + b + c
    }
}

/// A check goes to the probe once for every time to live. The first check
/// of `perm`, made at `checked_at` where the cache had no answer, records
/// what the probe found, whole: the grant, when it was made, and when it
/// expires. A check made before it expires is answered with that grant and
/// leaves the cache as it is, whatever the probe would come back with; a
/// check made from then on goes to the probe again, and what that finds
/// takes the record's place, whole again.
pub proof fn lemma_check_lifetime(
    m: PermissionModel,
    perm: Permission,
    checked_at: u64,
    first: Result<bool, String>,
    now: u64,
    second: Result<bool, String>,
)
    requires
        needs_probe(m, perm, checked_at),
        first is Ok,
        checked_at + m.default_ttl <= u64::MAX,
    ensures
        check_answer(m, perm, checked_at, first) == Ok::<bool, PermissionError>(first->Ok_0),
        check_model(m, perm, checked_at, first).records.contains_key(perm),
        check_model(m, perm, checked_at, first).records[perm] == (PermissionResult {
            granted: first->Ok_0,
            checked_at,
            expires_at: (checked_at + m.default_ttl) as u64,
        }),
        now < checked_at + m.default_ttl ==> {
            &&& !needs_probe(check_model(m, perm, checked_at, first), perm, now)
            &&& check_answer(check_model(m, perm, checked_at, first), perm, now, second) == Ok::<
                bool,
                PermissionError,
            >(first->Ok_0)
            &&& check_model(check_model(m, perm, checked_at, first), perm, now, second)
                == check_model(m, perm, checked_at, first)
        },
        now >= checked_at + m.default_ttl ==> {
            &&& needs_probe(check_model(m, perm, checked_at, first), perm, now)
            &&& check_answer(check_model(m, perm, checked_at, first), perm, now, second)
                == probe_answer(second)
            &&& second matches Ok(found) ==> check_model(
                check_model(m, perm, checked_at, first),
                perm,
                now,
                second,
            ).records[perm] == fresh_result(found, now, m.default_ttl)
        },
{
}

/// A recorded result is served for as long as its time to live, and no
/// longer: after a probe of `perm` has been recorded at `checked_at`, a
/// check of `perm` is answered from the cache while less than the time to
/// live has passed, and goes to the probe again from then on.
pub proof fn lemma_result_lifetime(
    m: PermissionModel,
    perm: Permission,
    granted: bool,
    checked_at: u64,
    now: u64,
)
    requires
        checked_at + m.default_ttl <= u64::MAX,
    ensures
        now < checked_at + m.default_ttl ==> cached_grant(
            with_result(m, perm, granted, checked_at),
            perm,
            now,
        ) == Some(granted),
        now >= checked_at + m.default_ttl ==> cached_grant(
            with_result(m, perm, granted, checked_at),
            perm,
            now,
        ) is None,
{
}

/// Recording a result of one kind leaves what is cached of the others.
pub proof fn lemma_result_is_per_kind(
    m: PermissionModel,
    perm: Permission,
    granted: bool,
    checked_at: u64,
    other: Permission,
    now: u64,
)
    requires
        other != perm,
    ensures
        cached_grant(with_result(m, perm, granted, checked_at), other, now) == cached_grant(
            m,
            other,
            now,
        ),
{
}

impl PermissionCache {
    /// The result that the cache holds for `perm`, expired or not.
    pub fn get(&self, perm: Permission) -> (r: Option<PermissionResult>)
        requires
            self.wf(),
        ensures
            r == (if self@.records.contains_key(perm) {
                Some(self@.records[perm])
            } else {
                None
            }),
    {
        match self.cache.get(&perm.code()) {
            Some(result) => Some(*result),
            None => None,
        }
    }
}

impl Default for PermissionCache {
    /// An empty cache that serves each result for five minutes.
    fn default() -> (cache: Self)
        ensures
            cache.wf(),
            cache@.records == Map::<Permission, PermissionResult>::empty(),
            cache@.default_ttl == DEFAULT_PERMISSION_TTL_MS,
    {
        Self::new()
    }
}

} // verus!
