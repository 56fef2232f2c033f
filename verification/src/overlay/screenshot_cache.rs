//! A cache of captured images, keyed by capture geometry and bounded by the
//! age of each entry and by the size of all of them together.

use crate::encoding::can_encode;
use crate::encoding::encodable_len;
use crate::encoding::encode_png_data_url;
use crate::encoding::png_data_url;
use crate::geometry::BoundsKey;
use crate::geometry::CaptureBounds;
use crate::geometry::clamped;
use crate::geometry::GeometryError;
use crate::geometry::spec_normalize;
use vstd::prelude::*;
use vstd::string::StringExecFns;
use vstd::utf8::encode_utf8;

verus! {

/// Bytes of cached image text that the cache holds at most, unless told otherwise.
pub const DEFAULT_MAX_CACHE_SIZE: usize = 52_428_800;

/// Milliseconds for which a cached image is served, unless told otherwise.
pub const DEFAULT_CACHE_TTL_MS: u64 = 30_000;

/// Bytes that the reusable PNG buffer is first made for.
pub const INITIAL_BUFFER_CAPACITY: usize = 1_048_576;

/// Milliseconds for which the size of the screen is taken as known.
pub const SCREEN_INFO_TTL_MS: u64 = 60_000;

/// The size of the screen, and when it was asked for.
#[derive(Clone, Copy, Debug, PartialEq, Eq, Structural)]
pub struct ScreenInfo {
    pub width: u32,
    pub height: u32,
    pub cached_at: u64,
}

impl ScreenInfo {
    /// Whether the size is still taken as known at `now`: no more than
    /// `SCREEN_INFO_TTL_MS` has passed since it was asked for.
    pub open spec fn current(self, now: u64) -> bool {
        now - self.cached_at <= SCREEN_INFO_TTL_MS
    }
}

/// Why a capture gave no image.
#[derive(Debug, PartialEq, Eq)]
pub enum CaptureError {
    /// The rectangle asked for is too small once clamped to the screen.
    InvalidBounds(GeometryError),
    /// The rasterizer failed; the text is its own.
    CaptureFailed(String),
    /// The rasterizer's image is too long for its base64 text to be measured
    /// in a `usize`.
    ImageTooLarge,
}

impl CaptureError {
    /// The text that the error is reported with: the rasterizer's own where
    /// it failed.
    pub open spec fn spec_message(self) -> Seq<char> {
        match self {
            CaptureError::InvalidBounds(e) => e.spec_message(),
            CaptureError::CaptureFailed(reason) => reason@,
            CaptureError::ImageTooLarge => "Captured image is too large to encode"@,
        }
    }

    /// The text that the error is reported with.
    pub fn message(&self) -> (text: String)
        ensures
            text@ == self.spec_message(),
    {
        match self {
            CaptureError::InvalidBounds(e) => e.message(),
            CaptureError::CaptureFailed(reason) => reason.clone(),
            CaptureError::ImageTooLarge => String::from_str("Captured image is too large to encode"),
        }
    }
}

/// What the cache holds of one capture, as contracts speak of it.
pub struct CaptureRecord {
    /// The clamped rectangle that was captured.
    pub key: CaptureBounds,
    /// The image, as the text of its `data:` URL.
    pub data: Seq<char>,
    /// When it was captured.
    pub captured_at: u64,
}

impl CaptureRecord {
    /// The bytes that the record counts for: the length of its text in UTF-8.
    pub open spec fn size(self) -> nat {
        encode_utf8(self.data).len()
    }

    /// Whether the record may still be served at `now`: less than `ttl` has
    /// passed since it was captured.
    pub open spec fn fresh(self, now: u64, ttl: u64) -> bool {
        now - self.captured_at < ttl
    }
}

/// The bytes that a sequence of records counts for.
pub open spec fn total_size(s: Seq<CaptureRecord>) -> nat
    decreases s.len(),
{
    if s.len() == 0 {
        0
    } else {
        total_size(s.drop_last()) + s.last().size()
    }
}

/// No two records of the sequence have the same key.
pub open spec fn keys_unique(s: Seq<CaptureRecord>) -> bool {
    forall|i: int, j: int| 0 <= i < j < s.len() ==> s[i].key != s[j].key
}

/// Where in the sequence the record of `key` stands, if there is one.
pub open spec fn position(s: Seq<CaptureRecord>, key: CaptureBounds) -> Option<int>
    decreases s.len(),
{
    if s.len() == 0 {
        None
    } else if s.last().key == key {
        Some(s.len() - 1)
    } else {
        position(s.drop_last(), key)
    }
}

/// The image that a lookup of `key` at `now` is answered with: that of the
/// key's record, if there is one and it is still fresh.
pub open spec fn spec_lookup(s: Seq<CaptureRecord>, key: CaptureBounds, now: u64, ttl: u64) -> Option<
    Seq<char>,
> {
    match position(s, key) {
        Some(i) => if s[i].fresh(now, ttl) {
            Some(s[i].data)
        } else {
            None
        },
        None => None,
    }
}

/// `position` finds a record of the key wherever one stands.
pub proof fn lemma_position_found(s: Seq<CaptureRecord>, key: CaptureBounds)
    ensures
        match position(s, key) {
            Some(i) => 0 <= i < s.len() && s[i].key == key,
            None => forall|j: int| 0 <= j < s.len() ==> s[j].key != key,
        },
    decreases s.len(),
{
    if s.len() > 0 && s.last().key != key {
        lemma_position_found(s.drop_last(), key);
        if position(s, key) is None {
            assert forall|j: int| 0 <= j < s.len() implies s[j].key != key by {
                if j < s.len() - 1 {
                    assert(s.drop_last()[j].key != key);
                }
            }
        }
    }
}

/// Among unique keys, `position` is the one place where the key stands.
pub proof fn lemma_position_unique(s: Seq<CaptureRecord>, key: CaptureBounds, i: int)
    requires
        keys_unique(s),
        0 <= i < s.len(),
        s[i].key == key,
    ensures
        position(s, key) == Some(i),
{
    lemma_position_found(s, key);
}

/// Taking a record out takes its size off the total.
pub proof fn lemma_total_size_remove(s: Seq<CaptureRecord>, i: int)
    requires
        0 <= i < s.len(),
    ensures
        total_size(s.remove(i)) + s[i].size() == total_size(s),
    decreases s.len(),
{
    if i == s.len() - 1 {
        assert(s.remove(i) =~= s.drop_last());
    } else {
        lemma_total_size_remove(s.drop_last(), i);
        assert(s.remove(i).drop_last() =~= s.drop_last().remove(i));
    }
}

/// Adding a record adds its size to the total.
pub proof fn lemma_total_size_push(s: Seq<CaptureRecord>, r: CaptureRecord)
    ensures
        total_size(s.push(r)) == total_size(s) + r.size(),
{
    assert(s.push(r).drop_last() =~= s);
}

/// A part of the records counts for no more than all of them.
pub proof fn lemma_total_size_take(s: Seq<CaptureRecord>, n: int)
    requires
        0 <= n <= s.len(),
    ensures
        total_size(s.take(n)) <= total_size(s),
    decreases s.len(),
{
    if n == s.len() {
        assert(s.take(n) =~= s);
    } else {
        lemma_total_size_take(s.drop_last(), n);
        assert(s.drop_last().take(n) =~= s.take(n));
    }
}

/// The place of the record that was captured first; of several captured
/// at the same time, the one that was stored first.
pub open spec fn oldest_index(s: Seq<CaptureRecord>) -> int
    decreases s.len(),
{
    if s.len() <= 1 {
        0
    } else {
        let i = oldest_index(s.drop_last());
        if s.last().captured_at < s[i].captured_at {
            s.len() - 1
        } else {
            i
        }
    }
}

/// The records without that of `key`.
pub open spec fn without_key(s: Seq<CaptureRecord>, key: CaptureBounds) -> Seq<CaptureRecord> {
    match position(s, key) {
        Some(i) => s.remove(i),
        None => s,
    }
}

/// The records after room has been made for `size` more bytes under `max`:
/// the oldest record is evicted, and then the oldest of those left, for as
/// long as the records and the new bytes together count for more than `max`
/// and a record is left. Where they fit, nothing is evicted.
pub open spec fn make_room(s: Seq<CaptureRecord>, size: nat, max: usize) -> Seq<CaptureRecord>
    decreases s.len(),
    via make_room_shrinks
{
    if s.len() == 0 || total_size(s) + size <= max {
        s
    } else {
        make_room(s.remove(oldest_index(s)), size, max)
    }
}

#[via_fn]
proof fn make_room_shrinks(s: Seq<CaptureRecord>, size: nat, max: usize) {
    if s.len() > 0 {
        lemma_oldest_index(s);
    }
}

/// The records after `rec` has been stored: room is made for it, it takes
/// the place of any record of its key, and it stands last.
pub open spec fn with_record(s: Seq<CaptureRecord>, rec: CaptureRecord, max: usize) -> Seq<CaptureRecord> {
    without_key(make_room(s, rec.size(), max), rec.key).push(rec)
}

/// The oldest record is in the sequence, none is older, and none before it
/// is as old.
pub proof fn lemma_oldest_index(s: Seq<CaptureRecord>)
    requires
        s.len() > 0,
    ensures
        0 <= oldest_index(s) < s.len(),
        forall|j: int|
            0 <= j < s.len() ==> s[oldest_index(s)].captured_at <= (#[trigger] s[j]).captured_at,
        forall|j: int|
            0 <= j < oldest_index(s) ==> s[oldest_index(s)].captured_at
                < (#[trigger] s[j]).captured_at,
    decreases s.len(),
{
    if s.len() > 1 {
        let t = s.drop_last();
        lemma_oldest_index(t);
        let i = oldest_index(t);
        assert forall|j: int| 0 <= j < s.len() implies s[oldest_index(s)].captured_at <= (
        #[trigger] s[j]).captured_at by {
            if j < s.len() - 1 {
                assert(t[i].captured_at <= t[j].captured_at);
            }
        }
        assert forall|j: int| 0 <= j < oldest_index(s) implies s[oldest_index(s)].captured_at < (
        #[trigger] s[j]).captured_at by {
            if j < s.len() - 1 {
                assert(t[i].captured_at <= t[j].captured_at);
                if j < i {
                    assert(t[i].captured_at < t[j].captured_at);
                }
            }
        }
    }
}

/// Taking a record out of unique keys leaves unique keys.
pub proof fn lemma_remove_keeps_unique(s: Seq<CaptureRecord>, i: int)
    requires
        keys_unique(s),
        0 <= i < s.len(),
    ensures
        keys_unique(s.remove(i)),
        position(s.remove(i), s[i].key) is None,
{
    let t = s.remove(i);
    assert forall|a: int, b: int| 0 <= a < b < t.len() implies t[a].key != t[b].key by {
        let a0 = if a < i { a } else { a + 1 };
        let b0 = if b < i { b } else { b + 1 };
        assert(t[a] == s[a0] && t[b] == s[b0]);
    }
    lemma_position_found(t, s[i].key);
    if position(t, s[i].key) is Some {
        let a = position(t, s[i].key)->0;
        let a0 = if a < i { a } else { a + 1 };
        assert(t[a] == s[a0]);
        if a0 < i {
            assert(s[a0].key != s[i].key);
        } else {
            assert(s[i].key != s[a0].key);
        }
    }
}

/// What making room leaves: the records unchanged where they fit with the
/// new bytes, else fewer of them; still of unique keys, each of them one of
/// the old ones and no older than any that was evicted; and either none, or
/// records that fit under the limit with the new bytes.
pub proof fn lemma_make_room(s: Seq<CaptureRecord>, size: nat, max: usize)
    requires
        keys_unique(s),
    ensures
        keys_unique(make_room(s, size, max)),
        total_size(s) + size <= max ==> make_room(s, size, max) == s,
        make_room(s, size, max).len() <= s.len(),
        total_size(make_room(s, size, max)) <= total_size(s),
        make_room(s, size, max).len() == 0 || total_size(make_room(s, size, max)) + size <= max,
        forall|j: int|
            0 <= j < make_room(s, size, max).len() ==> position(
                s,
                (#[trigger] make_room(s, size, max)[j]).key,
            ) is Some && s[position(s, make_room(s, size, max)[j].key)->0] == make_room(
                s,
                size,
                max,
            )[j],
        forall|i: int, j: int|
            0 <= i < s.len() && 0 <= j < make_room(s, size, max).len() && position(
                make_room(s, size, max),
                (#[trigger] s[i]).key,
            ) is None ==> s[i].captured_at <= (#[trigger] make_room(s, size, max)[j]).captured_at,
    decreases s.len(),
{
    let r = make_room(s, size, max);
    if s.len() == 0 || total_size(s) + size <= max {
        assert forall|j: int| 0 <= j < r.len() implies position(s, (#[trigger] r[j]).key) is Some
            && s[position(s, r[j].key)->0] == r[j] by {
            lemma_position_unique(s, r[j].key, j);
        }
        assert forall|i: int, j: int|
            0 <= i < s.len() && 0 <= j < r.len() && position(r, (#[trigger] s[i]).key)
                is None implies s[i].captured_at <= (#[trigger] r[j]).captured_at by {
            lemma_position_unique(s, s[i].key, i);
        }
    } else {
        let o = oldest_index(s);
        lemma_oldest_index(s);
        let t = s.remove(o);
        lemma_remove_keeps_unique(s, o);
        lemma_total_size_remove(s, o);
        lemma_make_room(t, size, max);
        // every record that is left stood in `t`, so in `s`
        assert forall|j: int| 0 <= j < r.len() implies position(s, (#[trigger] r[j]).key) is Some
            && s[position(s, r[j].key)->0] == r[j] by {
            let k = position(t, r[j].key)->0;
            lemma_position_found(t, r[j].key);
            assert(t[k] == r[j]);
            let k0 = if k < o { k } else { k + 1 };
            assert(t[k] == s[k0]);
            lemma_position_unique(s, r[j].key, k0);
        }
        assert forall|i: int, j: int|
            0 <= i < s.len() && 0 <= j < r.len() && position(r, (#[trigger] s[i]).key)
                is None implies s[i].captured_at <= (#[trigger] r[j]).captured_at by {
            // r[j] stood in s, and the oldest of s is no younger than it
            let k0 = position(s, r[j].key)->0;
            lemma_position_found(s, r[j].key);
            assert(s[k0] == r[j]);
            if i != o {
                let i1 = if i < o { i } else { i - 1 };
                assert(t[i1] == s[i]);
            }
        }
    }
}

/// The records that are still fresh at `now`, in their order.
pub open spec fn fresh_records(s: Seq<CaptureRecord>, now: u64, ttl: u64) -> Seq<CaptureRecord>
    decreases s.len(),
{
    if s.len() == 0 {
        s
    } else if s.last().fresh(now, ttl) {
        fresh_records(s.drop_last(), now, ttl).push(s.last())
    } else {
        fresh_records(s.drop_last(), now, ttl)
    }
}

/// How many of the records are no longer fresh at `now`.
pub open spec fn expired_count(s: Seq<CaptureRecord>, now: u64, ttl: u64) -> nat
    decreases s.len(),
{
    if s.len() == 0 {
        0
    } else if s.last().fresh(now, ttl) {
        expired_count(s.drop_last(), now, ttl)
    } else {
        expired_count(s.drop_last(), now, ttl) + 1
    }
}

/// What is left of the records is fresh: every record of `fresh_records` is
/// fresh at `now`, none of them counts as expired, and each of them is one
/// of the old ones.
pub proof fn lemma_fresh_records(s: Seq<CaptureRecord>, now: u64, ttl: u64)
    ensures
        forall|j: int|
            0 <= j < fresh_records(s, now, ttl).len() ==> (#[trigger] fresh_records(
                s,
                now,
                ttl,
            )[j]).fresh(now, ttl),
        forall|j: int|
            0 <= j < fresh_records(s, now, ttl).len() ==> s.contains(
                #[trigger] fresh_records(s, now, ttl)[j],
            ),
        forall|i: int|
            0 <= i < s.len() && (#[trigger] s[i]).fresh(now, ttl) ==> fresh_records(
                s,
                now,
                ttl,
            ).contains(s[i]),
        expired_count(fresh_records(s, now, ttl), now, ttl) == 0,
    decreases s.len(),
{
    if s.len() > 0 {
        let t = s.drop_last();
        lemma_fresh_records(t, now, ttl);
        let f = fresh_records(t, now, ttl);
        let r = fresh_records(s, now, ttl);
        if s.last().fresh(now, ttl) {
            assert(r.drop_last() =~= f);
            assert(r.last() == s.last());
        }
        assert forall|j: int| 0 <= j < r.len() implies s.contains(#[trigger] r[j]) by {
            if j < f.len() {
                assert(r[j] == f[j]);
                assert(t.contains(f[j]));
                let k = choose|k: int| 0 <= k < t.len() && t[k] == f[j];
                assert(s[k] == r[j]);
            } else {
                assert(s[s.len() - 1] == r[j]);
            }
        }
        assert forall|i: int| 0 <= i < s.len() && (#[trigger] s[i]).fresh(now, ttl) implies r.contains(
            s[i],
        ) by {
            if i < s.len() - 1 {
                assert(t[i] == s[i]);
                assert(f.contains(t[i]));
                let k = choose|k: int| 0 <= k < f.len() && f[k] == t[i];
                assert(r[k] == s[i]);
            } else {
                assert(r[r.len() - 1] == s[i]);
            }
        }
    }
}

/// Every record is either fresh or expired.
pub proof fn lemma_fresh_and_expired(s: Seq<CaptureRecord>, now: u64, ttl: u64)
    ensures
        fresh_records(s, now, ttl).len() + expired_count(s, now, ttl) == s.len(),
    decreases s.len(),
{
    if s.len() > 0 {
        lemma_fresh_and_expired(s.drop_last(), now, ttl);
    }
}

/// The record that the capture `png` of the rectangle `key` at `now` is
/// stored as.
pub open spec fn capture_record(key: CaptureBounds, png: Seq<u8>, now: u64) -> CaptureRecord {
    CaptureRecord { key, data: png_data_url(png), captured_at: now }
}

/// The cache after the capture `png` of `key` at `now` has been stored: a
/// stale record of the key is dropped, then the new one is stored, and the
/// buffer holds the image.
pub open spec fn with_capture(m: CacheModel, key: CaptureBounds, png: Seq<u8>, now: u64) -> CacheModel {
    CacheModel {
        entries: with_record(
            without_key(m.entries, key),
            capture_record(key, png, now),
            m.max_cache_size,
        ),
        png_buffer: png,
        ..m
    }
}

/// What a capture is answered with once the rasterizer has come back with
/// `outcome`: the image's `data:` URL, or why there is none.
pub open spec fn finish_result(outcome: Result<Vec<u8>, String>) -> Result<Seq<char>, CaptureError> {
    match outcome {
        Ok(png) => if encodable_len(png@.len()) {
            Ok(png_data_url(png@))
        } else {
            Err(CaptureError::ImageTooLarge)
        },
        Err(reason) => Err(CaptureError::CaptureFailed(reason)),
    }
}

/// The cache without the record of `key`.
pub open spec fn without_entry(m: CacheModel, key: CaptureBounds) -> CacheModel {
    CacheModel { entries: without_key(m.entries, key), ..m }
}

/// The cache once the rasterizer has come back with `outcome` for `key` at
/// `now`. The record that the key had, stale as it was, is dropped; where
/// there is an image, the capture is stored in its place.
pub open spec fn finish_model(
    m: CacheModel,
    key: CaptureBounds,
    outcome: Result<Vec<u8>, String>,
    now: u64,
) -> CacheModel {
    match outcome {
        Ok(png) => if encodable_len(png@.len()) {
            with_capture(m, key, png@, now)
        } else {
            without_entry(m, key)
        },
        Err(_) => without_entry(m, key),
    }
}

/// Whether a request for `raw` at `now` has to go to the rasterizer: the
/// rectangle is valid and the cache has no fresh image for it.
pub open spec fn needs_capture(
    m: CacheModel,
    raw: CaptureBounds,
    screen_width: u32,
    screen_height: u32,
    now: u64,
) -> bool {
    spec_normalize(raw, screen_width, screen_height) is Ok && spec_lookup(
        m.entries,
        clamped(raw, screen_width, screen_height),
        now,
        m.cache_ttl,
    ) is None
}

/// What a request for `raw` at `now` is answered with where the rasterizer is
/// not asked: the fresh image that the cache holds, or the reason for which
/// the rectangle is refused.
pub open spec fn cached_answer(
    m: CacheModel,
    raw: CaptureBounds,
    screen_width: u32,
    screen_height: u32,
    now: u64,
) -> Result<Seq<char>, CaptureError> {
    match spec_normalize(raw, screen_width, screen_height) {
        Err(e) => Err(CaptureError::InvalidBounds(e)),
        Ok(key) => Ok(spec_lookup(m.entries, key, now, m.cache_ttl)->0),
    }
}

/// What a request for `raw` at `now` is answered with, where `outcome` is
/// what the rasterizer comes back with if it is asked.
pub open spec fn request_result(
    m: CacheModel,
    raw: CaptureBounds,
    screen_width: u32,
    screen_height: u32,
    now: u64,
    outcome: Result<Vec<u8>, String>,
) -> Result<Seq<char>, CaptureError> {
    if needs_capture(m, raw, screen_width, screen_height, now) {
        finish_result(outcome)
    } else {
        cached_answer(m, raw, screen_width, screen_height, now)
    }
}

/// The cache after a request for `raw` at `now`, where `outcome` is what the
/// rasterizer comes back with if it is asked.
pub open spec fn request_model(
    m: CacheModel,
    raw: CaptureBounds,
    screen_width: u32,
    screen_height: u32,
    now: u64,
    outcome: Result<Vec<u8>, String>,
) -> CacheModel {
    if needs_capture(m, raw, screen_width, screen_height, now) {
        finish_model(m, clamped(raw, screen_width, screen_height), outcome, now)
    } else {
        m
    }
}

/// Whether the size of the screen has to be asked for anew at `now`: none
/// is known, or the one that is known is no longer current.
pub open spec fn needs_screen_info(m: CacheModel, now: u64) -> bool {
    match m.screen_info {
        Some(info) => !info.current(now),
        None => true,
    }
}

/// The cache once the screen has answered `outcome` at `now`: with the new
/// size, or unchanged where the screen could not be asked.
pub open spec fn after_screen_info(m: CacheModel, outcome: Result<(u32, u32), String>, now: u64) -> CacheModel {
    match outcome {
        Ok(size) => CacheModel {
            screen_info: Some(ScreenInfo { width: size.0, height: size.1, cached_at: now }),
            ..m
        },
        Err(_) => m,
    }
}

/// What a request for the size of the screen is answered with once the
/// screen has answered `outcome` at `now`.
pub open spec fn screen_info_answer(outcome: Result<(u32, u32), String>, now: u64) -> Result<
    ScreenInfo,
    CaptureError,
> {
    match outcome {
        Ok(size) => Ok(ScreenInfo { width: size.0, height: size.1, cached_at: now }),
        Err(reason) => Err(CaptureError::CaptureFailed(reason)),
    }
}

/// An answer as contracts speak of it: the text of the image, or the error.
pub open spec fn answer_view(r: Result<String, CaptureError>) -> Result<Seq<char>, CaptureError> {
    match r {
        Ok(data) => Ok(data@),
        Err(e) => Err(e),
    }
}

/// Storing a record keeps what holds of every cache, and puts the record
/// last, where lookups of its key find it.
pub proof fn lemma_with_record(s: Seq<CaptureRecord>, rec: CaptureRecord, max: usize)
    requires
        keys_unique(s),
        total_size(s) <= max || s.len() <= 1,
    ensures
        keys_unique(with_record(s, rec, max)),
        total_size(with_record(s, rec, max)) <= max || with_record(s, rec, max).len() <= 1,
        with_record(s, rec, max).len() >= 1,
        with_record(s, rec, max).last() == rec,
        position(with_record(s, rec, max), rec.key) == Some(with_record(s, rec, max).len() - 1),
{
    let s1 = make_room(s, rec.size(), max);
    lemma_make_room(s, rec.size(), max);
    lemma_position_found(s1, rec.key);
    if position(s1, rec.key) is Some {
        lemma_remove_keeps_unique(s1, position(s1, rec.key)->0);
        lemma_total_size_remove(s1, position(s1, rec.key)->0);
    }
    let s2 = without_key(s1, rec.key);
    lemma_position_found(s2, rec.key);
    lemma_total_size_push(s2, rec);
    let r = s2.push(rec);
    assert forall|a: int, b: int| 0 <= a < b < r.len() implies r[a].key != r[b].key by {
        if b == s2.len() {
            assert(s2[a].key != rec.key);
        }
    }
}

/// The size limit holds after every store of an image that fits under it by
/// itself: whatever the cache held, the records count for no more than
/// `max` bytes afterwards.
pub proof fn lemma_store_respects_limit(s: Seq<CaptureRecord>, rec: CaptureRecord, max: usize)
    requires
        keys_unique(s),
        total_size(s) <= max || s.len() <= 1,
        rec.size() <= max,
    ensures
        total_size(with_record(s, rec, max)) <= max,
{
    let s1 = make_room(s, rec.size(), max);
    lemma_make_room(s, rec.size(), max);
    lemma_position_found(s1, rec.key);
    if position(s1, rec.key) is Some {
        lemma_total_size_remove(s1, position(s1, rec.key)->0);
    }
    lemma_total_size_push(without_key(s1, rec.key), rec);
    if s1.len() == 0 {
        assert(total_size(s1) == 0);
    }
}

/// Eviction takes the oldest: a record that a store evicts was captured no
/// later than any record that the store keeps.
pub proof fn lemma_store_evicts_oldest(s: Seq<CaptureRecord>, rec: CaptureRecord, max: usize)
    requires
        keys_unique(s),
    ensures
        forall|i: int, j: int|
            0 <= i < s.len() && 0 <= j < with_record(s, rec, max).len() - 1 && (#[trigger] s[i]).key
                != rec.key && position(with_record(s, rec, max), s[i].key) is None
                ==> s[i].captured_at <= (#[trigger] with_record(s, rec, max)[j]).captured_at,
{
    let s1 = make_room(s, rec.size(), max);
    let s2 = without_key(s1, rec.key);
    let r = with_record(s, rec, max);
    lemma_make_room(s, rec.size(), max);
    lemma_position_found(s1, rec.key);
    assert forall|i: int, j: int|
        0 <= i < s.len() && 0 <= j < r.len() - 1 && (#[trigger] s[i]).key != rec.key && position(
            r,
            s[i].key,
        ) is None implies s[i].captured_at <= (#[trigger] r[j]).captured_at by {
        // the record that is kept stood in `s1`
        let j1: int = match position(s1, rec.key) {
            Some(p) => if j < p {
                j
            } else {
                j + 1
            },
            None => j,
        };
        assert(r[j] == s2[j]);
        assert(s2[j] == s1[j1]);
        // the record that is gone is not in `s1`
        lemma_position_found(r, s[i].key);
        lemma_position_found(s1, s[i].key);
        if position(s1, s[i].key) is Some {
            let q = position(s1, s[i].key)->0;
            let q2: int = match position(s1, rec.key) {
                Some(p) => if q < p {
                    q
                } else {
                    q - 1
                },
                None => q,
            };
            assert(s2[q2] == s1[q]);
            assert(r[q2] == s2[q2]);
            assert(r[q2].key == s[i].key);
        }
        assert(s[i].captured_at <= s1[j1].captured_at);
    }
}

/// A capture that succeeded is served again: when the request that gave an
/// image is made once more at the same time, the image is the same and the
/// cache stays as it is, whatever the rasterizer would come back with now.
pub proof fn lemma_capture_is_cached(
    m: CacheModel,
    raw: CaptureBounds,
    screen_width: u32,
    screen_height: u32,
    now: u64,
    first: Result<Vec<u8>, String>,
    second: Result<Vec<u8>, String>,
)
    requires
        model_wf(m),
        m.cache_ttl > 0,
        request_result(m, raw, screen_width, screen_height, now, first) is Ok,
    ensures
        !needs_capture(
            request_model(m, raw, screen_width, screen_height, now, first),
            raw,
            screen_width,
            screen_height,
            now,
        ),
        request_result(
            request_model(m, raw, screen_width, screen_height, now, first),
            raw,
            screen_width,
            screen_height,
            now,
            second,
        ) == request_result(m, raw, screen_width, screen_height, now, first),
        request_model(
            request_model(m, raw, screen_width, screen_height, now, first),
            raw,
            screen_width,
            screen_height,
            now,
            second,
        ) == request_model(m, raw, screen_width, screen_height, now, first),
{
    if needs_capture(m, raw, screen_width, screen_height, now) {
        let key = clamped(raw, screen_width, screen_height);
        let png = first->Ok_0@;
        lemma_capture_lifetime(m, key, png, now, now);
    }
}

/// A stored capture is served for as long as its time to live, and no
/// longer: a lookup of its key finds the image while less than the time to
/// live has passed since the capture, and nothing from then on.
pub proof fn lemma_capture_lifetime(
    m: CacheModel,
    key: CaptureBounds,
    png: Seq<u8>,
    captured_at: u64,
    now: u64,
)
    requires
        model_wf(m),
    ensures
        now - captured_at < m.cache_ttl ==> spec_lookup(
            with_capture(m, key, png, captured_at).entries,
            key,
            now,
            m.cache_ttl,
        ) == Some(png_data_url(png)),
        now - captured_at >= m.cache_ttl ==> spec_lookup(
            with_capture(m, key, png, captured_at).entries,
            key,
            now,
            m.cache_ttl,
        ) is None,
        model_wf(with_capture(m, key, png, captured_at)),
{
    let s0 = without_key(m.entries, key);
    lemma_position_found(m.entries, key);
    if position(m.entries, key) is Some {
        lemma_remove_keeps_unique(m.entries, position(m.entries, key)->0);
        lemma_total_size_remove(m.entries, position(m.entries, key)->0);
    }
    lemma_with_record(s0, capture_record(key, png, captured_at), m.max_cache_size);
}

/// A capture expires: when the request that led to a capture at
/// `captured_at` is made again after the time to live has passed, it goes
/// to the rasterizer again; made before, it does not.
pub proof fn lemma_capture_expires(
    m: CacheModel,
    raw: CaptureBounds,
    screen_width: u32,
    screen_height: u32,
    captured_at: u64,
    first: Result<Vec<u8>, String>,
    now: u64,
)
    requires
        model_wf(m),
        needs_capture(m, raw, screen_width, screen_height, captured_at),
        finish_result(first) is Ok,
    ensures
        needs_capture(
            request_model(m, raw, screen_width, screen_height, captured_at, first),
            raw,
            screen_width,
            screen_height,
            now,
        ) <==> now - captured_at >= m.cache_ttl,
{
    lemma_capture_lifetime(
        m,
        clamped(raw, screen_width, screen_height),
        first->Ok_0@,
        captured_at,
        now,
    );
}

/// The size limit holds after every capture whose text fits under it by
/// itself.
pub proof fn lemma_capture_respects_limit(m: CacheModel, key: CaptureBounds, png: Seq<u8>, now: u64)
    requires
        model_wf(m),
        capture_record(key, png, now).size() <= m.max_cache_size,
    ensures
        total_size(with_capture(m, key, png, now).entries) <= m.max_cache_size,
{
    lemma_position_found(m.entries, key);
    if position(m.entries, key) is Some {
        lemma_remove_keeps_unique(m.entries, position(m.entries, key)->0);
        lemma_total_size_remove(m.entries, position(m.entries, key)->0);
    }
    lemma_store_respects_limit(
        without_key(m.entries, key),
        capture_record(key, png, now),
        m.max_cache_size,
    );
}

/// One cached capture.
pub struct CachedCapture {
    key: BoundsKey,
    data: String,
    captured_at: u64,
    size_bytes: usize,
}

impl View for CachedCapture {
    type V = CaptureRecord;

    closed spec fn view(&self) -> CaptureRecord {
        CaptureRecord { key: self.key@, data: self.data@, captured_at: self.captured_at }
    }
}

impl CachedCapture {
    /// The entry's byte count is that of its text.
    pub closed spec fn wf(&self) -> bool {
        self.size_bytes == self@.size()
    }
}

/// The records that a sequence of entries stands for.
pub open spec fn records(entries: Seq<CachedCapture>) -> Seq<CaptureRecord> {
    entries.map_values(|e: CachedCapture| e@)
}

/// What a cache holds, as contracts speak of it.
pub struct CacheModel {
    /// The records, in the order in which they were stored.
    pub entries: Seq<CaptureRecord>,
    /// The size of the screen as it was found last.
    pub screen_info: Option<ScreenInfo>,
    /// The PNG image that was captured last.
    pub png_buffer: Seq<u8>,
    /// The bytes that the records may count for together.
    pub max_cache_size: usize,
    /// The milliseconds for which a record is fresh.
    pub cache_ttl: u64,
}

/// The image cache.
pub struct ScreenshotCache {
    entries: Vec<CachedCapture>,
    screen_info: Option<ScreenInfo>,
    png_buffer: Vec<u8>,
    max_cache_size: usize,
    cache_ttl: u64,
}

impl View for ScreenshotCache {
    type V = CacheModel;

    closed spec fn view(&self) -> CacheModel {
        CacheModel {
            entries: records(self.entries@),
            screen_info: self.screen_info,
            png_buffer: self.png_buffer@,
            max_cache_size: self.max_cache_size,
            cache_ttl: self.cache_ttl,
        }
    }
}

/// What holds of the records of every cache: no key occurs twice, and the
/// records fit the size limit together, unless a single one is all there is.
pub open spec fn model_wf(m: CacheModel) -> bool {
    &&& keys_unique(m.entries)
    &&& (total_size(m.entries) <= m.max_cache_size || m.entries.len() <= 1)
}

impl ScreenshotCache {
    /// The cache's invariant.
    pub closed spec fn wf(&self) -> bool {
        &&& model_wf(self@)
        &&& forall|i: int| 0 <= i < self.entries@.len() ==> (#[trigger] self.entries@[i]).wf()
    }

    /// What holds of every cache holds of the records of this one.
    pub proof fn lemma_wf_model(&self)
        requires
            self.wf(),
        ensures
            model_wf(self@),
    {
    }

    /// An empty cache with the default limits: 50 MiB and 30 seconds.
    pub fn new() -> (cache: Self)
        ensures
            cache.wf(),
            cache@.entries == Seq::<CaptureRecord>::empty(),
            cache@.screen_info is None,
            cache@.png_buffer == Seq::<u8>::empty(),
            cache@.max_cache_size == DEFAULT_MAX_CACHE_SIZE,
            cache@.cache_ttl == DEFAULT_CACHE_TTL_MS,
    {
        Self::with_limits(DEFAULT_MAX_CACHE_SIZE, DEFAULT_CACHE_TTL_MS)
    }

    /// An empty cache that holds at most `max_cache_size` bytes and serves
    /// each entry for `cache_ttl` milliseconds.
    pub fn with_limits(max_cache_size: usize, cache_ttl: u64) -> (cache: Self)
        ensures
            cache.wf(),
            cache@.entries == Seq::<CaptureRecord>::empty(),
            cache@.screen_info is None,
            cache@.png_buffer == Seq::<u8>::empty(),
            cache@.max_cache_size == max_cache_size,
            cache@.cache_ttl == cache_ttl,
    {
        let cache = ScreenshotCache {
            entries: Vec::new(),
            screen_info: None,
            png_buffer: Vec::with_capacity(INITIAL_BUFFER_CAPACITY),
            max_cache_size,
            cache_ttl,
        };
        assert(cache@.entries =~= Seq::<CaptureRecord>::empty());
        cache
    }

    /// The records fit in a `usize` together.
    proof fn lemma_total_fits(&self)
        requires
            self.wf(),
        ensures
            total_size(self@.entries) <= usize::MAX,
    {
        let s = self@.entries;
        if s.len() == 1 {
            assert(total_size(s.drop_last()) == 0);
            assert(self.entries@[0].wf());
            assert(s.last() == self.entries@[0]@);
        }
    }

    /// The place of the entry of `key`, if there is one.
    fn find(&self, key: &BoundsKey) -> (r: Option<usize>)
        requires
            self.wf(),
        ensures
            match r {
                Some(i) => position(self@.entries, key@) == Some(i as int) && i
                    < self.entries@.len(),
                None => position(self@.entries, key@) is None,
            },
    {
        let mut i: usize = 0;
        while i < self.entries.len()
            invariant
                self.wf(),
                i <= self.entries@.len(),
                forall|j: int| 0 <= j < i ==> (#[trigger] self@.entries[j]).key != key@,
            decreases self.entries@.len() - i,
        {
            if self.entries[i].key.same(key) {
                proof {
                    lemma_position_unique(self@.entries, key@, i as int);
                }
                return Some(i);
            }
            i += 1;
        }
        proof {
            lemma_position_found(self@.entries, key@);
        }
        None
    }

    /// The cached image for `key`, if there is one that is still fresh at
    /// `now`. The cache is read, not changed: the image is a copy.
    pub fn lookup(&self, key: &BoundsKey, now: u64) -> (r: Option<String>)
        requires
            self.wf(),
        ensures
            match r {
                Some(data) => spec_lookup(self@.entries, key@, now, self@.cache_ttl) == Some(
                    data@,
                ),
                None => spec_lookup(self@.entries, key@, now, self@.cache_ttl) is None,
            },
    {
        match self.find(key) {
            Some(i) => {
                let entry = &self.entries[i];
                if now < entry.captured_at || now - entry.captured_at < self.cache_ttl {
                    Some(entry.data.clone())
                } else {
                    None
                }
            },
            None => None,
        }
    }

    /// The bytes that the cached images count for together.
    pub fn get_total_cache_size(&self) -> (total: usize)
        requires
            self.wf(),
        ensures
            total == total_size(self@.entries),
    {
        let mut total: usize = 0;
        let mut i: usize = 0;
        proof {
            self.lemma_total_fits();
        }
        while i < self.entries.len()
            invariant
                self.wf(),
                i <= self.entries@.len(),
                total == total_size(self@.entries.take(i as int)),
                total_size(self@.entries) <= usize::MAX,
            decreases self.entries@.len() - i,
        {
            proof {
                let s = self@.entries;
                lemma_total_size_take(s, i + 1);
                assert(s.take(i + 1).drop_last() =~= s.take(i as int));
                assert(self.entries@[i as int].wf());
            }
            total = total + self.entries[i].size_bytes;
            i += 1;
        }
        proof {
            assert(self@.entries.take(i as int) =~= self@.entries);
        }
        total
    }

    /// Takes the entry at `i` out of the cache.
    fn remove_at(&mut self, i: usize) -> (entry: CachedCapture)
        requires
            old(self).wf(),
            i < old(self)@.entries.len(),
        ensures
            final(self).wf(),
            final(self)@ == (CacheModel {
                entries: old(self)@.entries.remove(i as int),
                ..old(self)@
            }),
            entry@ == old(self)@.entries[i as int],
            entry.wf(),
    {
        let ghost before = self.entries@;
        let entry = self.entries.remove(i);
        proof {
            let after = self.entries@;
            assert(records(after) =~= records(before).remove(i as int));
            lemma_remove_keeps_unique(records(before), i as int);
            lemma_total_size_remove(records(before), i as int);
            assert forall|j: int| 0 <= j < after.len() implies (#[trigger] after[j]).wf() by {
                let j0 = if j < i { j } else { j + 1 };
                assert(before[j0].wf());
            }
            assert(before[i as int].wf());
        }
        entry
    }

    /// The place of the entry that was captured first.
    fn oldest(&self) -> (i: usize)
        requires
            self.wf(),
            self@.entries.len() > 0,
        ensures
            i == oldest_index(self@.entries),
            i < self@.entries.len(),
    {
        let mut best: usize = 0;
        let mut i: usize = 1;
        proof {
            assert(self@.entries.take(1).len() == 1);
        }
        while i < self.entries.len()
            invariant
                1 <= i <= self.entries@.len(),
                best == oldest_index(self@.entries.take(i as int)),
                best < i,
            decreases self.entries@.len() - i,
        {
            proof {
                let s = self@.entries;
                assert(s.take(i + 1).drop_last() =~= s.take(i as int));
                assert(s.take(i + 1).last() == s[i as int]);
                assert(s.take(i + 1)[best as int] == s[best as int]);
            }
            if self.entries[i].captured_at < self.entries[best].captured_at {
                best = i;
            }
            i += 1;
        }
        proof {
            assert(self@.entries.take(i as int) =~= self@.entries);
        }
        best
    }

    /// Makes room for `needed_space` more bytes: evicts entries, oldest
    /// first, for as long as the cache and the new bytes together count for
    /// more than the limit and an entry is left. Where they fit, nothing is
    /// evicted.
    pub fn evict_oldest_entries(&mut self, needed_space: usize)
        requires
            old(self).wf(),
        ensures
            final(self).wf(),
            final(self)@ == (CacheModel {
                entries: make_room(
                    old(self)@.entries,
                    needed_space as nat,
                    old(self)@.max_cache_size,
                ),
                ..old(self)@
            }),
    {
        let mut total = self.get_total_cache_size();
        while self.entries.len() > 0 && (needed_space > self.max_cache_size || total
            > self.max_cache_size - needed_space)
            invariant
                self.wf(),
                self@.screen_info == old(self)@.screen_info,
                self@.png_buffer == old(self)@.png_buffer,
                self@.max_cache_size == old(self)@.max_cache_size,
                self@.cache_ttl == old(self)@.cache_ttl,
                total == total_size(self@.entries),
                make_room(self@.entries, needed_space as nat, self@.max_cache_size) == make_room(
                    old(self)@.entries,
                    needed_space as nat,
                    old(self)@.max_cache_size,
                ),
            decreases self@.entries.len(),
        {
            let i = self.oldest();
            proof {
                lemma_total_size_remove(self@.entries, i as int);
            }
            let entry = self.remove_at(i);
            total = total - entry.size_bytes;
        }
    }

    /// Stores an image under `key` as captured at `now`. Where the cache
    /// would grow beyond its limit, the oldest entries are evicted first,
    /// until the cache and the image fit under the limit together or no
    /// entry is left. An entry that the key already had is replaced.
    pub fn add_to_cache(&mut self, key: BoundsKey, data: String, now: u64)
        requires
            old(self).wf(),
        ensures
            final(self).wf(),
            final(self)@ == (CacheModel {
                entries: with_record(
                    old(self)@.entries,
                    CaptureRecord { key: key@, data: data@, captured_at: now },
                    old(self)@.max_cache_size,
                ),
                ..old(self)@
            }),
            encode_utf8(data@).len() <= old(self)@.max_cache_size ==> total_size(
                final(self)@.entries,
            ) <= old(self)@.max_cache_size,
    {
        let size = data.as_str().as_bytes().len();
        let ghost rec = CaptureRecord { key: key@, data: data@, captured_at: now };
        proof {
            lemma_make_room(self@.entries, size as nat, self@.max_cache_size);
        }
        self.evict_oldest_entries(size);
        let ghost s1 = self@.entries;
        match self.find(&key) {
            Some(i) => {
                self.remove_at(i);
            },
            None => {},
        }
        let ghost s2 = self@.entries;
        let ghost before = self.entries@;
        self.entries.push(CachedCapture { key, data, captured_at: now, size_bytes: size });
        proof {
            let after = self.entries@;
            assert(records(after) =~= s2.push(rec));
            lemma_total_size_push(s2, rec);
            lemma_position_found(s1, rec.key);
            if position(s1, rec.key) is Some {
                lemma_remove_keeps_unique(s1, position(s1, rec.key)->0);
                lemma_total_size_remove(s1, position(s1, rec.key)->0);
            }
            lemma_position_found(s2, rec.key);
            assert forall|a: int, b: int| 0 <= a < b < s2.push(rec).len() implies s2.push(
                rec,
            )[a].key != s2.push(rec)[b].key by {
                if b == s2.len() {
                    assert(s2[a].key != rec.key);
                }
            }
            assert forall|j: int| 0 <= j < after.len() implies (#[trigger] after[j]).wf() by {
                if j < before.len() {
                    assert(before[j].wf());
                }
            }
        }
    }

    /// Stores the capture `png` of `key` at `now` and hands out the text
    /// that it is cached as.
    pub fn store_capture(&mut self, key: BoundsKey, png: &Vec<u8>, now: u64) -> (data: String)
        requires
            old(self).wf(),
            encodable_len(png@.len()),
        ensures
            final(self).wf(),
            final(self)@ == with_capture(old(self)@, key@, png@, now),
            data@ == png_data_url(png@),
    {
        let data = encode_png_data_url(png.as_slice());
        self.png_buffer.clear();
        self.png_buffer.extend_from_slice(png.as_slice());
        assert(self.png_buffer@ =~= png@);
        self.remove_key(&key);
        self.add_to_cache(key, data.clone(), now);
        data
    }

    /// Drops the entry of `key`, if there is one.
    fn remove_key(&mut self, key: &BoundsKey)
        requires
            old(self).wf(),
        ensures
            final(self).wf(),
            final(self)@ == without_entry(old(self)@, key@),
            position(final(self)@.entries, key@) is None,
    {
        match self.find(key) {
            Some(i) => {
                proof {
                    lemma_position_found(self@.entries, key@);
                    lemma_remove_keeps_unique(self@.entries, i as int);
                }
                self.remove_at(i);
            },
            None => {},
        }
    }

    /// Settles a request that had to go to the rasterizer, with what the
    /// rasterizer came back with. The entry that the key had is dropped;
    /// where there is an image, it is stored and handed out.
    pub fn finish_capture(&mut self, key: BoundsKey, outcome: Result<Vec<u8>, String>, now: u64) -> (r:
        Result<String, CaptureError>)
        requires
            old(self).wf(),
        ensures
            final(self).wf(),
            final(self)@ == finish_model(old(self)@, key@, outcome, now),
            answer_view(r) == finish_result(outcome),
    {
        self.remove_key(&key);
        match outcome {
            Ok(png) => {
                if can_encode(png.len()) {
                    Ok(self.store_capture(key, &png, now))
                } else {
                    Err(CaptureError::ImageTooLarge)
                }
            },
            Err(reason) => Err(CaptureError::CaptureFailed(reason)),
        }
    }

    /// Answers a request for the image of the rectangle `bounds` on a screen
    /// of the given size, at `now`. The rectangle is clamped to the screen;
    /// where the cache holds a fresh image of it, that is the answer and
    /// `capture` is not called; else `capture` is called once, on the clamped
    /// rectangle, the stale image of the rectangle is dropped if there is
    /// one, and the new image is stored and handed out. Where `capture`
    /// fails, nothing is stored.
    pub fn capture_optimized<F>(
        &mut self,
        bounds: CaptureBounds,
        screen_width: u32,
        screen_height: u32,
        now: u64,
        capture: F,
    ) -> (r: Result<String, CaptureError>) where F: FnOnce(CaptureBounds) -> Result<Vec<u8>, String>
        requires
            old(self).wf(),
            needs_capture(old(self)@, bounds, screen_width, screen_height, now) ==> call_requires(
                capture,
                (clamped(bounds, screen_width, screen_height),),
            ),
        ensures
            final(self).wf(),
            !needs_capture(old(self)@, bounds, screen_width, screen_height, now) ==> final(self)@
                == old(self)@ && answer_view(r) == cached_answer(
                old(self)@,
                bounds,
                screen_width,
                screen_height,
                now,
            ),
            needs_capture(old(self)@, bounds, screen_width, screen_height, now) ==> exists|
                outcome: Result<Vec<u8>, String>,
            |
                #[trigger] call_ensures(
                    capture,
                    (clamped(bounds, screen_width, screen_height),),
                    outcome,
                ) && final(self)@ == finish_model(
                    old(self)@,
                    clamped(bounds, screen_width, screen_height),
                    outcome,
                    now,
                ) && answer_view(r) == finish_result(outcome),
    {
        let key = match BoundsKey::normalize(bounds, screen_width, screen_height) {
            Ok(key) => key,
            Err(e) => {
                return Err(CaptureError::InvalidBounds(e));
            },
        };
        match self.lookup(&key, now) {
            Some(data) => {
                return Ok(data);
            },
            None => {},
        }
        let outcome = capture(key.bounds());
        self.finish_capture(key, outcome, now)
    }

    /// Empties the cache.
    pub fn clear_cache(&mut self)
        requires
            old(self).wf(),
        ensures
            final(self).wf(),
            final(self)@ == (CacheModel { entries: Seq::<CaptureRecord>::empty(), ..old(self)@ }),
    {
        self.entries.clear();
        assert(records(self.entries@) =~= Seq::<CaptureRecord>::empty());
    }

    /// How many images the cache holds, the bytes they count for, and how
    /// many of them are no longer fresh at `now`.
    pub fn get_cache_stats(&self, now: u64) -> (stats: (usize, usize, usize))
        requires
            self.wf(),
        ensures
            stats.0 == self@.entries.len(),
            stats.1 == total_size(self@.entries),
            stats.2 == expired_count(self@.entries, now, self@.cache_ttl),
    {
        let total_entries = self.entries.len();
        let total_bytes = self.get_total_cache_size();
        let mut expired: usize = 0;
        let mut i: usize = 0;
        while i < self.entries.len()
            invariant
                i <= self.entries@.len(),
                expired == expired_count(self@.entries.take(i as int), now, self@.cache_ttl),
                expired <= i,
            decreases self.entries@.len() - i,
        {
            proof {
                let s = self@.entries;
                assert(s.take(i + 1).drop_last() =~= s.take(i as int));
                assert(s.take(i + 1).last() == s[i as int]);
            }
            let entry = &self.entries[i];
            if !(now < entry.captured_at || now - entry.captured_at < self.cache_ttl) {
                expired += 1;
            }
            i += 1;
        }
        proof {
            assert(self@.entries.take(i as int) =~= self@.entries);
        }
        (total_entries, total_bytes, expired)
    }

    /// Removes the images that are no longer fresh at `now` and says how
    /// many they were.
    pub fn cleanup_expired(&mut self, now: u64) -> (removed: usize)
        requires
            old(self).wf(),
        ensures
            final(self).wf(),
            final(self)@ == (CacheModel {
                entries: fresh_records(old(self)@.entries, now, old(self)@.cache_ttl),
                ..old(self)@
            }),
            removed == expired_count(old(self)@.entries, now, old(self)@.cache_ttl),
            expired_count(final(self)@.entries, now, old(self)@.cache_ttl) == 0,
    {
        let ghost orig = self@.entries;
        let ghost ttl = self@.cache_ttl;
        let ghost mut k: int = 0;
        let mut removed: usize = 0;
        let mut i: usize = 0;
        let held = self.entries.len();
        proof {
            assert(orig.len() == held);
            assert(self@.entries.take(0) =~= fresh_records(orig.take(0), now, ttl));
        }
        while i < self.entries.len()
            invariant
                self.wf(),
                self@.screen_info == old(self)@.screen_info,
                self@.png_buffer == old(self)@.png_buffer,
                self@.max_cache_size == old(self)@.max_cache_size,
                self@.cache_ttl == old(self)@.cache_ttl,
                ttl == self@.cache_ttl,
                orig == old(self)@.entries,
                0 <= k <= orig.len(),
                i <= self@.entries.len(),
                self@.entries.take(i as int) == fresh_records(orig.take(k), now, ttl),
                self@.entries.skip(i as int) == orig.skip(k),
                removed == expired_count(orig.take(k), now, ttl),
                removed <= k,
                orig.len() <= usize::MAX,
            decreases orig.len() - k,
        {
            let ghost cur = self@.entries;
            proof {
                assert(cur.len() == self.entries@.len());
                assert(cur.skip(i as int).len() == cur.len() - i);
                assert(orig.skip(k).len() == orig.len() - k);
                assert(cur.skip(i as int)[0] == cur[i as int]);
                assert(orig.skip(k)[0] == orig[k]);
                assert(orig.take(k + 1).drop_last() =~= orig.take(k));
                assert(orig.take(k + 1).last() == orig[k]);
            }
            let expired = {
                let entry = &self.entries[i];
                !(now < entry.captured_at || now - entry.captured_at < self.cache_ttl)
            };
            if expired {
                self.remove_at(i);
                removed += 1;
                proof {
                    assert(self@.entries.take(i as int) =~= cur.take(i as int));
                    assert(self@.entries.skip(i as int) =~= cur.skip(i as int).skip(1));
                    assert(orig.skip(k).skip(1) =~= orig.skip(k + 1));
                }
            } else {
                proof {
                    assert(cur.take(i + 1) =~= cur.take(i as int).push(cur[i as int]));
                    assert(cur.skip(i + 1) =~= cur.skip(i as int).skip(1));
                    assert(orig.skip(k).skip(1) =~= orig.skip(k + 1));
                }
                i += 1;
            }
            proof {
                k = k + 1;
            }
        }
        proof {
            assert(self@.entries.skip(i as int).len() == 0);
            assert(orig.skip(k).len() == 0);
            assert(orig.take(k) =~= orig);
            assert(self@.entries.take(i as int) =~= self@.entries);
            lemma_fresh_records(orig, now, ttl);
        }
        removed
    }

    /// Empties the reusable PNG buffer and makes room in it for
    /// `new_capacity` bytes. The cached images stay.
    pub fn resize_buffer(&mut self, new_capacity: usize)
        requires
            old(self).wf(),
            new_capacity <= isize::MAX,
        ensures
            final(self).wf(),
            final(self)@ == (CacheModel { png_buffer: Seq::<u8>::empty(), ..old(self)@ }),
    {
        self.png_buffer.clear();
        self.png_buffer.reserve(new_capacity);
    }

    /// The size of the screen at `now`. Where the cache knows a size that is
    /// still current, that is the answer and `fetch` is not called; else
    /// `fetch` is called once and what it finds is kept and handed out.
    /// Where `fetch` fails, its failure is handed out and the cache is left
    /// as it was.
    pub fn screen_info<F>(&mut self, now: u64, fetch: F) -> (r: Result<ScreenInfo, CaptureError>) where
        F: FnOnce() -> Result<(u32, u32), String>,

        requires
            old(self).wf(),
            needs_screen_info(old(self)@, now) ==> call_requires(fetch, ()),
        ensures
            final(self).wf(),
            !needs_screen_info(old(self)@, now) ==> final(self)@ == old(self)@ && r == Ok::<
                ScreenInfo,
                CaptureError,
            >(old(self)@.screen_info->0),
            needs_screen_info(old(self)@, now) ==> exists|outcome: Result<(u32, u32), String>|
                #[trigger] call_ensures(fetch, (), outcome) && final(self)@ == after_screen_info(
                    old(self)@,
                    outcome,
                    now,
                ) && r == screen_info_answer(outcome, now),
    {
        match self.screen_info {
            Some(info) => {
                if now <= info.cached_at || now - info.cached_at <= SCREEN_INFO_TTL_MS {
                    return Ok(info);
                }
            },
            None => {},
        }
        let outcome = fetch();
        self.finish_screen_info(outcome, now)
    }

    /// Settles a request for the size of the screen that had to go to the
    /// screen, with what the screen answered at `now`: a size is kept and
    /// handed out, a failure is handed out and leaves the cache as it was.
    pub fn finish_screen_info(&mut self, outcome: Result<(u32, u32), String>, now: u64) -> (r:
        Result<ScreenInfo, CaptureError>)
        requires
            old(self).wf(),
        ensures
            final(self).wf(),
            final(self)@ == after_screen_info(old(self)@, outcome, now),
            r == screen_info_answer(outcome, now),
    {
        match outcome {
            Ok(size) => {
                let info = ScreenInfo { width: size.0, height: size.1, cached_at: now };
                self.screen_info = Some(info);
                Ok(info)
            },
            Err(reason) => Err(CaptureError::CaptureFailed(reason)),
        }
    }
}

impl ScreenshotCache {
    /// The bytes that the cached images may count for together.
    pub fn max_cache_size(&self) -> (max: usize)
        ensures
            max == self@.max_cache_size,
    {
        self.max_cache_size
    }

    /// The milliseconds for which an image is served.
    pub fn cache_ttl(&self) -> (ttl: u64)
        ensures
            ttl == self@.cache_ttl,
    {
        self.cache_ttl
    }

    /// How many images the cache holds.
    pub fn len(&self) -> (n: usize)
        ensures
            n == self@.entries.len(),
    {
        self.entries.len()
    }

    /// The PNG image that was captured last.
    pub fn buffered_png(&self) -> (png: &Vec<u8>)
        ensures
            png@ == self@.png_buffer,
    {
        &self.png_buffer
    }
}

impl Default for ScreenshotCache {
    /// An empty cache with the default limits.
    fn default() -> (cache: Self)
        ensures
            cache.wf(),
            cache@.entries == Seq::<CaptureRecord>::empty(),
            cache@.screen_info is None,
            cache@.png_buffer == Seq::<u8>::empty(),
            cache@.max_cache_size == DEFAULT_MAX_CACHE_SIZE,
            cache@.cache_ttl == DEFAULT_CACHE_TTL_MS,
    {
        Self::new()
    }
}

} // verus!
