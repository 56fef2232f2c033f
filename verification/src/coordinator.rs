//! The capture coordinator: what a request for a capture goes through. The
//! permissions that a capture needs are checked first; only where all are
//! granted is the image cache asked, and through it the rasterizer.

use crate::encoding::can_encode;
use crate::encoding::encodable_len;
use crate::encoding::encode_png_data_url;
use crate::encoding::png_data_url;
use crate::geometry::BoundsKey;
use crate::geometry::CaptureBounds;
use crate::geometry::clamped;
use crate::geometry::lemma_normalize_idempotent;
use crate::geometry::spec_normalize;
use crate::overlay::screenshot_cache::answer_view;
use crate::overlay::screenshot_cache::cached_answer;
use crate::overlay::screenshot_cache::CacheModel;
use crate::overlay::screenshot_cache::CaptureError;
use crate::overlay::screenshot_cache::expired_count;
use crate::overlay::screenshot_cache::finish_model;
use crate::overlay::screenshot_cache::finish_result;
use crate::overlay::screenshot_cache::lemma_fresh_and_expired;
use crate::overlay::screenshot_cache::needs_capture;
use crate::overlay::screenshot_cache::ScreenshotCache;
use crate::overlay::screenshot_cache::total_size;
use crate::overlay::selection_overlay::drag_outcome;
use crate::overlay::selection_overlay::idle_state;
use crate::overlay::selection_overlay::SelectionError;
use crate::overlay::selection_overlay::SelectionOverlay;
use crate::overlay::selection_overlay::SelectionResult;
use crate::overlay::selection_overlay::SelectionResultView;
use crate::system::permission_cache::after_probe;
use crate::system::permission_cache::cached_grant;
use crate::system::permission_cache::entry_count;
use crate::system::permission_cache::Permission;
use crate::system::permission_cache::PermissionCache;
use crate::system::permission_cache::PermissionError;
use crate::system::permission_cache::PermissionModel;
use crate::system::permission_cache::with_result;
use crate::types::CaptureResult;
use crate::types::CaptureResultView;
use crate::types::PermissionCacheStats;
use crate::types::ScreenshotCacheStats;
use vstd::prelude::*;
use vstd::string::StringExecFns;

verus! {

/// Bytes in a mebibyte.
pub const BYTES_PER_MB: usize = 1_048_576;

/// Why a request for a capture gave no image.
#[derive(Debug, PartialEq, Eq)]
pub enum CoordinatorError {
    /// The permission named is not granted, or its probe failed.
    PermissionDenied(Permission),
    /// The selection was refused.
    Selection(SelectionError),
    /// The capture itself failed.
    Capture(CaptureError),
}

impl CoordinatorError {
    /// The text that the error is reported with.
    pub open spec fn spec_message(self) -> Seq<char> {
        match self {
            CoordinatorError::PermissionDenied(perm) => "Permission not granted: "@
                + perm.spec_name(),
            CoordinatorError::Selection(e) => e.spec_message(),
            CoordinatorError::Capture(e) => e.spec_message(),
        }
    }

    /// The text that the error is reported with.
    pub fn message(&self) -> (text: String)
        ensures
            text@ == self.spec_message(),
    {
        match self {
            CoordinatorError::PermissionDenied(perm) => {
                let mut text = String::from_str("Permission not granted: ");
                text.append(perm.name().as_str());
                text
            },
            CoordinatorError::Selection(e) => e.message(),
            CoordinatorError::Capture(e) => e.message(),
        }
    }
}

/// Whether a probe that came back with `outcome` found the permission
/// granted. A probe that failed counts as one that found it denied.
pub open spec fn found_granted(outcome: Result<bool, String>) -> bool {
    outcome matches Ok(granted) && granted
}

/// A check of `perm` at `now`, with `probe` as the probe, takes the cache
/// from `before` to `after` and finds `granted`: from the cache where that
/// has an answer, else from one call of `probe`.
pub open spec fn checked<P: Fn(Permission) -> Result<bool, String>>(
    probe: &P,
    before: PermissionModel,
    perm: Permission,
    now: u64,
    after: PermissionModel,
    granted: bool,
) -> bool {
    match cached_grant(before, perm, now) {
        Some(cached) => after == before && granted == cached,
        None => exists|outcome: Result<bool, String>|
            #[trigger] call_ensures(probe, (perm,), outcome) && after == after_probe(
                before,
                perm,
                outcome,
                now,
            ) && granted == found_granted(outcome),
    }
}

/// Whether `probe` may be asked at `now` for what a capture needs and the
/// cache does not know: it can be called on each of the two permissions for
/// which the cache has no answer, and what it finds can be given its time to
/// live.
pub open spec fn probes_allowed<P: Fn(Permission) -> Result<bool, String>>(
    probe: &P,
    m: PermissionModel,
    now: u64,
) -> bool {
    &&& cached_grant(m, Permission::ScreenRecording, now) is None ==> call_requires(
        probe,
        (Permission::ScreenRecording,),
    ) && now + m.default_ttl <= u64::MAX
    &&& cached_grant(m, Permission::Accessibility, now) is None ==> call_requires(
        probe,
        (Permission::Accessibility,),
    ) && now + m.default_ttl <= u64::MAX
}

/// A request for `raw` at `now`, with `capture` as the rasterizer, takes the
/// cache from `before` to `after` and is answered with `answer`: from the
/// cache where that has a fresh image or the rectangle is refused, else from
/// one call of `capture`.
pub open spec fn requested<C: FnOnce(CaptureBounds) -> Result<Vec<u8>, String>>(
    capture: C,
    before: CacheModel,
    raw: CaptureBounds,
    screen_width: u32,
    screen_height: u32,
    now: u64,
    after: CacheModel,
    answer: Result<Seq<char>, CaptureError>,
) -> bool {
    if needs_capture(before, raw, screen_width, screen_height, now) {
        exists|outcome: Result<Vec<u8>, String>|
            #[trigger] call_ensures(
                capture,
                (clamped(raw, screen_width, screen_height),),
                outcome,
            ) && after == finish_model(
                before,
                clamped(raw, screen_width, screen_height),
                outcome,
                now,
            ) && answer == finish_result(outcome)
    } else {
        after == before && answer == cached_answer(before, raw, screen_width, screen_height, now)
    }
}

/// What a request was answered with, as contracts speak of it.
pub open spec fn region_view(r: Result<String, CoordinatorError>) -> Result<
    Seq<char>,
    CoordinatorError,
> {
    match r {
        Ok(data) => Ok(data@),
        Err(e) => Err(e),
    }
}

/// The answer of the image cache as the coordinator hands it on.
pub open spec fn handed_on(answer: Result<Seq<char>, CaptureError>) -> Result<
    Seq<char>,
    CoordinatorError,
> {
    match answer {
        Ok(data) => Ok(data),
        Err(e) => Err(CoordinatorError::Capture(e)),
    }
}

/// A request for the image of `bounds` at `now` takes the permission cache
/// from `permissions_before` to `permissions_after` and the image cache from
/// `images_before` to `images_after`, and is answered with `r`. Screen
/// recording is checked, then accessibility; the first of them that is not
/// granted ends the request, and nothing is captured. Where both are
/// granted, the image cache is asked.
pub open spec fn served<
    P: Fn(Permission) -> Result<bool, String>,
    C: FnOnce(CaptureBounds) -> Result<Vec<u8>, String>,
>(
    probe: &P,
    capture: C,
    permissions_before: PermissionModel,
    images_before: CacheModel,
    bounds: CaptureBounds,
    screen_width: u32,
    screen_height: u32,
    now: u64,
    permissions_after: PermissionModel,
    images_after: CacheModel,
    r: Result<Seq<char>, CoordinatorError>,
) -> bool {
    exists|first: PermissionModel, recording: bool|
        {
            &&& #[trigger] checked(probe, permissions_before, Permission::ScreenRecording, now, first, recording)
            &&& if !recording {
                &&& permissions_after == first
                &&& images_after == images_before
                &&& r == Err::<Seq<char>, CoordinatorError>(
                    CoordinatorError::PermissionDenied(Permission::ScreenRecording),
                )
            } else {
                exists|access: bool|
                    {
                        &&& #[trigger] checked(
                            probe,
                            first,
                            Permission::Accessibility,
                            now,
                            permissions_after,
                            access,
                        )
                        &&& if !access {
                            &&& images_after == images_before
                            &&& r == Err::<Seq<char>, CoordinatorError>(
                                CoordinatorError::PermissionDenied(Permission::Accessibility),
                            )
                        } else {
                            exists|answer: Result<Seq<char>, CaptureError>|
                                #[trigger] requested(
                                    capture,
                                    images_before,
                                    bounds,
                                    screen_width,
                                    screen_height,
                                    now,
                                    images_after,
                                    answer,
                                ) && r == handed_on(answer)
                        }
                    }
            }
        }
}

/// What the end of a selection gave, as contracts speak of it.
pub open spec fn selection_view(r: Result<Option<SelectionResult>, CoordinatorError>) -> Result<
    Option<SelectionResultView>,
    CoordinatorError,
> {
    match r {
        Ok(Some(result)) => Ok(Some(result@)),
        Ok(None) => Ok(None),
        Err(e) => Err(e),
    }
}

/// The result of a selection of `bounds` whose capture was answered with
/// `answer`.
pub open spec fn selection_answer(bounds: CaptureBounds, answer: Result<Seq<char>, CoordinatorError>) -> Result<
    Option<SelectionResultView>,
    CoordinatorError,
> {
    match answer {
        Ok(data) => Ok(Some(SelectionResultView { bounds, image_data: data, cancelled: false })),
        Err(e) => Err(e),
    }
}

/// Whether `perm` is granted at `now`, by the cache or by `probe`. A probe
/// that fails counts as a denial, and leaves the cache as it was.
pub fn permission_granted<P>(permissions: &mut PermissionCache, perm: Permission, now: u64, probe: &P) -> (granted:
    bool) where P: Fn(Permission) -> Result<bool, String>
    requires
        old(permissions).wf(),
        cached_grant(old(permissions)@, perm, now) is None ==> now + old(permissions)@.default_ttl <= u64::MAX,
        cached_grant(old(permissions)@, perm, now) is None ==> call_requires(probe, (perm,)),
    ensures
        final(permissions).wf(),
        final(permissions)@.default_ttl == old(permissions)@.default_ttl,
        checked(probe, old(permissions)@, perm, now, final(permissions)@, granted),
{
    match permissions.check_permission_with(perm, now, probe) {
        Ok(granted) => granted,
        Err(_) => false,
    }
}

/// Answers a request for the image of `bounds` at `now`. Screen recording
/// and accessibility are checked, in this order and each through the
/// permission cache; the first that is not granted ends the request with
/// `PermissionDenied` before anything is captured. Where both are granted,
/// the request goes to the image cache.
pub fn capture_region<P, C>(
    permissions: &mut PermissionCache,
    screenshots: &mut ScreenshotCache,
    bounds: CaptureBounds,
    screen_width: u32,
    screen_height: u32,
    now: u64,
    probe: &P,
    capture: C,
) -> (r: Result<String, CoordinatorError>) where
    P: Fn(Permission) -> Result<bool, String>,
    C: FnOnce(CaptureBounds) -> Result<Vec<u8>, String>,

    requires
        old(permissions).wf(),
        old(screenshots).wf(),
        probes_allowed(probe, old(permissions)@, now),
        needs_capture(old(screenshots)@, bounds, screen_width, screen_height, now) ==> call_requires(
            capture,
            (clamped(bounds, screen_width, screen_height),),
        ),
    ensures
        final(permissions).wf(),
        final(screenshots).wf(),
        served(
            probe,
            capture,
            old(permissions)@,
            old(screenshots)@,
            bounds,
            screen_width,
            screen_height,
            now,
            final(permissions)@,
            final(screenshots)@,
            region_view(r),
        ),
{
    let ghost before = permissions@;
    let recording = permission_granted(permissions, Permission::ScreenRecording, now, probe);
    let ghost after_recording = permissions@;
    assert(checked(probe, before, Permission::ScreenRecording, now, after_recording, recording));
    if !recording {
        return Err(CoordinatorError::PermissionDenied(Permission::ScreenRecording));
    }
    let access = permission_granted(permissions, Permission::Accessibility, now, probe);
    assert(checked(probe, after_recording, Permission::Accessibility, now, permissions@, access));
    if !access {
        return Err(CoordinatorError::PermissionDenied(Permission::Accessibility));
    }
    let ghost images_before = screenshots@;
    let outcome = screenshots.capture_optimized(bounds, screen_width, screen_height, now, capture);
    assert(requested(
        capture,
        images_before,
        bounds,
        screen_width,
        screen_height,
        now,
        screenshots@,
        answer_view(outcome),
    ));
    match outcome {
        Ok(data) => Ok(data),
        Err(e) => Err(CoordinatorError::Capture(e)),
    }
}

/// Ends the drag of `selection` and captures what was selected. Where the
/// drag gives no rectangle, nothing is captured and nothing is given; where
/// it is refused, so is the request; else the rectangle goes through
/// `capture_region`, and its image is handed out with it. The session is
/// idle afterwards in every case.
pub fn capture_selection<P, C>(
    selection: &mut SelectionOverlay,
    permissions: &mut PermissionCache,
    screenshots: &mut ScreenshotCache,
    screen_width: u32,
    screen_height: u32,
    now: u64,
    probe: &P,
    capture: C,
) -> (r: Result<Option<SelectionResult>, CoordinatorError>) where
    P: Fn(Permission) -> Result<bool, String>,
    C: FnOnce(CaptureBounds) -> Result<Vec<u8>, String>,

    requires
        old(selection).wf(),
        old(permissions).wf(),
        old(screenshots).wf(),
        probes_allowed(probe, old(permissions)@, now),
        drag_outcome(old(selection)@, screen_width, screen_height) matches Ok(Some(key)) ==> (
        needs_capture(old(screenshots)@, key, screen_width, screen_height, now) ==> call_requires(
            capture,
            (key,),
        )),
    ensures
        final(selection).wf(),
        final(permissions).wf(),
        final(screenshots).wf(),
        final(selection)@ == idle_state(),
        match drag_outcome(old(selection)@, screen_width, screen_height) {
            Ok(None) => {
                &&& r == Ok::<Option<SelectionResult>, CoordinatorError>(None)
                &&& final(permissions)@ == old(permissions)@
                &&& final(screenshots)@ == old(screenshots)@
            },
            Err(e) => {
                &&& r == Err::<Option<SelectionResult>, CoordinatorError>(
                    CoordinatorError::Selection(e),
                )
                &&& final(permissions)@ == old(permissions)@
                &&& final(screenshots)@ == old(screenshots)@
            },
            Ok(Some(key)) => exists|answer: Result<Seq<char>, CoordinatorError>|
                #[trigger] served(
                    probe,
                    capture,
                    old(permissions)@,
                    old(screenshots)@,
                    key,
                    screen_width,
                    screen_height,
                    now,
                    final(permissions)@,
                    final(screenshots)@,
                    answer,
                ) && selection_view(r) == selection_answer(key, answer),
        },
{
    let key = match selection.end_drag(screen_width, screen_height) {
        Ok(Some(key)) => key,
        Ok(None) => {
            return Ok(None);
        },
        Err(e) => {
            return Err(CoordinatorError::Selection(e));
        },
    };
    let bounds = key.bounds();
    proof {
        // the rectangle is normalized already, so that it is asked for as it is
        let b = old(selection)@.selection_bounds->0;
        lemma_normalize_idempotent(b, screen_width, screen_height);
        assert(spec_normalize(b, screen_width, screen_height) == Ok::<
            CaptureBounds,
            crate::geometry::GeometryError,
        >(bounds));
        assert(clamped(bounds, screen_width, screen_height) == bounds);
    }
    let answer = capture_region(
        permissions,
        screenshots,
        bounds,
        screen_width,
        screen_height,
        now,
        probe,
        capture,
    );
    proof {
        assert(served(
            probe,
            capture,
            old(permissions)@,
            old(screenshots)@,
            bounds,
            screen_width,
            screen_height,
            now,
            permissions@,
            screenshots@,
            region_view(answer),
        ));
    }
    match answer {
        Ok(image_data) => Ok(Some(SelectionResult::captured(bounds, image_data))),
        Err(e) => Err(e),
    }
}

/// A capture that failed, reported with `message`.
pub open spec fn failure(message: Seq<char>) -> CaptureResultView {
    CaptureResultView { success: false, message, bounds: None, image_data: None }
}

/// The words with which a capture of `raw` past the cache is refused before
/// the rasterizer is asked, if it is: those of the screen where its size
/// could not be found, or those of the rectangle where it is too small on a
/// screen of the size that was found.
pub open spec fn direct_refusal(raw: CaptureBounds, screen: Result<(u32, u32), String>) -> Option<
    Seq<char>,
> {
    match screen {
        Err(reason) => Some(reason@),
        Ok(size) => match spec_normalize(raw, size.0, size.1) {
            Err(e) => Some(e.spec_message()),
            Ok(_) => None,
        },
    }
}

/// What a capture of the clamped rectangle `key` past the cache gives once
/// the rasterizer has come back with `outcome`: the image with the
/// rectangle, or the words of what went wrong.
pub open spec fn direct_capture(key: CaptureBounds, outcome: Result<Vec<u8>, String>) -> CaptureResultView {
    match outcome {
        Err(reason) => failure(reason@),
        Ok(png) => if encodable_len(png@.len()) {
            CaptureResultView {
                success: true,
                message: "Screen area captured successfully!"@,
                bounds: Some(key),
                image_data: Some(png_data_url(png@)),
            }
        } else {
            failure(CaptureError::ImageTooLarge.spec_message())
        },
    }
}

/// The rectangle that a capture of `raw` hands to the rasterizer on a screen
/// of the size `screen`.
pub open spec fn direct_key(raw: CaptureBounds, screen: Result<(u32, u32), String>) -> CaptureBounds {
    clamped(raw, screen->Ok_0.0, screen->Ok_0.1)
}

/// Settles a capture of the clamped rectangle `key` past the cache, with
/// what the rasterizer came back with: the image is written into its
/// `data:` URL and handed out with the rectangle, or the words of what went
/// wrong are.
pub fn finish_screen_area(key: BoundsKey, outcome: Result<Vec<u8>, String>) -> (r: CaptureResult)
    ensures
        r@ == direct_capture(key@, outcome),
{
    match outcome {
        Ok(png) => {
            if can_encode(png.len()) {
                CaptureResult {
                    success: true,
                    message: String::from_str("Screen area captured successfully!"),
                    bounds: Some(key.bounds()),
                    image_data: Some(encode_png_data_url(png.as_slice())),
                }
            } else {
                CaptureResult::failed(CaptureError::ImageTooLarge.message())
            }
        },
        Err(reason) => CaptureResult::failed(reason),
    }
}

/// Captures the rectangle `bounds` of the screen past the cache, where
/// `screen` is what the screen answered when it was asked for its size. The
/// rectangle is clamped to the screen, and where what is left is large
/// enough, `capture` is called once on it. The result holds the image and
/// the rectangle that was captured, or says what went wrong first: the
/// screen, the rectangle or the rasterizer.
pub fn capture_screen_area<C>(bounds: CaptureBounds, screen: Result<(u32, u32), String>, capture: C) -> (r:
    CaptureResult) where C: FnOnce(CaptureBounds) -> Result<Vec<u8>, String>
    requires
        direct_refusal(bounds, screen) is None ==> call_requires(
            capture,
            (direct_key(bounds, screen),),
        ),
    ensures
        match direct_refusal(bounds, screen) {
            Some(message) => r@ == failure(message),
            None => exists|outcome: Result<Vec<u8>, String>|
                #[trigger] call_ensures(capture, (direct_key(bounds, screen),), outcome) && r@
                    == direct_capture(direct_key(bounds, screen), outcome),
        },
{
    let size = match screen {
        Ok(size) => size,
        Err(reason) => {
            return CaptureResult::failed(reason);
        },
    };
    let key = match BoundsKey::normalize(bounds, size.0, size.1) {
        Ok(key) => key,
        Err(e) => {
            return CaptureResult::failed(e.message());
        },
    };
    let outcome = capture(key.bounds());
    finish_screen_area(key, outcome)
}

/// Whether a capture may go ahead at `now` as far as the native probe can
/// tell: whether screen recording and accessibility are both granted, each
/// by the cache or, where that has no answer, by the native probe, whose
/// answer is then cached.
pub fn check_permissions_cached(permissions: &mut PermissionCache, now: u64) -> (r: Result<
    bool,
    PermissionError,
>)
    requires
        old(permissions).wf(),
        cached_grant(old(permissions)@, Permission::ScreenRecording, now) is None || cached_grant(
            old(permissions)@,
            Permission::Accessibility,
            now,
        ) is None ==> now + old(permissions)@.default_ttl <= u64::MAX,
    ensures
        final(permissions).wf(),
        final(permissions)@ == native_checked(
            native_checked(old(permissions)@, Permission::ScreenRecording, now),
            Permission::Accessibility,
            now,
        ),
        r == Ok::<bool, PermissionError>(
            native_grant(old(permissions)@, Permission::ScreenRecording, now) && native_grant(
                native_checked(old(permissions)@, Permission::ScreenRecording, now),
                Permission::Accessibility,
                now,
            ),
        ),
{
    let recording = match permissions.check_permission_cached(Permission::ScreenRecording, now) {
        Ok(granted) => granted,
        Err(e) => {
            return Err(e);
        },
    };
    let access = match permissions.check_permission_cached(Permission::Accessibility, now) {
        Ok(granted) => granted,
        Err(e) => {
            return Err(e);
        },
    };
    Ok(recording && access)
}

/// The cache after a check of `perm` at `now` with the native probe, which
/// finds every permission granted.
pub open spec fn native_checked(m: PermissionModel, perm: Permission, now: u64) -> PermissionModel {
    if cached_grant(m, perm, now) is Some {
        m
    } else {
        with_result(m, perm, true, now)
    }
}

/// What a check of `perm` at `now` with the native probe finds.
pub open spec fn native_grant(m: PermissionModel, perm: Permission, now: u64) -> bool {
    match cached_grant(m, perm, now) {
        Some(granted) => granted,
        None => true,
    }
}

/// The figures of the permission cache at `now`.
pub fn permission_cache_stats(permissions: &PermissionCache, now: u64) -> (stats: PermissionCacheStats)
    requires
        permissions.wf(),
    ensures
        stats.total_entries == entry_count(permissions@),
        stats.expired_entries == crate::system::permission_cache::expired_count(permissions@, now),
        stats.active_entries == stats.total_entries - stats.expired_entries,
{
    let (total, expired) = permissions.get_cache_stats(now);
    PermissionCacheStats {
        total_entries: total,
        expired_entries: expired,
        active_entries: total - expired,
    }
}

/// The figures of the image cache at `now`.
pub fn screenshot_cache_stats(screenshots: &ScreenshotCache, now: u64) -> (stats: ScreenshotCacheStats)
    requires
        screenshots.wf(),
    ensures
        stats.total_entries == screenshots@.entries.len(),
        stats.total_size_bytes == total_size(screenshots@.entries),
        stats.total_size_mb == stats.total_size_bytes / BYTES_PER_MB,
        stats.expired_entries == expired_count(
            screenshots@.entries,
            now,
            screenshots@.cache_ttl,
        ),
        stats.active_entries == stats.total_entries - stats.expired_entries,
{
    let (total, bytes, expired) = screenshots.get_cache_stats(now);
    proof {
        lemma_fresh_and_expired(screenshots@.entries, now, screenshots@.cache_ttl);
    }
    ScreenshotCacheStats {
        total_entries: total,
        total_size_bytes: bytes,
        total_size_mb: bytes / BYTES_PER_MB,
        expired_entries: expired,
        active_entries: total - expired,
    }
}

/// The bytes in `megabytes` mebibytes, where they can be counted in a
/// `usize`.
pub fn megabytes_to_bytes(megabytes: usize) -> (bytes: Option<usize>)
    ensures
        match bytes {
            Some(b) => b == megabytes * BYTES_PER_MB,
            None => megabytes * BYTES_PER_MB > usize::MAX,
        },
{
    megabytes.checked_mul(BYTES_PER_MB)
}

} // verus!
