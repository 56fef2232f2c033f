use framesense::system::permission_cache::Permission;
use framesense::system::permission_cache::PermissionCache;
use framesense::system::permission_cache::PermissionError;
use framesense::system::permission_cache::PermissionResult;
use framesense::system::permission_cache::DEFAULT_PERMISSION_TTL_MS;
use std::cell::Cell;

#[test]
fn new_permission_cache_is_empty_and_serves_for_five_minutes() {
    let cache = PermissionCache::new();
    assert_eq!(DEFAULT_PERMISSION_TTL_MS, 300_000);
    assert_eq!(cache.default_ttl(), 300_000);
    assert_eq!(cache.get_cache_stats(0), (0, 0));
    assert_eq!(cache.lookup(Permission::ScreenRecording, 0), None);
    assert_eq!(cache.get(Permission::Accessibility), None);
}

#[test]
fn probe_is_called_once_within_the_ttl_and_again_after_it() {
    let mut cache = PermissionCache::with_ttl(1_000);
    let calls = Cell::new(0);
    let probe = |_: Permission| {
        calls.set(calls.get() + 1);
        Ok(true)
    };
    assert_eq!(cache.check_permission_with(Permission::ScreenRecording, 100, &probe), Ok(true));
    assert_eq!(calls.get(), 1);
    assert_eq!(cache.check_permission_with(Permission::ScreenRecording, 100, &probe), Ok(true));
    assert_eq!(cache.check_permission_with(Permission::ScreenRecording, 1_099, &probe), Ok(true));
    assert_eq!(calls.get(), 1);
    // at checked_at + ttl the result has expired
    assert_eq!(cache.check_permission_with(Permission::ScreenRecording, 1_100, &probe), Ok(true));
    assert_eq!(calls.get(), 2);
    assert_eq!(cache.check_permission_with(Permission::ScreenRecording, 2_099, &probe), Ok(true));
    assert_eq!(calls.get(), 2);
}

#[test]
fn a_cached_denial_is_served_like_a_grant() {
    let mut cache = PermissionCache::with_ttl(1_000);
    assert_eq!(cache.check_permission_with(Permission::Accessibility, 0, |_| Ok(false)), Ok(false));
    // the probe would grant now, but the cached answer stands
    assert_eq!(cache.check_permission_with(Permission::Accessibility, 500, |_| Ok(true)), Ok(false));
    assert_eq!(cache.check_permission_with(Permission::Accessibility, 1_000, |_| Ok(true)), Ok(true));
}

#[test]
fn each_kind_has_its_own_record() {
    let mut cache = PermissionCache::with_ttl(1_000);
    let mut asked = Vec::new();
    cache.check_permission_with(Permission::ScreenRecording, 0, |p| { asked.push(p); Ok(true) }).unwrap();
    cache.check_permission_with(Permission::Accessibility, 0, |p| { asked.push(p); Ok(false) }).unwrap();
    cache.check_permission_with(Permission::FullDiskAccess, 0, |p| { asked.push(p); Ok(true) }).unwrap();
    assert_eq!(
        asked,
        vec![Permission::ScreenRecording, Permission::Accessibility, Permission::FullDiskAccess]
    );
    assert_eq!(cache.lookup(Permission::ScreenRecording, 1), Some(true));
    assert_eq!(cache.lookup(Permission::Accessibility, 1), Some(false));
    assert_eq!(cache.lookup(Permission::FullDiskAccess, 1), Some(true));
    assert_eq!(cache.get_cache_stats(1), (3, 0));
}

#[test]
fn a_record_holds_when_it_was_made_and_when_it_expires() {
    let mut cache = PermissionCache::new();
    cache.check_permission_with(Permission::ScreenRecording, 7_000, |_| Ok(true)).unwrap();
    assert_eq!(
        cache.get(Permission::ScreenRecording),
        Some(PermissionResult { granted: true, checked_at: 7_000, expires_at: 307_000 })
    );
}

#[test]
fn a_fresh_check_overwrites_the_record() {
    let mut cache = PermissionCache::with_ttl(10);
    cache.record(Permission::Accessibility, true, 0);
    cache.record(Permission::Accessibility, false, 5);
    assert_eq!(
        cache.get(Permission::Accessibility),
        Some(PermissionResult { granted: false, checked_at: 5, expires_at: 15 })
    );
    assert_eq!(cache.get_cache_stats(5), (1, 0));
}

#[test]
fn a_failed_probe_is_surfaced_and_not_cached() {
    let mut cache = PermissionCache::with_ttl(1_000);
    let r = cache.check_permission_with(Permission::ScreenRecording, 0, |_| Err("tcc unreachable".to_string()));
    assert_eq!(r, Err(PermissionError::ProbeFailed("tcc unreachable".to_string())));
    assert_eq!(cache.get_cache_stats(0), (0, 0));
    // the next check goes to the probe again
    let mut calls = 0;
    assert_eq!(
        cache.check_permission_with(Permission::ScreenRecording, 0, |_| { calls += 1; Ok(true) }),
        Ok(true)
    );
    assert_eq!(calls, 1);
}

#[test]
fn a_failed_probe_keeps_an_expired_record() {
    let mut cache = PermissionCache::with_ttl(10);
    cache.record(Permission::ScreenRecording, true, 0);
    let r = cache.check_permission_with(Permission::ScreenRecording, 50, |_| Err("busy".to_string()));
    assert_eq!(r, Err(PermissionError::ProbeFailed("busy".to_string())));
    assert_eq!(
        cache.get(Permission::ScreenRecording),
        Some(PermissionResult { granted: true, checked_at: 0, expires_at: 10 })
    );
}

#[test]
fn the_native_probe_grants_everything() {
    let cache = PermissionCache::new();
    for perm in [Permission::ScreenRecording, Permission::Accessibility, Permission::FullDiskAccess] {
        assert_eq!(cache.check_permission_native_sync(perm), Ok(true));
    }
}

#[test]
fn check_permission_cached_uses_the_native_probe() {
    let mut cache = PermissionCache::new();
    assert_eq!(cache.check_permission_cached(Permission::FullDiskAccess, 10), Ok(true));
    assert_eq!(
        cache.get(Permission::FullDiskAccess),
        Some(PermissionResult { granted: true, checked_at: 10, expires_at: 300_010 })
    );
    // a cached denial is served in place of the native grant
    cache.record(Permission::Accessibility, false, 10);
    assert_eq!(cache.check_permission_cached(Permission::Accessibility, 20), Ok(false));
    assert_eq!(cache.check_permission_cached(Permission::Accessibility, 300_010), Ok(true));
}

#[test]
fn permission_stats_count_the_expired_lazily() {
    let mut cache = PermissionCache::with_ttl(100);
    cache.record(Permission::ScreenRecording, true, 0);
    cache.record(Permission::Accessibility, true, 50);
    assert_eq!(cache.get_cache_stats(99), (2, 0));
    // a record is expired from expires_at on
    assert_eq!(cache.get_cache_stats(100), (2, 1));
    assert_eq!(cache.get_cache_stats(149), (2, 1));
    assert_eq!(cache.get_cache_stats(150), (2, 2));
    // nothing was swept
    assert!(cache.get(Permission::ScreenRecording).is_some());
}

#[test]
fn permission_cleanup_removes_the_expired_and_counts_them() {
    let mut cache = PermissionCache::with_ttl(100);
    cache.record(Permission::ScreenRecording, true, 0);
    cache.record(Permission::Accessibility, false, 50);
    cache.record(Permission::FullDiskAccess, true, 120);
    assert_eq!(cache.cleanup_expired(99), 0);
    assert_eq!(cache.cleanup_expired(150), 2);
    assert_eq!(cache.get_cache_stats(150), (1, 0));
    assert_eq!(cache.get(Permission::ScreenRecording), None);
    assert_eq!(cache.get(Permission::Accessibility), None);
    assert_eq!(cache.lookup(Permission::FullDiskAccess, 150), Some(true));
    assert_eq!(cache.cleanup_expired(150), 0);
    assert_eq!(cache.cleanup_expired(220), 1);
    assert_eq!(cache.get_cache_stats(220), (0, 0));
}

#[test]
fn permission_clear_forgets_everything() {
    let mut cache = PermissionCache::with_ttl(100);
    cache.record(Permission::ScreenRecording, true, 0);
    cache.record(Permission::Accessibility, true, 0);
    cache.clear_cache();
    assert_eq!(cache.get_cache_stats(0), (0, 0));
    let mut calls = 0;
    cache.check_permission_with(Permission::ScreenRecording, 1, |_| { calls += 1; Ok(true) }).unwrap();
    assert_eq!(calls, 1);
}

#[test]
fn finish_check_settles_each_outcome() {
    let mut cache = PermissionCache::with_ttl(100);
    assert_eq!(cache.finish_check(Permission::ScreenRecording, Ok(false), 1), Ok(false));
    assert_eq!(cache.lookup(Permission::ScreenRecording, 1), Some(false));
    assert_eq!(
        cache.finish_check(Permission::Accessibility, Err("x".to_string()), 1),
        Err(PermissionError::ProbeFailed("x".to_string()))
    );
    assert_eq!(cache.get(Permission::Accessibility), None);
}

#[test]
fn permissions_are_named_in_words() {
    assert_eq!(Permission::ScreenRecording.name(), "screen recording");
    assert_eq!(Permission::Accessibility.name(), "accessibility");
    assert_eq!(Permission::FullDiskAccess.name(), "full disk access");
    assert_eq!(PermissionError::ProbeFailed("why".to_string()).message(), "why");
}
