use framesense::overlay::overlay_manager::OverlayError;
use framesense::overlay::overlay_manager::OverlayManager;
use framesense::overlay::overlay_manager::OverlayPhase;
use framesense::overlay::overlay_manager::DEFAULT_IDLE_THRESHOLD_MS;

fn shown(pool: &mut OverlayManager<u32>, now: u64, creates: &mut u32, presents: &mut u32) -> Result<(), OverlayError> {
    pool.show_selection_overlay(
        now,
        || {
            *creates += 1;
            Ok(100 + *creates)
        },
        |_| {
            *presents += 1;
            Ok(())
        },
    )
}

#[test]
fn new_pool_has_no_surface() {
    let pool: OverlayManager<u32> = OverlayManager::new();
    assert_eq!(DEFAULT_IDLE_THRESHOLD_MS, 300_000);
    assert_eq!(pool.idle_threshold(), 300_000);
    assert_eq!(pool.phase(), OverlayPhase::Uninitialized);
    assert!(!pool.is_overlay_active());
    assert_eq!(pool.surface(), None);
    assert_eq!(pool.last_used(), None);
}

#[test]
fn show_hide_show_creates_the_surface_once() {
    let mut pool: OverlayManager<u32> = OverlayManager::new();
    let (mut creates, mut presents) = (0, 0);
    assert_eq!(shown(&mut pool, 10, &mut creates, &mut presents), Ok(()));
    assert_eq!(pool.phase(), OverlayPhase::Shown);
    assert!(pool.is_overlay_active());
    assert_eq!(pool.hide_overlay(|_| Ok(())), Ok(()));
    assert_eq!(pool.phase(), OverlayPhase::Hidden);
    assert!(!pool.is_overlay_active());
    assert_eq!(shown(&mut pool, 20, &mut creates, &mut presents), Ok(()));
    assert_eq!(pool.phase(), OverlayPhase::Shown);
    assert_eq!((creates, presents), (1, 1));
    assert_eq!(pool.surface(), Some(&101));
    assert_eq!(pool.last_used(), Some(20));
}

#[test]
fn show_on_a_shown_surface_uses_it_again() {
    let mut pool: OverlayManager<u32> = OverlayManager::new();
    let (mut creates, mut presents) = (0, 0);
    shown(&mut pool, 10, &mut creates, &mut presents).unwrap();
    shown(&mut pool, 15, &mut creates, &mut presents).unwrap();
    assert_eq!((creates, presents), (1, 1));
    assert_eq!(pool.phase(), OverlayPhase::Shown);
    assert_eq!(pool.last_used(), Some(15));
}

#[test]
fn idle_surface_is_reclaimed_and_made_anew() {
    let mut pool: OverlayManager<u32> = OverlayManager::new();
    let (mut creates, mut presents) = (0, 0);
    shown(&mut pool, 1_000, &mut creates, &mut presents).unwrap();
    pool.hide_overlay(|_| Ok(())).unwrap();
    let mut destroyed = Vec::new();
    // exactly the threshold: not yet idle
    pool.cleanup_if_old(301_000, |h| destroyed.push(h));
    assert_eq!(pool.phase(), OverlayPhase::Hidden);
    assert!(destroyed.is_empty());
    pool.cleanup_if_old(301_001, |h| destroyed.push(h));
    assert_eq!(pool.phase(), OverlayPhase::Uninitialized);
    assert_eq!(destroyed, vec![101]);
    assert_eq!(pool.surface(), None);
    shown(&mut pool, 400_000, &mut creates, &mut presents).unwrap();
    assert_eq!((creates, presents), (2, 0));
    assert_eq!(pool.surface(), Some(&102));
}

#[test]
fn a_shown_surface_is_never_reclaimed() {
    let mut pool: OverlayManager<u32> = OverlayManager::with_idle_threshold(10);
    let (mut creates, mut presents) = (0, 0);
    shown(&mut pool, 0, &mut creates, &mut presents).unwrap();
    let mut destroyed = 0;
    pool.cleanup_if_old(u64::MAX, |_| destroyed += 1);
    assert_eq!(destroyed, 0);
    assert_eq!(pool.phase(), OverlayPhase::Shown);
    assert!(!pool.is_idle(u64::MAX));
}

#[test]
fn idleness_counts_from_the_last_show() {
    let mut pool: OverlayManager<u32> = OverlayManager::with_idle_threshold(100);
    let (mut creates, mut presents) = (0, 0);
    shown(&mut pool, 0, &mut creates, &mut presents).unwrap();
    pool.hide_overlay(|_| Ok(())).unwrap();
    shown(&mut pool, 90, &mut creates, &mut presents).unwrap();
    pool.hide_overlay(|_| Ok(())).unwrap();
    assert!(!pool.is_idle(190));
    assert!(pool.is_idle(191));
    // a clock that runs backwards finds nothing idle
    assert!(!pool.is_idle(5));
}

#[test]
fn cleanup_without_a_surface_does_nothing() {
    let mut pool: OverlayManager<u32> = OverlayManager::new();
    let mut destroyed = 0;
    pool.cleanup_if_old(u64::MAX, |_| destroyed += 1);
    assert_eq!(destroyed, 0);
    assert_eq!(pool.phase(), OverlayPhase::Uninitialized);
}

#[test]
fn hide_without_a_surface_does_nothing() {
    let mut pool: OverlayManager<u32> = OverlayManager::new();
    let mut calls = 0;
    assert_eq!(pool.hide_overlay(|_| { calls += 1; Ok(()) }), Ok(()));
    assert_eq!(calls, 0);
    assert_eq!(pool.phase(), OverlayPhase::Uninitialized);
}

#[test]
fn a_failed_create_leaves_the_pool_without_a_surface() {
    let mut pool: OverlayManager<u32> = OverlayManager::new();
    let r = pool.show_selection_overlay(5, || Err("no webview".to_string()), |_| Ok(()));
    assert_eq!(r, Err(OverlayError::CreateFailed("no webview".to_string())));
    assert_eq!(pool.phase(), OverlayPhase::Uninitialized);
    assert_eq!(pool.last_used(), None);
    // the next show tries again
    assert_eq!(pool.show_selection_overlay(6, || Ok(7), |_| Ok(())), Ok(()));
    assert_eq!(pool.surface(), Some(&7));
}

#[test]
fn a_failed_show_leaves_the_surface_hidden() {
    let mut pool: OverlayManager<u32> = OverlayManager::new();
    pool.show_selection_overlay(5, || Ok(7), |_| Ok(())).unwrap();
    pool.hide_overlay(|_| Ok(())).unwrap();
    let r = pool.show_selection_overlay(9, || Ok(8), |_| Err("minimized".to_string()));
    assert_eq!(r, Err(OverlayError::ShowFailed("minimized".to_string())));
    assert_eq!(pool.phase(), OverlayPhase::Hidden);
    assert_eq!(pool.last_used(), Some(5));
    assert_eq!(pool.surface(), Some(&7));
}

#[test]
fn a_failed_hide_leaves_the_surface_shown() {
    let mut pool: OverlayManager<u32> = OverlayManager::new();
    pool.show_selection_overlay(5, || Ok(7), |_| Ok(())).unwrap();
    let r = pool.hide_overlay(|_| Err("gone".to_string()));
    assert_eq!(r, Err(OverlayError::HideFailed("gone".to_string())));
    assert_eq!(pool.phase(), OverlayPhase::Shown);
}

#[test]
fn the_toolkit_is_handed_the_pool_s_handle() {
    let mut pool: OverlayManager<String> = OverlayManager::new();
    pool.show_selection_overlay(0, || Ok("overlay".to_string()), |_| Ok(())).unwrap();
    let mut seen = Vec::new();
    pool.hide_overlay(|h| { seen.push(h.clone()); Ok(()) }).unwrap();
    pool.show_selection_overlay(1, || Ok("other".to_string()), |h| { seen.push(h.clone()); Ok(()) }).unwrap();
    assert_eq!(seen, vec!["overlay".to_string(), "overlay".to_string()]);
}

#[test]
fn finish_functions_settle_each_outcome() {
    let mut pool: OverlayManager<u32> = OverlayManager::new();
    assert_eq!(
        pool.finish_create(Err("a".to_string()), 1),
        Err(OverlayError::CreateFailed("a".to_string()))
    );
    assert_eq!(pool.finish_create(Ok(3), 2), Ok(()));
    assert_eq!(pool.last_used(), Some(2));
    assert_eq!(pool.finish_conceal(Ok(())), Ok(()));
    assert_eq!(pool.phase(), OverlayPhase::Hidden);
    assert_eq!(
        pool.finish_present(Err("b".to_string()), 3),
        Err(OverlayError::ShowFailed("b".to_string()))
    );
    assert_eq!(pool.finish_present(Ok(()), 4), Ok(()));
    assert_eq!(pool.phase(), OverlayPhase::Shown);
    assert_eq!(pool.last_used(), Some(4));
}

#[test]
fn overlay_errors_are_reported_in_words() {
    assert_eq!(
        OverlayError::CreateFailed("x".to_string()).message(),
        "Failed to create React overlay: x"
    );
    assert_eq!(OverlayError::ShowFailed("y".to_string()).message(), "Failed to show overlay: y");
    assert_eq!(OverlayError::HideFailed("z".to_string()).message(), "Failed to hide overlay: z");
}
