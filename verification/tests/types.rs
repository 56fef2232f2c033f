use framesense::geometry::CaptureBounds;
use framesense::geometry::GeometryError;
use framesense::overlay::screenshot_cache::CaptureError;
use framesense::types::AppResult;
use framesense::types::AppState;
use framesense::types::CaptureResult;

fn rect() -> CaptureBounds {
    CaptureBounds { x: 1, y: 2, width: 30, height: 40 }
}

#[test]
fn app_results_are_built_as_ok_or_failed() {
    assert_eq!(
        AppResult::ok("FrameSense systemtray test".to_string()),
        AppResult { success: true, message: "FrameSense systemtray test".to_string() }
    );
    assert_eq!(
        AppResult::failed("no".to_string()),
        AppResult { success: false, message: "no".to_string() }
    );
    let r = AppResult::ok("a".to_string());
    assert_eq!(r.clone(), r);
}

#[test]
fn a_capture_that_gave_an_image_is_reported_with_the_rectangle_asked_for() {
    let r = CaptureResult::from_outcome(rect(), Ok("data:image/png;base64,AA==".to_string()));
    assert_eq!(
        r,
        CaptureResult {
            success: true,
            message: "Optimized screen capture successful!".to_string(),
            bounds: Some(rect()),
            image_data: Some("data:image/png;base64,AA==".to_string()),
        }
    );
    assert_eq!(r.clone(), r);
}

#[test]
fn a_capture_that_failed_is_reported_with_the_error_s_text() {
    let r = CaptureResult::from_outcome(rect(), Err(CaptureError::CaptureFailed("no display".to_string())));
    assert_eq!(
        r,
        CaptureResult { success: false, message: "no display".to_string(), bounds: None, image_data: None }
    );
    let r = CaptureResult::from_outcome(
        rect(),
        Err(CaptureError::InvalidBounds(GeometryError::TooSmall { width: 9, height: 40 })),
    );
    assert_eq!(r.message, "Capture area too small after adjustment: 9x40");
    assert!(!r.success);
    assert_eq!(CaptureResult::failed("x".to_string()).image_data, None);
    assert_eq!(CaptureResult::captured(rect(), "d".to_string()).bounds, Some(rect()));
}

#[test]
fn app_state_remembers_the_last_capture() {
    let mut state = AppState::default();
    assert_eq!(
        state,
        AppState { screenshot_data: None, last_bounds: None, last_window_closed_time: None }
    );
    state.remember(Some("img".to_string()), Some(rect()), 1_700_000_000);
    assert_eq!(
        state,
        AppState {
            screenshot_data: Some("img".to_string()),
            last_bounds: Some(rect()),
            last_window_closed_time: Some(1_700_000_000),
        }
    );
    state.window_closed(1_700_000_100);
    assert_eq!(state.screenshot_data, Some("img".to_string()));
    assert_eq!(state.last_window_closed_time, Some(1_700_000_100));
    assert_eq!(state.clone(), state);
    state.remember(None, None, 5);
    assert_eq!(
        state,
        AppState { screenshot_data: None, last_bounds: None, last_window_closed_time: Some(5) }
    );
}

use framesense::overlay::overlay_manager::OverlayManager;
use framesense::overlay::overlay_manager::OverlayPhase;
use framesense::overlay::screenshot_cache::ScreenshotCache;
use framesense::overlay::selection_overlay::SelectionOverlay;
use framesense::overlay::selection_overlay::SelectionPhase;
use framesense::overlay::selection_overlay::SelectionState;
use framesense::system::permission_cache::PermissionCache;

#[test]
fn defaults_are_the_empty_services() {
    let shots = ScreenshotCache::default();
    assert_eq!((shots.len(), shots.max_cache_size(), shots.cache_ttl()), (0, 52_428_800, 30_000));
    let perms = PermissionCache::default();
    assert_eq!((perms.get_cache_stats(0), perms.default_ttl()), ((0, 0), 300_000));
    let pool: OverlayManager<u8> = OverlayManager::default();
    assert_eq!((pool.phase(), pool.idle_threshold()), (OverlayPhase::Uninitialized, 300_000));
    let session = SelectionOverlay::default();
    assert_eq!(session.get_state(), SelectionState::default());
    assert_eq!(session.get_state().phase, SelectionPhase::Idle);
}
