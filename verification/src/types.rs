//! The plain records that the capture session hands to whoever drives it.

use crate::geometry::CaptureBounds;
use crate::overlay::screenshot_cache::CaptureError;
use vstd::prelude::*;
use vstd::string::StringExecFns;

verus! {

/// Whether something worked, and what is said of it.
#[derive(Debug, PartialEq, Eq)]
pub struct AppResult {
    pub success: bool,
    pub message: String,
}

impl Clone for AppResult {
    fn clone(&self) -> (r: Self)
        ensures
            r == *self,
    {
        AppResult { success: self.success, message: self.message.clone() }
    }
}

impl AppResult {
    /// A success that is reported with `message`.
    pub fn ok(message: String) -> (r: Self)
        ensures
            r.success,
            r.message == message,
    {
        AppResult { success: true, message }
    }

    /// A failure that is reported with `message`.
    pub fn failed(message: String) -> (r: Self)
        ensures
            !r.success,
            r.message == message,
    {
        AppResult { success: false, message }
    }
}

/// What a request for a capture gave.
#[derive(Debug, PartialEq, Eq)]
pub struct CaptureResult {
    /// Whether there is an image.
    pub success: bool,
    /// What is said of the capture: why it failed, where it did.
    pub message: String,
    /// The rectangle that was asked for, where there is an image.
    pub bounds: Option<CaptureBounds>,
    /// The image, as the text of its `data:` URL.
    pub image_data: Option<String>,
}

/// A capture result as contracts speak of it.
pub struct CaptureResultView {
    pub success: bool,
    pub message: Seq<char>,
    pub bounds: Option<CaptureBounds>,
    pub image_data: Option<Seq<char>>,
}

impl View for CaptureResult {
    type V = CaptureResultView;

    open spec fn view(&self) -> CaptureResultView {
        CaptureResultView {
            success: self.success,
            message: self.message@,
            bounds: self.bounds,
            image_data: match self.image_data {
                Some(data) => Some(data@),
                None => None,
            },
        }
    }
}

impl Clone for CaptureResult {
    fn clone(&self) -> (r: Self)
        ensures
            r == *self,
    {
        CaptureResult {
            success: self.success,
            message: self.message.clone(),
            bounds: self.bounds,
            image_data: match &self.image_data {
                Some(data) => Some(data.clone()),
                None => None,
            },
        }
    }
}

impl CaptureResult {
    /// The result of a capture that gave `image_data` for `bounds`.
    pub fn captured(bounds: CaptureBounds, image_data: String) -> (r: Self)
        ensures
            r.success,
            r.message@ == "Optimized screen capture successful!"@,
            r.bounds == Some(bounds),
            r.image_data == Some(image_data),
    {
        CaptureResult {
            success: true,
            message: String::from_str("Optimized screen capture successful!"),
            bounds: Some(bounds),
            image_data: Some(image_data),
        }
    }

    /// The result of a capture that failed and is reported with `message`.
    pub fn failed(message: String) -> (r: Self)
        ensures
            !r.success,
            r.message == message,
            r.bounds is None,
            r.image_data is None,
    {
        CaptureResult { success: false, message, bounds: None, image_data: None }
    }

    /// The result that the answer `outcome` to a request for `bounds` is
    /// reported as: the image with the rectangle asked for, or the error's
    /// text.
    pub fn from_outcome(bounds: CaptureBounds, outcome: Result<String, CaptureError>) -> (r: Self)
        ensures
            match outcome {
                Ok(image_data) => r.success && r.message@ == "Optimized screen capture successful!"@
                    && r.bounds == Some(bounds) && r.image_data == Some(image_data),
                Err(e) => !r.success && r.message@ == e.spec_message() && r.bounds is None
                    && r.image_data is None,
            },
    {
        match outcome {
            Ok(image_data) => Self::captured(bounds, image_data),
            Err(e) => Self::failed(e.message()),
        }
    }
}

/// What is kept of the last capture while the main window is closed.
#[derive(Debug, PartialEq, Eq)]
pub struct AppState {
    /// The last image, as the text of its `data:` URL.
    pub screenshot_data: Option<String>,
    /// The rectangle that it shows.
    pub last_bounds: Option<CaptureBounds>,
    /// When the window was closed last, in seconds since the epoch.
    pub last_window_closed_time: Option<u64>,
}

impl Clone for AppState {
    fn clone(&self) -> (r: Self)
        ensures
            r == *self,
    {
        AppState {
            screenshot_data: match &self.screenshot_data {
                Some(data) => Some(data.clone()),
                None => None,
            },
            last_bounds: self.last_bounds,
            last_window_closed_time: self.last_window_closed_time,
        }
    }
}

impl Default for AppState {
    /// A state that holds nothing.
    fn default() -> (state: Self)
        ensures
            state.screenshot_data is None,
            state.last_bounds is None,
            state.last_window_closed_time is None,
    {
        AppState { screenshot_data: None, last_bounds: None, last_window_closed_time: None }
    }
}

impl AppState {
    /// Takes note of the last capture and of when the window was closed.
    pub fn remember(
        &mut self,
        screenshot_data: Option<String>,
        bounds: Option<CaptureBounds>,
        closed_at: u64,
    )
        ensures
            final(self).screenshot_data == screenshot_data,
            final(self).last_bounds == bounds,
            final(self).last_window_closed_time == Some(closed_at),
    {
        self.screenshot_data = screenshot_data;
        self.last_bounds = bounds;
        self.last_window_closed_time = Some(closed_at);
    }

    /// Takes note of when the window was closed, and keeps the rest.
    pub fn window_closed(&mut self, closed_at: u64)
        ensures
            final(self).screenshot_data == old(self).screenshot_data,
            final(self).last_bounds == old(self).last_bounds,
            final(self).last_window_closed_time == Some(closed_at),
    {
        self.last_window_closed_time = Some(closed_at);
    }
}

/// The figures of the permission cache.
#[derive(Clone, Copy, Debug, PartialEq, Eq, Structural)]
pub struct PermissionCacheStats {
    /// How many results the cache holds.
    pub total_entries: usize,
    /// How many of them have expired.
    pub expired_entries: usize,
    /// How many of them have not.
    pub active_entries: usize,
}

/// The figures of the image cache.
#[derive(Clone, Copy, Debug, PartialEq, Eq, Structural)]
pub struct ScreenshotCacheStats {
    /// How many images the cache holds.
    pub total_entries: usize,
    /// The bytes that they count for.
    pub total_size_bytes: usize,
    /// The same in whole mebibytes.
    pub total_size_mb: usize,
    /// How many of them have expired.
    pub expired_entries: usize,
    /// How many of them have not.
    pub active_entries: usize,
}

} // verus!
