//! Capture-session caching and overlay pooling for a desktop screen-capture
//! utility.
//!
//! A user drags a rectangle on an overlay, the rectangle is captured, and the
//! image is handed on. This library is what makes repeated rounds of that
//! fast and bounded:
//!
//! - [`geometry`]: capture rectangles, clamped to the screen and turned into
//!   cache keys;
//! - [`system::permission_cache`]: what the last probe of each permission
//!   found, served until its time to live has passed;
//! - [`overlay::screenshot_cache`]: captured images by rectangle, bounded by
//!   the age of each and by the size of all, evicted oldest first;
//! - [`overlay::overlay_manager`]: a pool of at most one overlay surface,
//!   hidden rather than destroyed and reclaimed when idle;
//! - [`overlay::selection_overlay`]: the drag selection as a state machine;
//! - [`overlay::interactive_overlay`]: what is made of a finished selection;
//! - [`coordinator`]: the way of a request through permissions and cache;
//! - [`encoding`], [`text`], [`types`]: `data:` URLs, numbers in words, and
//!   the records handed to the shell.
//!
//! The library reads no clock, no screen and no window. All times are `u64`
//! milliseconds on a clock of the caller's choosing, which need not run
//! forwards; the screen, the rasterizer, the permission probe and the
//! windowing toolkit are functions that the caller hands in. Each service is
//! a plain value that is changed through `&mut`: a caller that shares one
//! between threads puts it behind one lock.

pub mod coordinator;
pub mod encoding;
pub mod geometry;
pub mod overlay;
pub mod system;
pub mod text;
pub mod types;
