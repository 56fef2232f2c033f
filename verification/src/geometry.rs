//! Capture rectangles and the keys that the image cache files them under.

use crate::text::append_decimal;
use crate::text::decimal;
use vstd::prelude::*;
use vstd::string::StringExecFns;

verus! {

/// Smallest width and height, in pixels, of a rectangle that may be captured.
pub const MIN_CAPTURE_SIZE: u32 = 10;

/// A rectangle on the screen as a caller hands it in: origin and extent, not
/// yet held against any screen.
#[derive(Clone, Copy, Debug, PartialEq, Eq, Hash, Structural)]
pub struct CaptureBounds {
    pub x: i32,
    pub y: i32,
    pub width: u32,
    pub height: u32,
}

/// Why a rectangle cannot be captured.
#[derive(Clone, Copy, Debug, PartialEq, Eq, Structural)]
pub enum GeometryError {
    /// After clamping to the screen the rectangle is narrower or lower than
    /// `MIN_CAPTURE_SIZE`; the fields hold the clamped extent.
    TooSmall { width: u32, height: u32 },
}

impl GeometryError {
    /// The text that the error is reported with.
    pub open spec fn spec_message(self) -> Seq<char> {
        match self {
            GeometryError::TooSmall { width, height } => "Capture area too small after adjustment: "@
                + decimal(width as nat) + "x"@ + decimal(height as nat),
        }
    }

    /// The text that the error is reported with.
    pub fn message(&self) -> (text: String)
        ensures
            text@ == self.spec_message(),
    {
        match self {
            GeometryError::TooSmall { width, height } => {
                let mut text = String::from_str("Capture area too small after adjustment: ");
                append_decimal(&mut text, *width);
                text.append("x");
                append_decimal(&mut text, *height);
                text
            },
        }
    }
}

/// Where a side of `extent` pixels that was asked for at `origin` starts on a
/// screen of `screen` pixels: moved left until it ends on the screen, but
/// never left of pixel 0.
pub open spec fn clamp_origin(origin: int, extent: int, screen: int) -> int {
    let moved = if origin < screen - extent {
        origin
    } else {
        screen - extent
    };
    if moved < 0 {
        0
    } else {
        moved
    }
}

/// How much of a side of `extent` pixels is left when it starts at the
/// clamped `origin` and is cut at the screen's edge.
pub open spec fn clamp_extent(extent: int, origin: int, screen: int) -> int {
    if extent < screen - origin {
        extent
    } else {
        screen - origin
    }
}

/// The rectangle `raw` clamped to a screen of the given size.
pub open spec fn clamped(raw: CaptureBounds, screen_width: u32, screen_height: u32) -> CaptureBounds {
    let x = clamp_origin(raw.x as int, raw.width as int, screen_width as int);
    let y = clamp_origin(raw.y as int, raw.height as int, screen_height as int);
    CaptureBounds {
        x: x as i32,
        y: y as i32,
        width: clamp_extent(raw.width as int, x, screen_width as int) as u32,
        height: clamp_extent(raw.height as int, y, screen_height as int) as u32,
    }
}

/// Whether a rectangle is large enough to be captured.
pub open spec fn large_enough(b: CaptureBounds) -> bool {
    b.width >= MIN_CAPTURE_SIZE && b.height >= MIN_CAPTURE_SIZE
}

/// What normalizing `raw` against a screen gives: the clamped rectangle, or
/// `TooSmall` with the clamped extent.
pub open spec fn spec_normalize(raw: CaptureBounds, screen_width: u32, screen_height: u32) -> Result<
    CaptureBounds,
    GeometryError,
> {
    let c = clamped(raw, screen_width, screen_height);
    if large_enough(c) {
        Ok(c)
    } else {
        Err(GeometryError::TooSmall { width: c.width, height: c.height })
    }
}

/// A clamped coordinate lies on the screen, and the clamped extent ends on it.
pub proof fn lemma_clamp_in_range(origin: int, extent: int, screen: int)
    requires
        0 <= extent,
        0 <= screen,
    ensures
        0 <= clamp_origin(origin, extent, screen) <= screen,
        origin >= 0 ==> clamp_origin(origin, extent, screen) <= origin,
        0 <= clamp_extent(extent, clamp_origin(origin, extent, screen), screen) <= extent,
        clamp_origin(origin, extent, screen) + clamp_extent(
            extent,
            clamp_origin(origin, extent, screen),
            screen,
        ) <= screen,
{
}

fn clamp_side(origin: i32, extent: u32, screen: u32) -> (r: (i32, u32))
    ensures
        r.0 == clamp_origin(origin as int, extent as int, screen as int),
        r.1 == clamp_extent(extent as int, r.0 as int, screen as int),
{
    let upper: i64 = screen as i64 - extent as i64;
    let moved: i64 = if (origin as i64) < upper {
        origin as i64
    } else {
        upper
    };
    let start: i64 = if moved < 0 {
        0
    } else {
        moved
    };
    let room: i64 = screen as i64 - start;
    let kept: i64 = if (extent as i64) < room {
        extent as i64
    } else {
        room
    };
    (start as i32, kept as u32)
}

/// A rectangle that has been clamped to a screen and found large enough: the
/// key under which its capture is cached. A key cannot be made in any other
/// way than by `normalize`, so none is ever smaller than `MIN_CAPTURE_SIZE`.
#[derive(Clone, Copy, Debug, PartialEq, Eq, Hash, Structural)]
pub struct BoundsKey {
    x: i32,
    y: i32,
    width: u32,
    height: u32,
}

impl View for BoundsKey {
    type V = CaptureBounds;

    closed spec fn view(&self) -> CaptureBounds {
        CaptureBounds { x: self.x, y: self.y, width: self.width, height: self.height }
    }
}

impl BoundsKey {
    #[verifier::type_invariant]
    spec fn large(self) -> bool {
        self.width >= MIN_CAPTURE_SIZE && self.height >= MIN_CAPTURE_SIZE
    }

    /// Clamps `raw` to the screen and makes a key of it, or reports that what
    /// is left of it is too small.
    pub fn normalize(raw: CaptureBounds, screen_width: u32, screen_height: u32) -> (r: Result<
        BoundsKey,
        GeometryError,
    >)
        ensures
            match r {
                Ok(key) => spec_normalize(raw, screen_width, screen_height) == Ok::<
                    CaptureBounds,
                    GeometryError,
                >(key@),
                Err(e) => spec_normalize(raw, screen_width, screen_height) == Err::<
                    CaptureBounds,
                    GeometryError,
                >(e),
            },
    {
        let (x, width) = clamp_side(raw.x, raw.width, screen_width);
        let (y, height) = clamp_side(raw.y, raw.height, screen_height);
        if width < MIN_CAPTURE_SIZE || height < MIN_CAPTURE_SIZE {
            Err(GeometryError::TooSmall { width, height })
        } else {
            Ok(BoundsKey { x, y, width, height })
        }
    }

    /// The rectangle that this key stands for.
    pub fn bounds(&self) -> (b: CaptureBounds)
        ensures
            b == self@,
            large_enough(b),
    {
        proof {
            use_type_invariant(self);
        }
        CaptureBounds { x: self.x, y: self.y, width: self.width, height: self.height }
    }

    /// Whether two keys stand for the same rectangle.
    pub fn same(&self, other: &BoundsKey) -> (b: bool)
        ensures
            b == (self@ == other@),
    {
        self.x == other.x && self.y == other.y && self.width == other.width && self.height
            == other.height
    }

    /// The left edge of the rectangle.
    pub fn x(&self) -> (x: i32)
        ensures
            x == self@.x,
    {
        self.x
    }

    /// The upper edge of the rectangle.
    pub fn y(&self) -> (y: i32)
        ensures
            y == self@.y,
    {
        self.y
    }

    /// The width of the rectangle.
    pub fn width(&self) -> (width: u32)
        ensures
            width == self@.width,
            width >= MIN_CAPTURE_SIZE,
    {
        proof {
            use_type_invariant(self);
        }
        self.width
    }

    /// The height of the rectangle.
    pub fn height(&self) -> (height: u32)
        ensures
            height == self@.height,
            height >= MIN_CAPTURE_SIZE,
    {
        proof {
            use_type_invariant(self);
        }
        self.height
    }
}

/// Normalizing is idempotent: a rectangle that came out of `normalize` comes
/// out of it unchanged when it is normalized again against the same screen.
pub proof fn lemma_normalize_idempotent(raw: CaptureBounds, screen_width: u32, screen_height: u32)
    ensures
        spec_normalize(raw, screen_width, screen_height) matches Ok(b) ==> spec_normalize(
            b,
            screen_width,
            screen_height,
        ) == Ok::<CaptureBounds, GeometryError>(b),
{
    lemma_clamp_in_range(raw.x as int, raw.width as int, screen_width as int);
    lemma_clamp_in_range(raw.y as int, raw.height as int, screen_height as int);
}

} // verus!
