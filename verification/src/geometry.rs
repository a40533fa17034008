use vstd::prelude::*;

use crate::errors::WindowError;

verus! {

/// Largest window dimension the core accepts from configuration, in logical
/// pixels. Keeps the scaling arithmetic far away from overflow.
pub const MAX_DIMENSION: i64 = 1_000_000;

/// Largest display extent or scaled window size, in physical pixels.
pub const MAX_COORDINATE: i64 = 1_000_000_000;

/// Largest DPI scale a display may report, in percent.
pub const MAX_SCALE_PERCENT: i64 = 10_000;

/// A position in the active display's pixel coordinate space.
#[derive(Clone, Copy, Debug, PartialEq, Eq, Structural)]
pub struct ScreenPoint {
    pub x: i64,
    pub y: i64,
}

/// The addressable region of the active display: `[0, width] x [0, height]`.
#[derive(Clone, Copy, Debug, PartialEq, Eq, Structural)]
pub struct DisplayBounds {
    pub width: i64,
    pub height: i64,
}

impl DisplayBounds {
    pub open spec fn wf(self) -> bool {
        &&& 0 <= self.width <= MAX_COORDINATE
        &&& 0 <= self.height <= MAX_COORDINATE
    }
}

/// One raw reading delivered by the OS: the cursor position, the bounds of
/// the display it is on, and that display's DPI scale in percent (100 means
/// logical and physical pixels coincide).
#[derive(Clone, Copy, Debug, PartialEq, Eq, Structural)]
pub struct CursorReading {
    pub x: i64,
    pub y: i64,
    pub display: DisplayBounds,
    pub scale_percent: i64,
}

impl CursorReading {
    pub open spec fn wf(self) -> bool {
        &&& self.display.wf()
        &&& 1 <= self.scale_percent <= MAX_SCALE_PERCENT
    }
}

/// A window's size converted from logical pixels into the display's physical
/// pixels by its DPI scale (in percent).
pub open spec fn scaled_size(size: int, scale_percent: int) -> int {
    size * scale_percent / 100
}

/// One axis of the clamp: keep `cursor` low enough that a window of `size`
/// starting there ends within `extent`, and never place it left of the
/// display's origin.
pub open spec fn clamp_coordinate(cursor: int, extent: int, size: int) -> int {
    let limited = if cursor + size > extent { extent - size } else { cursor };
    if limited < 0 {
        0
    } else {
        limited
    }
}

/// Where a window of logical size `width x height` is placed for the cursor
/// reading `c`: both axes clamped against the display, sizes first scaled
/// into physical pixels.
pub open spec fn located(c: CursorReading, width: int, height: int) -> (int, int) {
    (
        clamp_coordinate(c.x as int, c.display.width as int, scaled_size(width, c.scale_percent as int)),
        clamp_coordinate(
            c.y as int,
            c.display.height as int,
            scaled_size(height, c.scale_percent as int),
        ),
    )
}

/// Converts a window dimension into physical pixels by the display's DPI
/// scale in percent.
pub fn scale_size(size: i64, scale_percent: i64) -> (r: i64)
    requires
        0 <= size <= MAX_DIMENSION,
        1 <= scale_percent <= MAX_SCALE_PERCENT,
    ensures
        r == scaled_size(size as int, scale_percent as int),
        0 <= r <= MAX_COORDINATE,
{
    proof {
        assert(size * scale_percent <= MAX_DIMENSION * MAX_SCALE_PERCENT) by (nonlinear_arith)
            requires
                0 <= size <= MAX_DIMENSION,
                1 <= scale_percent <= MAX_SCALE_PERCENT,
        ;
        assert(size * scale_percent >= 0) by (nonlinear_arith)
            requires
                0 <= size,
                1 <= scale_percent,
        ;
    }
    (size * scale_percent) / 100
}

/// Clamps one axis of a cursor position so that a window of `size` placed
/// there stays within `[0, extent]`.
pub fn clamp_axis(cursor: i64, extent: i64, size: i64) -> (r: i64)
    requires
        0 <= extent <= MAX_COORDINATE,
        0 <= size <= MAX_COORDINATE,
    ensures
        r == clamp_coordinate(cursor as int, extent as int, size as int),
{
    let limit: i64 = extent - size;
    let limited: i64 = if cursor > limit {
        limit
    } else {
        cursor
    };
    if limited < 0 {
        0
    } else {
        limited
    }
}

/// Cursor Locator. `reading` is the raw OS query's outcome (`None` when the
/// query failed). On success the returned point keeps a window of the given
/// logical size fully inside the display used for the computation.
pub fn get_mouse_location(reading: Option<CursorReading>, width: i64, height: i64) -> (r: Result<
    ScreenPoint,
    WindowError,
>)
    requires
        reading matches Some(c) ==> c.wf(),
        1 <= width <= MAX_DIMENSION,
        1 <= height <= MAX_DIMENSION,
    ensures
        r matches Ok(p) ==> reading matches Some(c) && (p.x as int, p.y as int) == located(
            c,
            width as int,
            height as int,
        ),
        r matches Err(e) ==> reading is None && e is Locator,
        r is Ok <==> reading is Some,
{
    match reading {
        Some(c) => {
            let w = scale_size(width, c.scale_percent);
            let h = scale_size(height, c.scale_percent);
            let x = clamp_axis(c.x, c.display.width, w);
            let y = clamp_axis(c.y, c.display.height, h);
            Ok(ScreenPoint { x, y })
        },
        None => Err(WindowError::Locator),
    }
}

/// Clamping correctness: for a display `[0, W] x [0, H]` and a (physical)
/// window size `(w, h)` with `w <= W` and `h <= H`, the clamped point lies in
/// `[0, W - w] x [0, H - h]`, whatever the raw cursor position was.
pub proof fn lemma_clamp_within_display(cx: int, cy: int, w: int, h: int, big_w: int, big_h: int)
    requires
        0 <= w <= big_w,
        0 <= h <= big_h,
    ensures
        0 <= clamp_coordinate(cx, big_w, w) <= big_w - w,
        0 <= clamp_coordinate(cy, big_h, h) <= big_h - h,
{
}

} // verus!
