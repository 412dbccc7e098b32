//! Window geometry: logical positions and sizes, the resolution of
//! configured window dimensions against a screen, and the placement shift
//! that avoids stacking new windows onto existing ones.

use vstd::prelude::*;

use crate::config::{
    lemma_percent_resolve_bounds, spec_clamp_percent, spec_resolve_dimension, WindowDimensionUnit,
    WindowPosition, WindowPositionOffset, WindowSize,
};

verus! {

/// A logical window position, in whole pixels.
#[derive(Clone, Copy, Debug, PartialEq, Eq, Structural)]
pub struct Position {
    pub x: i32,
    pub y: i32,
}

impl Default for Position {
    fn default() -> (r: Position)
        ensures
            r == (Position { x: 0, y: 0 }),
    {
        Position { x: 0, y: 0 }
    }
}

/// A logical window size, in whole pixels.
#[derive(Clone, Copy, Debug, PartialEq, Eq, Structural)]
pub struct Size {
    pub width: u32,
    pub height: u32,
}

impl Default for Size {
    fn default() -> (r: Size)
        ensures
            r == (Size { width: 0, height: 0 }),
    {
        Size { width: 0, height: 0 }
    }
}

/// A window's captured position and size.
#[derive(Clone, Copy, Debug, PartialEq, Eq, Structural)]
pub struct WindowMetrics {
    pub position: Position,
    pub size: Size,
}

impl Default for WindowMetrics {
    fn default() -> (r: WindowMetrics)
        ensures
            r == (WindowMetrics {
                position: Position { x: 0, y: 0 },
                size: Size { width: 0, height: 0 },
            }),
    {
        WindowMetrics { position: Position { x: 0, y: 0 }, size: Size { width: 0, height: 0 } }
    }
}

/// The smallest width and height a resolved window may have, in pixels.
pub const MIN_WINDOW_DIMENSION: i64 = 100;

/// A value clamped into `lo..=hi`.
pub open spec fn spec_clamp(v: int, lo: int, hi: int) -> int {
    if v < lo {
        lo
    } else if v > hi {
        hi
    } else {
        v
    }
}

/// A value saturated into the `i32` range.
pub open spec fn spec_sat_i32(v: int) -> int {
    spec_clamp(v, -0x8000_0000, 0x7fff_ffff)
}

/// One resolved window side: the configured dimension (percentages
/// clamped) resolved against the available space, raised to the minimum
/// dimension, and capped at the available space.
pub open spec fn spec_resolved_side(d: crate::config::WindowDimension, avail: int) -> int {
    let v = spec_resolve_dimension(spec_clamp_percent(d), avail);
    let floored = if v > MIN_WINDOW_DIMENSION as int {
        v
    } else {
        MIN_WINDOW_DIMENSION as int
    };
    if floored < avail {
        floored
    } else {
        avail
    }
}

/// Resolves a configured window size against the screen size: each side at
/// least the minimum dimension and at most the screen, exactly as
/// `spec_resolved_side` says for each side.
pub fn resolve_window_size(config: WindowSize, max_width: u32, max_height: u32) -> (r: Size)
    requires
        max_width <= 0x7fff_ffff,
        max_height <= 0x7fff_ffff,
    ensures
        r.width == spec_resolved_side(config.width, max_width as int),
        r.height == spec_resolved_side(config.height, max_height as int),
{
    let w = config.width.clamp_percent().resolve(max_width as i64);
    let h = config.height.clamp_percent().resolve(max_height as i64);
    let w = if w > MIN_WINDOW_DIMENSION {
        w
    } else {
        MIN_WINDOW_DIMENSION
    };
    let h = if h > MIN_WINDOW_DIMENSION {
        h
    } else {
        MIN_WINDOW_DIMENSION
    };
    let w = if w < max_width as i64 {
        w
    } else {
        max_width as i64
    };
    let h = if h < max_height as i64 {
        h
    } else {
        max_height as i64
    };
    Size { width: w as u32, height: h as u32 }
}

/// Where a configured position lands on the screen: each coordinate
/// resolved against the space left beside the window, saturated into pixel
/// range, and shifted by the screen's origin.
pub open spec fn spec_resolved_position(
    config: WindowPosition,
    origin: Position,
    screen_width: int,
    screen_height: int,
    window: Size,
) -> (int, int) {
    let avail_w = if screen_width > window.width as int {
        screen_width - window.width as int
    } else {
        0
    };
    let avail_h = if screen_height > window.height as int {
        screen_height - window.height as int
    } else {
        0
    };
    (
        origin.x + spec_sat_i32(spec_resolve_dimension(spec_clamp_percent(config.x), avail_w)),
        origin.y + spec_sat_i32(spec_resolve_dimension(spec_clamp_percent(config.y), avail_h)),
    )
}

/// Resolves a configured window position against the screen, exactly as
/// `spec_resolved_position` says. Coordinates are bounded so that the sums
/// stay within pixel range.
pub fn resolve_window_position(
    config: WindowPosition,
    screen_origin: Position,
    screen_width: u32,
    screen_height: u32,
    window_size: Size,
) -> (r: Position)
    requires
        screen_width <= 0x1000_0000,
        screen_height <= 0x1000_0000,
        -0x1000_0000 <= screen_origin.x <= 0x1000_0000,
        -0x1000_0000 <= screen_origin.y <= 0x1000_0000,
        config.x.unit == WindowDimensionUnit::Pixels ==> -0x1000_0000 <= config.x.value
            <= 0x1000_0000,
        config.y.unit == WindowDimensionUnit::Pixels ==> -0x1000_0000 <= config.y.value
            <= 0x1000_0000,
    ensures
        (r.x as int, r.y as int) == spec_resolved_position(
            config,
            screen_origin,
            screen_width as int,
            screen_height as int,
            window_size,
        ),
{
    let avail_w: i64 = if screen_width as i64 > window_size.width as i64 {
        screen_width as i64 - window_size.width as i64
    } else {
        0
    };
    let avail_h: i64 = if screen_height as i64 > window_size.height as i64 {
        screen_height as i64 - window_size.height as i64
    } else {
        0
    };
    let rx = config.x.clamp_percent().resolve(avail_w);
    let ry = config.y.clamp_percent().resolve(avail_h);
    proof {
        lemma_percent_resolve_bounds(spec_clamp_percent(config.x), avail_w as int);
        lemma_percent_resolve_bounds(spec_clamp_percent(config.y), avail_h as int);
        assert(-0x1000_0000 <= rx <= 0x1000_0000);
        assert(-0x1000_0000 <= ry <= 0x1000_0000);
    }
    let x = screen_origin.x as i64 + rx;
    let y = screen_origin.y as i64 + ry;
    Position { x: x as i32, y: y as i32 }
}

/// How many placement shifts are attempted before giving up.
pub const MAX_POSITION_SHIFT_ATTEMPTS: usize = 20;

/// Half of an offset's magnitude, at least half a pixel's worth: the
/// nearness radius around a candidate position.
pub open spec fn spec_half(v: int) -> int {
    let a = if v >= 0 {
        v
    } else {
        -v
    };
    let m = if a > 1 {
        a
    } else {
        1
    };
    m / 2
}

/// True when some occupied top-left corner lies within the given radius of
/// the candidate position.
pub open spec fn spec_near_occupied(
    px: int,
    py: int,
    hx: int,
    hy: int,
    occupied: Seq<Position>,
) -> bool {
    exists|k: int|
        0 <= k < occupied.len() && px - hx <= #[trigger] occupied[k].x <= px + hx && py - hy
            <= occupied[k].y <= py + hy
}

/// One bounced move along one axis: step by the offset, flipping it when
/// the step leaves the bounds, then clamp. Gives the new offset and the
/// new coordinate.
pub open spec fn spec_bounce(p: int, o: int, lo: int, hi: int) -> (int, int) {
    let next = p + o;
    if next < lo || next > hi {
        (-o, spec_clamp(p - o, lo, hi))
    } else {
        (o, spec_clamp(next, lo, hi))
    }
}

/// The shifting loop: while attempts remain and the position is near an
/// occupied corner, bounce one step on each axis.
pub open spec fn spec_shift_loop(
    px: int,
    py: int,
    ox: int,
    oy: int,
    lox: int,
    hix: int,
    loy: int,
    hiy: int,
    occupied: Seq<Position>,
    attempts: nat,
) -> (int, int)
    decreases attempts,
{
    if attempts == 0 {
        (px, py)
    } else if !spec_near_occupied(px, py, spec_half(ox), spec_half(oy), occupied) {
        (px, py)
    } else {
        let bx = spec_bounce(px, ox, lox, hix);
        let by = spec_bounce(py, oy, loy, hiy);
        spec_shift_loop(bx.1, by.1, bx.0, by.0, lox, hix, loy, hiy, occupied, (attempts - 1) as nat)
    }
}

/// Where a new window lands: with no offset configured, the base position;
/// otherwise the base clamped onto the screen and then shifted while it
/// sits near an existing window's corner.
pub open spec fn spec_shift_position(
    base: Position,
    window_size: Size,
    offset: WindowPositionOffset,
    screen_origin: Position,
    screen_size: Size,
    occupied: Seq<Position>,
) -> (int, int) {
    if offset.x == 0 && offset.y == 0 {
        (base.x as int, base.y as int)
    } else {
        let lox = screen_origin.x as int;
        let loy = screen_origin.y as int;
        let hix0 = screen_origin.x + screen_size.width - window_size.width;
        let hiy0 = screen_origin.y + screen_size.height - window_size.height;
        let hix = if hix0 > lox {
            hix0
        } else {
            lox
        };
        let hiy = if hiy0 > loy {
            hiy0
        } else {
            loy
        };
        spec_shift_loop(
            spec_clamp(base.x as int, lox, hix),
            spec_clamp(base.y as int, loy, hiy),
            offset.x as int,
            offset.y as int,
            lox,
            hix,
            loy,
            hiy,
            occupied,
            MAX_POSITION_SHIFT_ATTEMPTS as nat,
        )
    }
}

/// Clamps a coordinate into `lo..=hi`.
fn clamp_i32(v: i32, lo: i32, hi: i32) -> (r: i32)
    requires
        lo <= hi,
    ensures
        r as int == spec_clamp(v as int, lo as int, hi as int),
{
    if v < lo {
        lo
    } else if v > hi {
        hi
    } else {
        v
    }
}

/// True exactly when the position is near an occupied corner, with the
/// radius taken from the current offsets.
fn near_occupied(px: i32, py: i32, ox: i32, oy: i32, occupied: &Vec<Position>) -> (r: bool)
    requires
        -0x2000_0000 <= px <= 0x2000_0000,
        -0x2000_0000 <= py <= 0x2000_0000,
        -0x2000_0000 <= ox <= 0x2000_0000,
        -0x2000_0000 <= oy <= 0x2000_0000,
    ensures
        r == spec_near_occupied(px as int, py as int, spec_half(ox as int), spec_half(oy as int), occupied@),
{
    let ax = if ox >= 0 {
        ox
    } else {
        -ox
    };
    let ay = if oy >= 0 {
        oy
    } else {
        -oy
    };
    let hx = if ax > 1 {
        ax / 2
    } else {
        0
    };
    let hy = if ay > 1 {
        ay / 2
    } else {
        0
    };
    proof {
        assert(hx as int == spec_half(ox as int));
        assert(hy as int == spec_half(oy as int));
    }
    let mut k: usize = 0;
    while k < occupied.len()
        invariant
            k <= occupied@.len(),
            -0x2000_0000 <= px <= 0x2000_0000,
            -0x2000_0000 <= py <= 0x2000_0000,
            0 <= hx <= 0x2000_0000,
            0 <= hy <= 0x2000_0000,
            hx as int == spec_half(ox as int),
            hy as int == spec_half(oy as int),
            forall|j: int|
                0 <= j < k ==> !(px - hx <= #[trigger] occupied@[j].x <= px + hx && py - hy
                    <= occupied@[j].y <= py + hy),
        decreases occupied@.len() - k,
    {
        let e = occupied[k];
        if e.x >= px - hx && e.x <= px + hx && e.y >= py - hy && e.y <= py + hy {
            proof {
                assert(spec_near_occupied(
                    px as int,
                    py as int,
                    hx as int,
                    hy as int,
                    occupied@,
                )) by {
                    assert(0 <= k < occupied@.len() && px - hx <= occupied@[k as int].x <= px + hx
                        && py - hy <= occupied@[k as int].y <= py + hy);
                }
            }
            return true;
        }
        k = k + 1;
    }
    false
}

/// Shifts a window's base position away from existing windows' top-left
/// corners, exactly as `spec_shift_position` says: the base is clamped onto
/// the screen, then stepped by the configured offset (bouncing at the
/// screen's edge) until it is no longer near an occupied corner or the
/// attempts run out. With a zero offset the base is returned untouched.
pub fn shift_position_if_needed(
    base: Position,
    window_size: Size,
    offset: WindowPositionOffset,
    screen_origin: Position,
    screen_size: Size,
    occupied: &Vec<Position>,
) -> (r: Position)
    requires
        -0x1000_0000 <= base.x <= 0x1000_0000,
        -0x1000_0000 <= base.y <= 0x1000_0000,
        -0x1000_0000 <= offset.x <= 0x1000_0000,
        -0x1000_0000 <= offset.y <= 0x1000_0000,
        -0x1000_0000 <= screen_origin.x <= 0x1000_0000,
        -0x1000_0000 <= screen_origin.y <= 0x1000_0000,
        screen_size.width <= 0x1000_0000,
        screen_size.height <= 0x1000_0000,
        window_size.width <= 0x1000_0000,
        window_size.height <= 0x1000_0000,
    ensures
        (r.x as int, r.y as int) == spec_shift_position(
            base,
            window_size,
            offset,
            screen_origin,
            screen_size,
            occupied@,
        ),
{
    if offset.x == 0 && offset.y == 0 {
        return base;
    }
    let lox = screen_origin.x;
    let loy = screen_origin.y;
    let hix0: i64 = screen_origin.x as i64 + screen_size.width as i64 - window_size.width as i64;
    let hiy0: i64 = screen_origin.y as i64 + screen_size.height as i64 - window_size.height as i64;
    let hix: i32 = if hix0 > lox as i64 {
        hix0 as i32
    } else {
        lox
    };
    let hiy: i32 = if hiy0 > loy as i64 {
        hiy0 as i32
    } else {
        loy
    };
    let mut px = clamp_i32(base.x, lox, hix);
    let mut py = clamp_i32(base.y, loy, hiy);
    let mut ox = offset.x;
    let mut oy = offset.y;
    let ghost px0 = px as int;
    let ghost py0 = py as int;
    let mut t: usize = 0;
    while t < MAX_POSITION_SHIFT_ATTEMPTS && near_occupied(px, py, ox, oy, occupied)
        invariant
            t <= MAX_POSITION_SHIFT_ATTEMPTS,
            lox as int <= px as int <= hix as int,
            loy as int <= py as int <= hiy as int,
            -0x1000_0000 <= lox <= 0x2000_0000,
            -0x1000_0000 <= loy <= 0x2000_0000,
            lox <= hix <= 0x2000_0000,
            loy <= hiy <= 0x2000_0000,
            ox == offset.x || ox == -offset.x,
            oy == offset.y || oy == -offset.y,
            -0x1000_0000 <= offset.x <= 0x1000_0000,
            -0x1000_0000 <= offset.y <= 0x1000_0000,
            spec_shift_loop(
                px0,
                py0,
                offset.x as int,
                offset.y as int,
                lox as int,
                hix as int,
                loy as int,
                hiy as int,
                occupied@,
                MAX_POSITION_SHIFT_ATTEMPTS as nat,
            ) == spec_shift_loop(
                px as int,
                py as int,
                ox as int,
                oy as int,
                lox as int,
                hix as int,
                loy as int,
                hiy as int,
                occupied@,
                (MAX_POSITION_SHIFT_ATTEMPTS - t) as nat,
            ),
        decreases MAX_POSITION_SHIFT_ATTEMPTS - t,
    {
        let ghost rem = (MAX_POSITION_SHIFT_ATTEMPTS - t) as nat;
        let ghost old_px = px as int;
        let ghost old_py = py as int;
        let ghost old_ox = ox as int;
        let ghost old_oy = oy as int;
        let mut next_x: i32 = px + ox;
        if next_x < lox || next_x > hix {
            ox = -ox;
            next_x = px + ox;
        }
        let mut next_y: i32 = py + oy;
        if next_y < loy || next_y > hiy {
            oy = -oy;
            next_y = py + oy;
        }
        px = clamp_i32(next_x, lox, hix);
        py = clamp_i32(next_y, loy, hiy);
        proof {
            assert((ox as int, px as int) == spec_bounce(old_px, old_ox, lox as int, hix as int));
            assert((oy as int, py as int) == spec_bounce(old_py, old_oy, loy as int, hiy as int));
            assert(spec_near_occupied(
                old_px,
                old_py,
                spec_half(old_ox),
                spec_half(old_oy),
                occupied@,
            ));
            assert(spec_shift_loop(
                old_px,
                old_py,
                old_ox,
                old_oy,
                lox as int,
                hix as int,
                loy as int,
                hiy as int,
                occupied@,
                rem,
            ) == spec_shift_loop(
                px as int,
                py as int,
                ox as int,
                oy as int,
                lox as int,
                hix as int,
                loy as int,
                hiy as int,
                occupied@,
                (rem - 1) as nat,
            ));
        }
        t = t + 1;
    }
    Position { x: px, y: py }
}

} // verus!
