//! Damage-rectangle adjustment.
//!
//! Damage reported against a buffer must be cropped to the window's
//! visible geometry and, for the destination side, translated to be
//! relative to it.  Coordinates here are signed, as the compositor
//! reports them, but callers reject negative values before adjusting.
use vstd::prelude::*;

verus! {

/// A damage or geometry rectangle in buffer coordinates.
#[derive(Clone, Copy, PartialEq, Eq, Structural, Debug)]
pub struct DamageRect {
    /// Left edge.
    pub x: i32,
    /// Top edge.
    pub y: i32,
    /// Width.
    pub width: i32,
    /// Height.
    pub height: i32,
}

/// All four fields non-negative.
pub open spec fn rect_nonneg(r: DamageRect) -> bool {
    r.x >= 0 && r.y >= 0 && r.width >= 0 && r.height >= 0
}

/// Crop one axis: an extent of `w` starting at `x`, clipped to begin no
/// earlier than `min_x`; `None` when nothing of it remains visible.
pub open spec fn spec_adjust_single(x: int, w: int, min_x: int) -> Option<(int, int)> {
    if x < min_x {
        if min_x - x >= w {
            None
        } else {
            Some((min_x, w - (min_x - x)))
        }
    } else {
        Some((x, w))
    }
}

/// The smaller of `a` and `b`.
pub open spec fn spec_min(a: int, b: int) -> int {
    if a < b {
        a
    } else {
        b
    }
}

/// Crop the span `[x, x + w)` to start no earlier than `min_x`.  Returns
/// the clipped start and extent, or `None` if no part of the span lies at
/// or beyond `min_x`.
pub fn adjust_damage_source_single(x: i32, w: i32, min_x: i32) -> (r: Option<(i32, i32)>)
    requires
        x >= 0,
        w >= 0,
        min_x >= 0,
    ensures
        ({
            match spec_adjust_single(x as int, w as int, min_x as int) {
                None => r is None,
                Some(p) => r matches Some(q) && q.0 == p.0 && q.1 == p.1,
            }
        }),
{
    if x < min_x {
        let delta_x = min_x - x;
        if delta_x >= w {
            return None;  // no damage on visible area
        }
        Some((min_x, w - delta_x))
    } else {
        Some((x, w))
    }
}

/// Crop and translate the given damage for the window geometry.  The
/// result stays in source-buffer coordinates: start clipped to the
/// geometry's origin, extent clipped to the geometry's size.  `None` when
/// the damage lies entirely outside the visible portion of the window.
pub fn adjust_damage_source(damage: DamageRect, geometry: DamageRect) -> (r: Option<DamageRect>)
    requires
        rect_nonneg(damage),
        rect_nonneg(geometry),
    ensures
        ({
            let sx = spec_adjust_single(damage.x as int, damage.width as int, geometry.x as int);
            let sy = spec_adjust_single(damage.y as int, damage.height as int, geometry.y as int);
            match (sx, sy) {
                (Some(px), Some(py)) => r matches Some(p) && p.x == px.0 && p.y == py.0
                    && p.width == spec_min(px.1, geometry.width as int) && p.height == spec_min(
                    py.1,
                    geometry.height as int,
                ),
                _ => r is None,
            }
        }),
{
    let (x, w) = match adjust_damage_source_single(damage.x, damage.width, geometry.x) {
        Some(p) => p,
        None => {
            return None;
        },
    };
    let (y, h) = match adjust_damage_source_single(damage.y, damage.height, geometry.y) {
        Some(p) => p,
        None => {
            return None;
        },
    };
    let width = if w < geometry.width {
        w
    } else {
        geometry.width
    };
    let height = if h < geometry.height {
        h
    } else {
        geometry.height
    };
    Some(DamageRect { x, y, width, height })
}

/// Crop and translate the given damage for the window geometry.  Like
/// [`adjust_damage_source`], but the returned position is relative to the
/// destination buffer: the geometry's origin is subtracted out.
pub fn adjust_damage_destination(damage: DamageRect, geometry: DamageRect) -> (r: Option<
    DamageRect,
>)
    requires
        rect_nonneg(damage),
        rect_nonneg(geometry),
    ensures
        ({
            let sx = spec_adjust_single(damage.x as int, damage.width as int, geometry.x as int);
            let sy = spec_adjust_single(damage.y as int, damage.height as int, geometry.y as int);
            match (sx, sy) {
                (Some(px), Some(py)) => r matches Some(p) && p.x == px.0 - geometry.x && p.y
                    == py.0 - geometry.y && p.width == spec_min(px.1, geometry.width as int)
                    && p.height == spec_min(py.1, geometry.height as int),
                _ => r is None,
            }
        }),
{
    let (x, w) = match adjust_damage_source_single(damage.x, damage.width, geometry.x) {
        Some(p) => p,
        None => {
            return None;
        },
    };
    let (y, h) = match adjust_damage_source_single(damage.y, damage.height, geometry.y) {
        Some(p) => p,
        None => {
            return None;
        },
    };
    let width = if w < geometry.width {
        w
    } else {
        geometry.width
    };
    let height = if h < geometry.height {
        h
    } else {
        geometry.height
    };
    Some(DamageRect { x: x - geometry.x, y: y - geometry.y, width, height })
}

/// Validates an untrusted damage region against the buffer's dimensions:
/// a non-positive size, a negative position, or a position past the
/// buffer's edge is refused; an extent that runs past the edge is clipped
/// to it.
pub fn sanitize_damage(damage: DamageRect, width: i32, height: i32) -> (r: Option<DamageRect>)
    requires
        width >= 0,
        height >= 0,
    ensures
        (damage.width <= 0 || damage.height <= 0 || damage.x < 0 || damage.y < 0 || damage.x
            > width || damage.y > height) ==> r is None,
        !(damage.width <= 0 || damage.height <= 0 || damage.x < 0 || damage.y < 0 || damage.x
            > width || damage.y > height) ==> r == Some(
            DamageRect {
                x: damage.x,
                y: damage.y,
                width: spec_min(damage.width as int, width - damage.x) as i32,
                height: spec_min(damage.height as int, height - damage.y) as i32,
            },
        ),
{
    if damage.width <= 0 || damage.height <= 0 || damage.x < 0 || damage.y < 0 || damage.x
        > width || damage.y > height {
        return None;
    }
    let w = if damage.width < width - damage.x {
        damage.width
    } else {
        width - damage.x
    };
    let h = if damage.height < height - damage.y {
        damage.height
    } else {
        height - damage.y
    };
    Some(DamageRect { x: damage.x, y: damage.y, width: w, height: h })
}

/// Validates a window geometry from the compositor: a non-positive size
/// is refused; a negative position is clamped to the buffer's origin,
/// shrinking the extent by what was cut off (but never below zero).
pub fn clamp_geometry(geometry: DamageRect) -> (r: Option<DamageRect>)
    ensures
        (geometry.width <= 0 || geometry.height <= 0) ==> r is None,
        (geometry.width > 0 && geometry.height > 0) ==> r == Some(
            DamageRect {
                x: if geometry.x < 0 {
                    0
                } else {
                    geometry.x
                },
                y: if geometry.y < 0 {
                    0
                } else {
                    geometry.y
                },
                width: if geometry.x < 0 {
                    spec_max(geometry.width + geometry.x, 0) as i32
                } else {
                    geometry.width as int as i32
                },
                height: if geometry.y < 0 {
                    spec_max(geometry.height + geometry.y, 0) as i32
                } else {
                    geometry.height as int as i32
                },
            },
        ),
{
    if geometry.width <= 0 || geometry.height <= 0 {
        return None;
    }
    let mut g = geometry;
    if g.x < 0 {
        g.width = if g.width + g.x > 0 {
            g.width + g.x
        } else {
            0
        };
        g.x = 0;
    }
    if g.y < 0 {
        g.height = if g.height + g.y > 0 {
            g.height + g.y
        } else {
            0
        };
        g.y = 0;
    }
    Some(g)
}

/// The larger of `a` and `b`.
pub open spec fn spec_max(a: int, b: int) -> int {
    if a > b {
        a
    } else {
        b
    }
}

} // verus!
