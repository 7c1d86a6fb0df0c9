//! World coordinates, the render configuration, and the affine projection
//! from world units to pixel coordinates on a fixed square canvas:
//! `pixel_x = floor((x - x_offset) / scale)`,
//! `pixel_y = size - floor((y - y_offset) / scale)`.

use vstd::prelude::*;
use vstd::arithmetic::div_mod::lemma_fundamental_div_mod;
use vstd::arithmetic::div_mod::lemma_fundamental_div_mod_converse;

verus! {

/// Largest magnitude of a world coordinate or offset the library accepts.
pub const COORD_LIMIT: i64 = 0x100_0000_0000;

/// Canvas side length, in pixels, of the default configuration.
pub const GRID_SIZE: u32 = 16384;

/// Westmost world x of the default configuration.
pub const X_OFFSET: i64 = 75000;

/// Southmost world y of the default configuration.
pub const Y_OFFSET: i64 = 1000;

/// World units per pixel of the default configuration.
pub const SCALE: i64 = 45;

/// Progress is reported every this many records during load and render.
pub const DEBUG_ITERATION: usize = 500;

/// A real-world coordinate, in whole world units.
#[derive(Clone, Copy, Debug, PartialEq, Eq, Structural)]
pub struct Coord {
    pub x: i64,
    pub y: i64,
}

impl Coord {
    /// Both components are small enough for projection arithmetic.
    pub open spec fn wf(self) -> bool {
        &&& -COORD_LIMIT <= self.x <= COORD_LIMIT
        &&& -COORD_LIMIT <= self.y <= COORD_LIMIT
    }
}

/// The projection parameters: canvas size, world offsets and the
/// world-units-per-pixel scale.
#[derive(Clone, Copy, Debug, PartialEq, Eq, Structural)]
pub struct RenderConfig {
    pub size: u32,
    pub x_offset: i64,
    pub y_offset: i64,
    pub scale: i64,
}

impl RenderConfig {
    /// The scale is positive and offsets are small enough for
    /// projection arithmetic.
    pub open spec fn wf(self) -> bool {
        &&& 1 <= self.scale <= COORD_LIMIT
        &&& -COORD_LIMIT <= self.x_offset <= COORD_LIMIT
        &&& -COORD_LIMIT <= self.y_offset <= COORD_LIMIT
    }
}

impl Default for RenderConfig {
    /// The default canvas and projection for the England & Wales
    /// working-area dataset.
    fn default() -> (c: Self)
        ensures
            c == (RenderConfig {
                size: GRID_SIZE,
                x_offset: X_OFFSET,
                y_offset: Y_OFFSET,
                scale: SCALE,
            }),
            c.wf(),
    {
        RenderConfig { size: GRID_SIZE, x_offset: X_OFFSET, y_offset: Y_OFFSET, scale: SCALE }
    }
}

/// Floor division of `a` by a positive `b`. For a positive divisor the
/// Euclidean `/` on `int` is exactly the floor of the real quotient.
fn floor_div(a: i64, b: i64) -> (q: i64)
    requires
        1 <= b <= COORD_LIMIT,
        -4 * COORD_LIMIT <= a <= 4 * COORD_LIMIT,
    ensures
        q == a as int / b as int,
        a >= 0 ==> 0 <= q <= a,
        a < 0 ==> a <= q < 0 || q == 0,
{
    if a >= 0 {
        let q0 = (a as u64) / (b as u64);
        proof {
            lemma_fundamental_div_mod(a as int, b as int);
            assert((a as int / b as int) <= a as int) by (nonlinear_arith)
                requires
                    b as int >= 1,
                    a as int >= 0,
                    a as int == b as int * (a as int / b as int) + (a as int % b as int),
                    a as int % b as int >= 0,
                    a as int / b as int >= 0,
            ;
        }
        q0 as i64
    } else {
        let n = (-a) as u64;
        let bu = b as u64;
        let q0 = (n + bu - 1) / bu;
        proof {
            let ni = n as int;
            let bi = b as int;
            let q = ni / bi;
            let r = ni % bi;
            lemma_fundamental_div_mod(ni, bi);
            assert(q <= bi * q) by (nonlinear_arith)
                requires
                    q >= 0,
                    bi >= 1,
            ;
            assert((q + 1) * bi == bi * q + bi && (-q) * bi == -(bi * q) && (-q - 1) * bi == -(
            bi * q) - bi && q * bi == bi * q) by (nonlinear_arith);
            if r == 0 {
                lemma_fundamental_div_mod_converse(ni + bi - 1, bi, q, bi - 1);
                lemma_fundamental_div_mod_converse(-ni, bi, -q, 0);
            } else {
                lemma_fundamental_div_mod_converse(ni + bi - 1, bi, q + 1, r - 1);
                lemma_fundamental_div_mod_converse(-ni, bi, -q - 1, bi - r);
            }
        }
        let qi = q0 as i64;
        -qi
    }
}

/// Pixel x of a projected world coordinate.
pub open spec fn spec_pixel_x(c: Coord, cfg: RenderConfig) -> int {
    (c.x - cfg.x_offset) / (cfg.scale as int)
}

/// Pixel y of a projected world coordinate; the y axis is flipped so
/// that larger world y is nearer the top of the canvas.
pub open spec fn spec_pixel_y(c: Coord, cfg: RenderConfig) -> int {
    cfg.size - (c.y - cfg.y_offset) / (cfg.scale as int)
}

/// Projects a world coordinate to a pixel coordinate. No clamping is
/// performed: out-of-canvas inputs give out-of-range pixel values.
pub fn convert_geo_point_to_pixel(coord: Coord, config: &RenderConfig) -> (p: (i64, i64))
    requires
        coord.wf(),
        config.wf(),
    ensures
        p.0 == spec_pixel_x(coord, *config),
        p.1 == spec_pixel_y(coord, *config),
{
    let px = floor_div(coord.x - config.x_offset, config.scale);
    let py = (config.size as i64) - floor_div(coord.y - config.y_offset, config.scale);
    (px, py)
}

/// A projected pixel lies on the canvas: both components in `[0, size]`.
pub open spec fn spec_in_bounds(px: int, py: int, size: int) -> bool {
    0 <= px <= size && 0 <= py <= size
}

/// An out-of-canvas projected coordinate, carrying the offending pixel
/// value and which bound it violated.
#[derive(Clone, Copy, Debug, PartialEq, Eq, Structural)]
pub enum BoundsError {
    XTooBig { pixel: i64 },
    YTooBig { pixel: i64 },
    XTooSmall { pixel: i64 },
    YTooSmall { pixel: i64 },
}

/// The bounds error reported for an out-of-canvas pixel, checked in the
/// order: x too big, y too big, x too small, y too small.
pub open spec fn spec_bounds_error(px: i64, py: i64, size: int) -> BoundsError {
    if px > size {
        BoundsError::XTooBig { pixel: px }
    } else if py > size {
        BoundsError::YTooBig { pixel: py }
    } else if px < 0 {
        BoundsError::XTooSmall { pixel: px }
    } else {
        BoundsError::YTooSmall { pixel: py }
    }
}

/// Projects a world coordinate and enforces the canvas bounds: a pixel
/// within `[0, size]` on both axes is returned, any other is an error
/// naming the offending value and bound.
pub fn project_within_bounds(coord: Coord, config: &RenderConfig) -> (r: Result<
    (i64, i64),
    BoundsError,
>)
    requires
        coord.wf(),
        config.wf(),
    ensures
        (r is Ok) == spec_in_bounds(
            spec_pixel_x(coord, *config),
            spec_pixel_y(coord, *config),
            config.size as int,
        ),
        r is Ok ==> r->Ok_0.0 == spec_pixel_x(coord, *config) && r->Ok_0.1 == spec_pixel_y(
            coord,
            *config,
        ),
        r is Err ==> r->Err_0 == spec_bounds_error(
            spec_pixel_x(coord, *config) as i64,
            spec_pixel_y(coord, *config) as i64,
            config.size as int,
        ),
{
    let (px, py) = convert_geo_point_to_pixel(coord, config);
    let size = config.size as i64;
    if px > size {
        Err(BoundsError::XTooBig { pixel: px })
    } else if py > size {
        Err(BoundsError::YTooBig { pixel: py })
    } else if px < 0 {
        Err(BoundsError::XTooSmall { pixel: px })
    } else if py < 0 {
        Err(BoundsError::YTooSmall { pixel: py })
    } else {
        Ok((px, py))
    }
}

/// Projection is deterministic: equal inputs under one configuration
/// give equal pixel coordinates.
pub proof fn lemma_projection_deterministic(c1: Coord, c2: Coord, cfg: RenderConfig)
    requires
        c1 == c2,
    ensures
        spec_pixel_x(c1, cfg) == spec_pixel_x(c2, cfg),
        spec_pixel_y(c1, cfg) == spec_pixel_y(c2, cfg),
{
}

/// Moving a world coordinate east by exactly one scale unit moves its
/// pixel east by exactly one pixel, and leaves pixel y unchanged.
pub proof fn lemma_projection_unit_step(c: Coord, d: Coord, cfg: RenderConfig)
    requires
        cfg.wf(),
        d.x == c.x + cfg.scale,
        d.y == c.y,
    ensures
        spec_pixel_x(d, cfg) == spec_pixel_x(c, cfg) + 1,
        spec_pixel_y(d, cfg) == spec_pixel_y(c, cfg),
{
    let a = c.x - cfg.x_offset;
    let s = cfg.scale as int;
    lemma_fundamental_div_mod(a, s);
    assert((a / s + 1) * s == s * (a / s) + s) by (nonlinear_arith);
    lemma_fundamental_div_mod_converse(a + s, s, a / s + 1, a % s);
}

} // verus!
