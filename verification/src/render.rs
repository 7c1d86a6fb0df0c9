//! Render planning: one forward pass over the registry that projects
//! every drawn coordinate and enforces the canvas bounds. The plan is a
//! list of drawing primitives — an optional label anchor per area, one
//! marker per exterior vertex, and a distinct marker per hole vertex —
//! that an unverified backend can replay onto a bitmap and flush once.

use vstd::prelude::*;
use crate::area::Area;
use crate::area::resolved_centre;
use crate::coords::BoundsError;
use crate::coords::Coord;
use crate::coords::RenderConfig;
use crate::coords::convert_geo_point_to_pixel;
use crate::coords::spec_bounds_error;
use crate::coords::spec_in_bounds;
use crate::coords::spec_pixel_x;
use crate::coords::spec_pixel_y;
use crate::registry::AreaMap;

verus! {

/// One drawing primitive, in canvas pixels.
#[derive(Clone, Debug, PartialEq, Eq)]
pub enum DrawCommand {
    Label { text: String, x: i64, y: i64 },
    ExteriorVertex { x: i64, y: i64 },
    HoleVertex { x: i64, y: i64 },
}

/// The pixel a command draws at.
pub open spec fn cmd_pixel(c: DrawCommand) -> (int, int) {
    match c {
        DrawCommand::Label { text, x, y } => (x as int, y as int),
        DrawCommand::ExteriorVertex { x, y } => (x as int, y as int),
        DrawCommand::HoleVertex { x, y } => (x as int, y as int),
    }
}

/// The command's pixel lies on the canvas.
pub open spec fn cmd_in_bounds(c: DrawCommand, size: int) -> bool {
    spec_in_bounds(cmd_pixel(c).0, cmd_pixel(c).1, size)
}

/// The bounds error an out-of-canvas command is reported with.
pub open spec fn cmd_bounds_error(c: DrawCommand, size: int) -> BoundsError {
    spec_bounds_error(cmd_pixel(c).0 as i64, cmd_pixel(c).1 as i64, size)
}

/// The exterior-vertex markers of one ring, in vertex order.
pub open spec fn ext_cmds(ring: Seq<Coord>, cfg: RenderConfig) -> Seq<DrawCommand> {
    Seq::new(
        ring.len(),
        |i: int|
            DrawCommand::ExteriorVertex {
                x: spec_pixel_x(ring[i], cfg) as i64,
                y: spec_pixel_y(ring[i], cfg) as i64,
            },
    )
}

/// The hole-vertex markers of one ring, in vertex order.
pub open spec fn hole_ring_cmds(ring: Seq<Coord>, cfg: RenderConfig) -> Seq<DrawCommand> {
    Seq::new(
        ring.len(),
        |i: int|
            DrawCommand::HoleVertex {
                x: spec_pixel_x(ring[i], cfg) as i64,
                y: spec_pixel_y(ring[i], cfg) as i64,
            },
    )
}

/// The hole-vertex markers of all holes, in ring order.
pub open spec fn holes_cmds(holes: Seq<Seq<Coord>>, cfg: RenderConfig) -> Seq<DrawCommand>
    decreases holes.len(),
{
    if holes.len() == 0 {
        Seq::empty()
    } else {
        holes_cmds(holes.drop_last(), cfg) + hole_ring_cmds(holes.last(), cfg)
    }
}

/// The label command of one area — anchored at its resolved centre —
/// where labels are enabled; nothing otherwise.
pub open spec fn label_cmds(a: Area, cfg: RenderConfig, show_labels: bool, fallback: Coord) -> Seq<
    DrawCommand,
> {
    if show_labels {
        seq![
            DrawCommand::Label {
                text: a.label,
                x: spec_pixel_x(resolved_centre(a, fallback), cfg) as i64,
                y: spec_pixel_y(resolved_centre(a, fallback), cfg) as i64,
            },
        ]
    } else {
        Seq::empty()
    }
}

/// Everything drawn for one area: the optional label, then the exterior
/// vertices, then the hole vertices.
pub open spec fn area_cmds(a: Area, cfg: RenderConfig, show_labels: bool, fallback: Coord) -> Seq<
    DrawCommand,
> {
    label_cmds(a, cfg, show_labels, fallback) + ext_cmds(a.boundary.exterior@, cfg) + holes_cmds(
        a.boundary.holes_seq(),
        cfg,
    )
}

/// Everything drawn for a registry, in registry order. `fallbacks[i]`
/// is the freshly computed centre offered to area `i`; it matters only
/// where labels are enabled and area `i` has no cached centre.
pub open spec fn map_cmds(
    areas: Seq<Area>,
    cfg: RenderConfig,
    show_labels: bool,
    fallbacks: Seq<Coord>,
) -> Seq<DrawCommand>
    decreases areas.len(),
{
    if areas.len() == 0 {
        Seq::empty()
    } else {
        map_cmds(areas.drop_last(), cfg, show_labels, fallbacks) + area_cmds(
            areas.last(),
            cfg,
            show_labels,
            fallbacks[areas.len() - 1],
        )
    }
}

/// With labels disabled the fallback centre is irrelevant.
proof fn lemma_area_cmds_no_label(a: Area, cfg: RenderConfig, v: Coord, w: Coord)
    ensures
        area_cmds(a, cfg, false, v) == area_cmds(a, cfg, false, w),
{
}

/// Appends everything drawn for one area to the plan under
/// construction.
fn plan_area(
    out: &mut Vec<DrawCommand>,
    a: &Area,
    config: &RenderConfig,
    show_labels: bool,
    fallback: Coord,
)
    requires
        a.wf(),
        config.wf(),
        fallback.wf(),
    ensures
        final(out)@ == old(out)@ + area_cmds(*a, *config, show_labels, fallback),
{
    let ghost base = out@;
    let ghost lbl = label_cmds(*a, *config, show_labels, fallback);
    if show_labels {
        let centre = a.get_centre_point(fallback);
        proof {
            assert(centre.wf());
        }
        let (px, py) = convert_geo_point_to_pixel(centre, config);
        out.push(DrawCommand::Label { text: a.label.clone(), x: px, y: py });
        proof {
            assert(out@ =~= base + lbl);
        }
    } else {
        proof {
            assert(out@ =~= base + lbl);
        }
    }
    let ghost ext = ext_cmds(a.boundary.exterior@, *config);
    let ring = &a.boundary.exterior;
    let en = ring.len();
    let mut j: usize = 0;
    while j < en
        invariant
            en == ring@.len(),
            0 <= j <= en,
            a.wf(),
            config.wf(),
            ring == a.boundary.exterior,
            ext == ext_cmds(a.boundary.exterior@, *config),
            out@ == base + lbl + ext.take(j as int),
        decreases en - j,
    {
        proof {
            assert(ring@[j as int].wf());
        }
        let (px, py) = convert_geo_point_to_pixel(ring[j], config);
        out.push(DrawCommand::ExteriorVertex { x: px, y: py });
        proof {
            assert(out@ =~= base + lbl + ext.take(j + 1));
        }
        j += 1;
    }
    proof {
        assert(ext.take(en as int) =~= ext);
    }
    let ghost hs = a.boundary.holes_seq();
    let hn = a.boundary.holes.len();
    let mut h: usize = 0;
    while h < hn
        invariant
            hn == a.boundary.holes@.len(),
            0 <= h <= hn,
            a.wf(),
            config.wf(),
            hs == a.boundary.holes_seq(),
            ext == ext_cmds(a.boundary.exterior@, *config),
            out@ == base + lbl + ext + holes_cmds(hs.take(h as int), *config),
        decreases hn - h,
    {
        let hole = &a.boundary.holes[h];
        let ghost hcur = hole_ring_cmds(hs[h as int], *config);
        let ghost hbase = out@;
        let m = hole.len();
        let mut j2: usize = 0;
        while j2 < m
            invariant
                m == hole@.len(),
                0 <= j2 <= m,
                a.wf(),
                config.wf(),
                0 <= h < hn,
                hn == a.boundary.holes@.len(),
                hs == a.boundary.holes_seq(),
                hole == &a.boundary.holes[h as int],
                hcur == hole_ring_cmds(hs[h as int], *config),
                out@ == hbase + hcur.take(j2 as int),
            decreases m - j2,
        {
            proof {
                assert(hs[h as int] == a.boundary.holes@[h as int]@);
                assert(hs[h as int][j2 as int].wf());
            }
            let (px, py) = convert_geo_point_to_pixel(hole[j2], config);
            out.push(DrawCommand::HoleVertex { x: px, y: py });
            proof {
                assert(out@ =~= hbase + hcur.take(j2 + 1));
            }
            j2 += 1;
        }
        proof {
            assert(hcur.take(m as int) =~= hcur);
            assert(hs.take(h + 1).drop_last() =~= hs.take(h as int));
            assert(hs.take(h + 1).last() == hs[h as int]);
            assert(holes_cmds(hs.take(h + 1), *config) == holes_cmds(hs.take(h as int), *config)
                + hcur);
            assert(out@ =~= base + lbl + ext + holes_cmds(hs.take(h + 1), *config));
        }
        h += 1;
    }
    proof {
        assert(hs.take(hn as int) =~= hs);
        assert(out@ =~= base + area_cmds(*a, *config, show_labels, fallback));
    }
}

/// Builds the full, unchecked render plan for a registry: every area's
/// commands in registry order, with coordinates projected but bounds
/// not yet enforced.
fn plan_commands(
    map: &AreaMap,
    config: &RenderConfig,
    show_labels: bool,
    fallback_centres: &Vec<Coord>,
) -> (out: Vec<DrawCommand>)
    requires
        map.wf(),
        config.wf(),
        show_labels ==> fallback_centres@.len() == map.data@.len() && (forall|i: int|
            0 <= i < fallback_centres@.len() ==> (#[trigger] fallback_centres@[i]).wf()),
    ensures
        out@ == map_cmds(map.data@, *config, show_labels, fallback_centres@),
{
    let mut out: Vec<DrawCommand> = Vec::new();
    let n = map.data.len();
    let mut i: usize = 0;
    while i < n
        invariant
            n == map.data@.len(),
            0 <= i <= n,
            map.wf(),
            config.wf(),
            show_labels ==> fallback_centres@.len() == map.data@.len() && (forall|k: int|
                0 <= k < fallback_centres@.len() ==> (#[trigger] fallback_centres@[k]).wf()),
            out@ == map_cmds(map.data@.take(i as int), *config, show_labels, fallback_centres@),
        decreases n - i,
    {
        let fb = if show_labels {
            fallback_centres[i]
        } else {
            Coord { x: 0, y: 0 }
        };
        proof {
            assert(map.data@[i as int].wf());
        }
        plan_area(&mut out, &map.data[i], config, show_labels, fb);
        proof {
            let areas = map.data@;
            let taken = areas.take(i + 1);
            assert(taken.drop_last() =~= areas.take(i as int));
            assert(taken.last() == areas[i as int]);
            assert(map_cmds(taken, *config, show_labels, fallback_centres@) == map_cmds(
                areas.take(i as int),
                *config,
                show_labels,
                fallback_centres@,
            ) + area_cmds(
                areas[i as int],
                *config,
                show_labels,
                fallback_centres@[i as int],
            ));
            if !show_labels {
                lemma_area_cmds_no_label(
                    areas[i as int],
                    *config,
                    fb,
                    fallback_centres@[i as int],
                );
            }
        }
        i += 1;
    }
    proof {
        assert(map.data@.take(n as int) =~= map.data@);
    }
    out
}

/// Checks one command against the canvas bounds.
fn check_cmd(c: &DrawCommand, size: u32) -> (r: Result<(), BoundsError>)
    ensures
        (r is Ok) == cmd_in_bounds(*c, size as int),
        r is Err ==> r->Err_0 == cmd_bounds_error(*c, size as int),
{
    let (x, y): (i64, i64) = match c {
        DrawCommand::Label { x, y, .. } => (*x, *y),
        DrawCommand::ExteriorVertex { x, y } => (*x, *y),
        DrawCommand::HoleVertex { x, y } => (*x, *y),
    };
    let s = size as i64;
    if x > s {
        Err(BoundsError::XTooBig { pixel: x })
    } else if y > s {
        Err(BoundsError::YTooBig { pixel: y })
    } else if x < 0 {
        Err(BoundsError::XTooSmall { pixel: x })
    } else if y < 0 {
        Err(BoundsError::YTooSmall { pixel: y })
    } else {
        Ok(())
    }
}

/// Finds the first command, in plan order, whose pixel falls off the
/// canvas, and reports its bounds error; `Ok` means every command is
/// within bounds.
fn first_bounds_error(cmds: &Vec<DrawCommand>, size: u32) -> (r: Result<(), BoundsError>)
    ensures
        (r is Ok) == (forall|k: int|
            0 <= k < cmds@.len() ==> cmd_in_bounds(#[trigger] cmds@[k], size as int)),
        r is Err ==> (exists|k: int|
            {
                &&& 0 <= k < cmds@.len()
                &&& !cmd_in_bounds(#[trigger] cmds@[k], size as int)
                &&& forall|t: int| 0 <= t < k ==> cmd_in_bounds(#[trigger] cmds@[t], size as int)
                &&& r->Err_0 == cmd_bounds_error(cmds@[k], size as int)
            }),
{
    let n = cmds.len();
    let mut k: usize = 0;
    while k < n
        invariant
            n == cmds@.len(),
            0 <= k <= n,
            forall|t: int| 0 <= t < k ==> cmd_in_bounds(#[trigger] cmds@[t], size as int),
        decreases n - k,
    {
        match check_cmd(&cmds[k], size) {
            Err(e) => {
                return Err(e);
            },
            Ok(()) => {},
        }
        k += 1;
    }
    Ok(())
}

impl AreaMap {
    /// Walks the registry in order and builds the render plan, with
    /// every drawn pixel checked against the canvas bounds: the plan
    /// is returned whole if and only if every projected coordinate
    /// lies within `[0, size]` on both axes; otherwise the first
    /// offending coordinate, in drawing order, is reported and no
    /// plan is handed out.
    pub fn draw(
        &self,
        config: &RenderConfig,
        show_labels: bool,
        fallback_centres: &Vec<Coord>,
    ) -> (r: Result<Vec<DrawCommand>, BoundsError>)
        requires
            self.wf(),
            config.wf(),
            show_labels ==> fallback_centres@.len() == self.data@.len() && (forall|i: int|
                0 <= i < fallback_centres@.len() ==> (#[trigger] fallback_centres@[i]).wf()),
        ensures
            ({
                let plan = map_cmds(self.data@, *config, show_labels, fallback_centres@);
                &&& (r is Ok) == (forall|k: int|
                    0 <= k < plan.len() ==> cmd_in_bounds(#[trigger] plan[k], config.size as int))
                &&& r is Ok ==> r->Ok_0@ == plan
                &&& r is Err ==> (exists|k: int|
                    {
                        &&& 0 <= k < plan.len()
                        &&& !cmd_in_bounds(#[trigger] plan[k], config.size as int)
                        &&& forall|t: int|
                            0 <= t < k ==> cmd_in_bounds(#[trigger] plan[t], config.size as int)
                        &&& r->Err_0 == cmd_bounds_error(plan[k], config.size as int)
                    })
            }),
    {
        let cmds = plan_commands(self, config, show_labels, fallback_centres);
        match first_bounds_error(&cmds, config.size) {
            Ok(()) => Ok(cmds),
            Err(e) => Err(e),
        }
    }

    /// `draw` with labels enabled: every area's label is anchored at
    /// its resolved centre.
    pub fn draw_with_labels(&self, config: &RenderConfig, fallback_centres: &Vec<Coord>) -> (r:
        Result<Vec<DrawCommand>, BoundsError>)
        requires
            self.wf(),
            config.wf(),
            fallback_centres@.len() == self.data@.len(),
            forall|i: int|
                0 <= i < fallback_centres@.len() ==> (#[trigger] fallback_centres@[i]).wf(),
        ensures
            ({
                let plan = map_cmds(self.data@, *config, true, fallback_centres@);
                &&& (r is Ok) == (forall|k: int|
                    0 <= k < plan.len() ==> cmd_in_bounds(#[trigger] plan[k], config.size as int))
                &&& r is Ok ==> r->Ok_0@ == plan
                &&& r is Err ==> (exists|k: int|
                    {
                        &&& 0 <= k < plan.len()
                        &&& !cmd_in_bounds(#[trigger] plan[k], config.size as int)
                        &&& forall|t: int|
                            0 <= t < k ==> cmd_in_bounds(#[trigger] plan[t], config.size as int)
                        &&& r->Err_0 == cmd_bounds_error(plan[k], config.size as int)
                    })
            }),
    {
        self.draw(config, true, fallback_centres)
    }
}

} // verus!
