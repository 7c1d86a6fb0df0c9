//! Ring decomposition: a raw multi-ring polygon becomes one exterior ring
//! plus zero or more hole rings. The ring that comes last in source order
//! is taken as the exterior; this position-based rule is deliberate and
//! is not geometrically validated (a winding-order or largest-area rule
//! would change the output on inputs where the exterior is not last).

use vstd::prelude::*;
use crate::coords::Coord;

verus! {

/// One reconstructed polygon boundary: the exterior ring and the holes,
/// in source order.
#[derive(Clone, Debug)]
pub struct Boundary {
    pub exterior: Vec<Coord>,
    pub holes: Vec<Vec<Coord>>,
}

/// Every coordinate of every ring is small enough for projection.
pub open spec fn ring_coords_wf(rings: Seq<Seq<Coord>>) -> bool {
    forall|i: int, j: int|
        0 <= i < rings.len() && 0 <= j < rings[i].len() ==> (#[trigger] rings[i][j]).wf()
}

impl Boundary {
    /// The holes as a sequence of vertex sequences.
    pub open spec fn holes_seq(self) -> Seq<Seq<Coord>> {
        self.holes@.map_values(|h: Vec<Coord>| h@)
    }

    /// All vertices are small enough for projection arithmetic.
    pub open spec fn coords_wf(self) -> bool {
        &&& forall|i: int| 0 <= i < self.exterior@.len() ==> (#[trigger] self.exterior@[i]).wf()
        &&& ring_coords_wf(self.holes_seq())
    }

    /// The stated invariant of a reconstructed boundary: the exterior
    /// ring is non-empty, and all vertices are projectable.
    pub open spec fn wf(self) -> bool {
        &&& self.exterior@.len() > 0
        &&& self.coords_wf()
    }
}

/// The vertex sequences of a vector of rings.
pub open spec fn rings_seq(rings: Seq<Vec<Coord>>) -> Seq<Seq<Coord>> {
    rings.map_values(|r: Vec<Coord>| r@)
}

/// A vertex-for-vertex copy of one ring.
pub fn copy_ring(r: &Vec<Coord>) -> (out: Vec<Coord>)
    ensures
        out@ == r@,
{
    let mut out: Vec<Coord> = Vec::new();
    let n = r.len();
    let mut i: usize = 0;
    while i < n
        invariant
            n == r@.len(),
            0 <= i <= n,
            out@ == r@.take(i as int),
        decreases n - i,
    {
        out.push(r[i]);
        proof {
            assert(out@ =~= r@.take(i + 1));
        }
        i += 1;
    }
    proof {
        assert(r@.take(n as int) =~= r@);
    }
    out
}

/// A ring-for-ring, vertex-for-vertex copy of a ring list.
pub fn copy_rings(r: &Vec<Vec<Coord>>) -> (out: Vec<Vec<Coord>>)
    ensures
        rings_seq(out@) == rings_seq(r@),
        out@.len() == r@.len(),
{
    let mut out: Vec<Vec<Coord>> = Vec::new();
    let n = r.len();
    let mut i: usize = 0;
    while i < n
        invariant
            n == r@.len(),
            0 <= i <= n,
            out@.len() == i,
            forall|j: int| 0 <= j < i ==> (#[trigger] out@[j])@ == r@[j]@,
        decreases n - i,
    {
        out.push(copy_ring(&r[i]));
        i += 1;
    }
    proof {
        assert(rings_seq(out@) =~= rings_seq(r@));
    }
    out
}

/// Splits a polygon's raw ring list into one exterior ring and the
/// holes. At least one ring is required; with exactly one ring there
/// are no holes, with several the ring last in source order becomes
/// the exterior and every other ring a hole.
pub fn decompose_rings(rings: Vec<Vec<Coord>>) -> (r: Option<Boundary>)
    ensures
        (r is Some) == (rings@.len() > 0),
        r is Some ==> ({
            let b = r->0;
            &&& b.exterior@ == rings_seq(rings@).last()
            &&& b.holes_seq() == rings_seq(rings@).drop_last()
        }),
        rings@.len() == 1 ==> ({
            let b = r->0;
            b.holes@.len() == 0 && b.exterior@ == rings_seq(rings@)[0]
        }),
        rings@.len() > 1 ==> ({
            let b = r->0;
            &&& b.holes@.len() == rings@.len() - 1
            &&& b.exterior@ == rings_seq(rings@)[rings@.len() - 1]
            &&& forall|i: int|
                0 <= i < rings@.len() - 1 ==> b.holes_seq()[i] == rings_seq(rings@)[i]
        }),
        r is Some && ring_coords_wf(rings_seq(rings@)) ==> r->0.coords_wf(),
{
    let ghost orig = rings@;
    let mut rings = rings;
    match rings.pop() {
        None => None,
        Some(exterior) => {
            let b = Boundary { exterior, holes: rings };
            proof {
                assert(b.holes_seq() =~= rings_seq(orig).drop_last());
                assert(b.exterior@ == rings_seq(orig).last());
                if ring_coords_wf(rings_seq(orig)) {
                    assert forall|i: int| 0 <= i < b.exterior@.len() implies (
                    #[trigger] b.exterior@[i]).wf() by {
                        assert(rings_seq(orig)[orig.len() - 1][i] == b.exterior@[i]);
                    }
                    assert forall|i: int, j: int|
                        0 <= i < b.holes_seq().len() && 0 <= j < b.holes_seq()[i].len() implies (
                    #[trigger] b.holes_seq()[i][j]).wf() by {
                        assert(rings_seq(orig)[i][j] == b.holes_seq()[i][j]);
                    }
                }
            }
            Some(b)
        },
    }
}

} // verus!
