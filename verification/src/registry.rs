//! The area registry of one loaded dataset: an ordered collection of
//! areas built in one pass over the dataset's (shape, attribute-record)
//! pairs. Loading is all-or-nothing: the first malformed record aborts
//! the whole load and no partial registry is handed out.

use vstd::prelude::*;
use crate::area::Area;
use crate::area::AreaError;
use crate::area::AttributeRecord;
use crate::area::area_error_matches;
use crate::area::field_text;
use crate::area::record_fields_ok;
use crate::boundary::copy_rings;
use crate::boundary::decompose_rings;
use crate::boundary::rings_seq;

verus! {

/// One input shape as handed to the loader: a polygon's raw ring list,
/// or a shape of any other kind, named for the error report.
#[derive(Clone, Debug)]
pub enum ShapeInput {
    Polygon { rings: Vec<Vec<crate::coords::Coord>> },
    Unsupported { kind: String },
}

/// Why a load aborted, naming the record at fault.
#[derive(Clone, Debug, PartialEq, Eq)]
pub enum LoadError {
    UnexpectedShape { index: usize, kind: String },
    EmptyRings { index: usize },
    BadField { index: usize, error: AreaError },
}

/// The ordered collection of areas of one loaded dataset. The min/max
/// extent fields are declared but never updated by the load path; this
/// is a known gap, kept and documented rather than silently fixed.
#[derive(Debug)]
pub struct AreaMap {
    pub data: Vec<Area>,
    pub min_x: i64,
    pub min_y: i64,
    pub max_x: i64,
    pub max_y: i64,
}

impl Default for AreaMap {
    /// An empty registry with the extent fields at their sentinel values.
    fn default() -> (m: AreaMap)
        ensures
            m.data@.len() == 0,
            m.min_x == i64::MAX,
            m.min_y == i64::MAX,
            m.max_x == i64::MIN,
            m.max_y == i64::MIN,
    {
        AreaMap {
            data: Vec::new(),
            min_x: i64::MAX,
            min_y: i64::MAX,
            max_x: i64::MIN,
            max_y: i64::MIN,
        }
    }
}

/// One (shape, record) pair is acceptable: the shape is a polygon with
/// at least one ring and all four required text fields are present.
pub open spec fn record_ok(s: ShapeInput, rec: AttributeRecord) -> bool {
    s matches ShapeInput::Polygon { rings } && rings@.len() > 0 && record_fields_ok(rec.fields@)
}

/// The area built for an acceptable (shape, record) pair: decomposed
/// boundary, validated fields, no cached centre.
pub open spec fn area_matches(a: Area, s: ShapeInput, rec: AttributeRecord) -> bool {
    s matches ShapeInput::Polygon { rings } && {
        &&& a.centre is None
        &&& a.boundary.exterior@ == rings_seq(rings@).last()
        &&& a.boundary.holes_seq() == rings_seq(rings@).drop_last()
        &&& a.label@ == field_text(rec.fields@, "label"@)
        &&& a.code@ == field_text(rec.fields@, "code"@)
        &&& a.name@ == field_text(rec.fields@, "name"@)
        &&& a.alt_name@ == field_text(rec.fields@, "altname"@)
    }
}

/// The load error reported for the record at index `i`: a non-polygon
/// shape names its kind, a polygon without rings is rejected as such,
/// and a field failure carries the area builder's error.
pub open spec fn record_error_matches(e: LoadError, i: int, s: ShapeInput, rec: AttributeRecord) -> bool
    recommends
        !record_ok(s, rec),
{
    match s {
        ShapeInput::Unsupported { kind } => e matches LoadError::UnexpectedShape {
            index,
            kind: k,
        } && index == i && k@ == kind@,
        ShapeInput::Polygon { rings } => {
            if rings@.len() == 0 {
                e matches LoadError::EmptyRings { index } && index == i
            } else {
                e matches LoadError::BadField { index, error } && index == i
                    && area_error_matches(error, rec.fields@)
            }
        },
    }
}

/// Every polygon vertex of every shape is small enough for projection.
pub open spec fn shapes_wf(shapes: Seq<(ShapeInput, AttributeRecord)>) -> bool {
    forall|i: int|
        0 <= i < shapes.len() ==> ((#[trigger] shapes[i].0) matches ShapeInput::Polygon { rings }
            ==> crate::boundary::ring_coords_wf(rings_seq(rings@)))
}

impl AreaMap {
    /// Every area of the registry is projectable.
    pub open spec fn wf(self) -> bool {
        forall|i: int| 0 <= i < self.data@.len() ==> (#[trigger] self.data@[i]).wf()
    }

    /// Builds the registry for one dataset from its (shape, record)
    /// pairs, in file order. The first unacceptable record aborts the
    /// whole load: either every pair is acceptable and every area is
    /// in the result, in order, or the error names the first record
    /// at fault and nothing is handed out.
    pub fn from_shapes(shapes: &Vec<(ShapeInput, AttributeRecord)>) -> (r: Result<
        AreaMap,
        LoadError,
    >)
        ensures
            (r is Ok) == (forall|i: int|
                0 <= i < shapes@.len() ==> record_ok(#[trigger] shapes@[i].0, shapes@[i].1)),
            r is Ok ==> ({
                let m = r->Ok_0;
                &&& m.data@.len() == shapes@.len()
                &&& forall|i: int|
                    0 <= i < shapes@.len() ==> area_matches(
                        #[trigger] m.data@[i],
                        shapes@[i].0,
                        shapes@[i].1,
                    )
                &&& m.min_x == i64::MAX && m.min_y == i64::MAX && m.max_x == i64::MIN && m.max_y
                    == i64::MIN
            }),
            r is Ok && shapes_wf(shapes@) ==> r->Ok_0.wf(),
            r is Err ==> (exists|i: int|
                {
                    &&& 0 <= i < shapes@.len()
                    &&& !record_ok(#[trigger] shapes@[i].0, shapes@[i].1)
                    &&& forall|j: int| 0 <= j < i ==> record_ok(#[trigger] shapes@[j].0, shapes@[j].1)
                    &&& record_error_matches(r->Err_0, i, shapes@[i].0, shapes@[i].1)
                }),
    {
        let mut data: Vec<Area> = Vec::new();
        let n = shapes.len();
        let mut i: usize = 0;
        while i < n
            invariant
                n == shapes@.len(),
                0 <= i <= n,
                data@.len() == i,
                forall|j: int| 0 <= j < i ==> record_ok(#[trigger] shapes@[j].0, shapes@[j].1),
                forall|j: int|
                    0 <= j < i ==> area_matches(#[trigger] data@[j], shapes@[j].0, shapes@[j].1),
                shapes_wf(shapes@) ==> forall|j: int| 0 <= j < i ==> (#[trigger] data@[j]).wf(),
            decreases n - i,
        {
            let pair = &shapes[i];
            match &pair.0 {
                ShapeInput::Unsupported { kind } => {
                    proof {
                        assert(!record_ok(shapes@[i as int].0, shapes@[i as int].1));
                    }
                    return Err(LoadError::UnexpectedShape { index: i, kind: kind.clone() });
                },
                ShapeInput::Polygon { rings } => {
                    let owned = copy_rings(rings);
                    match decompose_rings(owned) {
                        None => {
                            proof {
                                assert(!record_ok(shapes@[i as int].0, shapes@[i as int].1));
                            }
                            return Err(LoadError::EmptyRings { index: i });
                        },
                        Some(b) => match Area::new_from_record(&pair.1, b) {
                            Err(e) => {
                                proof {
                                    assert(!record_ok(shapes@[i as int].0, shapes@[i as int].1));
                                }
                                return Err(LoadError::BadField { index: i, error: e });
                            },
                            Ok(a) => {
                                proof {
                                    assert(area_matches(a, shapes@[i as int].0, shapes@[i as int].1));
                                }
                                data.push(a);
                            },
                        },
                    }
                },
            }
            i += 1;
        }
        Ok(
            AreaMap {
                data,
                min_x: i64::MAX,
                min_y: i64::MAX,
                max_x: i64::MIN,
                max_y: i64::MIN,
            },
        )
    }
}

} // verus!
