use census_areas::area::AreaError;
use census_areas::area::AttributeRecord;
use census_areas::area::FieldContent;
use census_areas::coords::BoundsError;
use census_areas::coords::Coord;
use census_areas::coords::RenderConfig;
use census_areas::registry::AreaMap;
use census_areas::registry::LoadError;
use census_areas::registry::ShapeInput;
use census_areas::render::DrawCommand;

fn c(x: i64, y: i64) -> Coord {
    Coord { x, y }
}

fn square() -> Vec<Coord> {
    vec![c(75000, 1000), c(75045, 1000), c(75045, 1045), c(75000, 1045)]
}

fn record(code: &str) -> AttributeRecord {
    AttributeRecord {
        fields: vec![
            (String::from("label"), FieldContent::Text(Some(String::from("L")))),
            (String::from("code"), FieldContent::Text(Some(String::from(code)))),
            (String::from("name"), FieldContent::Text(Some(String::from("N")))),
            (String::from("altname"), FieldContent::Text(Some(String::from("A")))),
        ],
    }
}

fn polygon(rings: Vec<Vec<Coord>>) -> ShapeInput {
    ShapeInput::Polygon { rings }
}

#[test]
fn default_registry_is_empty_with_sentinel_extent() {
    let m = AreaMap::default();
    assert!(m.data.is_empty());
    assert_eq!(m.min_x, i64::MAX);
    assert_eq!(m.min_y, i64::MAX);
    assert_eq!(m.max_x, i64::MIN);
    assert_eq!(m.max_y, i64::MIN);
}

#[test]
fn loading_keeps_areas_in_file_order() {
    let shapes = vec![
        (polygon(vec![square()]), record("W1")),
        (polygon(vec![square()]), record("W2")),
    ];
    let m = AreaMap::from_shapes(&shapes).unwrap();
    assert_eq!(m.data.len(), 2);
    assert_eq!(m.data[0].code, "W1");
    assert_eq!(m.data[1].code, "W2");
    assert_eq!(m.min_x, i64::MAX);
    assert_eq!(m.max_y, i64::MIN);
}

#[test]
fn one_non_polygon_shape_aborts_the_whole_load() {
    let shapes = vec![
        (polygon(vec![square()]), record("W1")),
        (ShapeInput::Unsupported { kind: String::from("Point") }, record("W2")),
        (polygon(vec![square()]), record("W3")),
    ];
    let e = AreaMap::from_shapes(&shapes).unwrap_err();
    assert_eq!(e, LoadError::UnexpectedShape { index: 1, kind: String::from("Point") });
}

#[test]
fn polygon_without_rings_aborts_the_load() {
    let shapes = vec![(polygon(vec![]), record("W1"))];
    let e = AreaMap::from_shapes(&shapes).unwrap_err();
    assert_eq!(e, LoadError::EmptyRings { index: 0 });
}

#[test]
fn missing_field_aborts_the_load_naming_the_field() {
    let bad = AttributeRecord {
        fields: vec![
            (String::from("label"), FieldContent::Text(Some(String::from("L")))),
            (String::from("name"), FieldContent::Text(Some(String::from("N")))),
            (String::from("altname"), FieldContent::Text(Some(String::from("A")))),
        ],
    };
    let shapes = vec![
        (polygon(vec![square()]), record("W1")),
        (polygon(vec![square()]), bad),
    ];
    let e = AreaMap::from_shapes(&shapes).unwrap_err();
    assert_eq!(
        e,
        LoadError::BadField {
            index: 1,
            error: AreaError::MissingField { field: String::from("code") },
        }
    );
}

#[test]
fn draw_marks_every_exterior_vertex() {
    let shapes = vec![(polygon(vec![square()]), record("W1"))];
    let m = AreaMap::from_shapes(&shapes).unwrap();
    let cfg = RenderConfig::default();
    let plan = m.draw(&cfg, false, &vec![]).unwrap();
    assert_eq!(
        plan,
        vec![
            DrawCommand::ExteriorVertex { x: 0, y: 16384 },
            DrawCommand::ExteriorVertex { x: 1, y: 16384 },
            DrawCommand::ExteriorVertex { x: 1, y: 16383 },
            DrawCommand::ExteriorVertex { x: 0, y: 16383 },
        ]
    );
}

#[test]
fn hole_vertices_get_their_own_marker() {
    let hole = vec![c(75015, 1015), c(75030, 1015)];
    let shapes = vec![(polygon(vec![hole, square()]), record("W1"))];
    let m = AreaMap::from_shapes(&shapes).unwrap();
    let cfg = RenderConfig::default();
    let plan = m.draw(&cfg, false, &vec![]).unwrap();
    assert_eq!(plan.len(), 6);
    assert_eq!(plan[0], DrawCommand::ExteriorVertex { x: 0, y: 16384 });
    assert_eq!(plan[4], DrawCommand::HoleVertex { x: 0, y: 16384 });
    assert_eq!(plan[5], DrawCommand::HoleVertex { x: 0, y: 16384 });
}

#[test]
fn out_of_canvas_vertex_aborts_the_draw() {
    let ring = vec![c(75000, 1000), c(74910, 1000)];
    let shapes = vec![(polygon(vec![ring]), record("W1"))];
    let m = AreaMap::from_shapes(&shapes).unwrap();
    let cfg = RenderConfig::default();
    let e = m.draw(&cfg, false, &vec![]).unwrap_err();
    assert_eq!(e, BoundsError::XTooSmall { pixel: -2 });
}

#[test]
fn labels_are_anchored_at_the_cached_centre() {
    let shapes = vec![(polygon(vec![square()]), record("W1"))];
    let mut m = AreaMap::from_shapes(&shapes).unwrap();
    m.data[0].find_centre_point(c(75045, 1045));
    let cfg = RenderConfig::default();
    let plan = m.draw_with_labels(&cfg, &vec![c(75000, 1000)]).unwrap();
    // The cached centre wins over the offered fallback.
    assert_eq!(plan[0], DrawCommand::Label { text: String::from("L"), x: 1, y: 16383 });
    assert_eq!(plan.len(), 5);
}

#[test]
fn labels_fall_back_to_the_computed_centre() {
    let shapes = vec![(polygon(vec![square()]), record("W1"))];
    let m = AreaMap::from_shapes(&shapes).unwrap();
    let cfg = RenderConfig::default();
    let plan = m.draw_with_labels(&cfg, &vec![c(75045, 1000)]).unwrap();
    assert_eq!(plan[0], DrawCommand::Label { text: String::from("L"), x: 1, y: 16384 });
}
