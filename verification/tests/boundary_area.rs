use census_areas::area::Area;
use census_areas::area::AreaError;
use census_areas::area::AttributeRecord;
use census_areas::area::FieldContent;
use census_areas::boundary::decompose_rings;
use census_areas::coords::Coord;

fn c(x: i64, y: i64) -> Coord {
    Coord { x, y }
}

fn square() -> Vec<Coord> {
    vec![c(75000, 1000), c(75045, 1000), c(75045, 1045), c(75000, 1045)]
}

fn text_field(name: &str, value: &str) -> (String, FieldContent) {
    (String::from(name), FieldContent::Text(Some(String::from(value))))
}

fn full_record() -> AttributeRecord {
    AttributeRecord {
        fields: vec![
            text_field("label", "W1"),
            text_field("code", "W04000001"),
            text_field("name", "Ward One"),
            text_field("altname", "Ward Un"),
        ],
    }
}

#[test]
fn single_ring_becomes_exterior_with_no_holes() {
    let b = decompose_rings(vec![square()]).unwrap();
    assert_eq!(b.exterior, square());
    assert!(b.holes.is_empty());
}

#[test]
fn last_ring_becomes_exterior_and_the_rest_holes() {
    let r1 = vec![c(75005, 1005), c(75010, 1005), c(75010, 1010)];
    let r2 = vec![c(75020, 1020), c(75025, 1020), c(75025, 1025)];
    let b = decompose_rings(vec![r1.clone(), r2.clone(), square()]).unwrap();
    assert_eq!(b.exterior, square());
    assert_eq!(b.holes.len(), 2);
    assert_eq!(b.holes[0], r1);
    assert_eq!(b.holes[1], r2);
}

#[test]
fn empty_ring_list_is_rejected() {
    assert!(decompose_rings(vec![]).is_none());
}

#[test]
fn area_is_built_from_a_full_record() {
    let b = decompose_rings(vec![square()]).unwrap();
    let a = Area::new_from_record(&full_record(), b).unwrap();
    assert!(a.centre.is_none());
    assert_eq!(a.label, "W1");
    assert_eq!(a.code, "W04000001");
    assert_eq!(a.name, "Ward One");
    assert_eq!(a.alt_name, "Ward Un");
    assert_eq!(a.boundary.exterior, square());
}

#[test]
fn null_text_field_reads_as_empty_string() {
    let b = decompose_rings(vec![square()]).unwrap();
    let rec = AttributeRecord {
        fields: vec![
            (String::from("label"), FieldContent::Text(None)),
            text_field("code", "X"),
            text_field("name", "N"),
            text_field("altname", "A"),
        ],
    };
    let a = Area::new_from_record(&rec, b).unwrap();
    assert_eq!(a.label, "");
}

#[test]
fn missing_code_field_fails_naming_code() {
    let b = decompose_rings(vec![square()]).unwrap();
    let rec = AttributeRecord {
        fields: vec![
            text_field("label", "W1"),
            text_field("name", "Ward One"),
            text_field("altname", "Ward Un"),
        ],
    };
    let e = Area::new_from_record(&rec, b).unwrap_err();
    assert_eq!(e, AreaError::MissingField { field: String::from("code") });
}

#[test]
fn wrong_typed_field_fails_naming_the_field() {
    let b = decompose_rings(vec![square()]).unwrap();
    let rec = AttributeRecord {
        fields: vec![
            (String::from("label"), FieldContent::Other),
            text_field("code", "X"),
            text_field("name", "N"),
            text_field("altname", "A"),
        ],
    };
    let e = Area::new_from_record(&rec, b).unwrap_err();
    assert_eq!(e, AreaError::WrongFieldType { field: String::from("label") });
}

#[test]
fn caching_accessor_stores_and_keeps_first_value() {
    let b = decompose_rings(vec![square()]).unwrap();
    let mut a = Area::new_from_record(&full_record(), b).unwrap();
    assert_eq!(a.cached_centre(), None);
    let first = a.find_centre_point(c(75020, 1020));
    assert_eq!(first, c(75020, 1020));
    assert_eq!(a.cached_centre(), Some(c(75020, 1020)));
    // A second call returns the stored value, whatever is offered.
    let second = a.find_centre_point(c(99999, 99999));
    assert_eq!(second, first);
    assert_eq!(a.cached_centre(), Some(first));
}

#[test]
fn non_caching_accessor_stores_nothing() {
    let b = decompose_rings(vec![square()]).unwrap();
    let a = Area::new_from_record(&full_record(), b).unwrap();
    let got = a.get_centre_point(c(75020, 1020));
    assert_eq!(got, c(75020, 1020));
    assert_eq!(a.cached_centre(), None);
}

#[test]
fn both_accessors_agree_on_the_cached_value() {
    let b = decompose_rings(vec![square()]).unwrap();
    let mut a = Area::new_from_record(&full_record(), b).unwrap();
    let cached = a.find_centre_point(c(75020, 1020));
    assert_eq!(a.get_centre_point(c(11111, 11111)), cached);
    assert_eq!(a.find_centre_point(c(22222, 22222)), cached);
}
