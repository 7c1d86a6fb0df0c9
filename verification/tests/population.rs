use census_areas::numparse::parse_u16;
use census_areas::population_and_density_per_output_area::AreaClassification;
use census_areas::population_and_density_per_output_area::ParsingErrorType;
use census_areas::population_and_density_per_output_area::PersonType;
use census_areas::population_and_density_per_output_area::PopulationRecord;
use census_areas::population_and_density_per_output_area::PopulationTable;
use census_areas::population_and_density_per_output_area::PreProcessingRecord;
use census_areas::population_and_density_per_output_area::SELECTED_COLUMNS;

fn row(
    name: &str,
    gtype: &str,
    rural: &str,
    cell: &str,
    measures: &str,
    obs: &str,
) -> PreProcessingRecord {
    PreProcessingRecord {
        geography_name: String::from(name),
        geography_type: String::from(gtype),
        rural_urban_name: String::from(rural),
        cell_name: String::from(cell),
        measures_name: String::from(measures),
        obs_value: String::from(obs),
        obs_status: String::from("A"),
        record_offset: 0,
        record_count: 1,
    }
}

#[test]
fn classification_names_parse_to_variants() {
    assert_eq!(
        AreaClassification::from_name("Urban (total)"),
        Some(AreaClassification::UrbanTotal)
    );
    assert_eq!(AreaClassification::from_name("UrbanTotal"), Some(AreaClassification::UrbanTotal));
    assert_eq!(AreaClassification::from_name("Total"), Some(AreaClassification::Total));
    assert_eq!(
        AreaClassification::from_name("Rural hamlet and isolated dwellings in a sparse setting"),
        Some(AreaClassification::RuralSparseHamlet)
    );
    assert_eq!(AreaClassification::from_name("Suburbia"), None);
}

#[test]
fn person_type_names_parse_to_variants() {
    assert_eq!(PersonType::from_name("All usual residents"), Some(PersonType::All));
    assert_eq!(PersonType::from_name("Males"), Some(PersonType::Male));
    assert_eq!(PersonType::from_name("Females"), Some(PersonType::Female));
    assert_eq!(
        PersonType::from_name("Lives in a communal establishment"),
        Some(PersonType::LivesInCommunalEstablishment)
    );
    assert_eq!(PersonType::from_name("Nobody"), None);
}

#[test]
fn classification_indexes_are_distinct() {
    assert_eq!(AreaClassification::Total.index(), 0);
    assert_eq!(AreaClassification::RuralSparseHamlet.index(), 12);
    assert_eq!(PersonType::All.index(), 0);
    assert_eq!(PersonType::Schoolchild.index(), 5);
}

#[test]
fn decimal_u16_parsing_is_exact() {
    assert_eq!(parse_u16("0"), Some(0));
    assert_eq!(parse_u16("123"), Some(123));
    assert_eq!(parse_u16("007"), Some(7));
    assert_eq!(parse_u16("+17"), Some(17));
    assert_eq!(parse_u16("65535"), Some(65535));
    assert_eq!(parse_u16("65536"), None);
    assert_eq!(parse_u16(""), None);
    assert_eq!(parse_u16("+"), None);
    assert_eq!(parse_u16("12a"), None);
    assert_eq!(parse_u16("-1"), None);
}

#[test]
fn table_cells_start_at_zero_and_update() {
    let mut t = PopulationTable::new();
    assert_eq!(t.get(AreaClassification::Total, PersonType::All), 0);
    t.set(AreaClassification::Total, PersonType::All, 1500);
    t.set(AreaClassification::RuralVillage, PersonType::Female, 7);
    assert_eq!(t.get(AreaClassification::Total, PersonType::All), 1500);
    assert_eq!(t.get(AreaClassification::RuralVillage, PersonType::Female), 7);
    assert_eq!(t.get(AreaClassification::RuralVillage, PersonType::Male), 0);
}

#[test]
fn one_unit_aggregates_counts_and_observations() {
    let rows = vec![
        row("E00000001", "OA", "Total", "Area (Hectares)", "Value", "123.5"),
        row(
            "E00000001",
            "OA",
            "Total",
            "Density (number of persons per hectare)",
            "Value",
            "4.2",
        ),
        row("E00000001", "OA", "Total", "All usual residents", "Value", "1500"),
        row("E00000001", "OA", "Urban (total)", "Males", "Value", "700"),
        row("E00000001", "OA", "Total", "All usual residents", "Confidence", "9999"),
    ];
    let r = PopulationRecord::try_from_records(&rows).unwrap();
    assert_eq!(r.geography_code, "E00000001");
    assert_eq!(r.geography_type, "OA");
    assert_eq!(r.area_size_text, Some(String::from("123.5")));
    assert_eq!(r.density_text, Some(String::from("4.2")));
    assert_eq!(r.population_counts.get(AreaClassification::Total, PersonType::All), 1500);
    assert_eq!(r.population_counts.get(AreaClassification::UrbanTotal, PersonType::Male), 700);
    assert_eq!(r.population_counts.get(AreaClassification::UrbanTotal, PersonType::Female), 0);
}

#[test]
fn empty_input_is_rejected() {
    let e = PopulationRecord::try_from_records(&vec![]).unwrap_err();
    assert_eq!(
        e.error_type,
        ParsingErrorType::InvalidDataType(String::from("Array is empty"))
    );
    assert_eq!(
        e.context,
        Some(String::from("Need at least one record, to build a Population Record"))
    );
}

#[test]
fn mismatching_geography_code_is_rejected_with_context() {
    let rows = vec![
        row("E00000001", "OA", "Total", "All usual residents", "Value", "10"),
        row("E00000002", "OA", "Total", "All usual residents", "Value", "11"),
    ];
    let e = PopulationRecord::try_from_records(&rows).unwrap_err();
    assert_eq!(e.error_type, ParsingErrorType::InvalidDataType(String::from("E00000002")));
    assert_eq!(
        e.context,
        Some(String::from("Mis matching geography codes: E00000001 and E00000002"))
    );
}

#[test]
fn mismatching_geography_type_is_rejected_with_context() {
    let rows = vec![
        row("E00000001", "OA", "Total", "All usual residents", "Value", "10"),
        row("E00000001", "LSOA", "Total", "All usual residents", "Value", "11"),
    ];
    let e = PopulationRecord::try_from_records(&rows).unwrap_err();
    assert_eq!(e.error_type, ParsingErrorType::InvalidDataType(String::from("LSOA")));
    assert_eq!(
        e.context,
        Some(String::from("Mis matching geography type: OA and LSOA"))
    );
}

#[test]
fn unknown_classification_is_rejected() {
    let rows = vec![row("E00000001", "OA", "Suburbia", "Males", "Value", "10")];
    let e = PopulationRecord::try_from_records(&rows).unwrap_err();
    assert_eq!(e.error_type, ParsingErrorType::InvalidClassification(String::from("Suburbia")));
    assert_eq!(e.context, None);
}

#[test]
fn unknown_person_type_is_rejected() {
    let rows = vec![row("E00000001", "OA", "Total", "Martians", "Value", "10")];
    let e = PopulationRecord::try_from_records(&rows).unwrap_err();
    assert_eq!(e.error_type, ParsingErrorType::InvalidClassification(String::from("Martians")));
    assert_eq!(e.context, None);
}

#[test]
fn unparsable_count_is_rejected() {
    let rows = vec![row("E00000001", "OA", "Total", "Males", "Value", "12x4")];
    let e = PopulationRecord::try_from_records(&rows).unwrap_err();
    assert_eq!(e.error_type, ParsingErrorType::InvalidNumber(String::from("12x4")));
}

#[test]
fn overflowing_count_is_rejected() {
    let rows = vec![row("E00000001", "OA", "Total", "Males", "Value", "70000")];
    let e = PopulationRecord::try_from_records(&rows).unwrap_err();
    assert_eq!(e.error_type, ParsingErrorType::InvalidNumber(String::from("70000")));
}

#[test]
fn selected_columns_are_stable() {
    assert!(SELECTED_COLUMNS.starts_with("GEOGRAPHY_NAME,"));
    assert!(SELECTED_COLUMNS.ends_with(",RECORD_COUNT"));
}
