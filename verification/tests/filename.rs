use census_areas::census_file_name_parse::country_code_to_string;
use census_areas::census_file_name_parse::geography_code_to_string;
use census_areas::census_file_name_parse::parse_filename;
use census_areas::census_file_name_parse::table_type_code_to_string;
use census_areas::strutil::contains_substr;
use census_areas::strutil::str_eq;
use census_areas::strutil::u64_to_string;

#[test]
fn table_codes_map_to_descriptions() {
    assert_eq!(table_type_code_to_string("QS").unwrap(), "Quick Statistics");
    assert_eq!(table_type_code_to_string("KS").unwrap(), "Key Statistics");
    assert_eq!(table_type_code_to_string("DC").unwrap(), "Detailed Characteristics");
    assert_eq!(table_type_code_to_string("LC").unwrap(), "Local Characteristics");
    assert_eq!(table_type_code_to_string("WD").unwrap(), "Workday Population");
    assert_eq!(table_type_code_to_string("WP").unwrap(), "Workplace Population Tables");
    assert_eq!(table_type_code_to_string("CT").unwrap(), "Commissioned Tables");
}

#[test]
fn table_code_of_wrong_length_is_rejected() {
    let e = table_type_code_to_string("QSX").unwrap_err();
    assert_eq!(e, "Table Code is not the correct amount of characters 3");
}

#[test]
fn unknown_table_code_is_rejected() {
    let e = table_type_code_to_string("ZZ").unwrap_err();
    assert_eq!(e, "Unknown table code ZZ");
}

#[test]
fn country_codes_map_to_descriptions() {
    assert_eq!(country_code_to_string("EW").unwrap(), "England & Wales");
    assert_eq!(country_code_to_string("WA").unwrap(), "Wales");
}

#[test]
fn country_code_of_wrong_length_is_rejected() {
    let e = country_code_to_string("E").unwrap_err();
    assert_eq!(e, "Country Code is not the correct amount of characters 1 ");
}

#[test]
fn unknown_country_code_is_rejected() {
    let e = country_code_to_string("XX").unwrap_err();
    assert_eq!(e, "Unknown country code: XX");
}

#[test]
fn geography_codes_map_to_descriptions() {
    assert_eq!(geography_code_to_string("r").unwrap(), "Region");
    assert_eq!(geography_code_to_string("la").unwrap(), "Merged Wards");
    assert_eq!(geography_code_to_string("ls").unwrap(), "Lower Level Super Output Area");
    assert_eq!(geography_code_to_string("xx").unwrap(), "");
}

#[test]
fn geography_code_of_wrong_length_is_rejected() {
    let e = geography_code_to_string("abc").unwrap_err();
    assert_eq!(e, "Geography Code is not the correct amount of characters 3");
}

#[test]
fn parse_filename_builds_description() {
    let r = parse_filename("census/QS0101EWDATA.CSV").unwrap();
    assert_eq!(r, "Quick Statistics - 0101 - England & Wales -  - QS0101EWDATA.CSV");
}

#[test]
fn parse_filename_without_path_prefix() {
    let r = parse_filename("KS0205WADATA.CSV").unwrap();
    assert_eq!(r, "Key Statistics - 0205 - Wales -  - KS0205WADATA.CSV");
}

#[test]
fn parse_filename_rejects_short_names() {
    let e = parse_filename("QS.CSV").unwrap_err();
    assert_eq!(e, "Name is not the correct amount of characters QS.CSV 6");
}

#[test]
fn parse_filename_requires_data_suffix() {
    let e = parse_filename("QS0101EWDAtA.CSV").unwrap_err();
    assert_eq!(e, "Invalid file");
}

#[test]
fn parse_filename_reports_unknown_table_code() {
    let e = parse_filename("ZZ0101EWDATA.CSV").unwrap_err();
    assert_eq!(e, "Unknown table code ZZ");
}

#[test]
fn parse_filename_reports_unknown_country_code() {
    let e = parse_filename("QS0101XXDATA.CSV").unwrap_err();
    assert_eq!(e, "Unknown country code: XX");
}

#[test]
fn decimal_rendering_is_exact() {
    assert_eq!(u64_to_string(0), "0");
    assert_eq!(u64_to_string(7), "7");
    assert_eq!(u64_to_string(45), "45");
    assert_eq!(u64_to_string(16384), "16384");
    assert_eq!(u64_to_string(1000000007), "1000000007");
}

#[test]
fn string_equality_is_by_characters() {
    assert!(str_eq("abc", "abc"));
    assert!(!str_eq("abc", "abd"));
    assert!(!str_eq("abc", "ab"));
    assert!(str_eq("", ""));
}

#[test]
fn substring_search_finds_needles() {
    assert!(contains_substr("QS0101EWDATA.CSV", "DATA.CSV"));
    assert!(contains_substr("abc", ""));
    assert!(!contains_substr("DATA.CS", "DATA.CSV"));
    assert!(!contains_substr("QS0101EWDAtA.CSV", "DATA.CSV"));
}
