//! Aggregation of flat census rows into one population record per
//! geographic unit: categorical counts keyed by area classification and
//! person type, plus the area-size and density observations. The fold
//! is all-or-nothing: the first row that mismatches or fails to parse
//! aborts the whole record.

use vstd::prelude::*;
use vstd::pervasive::VecAdditionalExecFns;
use vstd::string::StringExecFns;
use crate::numparse::parse_u16;
use crate::numparse::u16_str_value;
use crate::numparse::valid_u16_str;
use crate::strutil::str_eq;

verus! {

/// The columns selected from the source table, in source order.
pub const SELECTED_COLUMNS: &'static str =
    "GEOGRAPHY_NAME,GEOGRAPHY_TYPE,RURAL_URBAN_NAME,RURAL_URBAN_TYPECODE,CELL_NAME,MEASURES_NAME,OBS_VALUE,OBS_STATUS,RECORD_OFFSET,RECORD_COUNT";

/// One flat row of the source table, before aggregation.
#[derive(Clone, Debug)]
pub struct PreProcessingRecord {
    pub geography_name: String,
    pub geography_type: String,
    pub rural_urban_name: String,
    pub cell_name: String,
    pub measures_name: String,
    pub obs_value: String,
    pub obs_status: String,
    pub record_offset: u32,
    pub record_count: u32,
}

/// The rural/urban classification of an area.
#[derive(Clone, Copy, Debug, PartialEq, Eq, Structural)]
pub enum AreaClassification {
    Total,
    UrbanTotal,
    UrbanMajorConurbation,
    UrbanMinorConurbation,
    UrbanCity,
    UrbanSparseTownCity,
    RuralTotal,
    RuralTown,
    RuralSparseTown,
    RuralVillage,
    RuralSparseVillage,
    RuralHamlet,
    RuralSparseHamlet,
}

/// Number of area classifications.
pub const AREA_CLASSIFICATION_COUNT: usize = 13;

/// Number of person types.
pub const PERSON_TYPE_COUNT: usize = 6;

impl AreaClassification {
    /// The classification's position in the count table.
    pub open spec fn index_spec(self) -> int {
        match self {
            AreaClassification::Total => 0,
            AreaClassification::UrbanTotal => 1,
            AreaClassification::UrbanMajorConurbation => 2,
            AreaClassification::UrbanMinorConurbation => 3,
            AreaClassification::UrbanCity => 4,
            AreaClassification::UrbanSparseTownCity => 5,
            AreaClassification::RuralTotal => 6,
            AreaClassification::RuralTown => 7,
            AreaClassification::RuralSparseTown => 8,
            AreaClassification::RuralVillage => 9,
            AreaClassification::RuralSparseVillage => 10,
            AreaClassification::RuralHamlet => 11,
            AreaClassification::RuralSparseHamlet => 12,
        }
    }

    /// The classification's position in the count table.
    pub fn index(self) -> (r: usize)
        ensures
            r == self.index_spec(),
            r < AREA_CLASSIFICATION_COUNT,
    {
        match self {
            AreaClassification::Total => 0,
            AreaClassification::UrbanTotal => 1,
            AreaClassification::UrbanMajorConurbation => 2,
            AreaClassification::UrbanMinorConurbation => 3,
            AreaClassification::UrbanCity => 4,
            AreaClassification::UrbanSparseTownCity => 5,
            AreaClassification::RuralTotal => 6,
            AreaClassification::RuralTown => 7,
            AreaClassification::RuralSparseTown => 8,
            AreaClassification::RuralVillage => 9,
            AreaClassification::RuralSparseVillage => 10,
            AreaClassification::RuralHamlet => 11,
            AreaClassification::RuralSparseHamlet => 12,
        }
    }
}

/// The display names accepted for an area classification: the
/// identifier itself or the descriptive name used by the source table.
pub open spec fn spec_area_classification(s: Seq<char>) -> Option<AreaClassification> {
    if s == "Total"@ {
        Some(AreaClassification::Total)
    } else if s == "UrbanTotal"@ || s == "Urban (total)"@ {
        Some(AreaClassification::UrbanTotal)
    } else if s == "UrbanMajorConurbation"@ || s == "Urban major conurbation"@ {
        Some(AreaClassification::UrbanMajorConurbation)
    } else if s == "UrbanMinorConurbation"@ || s == "Urban minor conurbation"@ {
        Some(AreaClassification::UrbanMinorConurbation)
    } else if s == "UrbanCity"@ || s == "Urban city and town"@ {
        Some(AreaClassification::UrbanCity)
    } else if s == "UrbanSparseTownCity"@ || s == "Urban city and town in a sparse setting"@ {
        Some(AreaClassification::UrbanSparseTownCity)
    } else if s == "RuralTotal"@ || s == "Rural (total)"@ {
        Some(AreaClassification::RuralTotal)
    } else if s == "RuralTown"@ || s == "Rural town and fringe"@ {
        Some(AreaClassification::RuralTown)
    } else if s == "RuralSparseTown"@ || s == "Rural town and fringe in a sparse setting"@ {
        Some(AreaClassification::RuralSparseTown)
    } else if s == "RuralVillage"@ || s == "Rural village"@ {
        Some(AreaClassification::RuralVillage)
    } else if s == "RuralSparseVillage"@ || s == "Rural village in a sparse setting"@ {
        Some(AreaClassification::RuralSparseVillage)
    } else if s == "RuralHamlet"@ || s == "Rural hamlet and isolated dwellings"@ {
        Some(AreaClassification::RuralHamlet)
    } else if s == "RuralSparseHamlet"@
        || s == "Rural hamlet and isolated dwellings in a sparse setting"@ {
        Some(AreaClassification::RuralSparseHamlet)
    } else {
        None
    }
}

impl AreaClassification {
    /// Parses a display name, accepting the identifier or the
    /// descriptive name of the source table.
    pub fn from_name(s: &str) -> (r: Option<AreaClassification>)
        ensures
            r == spec_area_classification(s@),
    {
        if str_eq(s, "Total") {
            Some(AreaClassification::Total)
        } else if str_eq(s, "UrbanTotal") || str_eq(s, "Urban (total)") {
            Some(AreaClassification::UrbanTotal)
        } else if str_eq(s, "UrbanMajorConurbation") || str_eq(s, "Urban major conurbation") {
            Some(AreaClassification::UrbanMajorConurbation)
        } else if str_eq(s, "UrbanMinorConurbation") || str_eq(s, "Urban minor conurbation") {
            Some(AreaClassification::UrbanMinorConurbation)
        } else if str_eq(s, "UrbanCity") || str_eq(s, "Urban city and town") {
            Some(AreaClassification::UrbanCity)
        } else if str_eq(s, "UrbanSparseTownCity") || str_eq(
            s,
            "Urban city and town in a sparse setting",
        ) {
            Some(AreaClassification::UrbanSparseTownCity)
        } else if str_eq(s, "RuralTotal") || str_eq(s, "Rural (total)") {
            Some(AreaClassification::RuralTotal)
        } else if str_eq(s, "RuralTown") || str_eq(s, "Rural town and fringe") {
            Some(AreaClassification::RuralTown)
        } else if str_eq(s, "RuralSparseTown") || str_eq(
            s,
            "Rural town and fringe in a sparse setting",
        ) {
            Some(AreaClassification::RuralSparseTown)
        } else if str_eq(s, "RuralVillage") || str_eq(s, "Rural village") {
            Some(AreaClassification::RuralVillage)
        } else if str_eq(s, "RuralSparseVillage") || str_eq(
            s,
            "Rural village in a sparse setting",
        ) {
            Some(AreaClassification::RuralSparseVillage)
        } else if str_eq(s, "RuralHamlet") || str_eq(s, "Rural hamlet and isolated dwellings") {
            Some(AreaClassification::RuralHamlet)
        } else if str_eq(s, "RuralSparseHamlet") || str_eq(
            s,
            "Rural hamlet and isolated dwellings in a sparse setting",
        ) {
            Some(AreaClassification::RuralSparseHamlet)
        } else {
            None
        }
    }
}

/// The person or household population a count speaks of.
#[derive(Clone, Copy, Debug, PartialEq, Eq, Structural)]
pub enum PersonType {
    All,
    Male,
    Female,
    LivesInHousehold,
    LivesInCommunalEstablishment,
    Schoolchild,
}

impl PersonType {
    /// The person type's position in the count table.
    pub open spec fn index_spec(self) -> int {
        match self {
            PersonType::All => 0,
            PersonType::Male => 1,
            PersonType::Female => 2,
            PersonType::LivesInHousehold => 3,
            PersonType::LivesInCommunalEstablishment => 4,
            PersonType::Schoolchild => 5,
        }
    }

    /// The person type's position in the count table.
    pub fn index(self) -> (r: usize)
        ensures
            r == self.index_spec(),
            r < PERSON_TYPE_COUNT,
    {
        match self {
            PersonType::All => 0,
            PersonType::Male => 1,
            PersonType::Female => 2,
            PersonType::LivesInHousehold => 3,
            PersonType::LivesInCommunalEstablishment => 4,
            PersonType::Schoolchild => 5,
        }
    }
}

/// The display names accepted for a person type: the identifier itself
/// or the descriptive name used by the source table.
pub open spec fn spec_person_type(s: Seq<char>) -> Option<PersonType> {
    if s == "All"@ || s == "All usual residents"@ {
        Some(PersonType::All)
    } else if s == "Male"@ || s == "Males"@ {
        Some(PersonType::Male)
    } else if s == "Female"@ || s == "Females"@ {
        Some(PersonType::Female)
    } else if s == "LivesInHousehold"@ || s == "Lives in a household"@ {
        Some(PersonType::LivesInHousehold)
    } else if s == "LivesInCommunalEstablishment"@ || s == "Lives in a communal establishment"@ {
        Some(PersonType::LivesInCommunalEstablishment)
    } else if s == "Schoolchild"@
        || s == "Schoolchild or full-time student aged 4 and over at their non term-time address"@ {
        Some(PersonType::Schoolchild)
    } else {
        None
    }
}

impl PersonType {
    /// Parses a display name, accepting the identifier or the
    /// descriptive name of the source table.
    pub fn from_name(s: &str) -> (r: Option<PersonType>)
        ensures
            r == spec_person_type(s@),
    {
        if str_eq(s, "All") || str_eq(s, "All usual residents") {
            Some(PersonType::All)
        } else if str_eq(s, "Male") || str_eq(s, "Males") {
            Some(PersonType::Male)
        } else if str_eq(s, "Female") || str_eq(s, "Females") {
            Some(PersonType::Female)
        } else if str_eq(s, "LivesInHousehold") || str_eq(s, "Lives in a household") {
            Some(PersonType::LivesInHousehold)
        } else if str_eq(s, "LivesInCommunalEstablishment") || str_eq(
            s,
            "Lives in a communal establishment",
        ) {
            Some(PersonType::LivesInCommunalEstablishment)
        } else if str_eq(s, "Schoolchild") || str_eq(
            s,
            "Schoolchild or full-time student aged 4 and over at their non term-time address",
        ) {
            Some(PersonType::Schoolchild)
        } else {
            None
        }
    }
}

/// A total table of counts keyed by (area classification, person
/// type), stored row-major.
#[derive(Clone, Debug)]
pub struct PopulationTable {
    pub counts: Vec<u16>,
}

/// The flat position of one (area classification, person type) cell.
pub open spec fn cell_index(a: AreaClassification, p: PersonType) -> int {
    a.index_spec() * 6 + p.index_spec()
}

impl PopulationTable {
    /// The table covers every (classification, person type) pair.
    pub open spec fn wf(self) -> bool {
        self.counts@.len() == 78
    }

    /// The count stored for one pair.
    pub open spec fn at(self, a: AreaClassification, p: PersonType) -> u16 {
        self.counts@[cell_index(a, p)]
    }

    /// An all-zero table.
    pub fn new() -> (t: PopulationTable)
        ensures
            t.wf(),
            t.counts@ =~= Seq::new(78, |i: int| 0u16),
    {
        let mut counts: Vec<u16> = Vec::new();
        let mut i: usize = 0;
        while i < 78
            invariant
                0 <= i <= 78,
                counts@ =~= Seq::new(i as nat, |k: int| 0u16),
            decreases 78 - i,
        {
            counts.push(0);
            proof {
                assert(counts@ =~= Seq::new((i + 1) as nat, |k: int| 0u16));
            }
            i += 1;
        }
        PopulationTable { counts }
    }

    /// Reads one cell.
    pub fn get(&self, a: AreaClassification, p: PersonType) -> (v: u16)
        requires
            self.wf(),
        ensures
            v == self.at(a, p),
    {
        let idx = a.index() * 6 + p.index();
        self.counts[idx]
    }

    /// Writes one cell, leaving every other cell unchanged.
    pub fn set(&mut self, a: AreaClassification, p: PersonType, v: u16)
        requires
            old(self).wf(),
        ensures
            final(self).wf(),
            final(self).counts@ == old(self).counts@.update(cell_index(a, p), v),
            final(self).at(a, p) == v,
    {
        let idx = a.index() * 6 + p.index();
        self.counts.set(idx, v);
    }
}

/// Why a row was rejected during aggregation.
#[derive(Clone, Debug, PartialEq, Eq)]
pub enum ParsingErrorType {
    InvalidDataType(String),
    InvalidClassification(String),
    InvalidNumber(String),
}

/// A rejected row, with optional context for the report.
#[derive(Clone, Debug, PartialEq, Eq)]
pub struct ParsingError {
    pub error_type: ParsingErrorType,
    pub context: Option<String>,
}

impl ParsingError {
    pub fn new(error_type: ParsingErrorType, context: Option<String>) -> (e: ParsingError)
        ensures
            e.error_type == error_type,
            e.context == context,
    {
        ParsingError { error_type, context }
    }
}

/// One aggregated population record per geographic unit. The area-size
/// and density observations are kept as their raw text, exactly as the
/// source table carried them; `None` means no such row was seen.
#[derive(Clone, Debug)]
pub struct PopulationRecord {
    pub geography_code: String,
    pub geography_type: String,
    pub area_size_text: Option<String>,
    pub density_text: Option<String>,
    pub population_counts: PopulationTable,
}

/// The aggregation state: the count table and the two observations.
pub struct TableFold {
    pub counts: Seq<u16>,
    pub area_text: Option<Seq<char>>,
    pub density_text: Option<Seq<char>>,
}

/// How one row can fail the fold.
pub enum FoldError {
    GeoCodeMismatch { name: Seq<char> },
    GeoTypeMismatch { gtype: Seq<char> },
    BadAreaClassification { name: Seq<char> },
    BadPersonType { name: Seq<char> },
    BadCount { text: Seq<char> },
}

/// The state before any row is folded: all counts zero, no
/// observations.
pub open spec fn init_fold() -> TableFold {
    TableFold { counts: Seq::new(78, |i: int| 0u16), area_text: None, density_text: None }
}

/// Folds one row into the state. Every row must repeat the first row's
/// geography code and type. Rows whose measure is not `Value` are
/// skipped; the two named observations set their text; any other
/// valued row is a count keyed by classification and person type.
pub open spec fn apply_record(
    st: TableFold,
    r: PreProcessingRecord,
    code: Seq<char>,
    gtype: Seq<char>,
) -> Result<TableFold, FoldError> {
    if r.geography_name@ != code {
        Err(FoldError::GeoCodeMismatch { name: r.geography_name@ })
    } else if r.geography_type@ != gtype {
        Err(FoldError::GeoTypeMismatch { gtype: r.geography_type@ })
    } else if r.measures_name@ != "Value"@ {
        Ok(st)
    } else if r.cell_name@ == "Area (Hectares)"@ {
        Ok(TableFold { area_text: Some(r.obs_value@), ..st })
    } else if r.cell_name@ == "Density (number of persons per hectare)"@ {
        Ok(TableFold { density_text: Some(r.obs_value@), ..st })
    } else {
        match spec_area_classification(r.rural_urban_name@) {
            None => Err(FoldError::BadAreaClassification { name: r.rural_urban_name@ }),
            Some(a) => match spec_person_type(r.cell_name@) {
                None => Err(FoldError::BadPersonType { name: r.cell_name@ }),
                Some(p) => if valid_u16_str(r.obs_value@) {
                    Ok(
                        TableFold {
                            counts: st.counts.update(
                                cell_index(a, p),
                                u16_str_value(r.obs_value@) as u16,
                            ),
                            ..st
                        },
                    )
                } else {
                    Err(FoldError::BadCount { text: r.obs_value@ })
                },
            },
        }
    }
}

/// The fold over the first `n` rows: the resulting state, or the first
/// rejected row's index and failure.
pub open spec fn fold_records(records: Seq<PreProcessingRecord>, n: int) -> Result<
    TableFold,
    (int, FoldError),
>
    recommends
        1 <= records.len(),
        0 <= n <= records.len(),
    decreases n,
{
    if n <= 0 {
        Ok(init_fold())
    } else {
        match fold_records(records, n - 1) {
            Err(e) => Err(e),
            Ok(st) => match apply_record(
                st,
                records[n - 1],
                records[0].geography_name@,
                records[0].geography_type@,
            ) {
                Ok(st2) => Ok(st2),
                Err(e) => Err((n - 1, e)),
            },
        }
    }
}

proof fn lemma_fold_err_persists(records: Seq<PreProcessingRecord>, i: int, m: int, e: FoldError)
    requires
        0 <= i < m <= records.len(),
        fold_records(records, i) is Ok,
        apply_record(
            fold_records(records, i)->Ok_0,
            records[i],
            records[0].geography_name@,
            records[0].geography_type@,
        ) == Err::<TableFold, FoldError>(e),
    ensures
        fold_records(records, m) == Err::<TableFold, (int, FoldError)>((i, e)),
    decreases m,
{
    if m > i + 1 {
        lemma_fold_err_persists(records, i, m - 1, e);
    }
}

/// The text observations held by the record match the fold state.
pub open spec fn opt_text_matches(o: Option<String>, s: Option<Seq<char>>) -> bool {
    &&& (o is Some) == (s is Some)
    &&& (o matches Some(x) ==> s matches Some(y) && x@ == y)
}

/// The record's table and observations are exactly the fold state's.
pub open spec fn parts_match(
    st: TableFold,
    table: PopulationTable,
    area: Option<String>,
    density: Option<String>,
) -> bool {
    &&& table.wf()
    &&& table.counts@ == st.counts
    &&& opt_text_matches(area, st.area_text)
    &&& opt_text_matches(density, st.density_text)
}

/// The reported error for one rejected row: mismatching codes carry
/// the offending value and a two-value context line; unknown
/// classifications and unparsable counts carry the offending text.
pub open spec fn fold_error_matches(
    p: ParsingError,
    e: FoldError,
    code: Seq<char>,
    gtype: Seq<char>,
) -> bool {
    match e {
        FoldError::GeoCodeMismatch { name } => {
            &&& p.error_type matches ParsingErrorType::InvalidDataType(s) && s@ == name
            &&& p.context matches Some(c) && c@ == "Mis matching geography codes: "@ + code
                + " and "@ + name
        },
        FoldError::GeoTypeMismatch { gtype: t } => {
            &&& p.error_type matches ParsingErrorType::InvalidDataType(s) && s@ == t
            &&& p.context matches Some(c) && c@ == "Mis matching geography type: "@ + gtype
                + " and "@ + t
        },
        FoldError::BadAreaClassification { name } => {
            &&& p.error_type matches ParsingErrorType::InvalidClassification(s) && s@ == name
            &&& p.context is None
        },
        FoldError::BadPersonType { name } => {
            &&& p.error_type matches ParsingErrorType::InvalidClassification(s) && s@ == name
            &&& p.context is None
        },
        FoldError::BadCount { text } => {
            &&& p.error_type matches ParsingErrorType::InvalidNumber(s) && s@ == text
            &&& p.context is None
        },
    }
}

impl PopulationRecord {
    /// Aggregates the flat rows of one geographic unit into a
    /// population record. At least one row is required; every row must
    /// repeat the first row's geography code and type; the first
    /// offending row aborts the whole record with its error.
    pub fn try_from_records(records: &Vec<PreProcessingRecord>) -> (r: Result<
        PopulationRecord,
        ParsingError,
    >)
        ensures
            records@.len() == 0 ==> r is Err && (r->Err_0.error_type
                matches ParsingErrorType::InvalidDataType(s) && s@ == "Array is empty"@) && (
            r->Err_0.context matches Some(c) && c@
                == "Need at least one record, to build a Population Record"@),
            records@.len() > 0 ==> ({
                let f = fold_records(records@, records@.len() as int);
                &&& (r is Ok) == (f is Ok)
                &&& r is Ok ==> ({
                    let rec = r->Ok_0;
                    &&& rec.geography_code@ == records@[0].geography_name@
                    &&& rec.geography_type@ == records@[0].geography_type@
                    &&& parts_match(
                        f->Ok_0,
                        rec.population_counts,
                        rec.area_size_text,
                        rec.density_text,
                    )
                })
                &&& r is Err ==> fold_error_matches(
                    r->Err_0,
                    f->Err_0.1,
                    records@[0].geography_name@,
                    records@[0].geography_type@,
                )
            }),
    {
        if records.len() == 0 {
            return Err(
                ParsingError::new(
                    ParsingErrorType::InvalidDataType(String::from_str("Array is empty")),
                    Some(String::from_str("Need at least one record, to build a Population Record")),
                ),
            );
        }
        let geography_code = records[0].geography_name.clone();
        let geography_type = records[0].geography_type.clone();
        let mut table = PopulationTable::new();
        let mut area_size_text: Option<String> = None;
        let mut density_text: Option<String> = None;
        let n = records.len();
        let mut i: usize = 0;
        while i < n
            invariant
                n == records@.len(),
                0 < n,
                0 <= i <= n,
                geography_code@ == records@[0].geography_name@,
                geography_type@ == records@[0].geography_type@,
                fold_records(records@, i as int) is Ok,
                parts_match(
                    fold_records(records@, i as int)->Ok_0,
                    table,
                    area_size_text,
                    density_text,
                ),
            decreases n - i,
        {
            let ghost st = fold_records(records@, i as int)->Ok_0;
            let ghost code = records@[0].geography_name@;
            let ghost gtype = records@[0].geography_type@;
            let record = &records[i];
            if !str_eq(record.geography_name.as_str(), geography_code.as_str()) {
                let ghost e = FoldError::GeoCodeMismatch { name: record.geography_name@ };
                proof {
                    lemma_fold_err_persists(records@, i as int, n as int, e);
                }
                let mut ctx = String::from_str("Mis matching geography codes: ");
                ctx.append(geography_code.as_str());
                ctx.append(" and ");
                ctx.append(record.geography_name.as_str());
                return Err(
                    ParsingError::new(
                        ParsingErrorType::InvalidDataType(record.geography_name.clone()),
                        Some(ctx),
                    ),
                );
            }
            if !str_eq(record.geography_type.as_str(), geography_type.as_str()) {
                let ghost e = FoldError::GeoTypeMismatch { gtype: record.geography_type@ };
                proof {
                    lemma_fold_err_persists(records@, i as int, n as int, e);
                }
                let mut ctx = String::from_str("Mis matching geography type: ");
                ctx.append(geography_type.as_str());
                ctx.append(" and ");
                ctx.append(record.geography_type.as_str());
                return Err(
                    ParsingError::new(
                        ParsingErrorType::InvalidDataType(record.geography_type.clone()),
                        Some(ctx),
                    ),
                );
            }
            if str_eq(record.measures_name.as_str(), "Value") {
                if str_eq(record.cell_name.as_str(), "Area (Hectares)") {
                    area_size_text = Some(record.obs_value.clone());
                } else if str_eq(
                    record.cell_name.as_str(),
                    "Density (number of persons per hectare)",
                ) {
                    density_text = Some(record.obs_value.clone());
                } else {
                    match AreaClassification::from_name(record.rural_urban_name.as_str()) {
                        None => {
                            let ghost e = FoldError::BadAreaClassification {
                                name: record.rural_urban_name@,
                            };
                            proof {
                                lemma_fold_err_persists(records@, i as int, n as int, e);
                            }
                            return Err(
                                ParsingError::new(
                                    ParsingErrorType::InvalidClassification(
                                        record.rural_urban_name.clone(),
                                    ),
                                    None,
                                ),
                            );
                        },
                        Some(area_classification) => {
                            match PersonType::from_name(record.cell_name.as_str()) {
                                None => {
                                    let ghost e = FoldError::BadPersonType {
                                        name: record.cell_name@,
                                    };
                                    proof {
                                        lemma_fold_err_persists(records@, i as int, n as int, e);
                                    }
                                    return Err(
                                        ParsingError::new(
                                            ParsingErrorType::InvalidClassification(
                                                record.cell_name.clone(),
                                            ),
                                            None,
                                        ),
                                    );
                                },
                                Some(person_classification) => {
                                    match parse_u16(record.obs_value.as_str()) {
                                        None => {
                                            let ghost e = FoldError::BadCount {
                                                text: record.obs_value@,
                                            };
                                            proof {
                                                lemma_fold_err_persists(
                                                    records@,
                                                    i as int,
                                                    n as int,
                                                    e,
                                                );
                                            }
                                            return Err(
                                                ParsingError::new(
                                                    ParsingErrorType::InvalidNumber(
                                                        record.obs_value.clone(),
                                                    ),
                                                    None,
                                                ),
                                            );
                                        },
                                        Some(v) => {
                                            table.set(
                                                area_classification,
                                                person_classification,
                                                v,
                                            );
                                        },
                                    }
                                },
                            }
                        },
                    }
                }
            }
            proof {
                assert(fold_records(records@, i + 1) is Ok);
                assert(parts_match(
                    fold_records(records@, i + 1)->Ok_0,
                    table,
                    area_size_text,
                    density_text,
                ));
            }
            i += 1;
        }
        Ok(
            PopulationRecord {
                geography_code,
                geography_type,
                area_size_text,
                density_text,
                population_counts: table,
            },
        )
    }
}

} // verus!
