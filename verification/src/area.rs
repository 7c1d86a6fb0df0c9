//! One census output area: its attribute fields, its reconstructed
//! boundary, and the lazily cached representative interior point.

use vstd::prelude::*;
use vstd::string::StringExecFns;
use crate::boundary::Boundary;
use crate::coords::Coord;
use crate::strutil::str_eq;

verus! {

/// The content of one attribute field as the loader sees it: a text
/// field (possibly null in the source table) or a value of any other
/// field type.
#[derive(Clone, Debug)]
pub enum FieldContent {
    Text(Option<String>),
    Other,
}

/// One attribute record: named fields in table order.
#[derive(Clone, Debug)]
pub struct AttributeRecord {
    pub fields: Vec<(String, FieldContent)>,
}

/// First field with the given name, searched front to back.
pub open spec fn spec_lookup(fields: Seq<(String, FieldContent)>, key: Seq<char>) -> Option<
    FieldContent,
>
    decreases fields.len(),
{
    if fields.len() == 0 {
        None
    } else if fields[0].0@ == key {
        Some(fields[0].1)
    } else {
        spec_lookup(fields.drop_first(), key)
    }
}

proof fn lemma_lookup_found(fields: Seq<(String, FieldContent)>, key: Seq<char>, i: int)
    requires
        0 <= i < fields.len(),
        forall|j: int| 0 <= j < i ==> fields[j].0@ != key,
        fields[i].0@ == key,
    ensures
        spec_lookup(fields, key) == Some(fields[i].1),
    decreases i,
{
    if i > 0 {
        lemma_lookup_found(fields.drop_first(), key, i - 1);
    }
}

proof fn lemma_lookup_absent(fields: Seq<(String, FieldContent)>, key: Seq<char>)
    requires
        forall|j: int| 0 <= j < fields.len() ==> fields[j].0@ != key,
    ensures
        spec_lookup(fields, key) is None,
    decreases fields.len(),
{
    if fields.len() > 0 {
        lemma_lookup_absent(fields.drop_first(), key);
    }
}

impl AttributeRecord {
    /// Looks a field up by name, front to back.
    pub fn get(&self, key: &str) -> (r: Option<&FieldContent>)
        ensures
            (r is Some) == (spec_lookup(self.fields@, key@) is Some),
            r is Some ==> *r->0 == spec_lookup(self.fields@, key@)->0,
    {
        let n = self.fields.len();
        let mut i: usize = 0;
        while i < n
            invariant
                n == self.fields@.len(),
                0 <= i <= n,
                forall|j: int| 0 <= j < i ==> self.fields@[j].0@ != key@,
            decreases n - i,
        {
            if str_eq(self.fields[i].0.as_str(), key) {
                proof {
                    lemma_lookup_found(self.fields@, key@, i as int);
                }
                return Some(&self.fields[i].1);
            }
            i += 1;
        }
        proof {
            lemma_lookup_absent(self.fields@, key@);
        }
        None
    }
}

/// The named field is present with text content.
pub open spec fn field_ok(fields: Seq<(String, FieldContent)>, key: Seq<char>) -> bool {
    spec_lookup(fields, key) matches Some(FieldContent::Text(_))
}

/// The text of a present text field; a null text field reads as the
/// empty string.
pub open spec fn field_text(fields: Seq<(String, FieldContent)>, key: Seq<char>) -> Seq<char> {
    match spec_lookup(fields, key) {
        Some(FieldContent::Text(Some(s))) => s@,
        _ => Seq::empty(),
    }
}

/// A required attribute field failed validation: it was absent, or
/// present with a non-text type. Carries the field's name.
#[derive(Clone, Debug, PartialEq, Eq)]
pub enum AreaError {
    MissingField { field: String },
    WrongFieldType { field: String },
}

/// The error reported for the named field: `MissingField` where it is
/// absent, `WrongFieldType` where it is present but not text.
pub open spec fn field_error_matches(
    e: AreaError,
    fields: Seq<(String, FieldContent)>,
    key: Seq<char>,
) -> bool {
    if spec_lookup(fields, key) is None {
        e matches AreaError::MissingField { field } && field@ == key
    } else {
        e matches AreaError::WrongFieldType { field } && field@ == key
    }
}

fn text_field(record: &AttributeRecord, key: &str) -> (r: Result<String, AreaError>)
    ensures
        (r is Ok) == field_ok(record.fields@, key@),
        r is Ok ==> r->Ok_0@ == field_text(record.fields@, key@),
        r is Err ==> field_error_matches(r->Err_0, record.fields@, key@),
{
    match record.get(key) {
        None => Err(AreaError::MissingField { field: String::from_str(key) }),
        Some(FieldContent::Text(opt)) => match opt {
            Some(s) => Ok(s.clone()),
            None => Ok(String::new()),
        },
        Some(FieldContent::Other) => Err(
            AreaError::WrongFieldType { field: String::from_str(key) },
        ),
    }
}

/// One census output area.
#[derive(Clone, Debug)]
pub struct Area {
    pub centre: Option<Coord>,
    pub boundary: Boundary,
    pub label: String,
    pub code: String,
    pub name: String,
    pub alt_name: String,
}

/// All four required fields are present as text fields.
pub open spec fn record_fields_ok(fields: Seq<(String, FieldContent)>) -> bool {
    &&& field_ok(fields, "label"@)
    &&& field_ok(fields, "code"@)
    &&& field_ok(fields, "name"@)
    &&& field_ok(fields, "altname"@)
}

/// The error reported for a record that fails validation: the first of
/// `label`, `code`, `name`, `altname` that is missing or not text.
pub open spec fn area_error_matches(e: AreaError, fields: Seq<(String, FieldContent)>) -> bool
    recommends
        !record_fields_ok(fields),
{
    if !field_ok(fields, "label"@) {
        field_error_matches(e, fields, "label"@)
    } else if !field_ok(fields, "code"@) {
        field_error_matches(e, fields, "code"@)
    } else if !field_ok(fields, "name"@) {
        field_error_matches(e, fields, "name"@)
    } else {
        field_error_matches(e, fields, "altname"@)
    }
}

/// The centre an accessor returns: the cached value where one is
/// stored, the freshly computed fallback otherwise.
pub open spec fn resolved_centre(a: Area, fallback: Coord) -> Coord {
    match a.centre {
        Some(c) => c,
        None => fallback,
    }
}

impl Area {
    /// Every coordinate the area can hand to the projector — cached
    /// centre and boundary vertices — is small enough for projection.
    pub open spec fn wf(self) -> bool {
        &&& (self.centre matches Some(c) ==> c.wf())
        &&& self.boundary.coords_wf()
    }

    /// Validates the four required text fields — `label`, `code`,
    /// `name`, `altname`, in that order — and assembles an area with
    /// no cached centre. The first failing field decides the error.
    pub fn new_from_record(record: &AttributeRecord, boundary: Boundary) -> (r: Result<
        Area,
        AreaError,
    >)
        ensures
            (r is Ok) == record_fields_ok(record.fields@),
            r is Ok ==> ({
                let a = r->Ok_0;
                &&& a.centre is None
                &&& a.boundary == boundary
                &&& a.label@ == field_text(record.fields@, "label"@)
                &&& a.code@ == field_text(record.fields@, "code"@)
                &&& a.name@ == field_text(record.fields@, "name"@)
                &&& a.alt_name@ == field_text(record.fields@, "altname"@)
            }),
            r is Err ==> area_error_matches(r->Err_0, record.fields@),
    {
        let label = match text_field(record, "label") {
            Ok(s) => s,
            Err(e) => {
                return Err(e);
            },
        };
        let code = match text_field(record, "code") {
            Ok(s) => s,
            Err(e) => {
                return Err(e);
            },
        };
        let name = match text_field(record, "name") {
            Ok(s) => s,
            Err(e) => {
                return Err(e);
            },
        };
        let alt_name = match text_field(record, "altname") {
            Ok(s) => s,
            Err(e) => {
                return Err(e);
            },
        };
        Ok(Area { centre: None, boundary, label, code, name, alt_name })
    }

    /// Caching accessor: returns the cached centre, or stores and
    /// returns the freshly computed fallback. Needs exclusive access.
    pub fn find_centre_point(&mut self, computed: Coord) -> (c: Coord)
        ensures
            c == resolved_centre(*old(self), computed),
            *final(self) == (Area { centre: Some(c), ..*old(self) }),
    {
        match self.centre {
            Some(c) => c,
            None => {
                self.centre = Some(computed);
                computed
            },
        }
    }

    /// Non-caching accessor: returns the cached centre, or the freshly
    /// computed fallback, without storing anything. Needs only shared
    /// access.
    pub fn get_centre_point(&self, computed: Coord) -> (c: Coord)
        ensures
            c == resolved_centre(*self, computed),
    {
        match self.centre {
            Some(c) => c,
            None => computed,
        }
    }

    /// The cached centre, if any; `None` means an accessor would have
    /// to compute one.
    pub fn cached_centre(&self) -> (c: Option<Coord>)
        ensures
            c == self.centre,
    {
        self.centre
    }
}

/// Once a centre is cached, both accessors return that stored value,
/// whatever freshly computed fallback they are handed.
pub proof fn lemma_cached_centre_stable(a: Area, v: Coord, w: Coord)
    requires
        a.centre is Some,
    ensures
        resolved_centre(a, v) == resolved_centre(a, w),
{
}

/// The caching accessor stores exactly the value it returns, so a later
/// call of either accessor — with any fallback — returns that identical
/// value: both access paths agree.
pub proof fn lemma_centroid_consistency(a: Area, fallback: Coord, later: Coord)
    ensures
        ({
            let c = resolved_centre(a, fallback);
            let cached = (Area { centre: Some(c), ..a });
            resolved_centre(cached, later) == c
        }),
{
}

} // verus!
