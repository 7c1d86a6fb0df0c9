//! Classification of census dataset file names: short table, country and
//! geography codes are mapped to descriptive strings, and a whole file name
//! is rewritten into a human-readable description.

use vstd::prelude::*;
use vstd::string::StrSliceExecFns;
use vstd::string::StringExecFns;
use crate::strutil::contains_seq;
use crate::strutil::contains_substr;
use crate::strutil::dec_str;
use crate::strutil::str_eq;
use crate::strutil::u64_to_string;

verus! {

/// The descriptive string for a two-character table code, or `None`
/// where the code is not recognised.
pub open spec fn spec_table_type(code: Seq<char>) -> Option<Seq<char>> {
    if code.len() != 2 {
        None
    } else if code == "QS"@ {
        Some("Quick Statistics"@)
    } else if code == "KS"@ {
        Some("Key Statistics"@)
    } else if code == "DC"@ {
        Some("Detailed Characteristics"@)
    } else if code == "LC"@ {
        Some("Local Characteristics"@)
    } else if code == "WD"@ {
        Some("Workday Population"@)
    } else if code == "WP"@ {
        Some("Workplace Population Tables"@)
    } else if code == "CT"@ {
        Some("Commissioned Tables"@)
    } else {
        None
    }
}

/// The error message reported for a rejected table code.
pub open spec fn spec_table_err(code: Seq<char>) -> Seq<char> {
    if code.len() != 2 {
        "Table Code is not the correct amount of characters "@ + dec_str(code.len() as int)
    } else {
        "Unknown table code "@ + code
    }
}

pub fn table_type_code_to_string(code: &str) -> (r: Result<&str, String>)
    ensures
        (r is Ok) == (spec_table_type(code@) is Some),
        r is Ok ==> r->Ok_0@ == spec_table_type(code@)->Some_0,
        r is Err ==> r->Err_0@ == spec_table_err(code@),
{
    let n = code.unicode_len();
    if n != 2 {
        let mut msg = String::from_str("Table Code is not the correct amount of characters ");
        let num = u64_to_string(n as u64);
        msg.append(num.as_str());
        return Err(msg);
    }
    if str_eq(code, "QS") {
        Ok("Quick Statistics")
    } else if str_eq(code, "KS") {
        Ok("Key Statistics")
    } else if str_eq(code, "DC") {
        Ok("Detailed Characteristics")
    } else if str_eq(code, "LC") {
        Ok("Local Characteristics")
    } else if str_eq(code, "WD") {
        Ok("Workday Population")
    } else if str_eq(code, "WP") {
        Ok("Workplace Population Tables")
    } else if str_eq(code, "CT") {
        Ok("Commissioned Tables")
    } else {
        let mut msg = String::from_str("Unknown table code ");
        msg.append(code);
        Err(msg)
    }
}

/// The descriptive string for a two-character country code, or `None`
/// where the code is not recognised.
pub open spec fn spec_country(code: Seq<char>) -> Option<Seq<char>> {
    if code.len() != 2 {
        None
    } else if code == "EW"@ {
        Some("England & Wales"@)
    } else if code == "WA"@ {
        Some("Wales"@)
    } else {
        None
    }
}

/// The error message reported for a rejected country code.
pub open spec fn spec_country_err(code: Seq<char>) -> Seq<char> {
    if code.len() != 2 {
        "Country Code is not the correct amount of characters "@ + dec_str(code.len() as int)
            + " "@
    } else {
        "Unknown country code: "@ + code
    }
}

pub fn country_code_to_string(code: &str) -> (r: Result<&str, String>)
    ensures
        (r is Ok) == (spec_country(code@) is Some),
        r is Ok ==> r->Ok_0@ == spec_country(code@)->Some_0,
        r is Err ==> r->Err_0@ == spec_country_err(code@),
{
    let n = code.unicode_len();
    if n != 2 {
        let mut msg = String::from_str("Country Code is not the correct amount of characters ");
        let num = u64_to_string(n as u64);
        msg.append(num.as_str());
        msg.append(" ");
        return Err(msg);
    }
    if str_eq(code, "EW") {
        Ok("England & Wales")
    } else if str_eq(code, "WA") {
        Ok("Wales")
    } else {
        let mut msg = String::from_str("Unknown country code: ");
        msg.append(code);
        Err(msg)
    }
}

/// The descriptive string for a geography code, or `None` where the
/// code has the wrong length. Unrecognised codes of an accepted length
/// map to the empty string.
pub open spec fn spec_geography(code: Seq<char>) -> Option<Seq<char>> {
    if code.len() != 1 && code.len() != 2 {
        None
    } else if code == "r"@ {
        Some("Region"@)
    } else if code == "la"@ {
        Some("Merged Wards"@)
    } else if code == "ls"@ {
        Some("Lower Level Super Output Area"@)
    } else {
        Some(""@)
    }
}

/// The error message reported for a rejected geography code.
pub open spec fn spec_geography_err(code: Seq<char>) -> Seq<char> {
    "Geography Code is not the correct amount of characters "@ + dec_str(code.len() as int)
}

pub fn geography_code_to_string(code: &str) -> (r: Result<&str, String>)
    ensures
        (r is Ok) == (spec_geography(code@) is Some),
        r is Ok ==> r->Ok_0@ == spec_geography(code@)->Some_0,
        r is Err ==> r->Err_0@ == spec_geography_err(code@),
{
    let n = code.unicode_len();
    if n != 1 && n != 2 {
        let mut msg = String::from_str("Geography Code is not the correct amount of characters ");
        let num = u64_to_string(n as u64);
        msg.append(num.as_str());
        return Err(msg);
    }
    if str_eq(code, "r") {
        Ok("Region")
    } else if str_eq(code, "la") {
        Ok("Merged Wards")
    } else if str_eq(code, "ls") {
        Ok("Lower Level Super Output Area")
    } else {
        Ok("")
    }
}

/// Index of the last `/` in `s`, or `-1` where there is none.
pub open spec fn last_slash(s: Seq<char>) -> int
    decreases s.len(),
{
    if s.len() == 0 {
        -1
    } else if s[s.len() - 1] == '/' {
        s.len() - 1
    } else {
        last_slash(s.drop_last())
    }
}

/// The part of a path after its last `/` (the whole string where
/// there is none).
pub open spec fn spec_file_segment(s: Seq<char>) -> Seq<char> {
    s.subrange(last_slash(s) + 1, s.len() as int)
}

fn last_segment<'a>(s: &'a str) -> (r: &'a str)
    ensures
        r@ == spec_file_segment(s@),
{
    let len = s.unicode_len();
    let mut start: usize = 0;
    let mut i: usize = 0;
    while i < len
        invariant
            len == s@.len(),
            0 <= i <= len,
            0 <= start <= i,
            start == last_slash(s@.take(i as int)) + 1,
        decreases len - i,
    {
        let c = s.get_char(i);
        proof {
            assert(s@.take(i + 1).drop_last() =~= s@.take(i as int));
            assert(s@.take(i + 1)[i as int] == s@[i as int]);
        }
        if c == '/' {
            start = i + 1;
        }
        i += 1;
    }
    proof {
        assert(s@.take(len as int) =~= s@);
    }
    s.substring_char(start, len)
}

/// Whether a dataset file name (its final path segment) is accepted.
pub open spec fn spec_filename_ok(seg: Seq<char>) -> bool {
    &&& 16 <= seg.len() <= 20
    &&& contains_seq(seg, "DATA.CSV"@)
    &&& spec_table_type(seg.subrange(0, 2)) is Some
    &&& spec_country(seg.subrange(6, 8)) is Some
    &&& spec_geography(seg.subrange(6, 8)) is Some
}

/// The descriptive name built for an accepted dataset file name.
pub open spec fn spec_parsed_name(seg: Seq<char>) -> Seq<char> {
    spec_table_type(seg.subrange(0, 2))->Some_0 + " - "@ + seg.subrange(2, 6) + " - "@
        + spec_country(seg.subrange(6, 8))->Some_0 + " - "@ + spec_geography(
        seg.subrange(6, 8),
    )->Some_0 + " - "@ + seg
}

pub fn parse_filename(name: &str) -> (r: Result<String, String>)
    ensures
        (r is Ok) == spec_filename_ok(spec_file_segment(name@)),
        r is Ok ==> r->Ok_0@ == spec_parsed_name(spec_file_segment(name@)),
        ({
            let seg = spec_file_segment(name@);
            &&& (seg.len() < 16 || seg.len() > 20) ==> r is Err && r->Err_0@
                == "Name is not the correct amount of characters "@ + seg + " "@ + dec_str(
                seg.len() as int,
            )
            &&& 16 <= seg.len() <= 20 && !contains_seq(seg, "DATA.CSV"@) ==> r is Err
                && r->Err_0@ == "Invalid file"@
            &&& 16 <= seg.len() <= 20 && contains_seq(seg, "DATA.CSV"@) && spec_table_type(
                seg.subrange(0, 2),
            ) is None ==> r is Err && r->Err_0@ == spec_table_err(seg.subrange(0, 2))
            &&& 16 <= seg.len() <= 20 && contains_seq(seg, "DATA.CSV"@) && spec_table_type(
                seg.subrange(0, 2),
            ) is Some && spec_country(seg.subrange(6, 8)) is None ==> r is Err && r->Err_0@
                == spec_country_err(seg.subrange(6, 8))
        }),
{
    let seg = last_segment(name);
    let n = seg.unicode_len();
    if n < 16 || n > 20 {
        let mut msg = String::from_str("Name is not the correct amount of characters ");
        msg.append(seg);
        msg.append(" ");
        let num = u64_to_string(n as u64);
        msg.append(num.as_str());
        return Err(msg);
    }
    if !contains_substr(seg, "DATA.CSV") {
        return Err(String::from_str("Invalid file"));
    }
    let table_part = seg.substring_char(0, 2);
    let table_str = match table_type_code_to_string(table_part) {
        Ok(s) => s,
        Err(e) => {
            return Err(e);
        },
    };
    let country_part = seg.substring_char(6, 8);
    let country_str = match country_code_to_string(country_part) {
        Ok(s) => s,
        Err(e) => {
            return Err(e);
        },
    };
    let geography_str = match geography_code_to_string(country_part) {
        Ok(s) => s,
        Err(e) => {
            return Err(e);
        },
    };
    let mut new_name = String::from_str(table_str);
    new_name.append(" - ");
    new_name.append(seg.substring_char(2, 6));
    new_name.append(" - ");
    new_name.append(country_str);
    new_name.append(" - ");
    new_name.append(geography_str);
    new_name.append(" - ");
    new_name.append(seg);
    Ok(new_name)
}

} // verus!
