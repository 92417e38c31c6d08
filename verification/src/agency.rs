//! The per-agency configuration record, its invariant, and the reading
//! of one catalog row into it.

use vstd::prelude::*;
use crate::text::{all_digits, chars_of, dec_val, join_commas, parse_u64, split_commas, views_of};

verus! {

/// One agency of the catalog: its feed id, up to three endpoint URL
/// templates (an empty template means the agency does not publish that
/// channel), its auth settings, the fetch interval recorded in the
/// catalog, and an optional ordered list of rotation credentials.
///
/// Identity is by `onetrip` (the feed id). Invariant: a present
/// rotation list is non-empty.
#[derive(Clone, Debug)]
pub struct AgencyInfo {
    pub onetrip: String,
    pub realtime_vehicle_positions: String,
    pub realtime_trip_updates: String,
    pub realtime_alerts: String,
    pub has_auth: bool,
    pub auth_type: String,
    pub auth_header: String,
    pub auth_password: String,
    pub fetch_interval: u64,
    pub multiauth: Option<Vec<String>>,
}

impl AgencyInfo {
    /// Well-formedness: if the rotation list is present it is non-empty.
    pub open spec fn wf(self) -> bool {
        self.multiauth matches Some(list) ==> list@.len() > 0
    }
}

/// Why a catalog row was rejected. A rejected row is logged and
/// skipped by the caller; catalog loading continues.
#[derive(PartialEq, Eq, Structural, Clone, Copy, Debug)]
pub enum RowError {
    /// Fewer than the ten expected columns.
    TooShort,
    /// The has-auth column is neither `true` nor `false`.
    BadAuthFlag,
    /// The fetch-interval column is not a number that fits.
    BadInterval,
}

/// Reads the has-auth column: exactly `true` or `false`.
fn parse_bool_field(s: &String) -> (r: Option<bool>)
    ensures
        s@ == "true"@ ==> r == Some(true),
        s@ == "false"@ ==> r == Some(false),
        s@ != "true"@ && s@ != "false"@ ==> r is None,
{
    proof {
        // The two literals differ already in length, so the branches
        // below are exclusive.
        reveal_strlit("true");
        reveal_strlit("false");
        assert("true"@.len() == 4);
        assert("false"@.len() == 5);
    }
    let t: String = "true".to_owned();
    let f: String = "false".to_owned();
    if *s == t {
        Some(true)
    } else if *s == f {
        Some(false)
    } else {
        None
    }
}

/// Whether the fetch-interval column holds a readable number.
pub open spec fn interval_ok(s: Seq<char>) -> bool {
    s.len() > 0 && all_digits(s) && dec_val(s) <= u64::MAX
}

/// Whether a catalog row is well-formed enough to become an agency.
pub open spec fn row_ok(fields: Seq<String>) -> bool {
    &&& fields.len() >= 10
    &&& (fields[4]@ == "true"@ || fields[4]@ == "false"@)
    &&& interval_ok(fields[8]@)
}

/// The reason a malformed row is rejected: the first check that fails,
/// in column order.
pub open spec fn row_error_of(fields: Seq<String>) -> RowError {
    if fields.len() < 10 {
        RowError::TooShort
    } else if fields[4]@ != "true"@ && fields[4]@ != "false"@ {
        RowError::BadAuthFlag
    } else {
        RowError::BadInterval
    }
}

/// Whether `a` is exactly the agency that the well-formed row `fields`
/// describes.
pub open spec fn agency_matches_row(fields: Seq<String>, a: AgencyInfo) -> bool {
    &&& a.onetrip@ == fields[0]@
    &&& a.realtime_vehicle_positions@ == fields[1]@
    &&& a.realtime_trip_updates@ == fields[2]@
    &&& a.realtime_alerts@ == fields[3]@
    &&& a.has_auth == (fields[4]@ == "true"@)
    &&& a.auth_type@ == fields[5]@
    &&& a.auth_header@ == fields[6]@
    &&& a.auth_password@ == fields[7]@
    &&& a.fetch_interval == dec_val(fields[8]@)
    &&& (fields[9]@.len() == 0 ==> a.multiauth is None)
    &&& (fields[9]@.len() > 0 ==> (a.multiauth matches Some(list)
        && join_commas(views_of(list@)) == fields[9]@
        && forall|i: int| 0 <= i < list@.len() ==> !(#[trigger] list@[i])@.contains(',')))
    &&& a.wf()
}

/// Builds one agency from the ten columns of a catalog row:
/// feed id, the three URL templates, the has-auth flag, auth type,
/// auth header, auth password, fetch-interval seconds, and the
/// comma-separated rotation list (empty column: no rotation list).
/// A malformed row is rejected with the reason; a built agency always
/// satisfies `wf`, since splitting a non-empty column never yields an
/// empty list.
pub fn agency_from_row(fields: &Vec<String>) -> (r: Result<AgencyInfo, RowError>)
    ensures
        (r is Ok) == row_ok(fields@),
        r matches Ok(a) ==> agency_matches_row(fields@, a),
        r matches Err(e) ==> e == row_error_of(fields@),
{
    if fields.len() < 10 {
        return Err(RowError::TooShort);
    }
    let has_auth = match parse_bool_field(&fields[4]) {
        Some(b) => b,
        None => {
            return Err(RowError::BadAuthFlag);
        },
    };
    let interval_chars = chars_of(&fields[8]);
    let fetch_interval = match parse_u64(&interval_chars) {
        Some(v) => v,
        None => {
            return Err(RowError::BadInterval);
        },
    };
    let rotation_col = chars_of(&fields[9]);
    let multiauth: Option<Vec<String>> = if rotation_col.len() == 0 {
        None
    } else {
        Some(split_commas(&rotation_col))
    };
    Ok(AgencyInfo {
        onetrip: fields[0].clone(),
        realtime_vehicle_positions: fields[1].clone(),
        realtime_trip_updates: fields[2].clone(),
        realtime_alerts: fields[3].clone(),
        has_auth,
        auth_type: fields[5].clone(),
        auth_header: fields[6].clone(),
        auth_password: fields[7].clone(),
        fetch_interval,
        multiauth,
    })
}

/// The well-formed rows of the parsed config source, in order.
pub open spec fn ok_rows(rows: Seq<Vec<String>>) -> Seq<Seq<String>>
    decreases rows.len(),
{
    if rows.len() == 0 {
        Seq::empty()
    } else {
        let rest = ok_rows(rows.drop_last());
        if row_ok(rows.last()@) {
            rest.push(rows.last()@)
        } else {
            rest
        }
    }
}

/// Builds the startup catalog from the parsed rows of the config
/// source: one agency per well-formed row, in order, and one skip
/// entry — row index and reason, in row order — per malformed row.
/// Loading continues past malformed rows; the caller logs the skips.
pub fn catalog_from_rows(rows: &Vec<Vec<String>>) -> (r: (Vec<AgencyInfo>, Vec<(usize, RowError)>))
    ensures
        r.0@.len() == ok_rows(rows@).len(),
        forall|j: int| 0 <= j < r.0@.len()
            ==> agency_matches_row(ok_rows(rows@)[j], #[trigger] r.0@[j]),
        r.0@.len() + r.1@.len() == rows@.len(),
        forall|k: int| 0 <= k < r.1@.len() ==> {
            let (i, e) = #[trigger] r.1@[k];
            &&& i < rows@.len()
            &&& !row_ok(rows@[i as int]@)
            &&& e == row_error_of(rows@[i as int]@)
        },
        forall|k1: int, k2: int| 0 <= k1 < k2 < r.1@.len()
            ==> (#[trigger] r.1@[k1]).0 < (#[trigger] r.1@[k2]).0,
{
    let mut agencies: Vec<AgencyInfo> = Vec::new();
    let mut skipped: Vec<(usize, RowError)> = Vec::new();
    let mut i: usize = 0;
    while i < rows.len()
        invariant
            i <= rows@.len(),
            agencies@.len() == ok_rows(rows@.take(i as int)).len(),
            forall|j: int| 0 <= j < agencies@.len()
                ==> agency_matches_row(ok_rows(rows@.take(i as int))[j], #[trigger] agencies@[j]),
            agencies@.len() + skipped@.len() == i,
            forall|k: int| 0 <= k < skipped@.len() ==> {
                let (ri, e) = #[trigger] skipped@[k];
                &&& ri < i
                &&& !row_ok(rows@[ri as int]@)
                &&& e == row_error_of(rows@[ri as int]@)
            },
            forall|k1: int, k2: int| 0 <= k1 < k2 < skipped@.len()
                ==> (#[trigger] skipped@[k1]).0 < (#[trigger] skipped@[k2]).0,
        decreases rows@.len() - i,
    {
        proof {
            assert(rows@.take(i + 1).drop_last() =~= rows@.take(i as int));
            assert(rows@.take(i + 1).last() == rows@[i as int]);
        }
        match agency_from_row(&rows[i]) {
            Ok(a) => {
                agencies.push(a);
            },
            Err(e) => {
                skipped.push((i, e));
            },
        }
        i += 1;
    }
    proof {
        assert(rows@.take(rows@.len() as int) =~= rows@);
    }
    (agencies, skipped)
}

} // verus!
