//! Per-cycle URL resolution: the up-to-three concrete URLs one cycle
//! will fetch, derived from the agency record and the credential chosen
//! for the cycle.

use vstd::prelude::*;
use vstd::string::StringExecFns;
use crate::agency::AgencyInfo;

verus! {

/// The resolved URL of one channel. An empty template resolves to no
/// URL at all (the channel is not configured, so no call is made). An
/// agency whose auth rides in the URL (`auth_type` is `"url"`) gets the
/// cycle's credential appended to the template; any other auth type
/// leaves the template untouched and sends the credential in a header
/// instead.
pub open spec fn resolve_one_spec(template: Seq<char>, auth_type: Seq<char>, credential: Seq<char>) -> Option<Seq<char>> {
    if template.len() == 0 {
        None
    } else if auth_type == "url"@ {
        Some(template + credential)
    } else {
        Some(template)
    }
}

/// The per-cycle resolved URL set of one agency.
pub struct Agencyurls {
    pub vehicles: Option<String>,
    pub trips: Option<String>,
    pub alerts: Option<String>,
}

/// The character sequence behind an optional URL.
pub open spec fn option_view(u: Option<String>) -> Option<Seq<char>> {
    match u {
        Some(s) => Some(s@),
        None => None,
    }
}

/// Whether `urls` is exactly the resolved URL set of `agency` for the
/// cycle that chose `credential`.
pub open spec fn urls_resolved(agency: AgencyInfo, credential: Seq<char>, urls: Agencyurls) -> bool {
    &&& option_view(urls.vehicles)
        == resolve_one_spec(agency.realtime_vehicle_positions@, agency.auth_type@, credential)
    &&& option_view(urls.trips)
        == resolve_one_spec(agency.realtime_trip_updates@, agency.auth_type@, credential)
    &&& option_view(urls.alerts)
        == resolve_one_spec(agency.realtime_alerts@, agency.auth_type@, credential)
}

/// Resolves one channel's URL template; see `resolve_one_spec`.
pub fn resolve_one(template: &String, auth_type: &String, credential: &String) -> (r: Option<String>)
    ensures
        option_view(r) == resolve_one_spec(template@, auth_type@, credential@),
{
    if template.as_str().is_empty() {
        None
    } else {
        let url_tag: String = "url".to_owned();
        if *auth_type == url_tag {
            Some(template.clone().concat(credential.as_str()))
        } else {
            Some(template.clone())
        }
    }
}

/// Resolves all three channels of one agency for one cycle.
pub fn resolve_urls(agency: &AgencyInfo, credential: &String) -> (r: Agencyurls)
    ensures
        urls_resolved(*agency, credential@, r),
{
    Agencyurls {
        vehicles: resolve_one(&agency.realtime_vehicle_positions, &agency.auth_type, credential),
        trips: resolve_one(&agency.realtime_trip_updates, &agency.auth_type, credential),
        alerts: resolve_one(&agency.realtime_alerts, &agency.auth_type, credential),
    }
}

} // verus!
