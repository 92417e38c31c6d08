//! The plan of one poll cycle for one agency: which endpoints to fetch,
//! which payloads to persist, and what to forward downstream.
//!
//! The functions here are pure decisions over plain values. The caller
//! performs the network fetches and sink writes that the plan calls for.

use vstd::prelude::*;
use crate::agency::AgencyInfo;
use crate::urls::Agencyurls;

verus! {

/// The three realtime channels an agency may publish.
#[derive(PartialEq, Eq, Structural, Clone, Copy, Debug)]
pub enum EndpointKind {
    Vehicles,
    Trips,
    Alerts,
}

/// One fetch the cycle asks the caller to perform: a timed GET of `url`
/// for channel `kind`.
pub struct FetchRequest {
    pub kind: EndpointKind,
    pub url: String,
}

/// What one cycle's fetches produced. `None` conflates "endpoint not
/// configured" with "fetch failed": no structured error crosses the
/// fetch boundary.
pub struct FetchOutcome {
    pub vehicles: Option<Vec<u8>>,
    pub trips: Option<Vec<u8>>,
    pub alerts: Option<Vec<u8>>,
}

/// One persistence write: raw bytes keyed by feed id and channel.
pub struct PutAction {
    pub feed_id: String,
    pub kind: EndpointKind,
    pub bytes: Vec<u8>,
}

/// The one downstream forward of a cycle: whichever payloads are
/// present, plus flags for which channels were configured in the
/// catalog (independent of fetch success).
pub struct PublishAction {
    pub feed_id: String,
    pub vehicles: Option<Vec<u8>>,
    pub trips: Option<Vec<u8>>,
    pub alerts: Option<Vec<u8>>,
    pub vehicles_configured: bool,
    pub trips_configured: bool,
    pub alerts_configured: bool,
    pub immediate: bool,
}

/// Everything one cycle asks of the sink: the persistence writes in
/// channel order, then the single downstream forward.
pub struct CyclePlan {
    pub puts: Vec<PutAction>,
    pub publish: PublishAction,
}

/// The fetch of one channel, if its URL resolved: a pair of channel
/// and URL characters.
pub open spec fn one_request(kind: EndpointKind, url: Option<String>) -> Seq<(EndpointKind, Seq<char>)> {
    match url {
        Some(u) => seq![(kind, u@)],
        None => Seq::empty(),
    }
}

/// The fetches one cycle issues: one per resolved URL, in channel
/// order. An absent URL means no network call for that channel.
pub open spec fn requests_spec(urls: Agencyurls) -> Seq<(EndpointKind, Seq<char>)> {
    one_request(EndpointKind::Vehicles, urls.vehicles)
        + one_request(EndpointKind::Trips, urls.trips)
        + one_request(EndpointKind::Alerts, urls.alerts)
}

/// Builds the fetch list of one cycle; see `requests_spec`.
pub fn fetch_requests(urls: &Agencyurls) -> (r: Vec<FetchRequest>)
    ensures
        r@.map_values(|q: FetchRequest| (q.kind, q.url@)) == requests_spec(*urls),
{
    let mut r: Vec<FetchRequest> = Vec::new();
    if let Some(u) = &urls.vehicles {
        r.push(FetchRequest { kind: EndpointKind::Vehicles, url: u.clone() });
    }
    if let Some(u) = &urls.trips {
        r.push(FetchRequest { kind: EndpointKind::Trips, url: u.clone() });
    }
    if let Some(u) = &urls.alerts {
        r.push(FetchRequest { kind: EndpointKind::Alerts, url: u.clone() });
    }
    proof {
        assert(r@.map_values(|q: FetchRequest| (q.kind, q.url@)) =~= requests_spec(*urls));
    }
    r
}

/// The persistence writes owed for one cycle: one per present payload,
/// in channel order, each keyed by the agency id and carrying the
/// payload bytes unchanged.
pub open spec fn one_put(feed_id: Seq<char>, kind: EndpointKind, payload: Option<Vec<u8>>) -> Seq<(Seq<char>, EndpointKind, Seq<u8>)> {
    match payload {
        Some(b) => seq![(feed_id, kind, b@)],
        None => Seq::empty(),
    }
}

pub open spec fn puts_spec(feed_id: Seq<char>, outcome: FetchOutcome) -> Seq<(Seq<char>, EndpointKind, Seq<u8>)> {
    one_put(feed_id, EndpointKind::Vehicles, outcome.vehicles)
        + one_put(feed_id, EndpointKind::Trips, outcome.trips)
        + one_put(feed_id, EndpointKind::Alerts, outcome.alerts)
}

/// The abstract value of one persistence write.
pub open spec fn put_view(p: PutAction) -> (Seq<char>, EndpointKind, Seq<u8>) {
    (p.feed_id@, p.kind, p.bytes@)
}

/// Builds the full plan of one cycle from the agency id, the resolved
/// URLs (which channels were configured) and the fetch outcome: a
/// persistence write for exactly the present payloads, and one forward
/// carrying the present payloads plus the configured flags, marked
/// immediate.
pub fn plan_cycle(feed_id: &String, urls: &Agencyurls, outcome: FetchOutcome) -> (r: CyclePlan)
    ensures
        r.puts@.map_values(|p: PutAction| put_view(p)) == puts_spec(feed_id@, outcome),
        r.publish.feed_id@ == feed_id@,
        r.publish.vehicles == outcome.vehicles,
        r.publish.trips == outcome.trips,
        r.publish.alerts == outcome.alerts,
        r.publish.vehicles_configured == (urls.vehicles is Some),
        r.publish.trips_configured == (urls.trips is Some),
        r.publish.alerts_configured == (urls.alerts is Some),
        r.publish.immediate == true,
{
    let mut puts: Vec<PutAction> = Vec::new();
    if let Some(b) = &outcome.vehicles {
        puts.push(PutAction { feed_id: feed_id.clone(), kind: EndpointKind::Vehicles, bytes: b.clone() });
    }
    if let Some(b) = &outcome.trips {
        puts.push(PutAction { feed_id: feed_id.clone(), kind: EndpointKind::Trips, bytes: b.clone() });
    }
    if let Some(b) = &outcome.alerts {
        puts.push(PutAction { feed_id: feed_id.clone(), kind: EndpointKind::Alerts, bytes: b.clone() });
    }
    let publish = PublishAction {
        feed_id: feed_id.clone(),
        vehicles_configured: matches!(urls.vehicles, Some(_)),
        trips_configured: matches!(urls.trips, Some(_)),
        alerts_configured: matches!(urls.alerts, Some(_)),
        vehicles: outcome.vehicles,
        trips: outcome.trips,
        alerts: outcome.alerts,
        immediate: true,
    };
    proof {
        assert(puts@.map_values(|p: PutAction| put_view(p)) =~= puts_spec(feed_id@, outcome));
    }
    CyclePlan { puts, publish }
}

/// Whether this agency's cycle performs the additional unauthenticated
/// reference fetch of its vehicle positions for cross-validation:
/// exactly one designated agency does.
pub fn needs_reference_fetch(feed_id: &String) -> (r: bool)
    ensures
        r == (feed_id@ == "f-octa~rt"@),
{
    let designated: String = "f-octa~rt".to_owned();
    *feed_id == designated
}

/// The unauthenticated reference URL the designated agency's cycle
/// fetches beside its vehicle positions.
pub fn reference_fetch_url() -> (r: String)
    ensures
        r@ == "https://api.octa.net/GTFSRealTime/protoBuf/VehiclePositions.aspx"@,
{
    "https://api.octa.net/GTFSRealTime/protoBuf/VehiclePositions.aspx".to_owned()
}

/// The vehicle-position bytes the designated agency's cycle persists
/// after its reference fetch: the originally fetched bytes, whatever
/// the reference fetch returned. Reconciling the two decoded payloads
/// is an extension point; no reconciled result replaces the original
/// bytes today.
pub fn vehicles_bytes_to_persist(original: Vec<u8>, _reference: &Option<Vec<u8>>) -> (r: Vec<u8>)
    ensures
        r@ == original@,
{
    original
}

/// The conversion feed's cycle plan: the converted vehicle and trip
/// payloads are persisted under the fixed conversion feed id and
/// forwarded with vehicles and trips configured, no alerts channel,
/// and no immediate flag.
pub fn amtrak_plan(vehicle_data: Vec<u8>, trip_data: Vec<u8>) -> (r: CyclePlan)
    ensures
        r.puts@.map_values(|p: PutAction| put_view(p)) == seq![
            ("f-amtrak~rt"@, EndpointKind::Vehicles, vehicle_data@),
            ("f-amtrak~rt"@, EndpointKind::Trips, trip_data@),
        ],
        r.publish.feed_id@ == "f-amtrak~rt"@,
        r.publish.vehicles matches Some(b) && b@ == vehicle_data@,
        r.publish.trips matches Some(b) && b@ == trip_data@,
        r.publish.alerts is None,
        r.publish.vehicles_configured == true,
        r.publish.trips_configured == true,
        r.publish.alerts_configured == false,
        r.publish.immediate == false,
{
    let feed: String = "f-amtrak~rt".to_owned();
    let mut puts: Vec<PutAction> = Vec::new();
    puts.push(PutAction { feed_id: feed.clone(), kind: EndpointKind::Vehicles, bytes: vehicle_data.clone() });
    puts.push(PutAction { feed_id: feed.clone(), kind: EndpointKind::Trips, bytes: trip_data.clone() });
    let publish = PublishAction {
        feed_id: feed,
        vehicles: Some(vehicle_data),
        trips: Some(trip_data),
        alerts: None,
        vehicles_configured: true,
        trips_configured: true,
        alerts_configured: false,
        immediate: false,
    };
    proof {
        assert(puts@.map_values(|p: PutAction| put_view(p)) =~= seq![
            ("f-amtrak~rt"@, EndpointKind::Vehicles, vehicle_data@),
            ("f-amtrak~rt"@, EndpointKind::Trips, trip_data@),
        ]);
    }
    CyclePlan { puts, publish }
}

/// An agency configured with only a vehicles URL stays silent on the
/// other channels: whatever credential the cycle chose, its resolved
/// URL set has no trips or alerts URL, so the cycle's fetch list holds
/// at most the vehicles fetch and nothing else — and then, by
/// `plan_cycle`'s contract, whatever the vehicles fetch returned, the
/// forward reports trips and alerts as unconfigured.
pub proof fn lemma_vehicles_only_cycle(agency: AgencyInfo, credential: Seq<char>, urls: Agencyurls)
    requires
        agency.realtime_trip_updates@.len() == 0,
        agency.realtime_alerts@.len() == 0,
        crate::urls::urls_resolved(agency, credential, urls),
    ensures
        urls.trips is None,
        urls.alerts is None,
        requests_spec(urls).len() <= 1,
        forall|i: int| 0 <= i < requests_spec(urls).len()
            ==> (#[trigger] requests_spec(urls)[i]).0 == EndpointKind::Vehicles,
{
}

} // verus!
