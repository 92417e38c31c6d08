use kactus_ingest::agency::AgencyInfo;
use kactus_ingest::control::{add_status, AddOutcome, Registry, SignalPoll, WorkerStep, worker_step};
use kactus_ingest::credential::{select_credential, CredentialError};
use kactus_ingest::cycle::{
    amtrak_plan, fetch_requests, needs_reference_fetch, plan_cycle, vehicles_bytes_to_persist,
    EndpointKind, FetchOutcome,
};
use kactus_ingest::scheduler::{sleep_remainder, sub_batches, DEFAULT_CONCURRENCY, ROUND_CADENCE_MS};
use kactus_ingest::urls::resolve_urls;

fn mk_agency(id: &str, vehicles: &str, trips: &str, alerts: &str, multiauth: Option<Vec<String>>) -> AgencyInfo {
    AgencyInfo {
        onetrip: id.to_string(),
        realtime_vehicle_positions: vehicles.to_string(),
        realtime_trip_updates: trips.to_string(),
        realtime_alerts: alerts.to_string(),
        has_auth: false,
        auth_type: "header".to_string(),
        auth_header: "Authorization".to_string(),
        auth_password: "base-password".to_string(),
        fetch_interval: 60,
        multiauth,
    }
}

#[test]
fn rotation_selection_is_roughly_uniform() {
    let entries = vec!["a".to_string(), "b".to_string(), "c".to_string(), "d".to_string()];
    let agency = mk_agency("f-rot~rt", "https://v", "", "", Some(entries.clone()));
    let rounds = 4000;
    let mut counts = [0usize; 4];
    for _ in 0..rounds {
        let c = select_credential(&agency).unwrap();
        let idx = entries.iter().position(|e| *e == c).expect("credential not from the rotation list");
        counts[idx] += 1;
    }
    for &n in counts.iter() {
        assert!(n > 600 && n < 1400, "rotation far from uniform: {:?}", counts);
    }
}

#[test]
fn single_password_without_rotation() {
    let agency = mk_agency("f-one~rt", "https://v", "", "", None);
    assert_eq!(select_credential(&agency).unwrap(), "base-password");
}

#[test]
fn empty_rotation_fails_fast() {
    let agency = mk_agency("f-bad~rt", "https://v", "", "", Some(Vec::new()));
    assert_eq!(select_credential(&agency), Err(CredentialError::EmptyRotation));
}

#[test]
fn rotation_of_one_entry_is_used_not_the_password() {
    let agency = mk_agency("f-single~rt", "https://v", "", "", Some(vec!["rotated".to_string()]));
    assert_eq!(select_credential(&agency).unwrap(), "rotated");
}

#[test]
fn five_agencies_at_concurrency_two_make_three_sub_batches() {
    let batches = sub_batches(5, 2);
    assert_eq!(batches.len(), 3);
    assert_eq!((batches[0].start, batches[0].end), (0, 2));
    assert_eq!((batches[1].start, batches[1].end), (2, 4));
    assert_eq!((batches[2].start, batches[2].end), (4, 5));
}

#[test]
fn sub_batch_edges() {
    assert_eq!(sub_batches(0, 2).len(), 0);
    let exact = sub_batches(4, 2);
    assert_eq!(exact.len(), 2);
    assert_eq!((exact[1].start, exact[1].end), (2, 4));
    let one = sub_batches(5, DEFAULT_CONCURRENCY);
    assert_eq!(one.len(), 1);
    assert_eq!((one[0].start, one[0].end), (0, 5));
}

#[test]
fn fast_round_sleeps_the_remainder_slow_round_does_not() {
    assert_eq!(ROUND_CADENCE_MS, 500);
    assert_eq!(sleep_remainder(200), 300);
    assert_eq!(sleep_remainder(600), 0);
    assert_eq!(sleep_remainder(500), 0);
    assert_eq!(sleep_remainder(0), 500);
}

#[test]
fn duplicate_registration_reports_exists_and_changes_nothing() {
    let mut registry = Registry::new();
    let first = mk_agency("f-dyn~rt", "https://v", "", "", None);
    let mut second = mk_agency("f-dyn~rt", "https://other", "https://t", "", None);
    second.auth_password = "different".to_string();
    assert_eq!(registry.add_agency(first), AddOutcome::Added);
    assert_eq!(registry.agencies_snapshot().len(), 1);
    assert_eq!(registry.add_agency(second), AddOutcome::AlreadyExists);
    assert_eq!(registry.agencies_snapshot().len(), 1);
    assert_eq!(registry.agencies_snapshot()[0].realtime_vehicle_positions, "https://v");
    let third = mk_agency("f-else~rt", "https://v", "", "", None);
    assert_eq!(registry.add_agency(third), AddOutcome::Added);
    assert_eq!(registry.agencies_snapshot().len(), 2);
}

#[test]
fn registration_status_strings() {
    assert_eq!(add_status(AddOutcome::Added), "Agency added");
    assert_eq!(add_status(AddOutcome::AlreadyExists), "Error: Agency Exists");
}

#[test]
fn any_signal_terminates_a_worker() {
    assert_eq!(worker_step(SignalPoll::Received), WorkerStep::Terminate);
    assert_eq!(worker_step(SignalPoll::Closed), WorkerStep::Terminate);
    assert_eq!(worker_step(SignalPoll::Empty), WorkerStep::Continue);
}

#[test]
fn vehicles_only_agency_stays_silent_on_other_channels() {
    let agency = mk_agency("f-veh~rt", "https://v.example/rt", "", "", None);
    let credential = select_credential(&agency).unwrap();
    let urls = resolve_urls(&agency, &credential);
    assert!(urls.vehicles.is_some());
    assert!(urls.trips.is_none());
    assert!(urls.alerts.is_none());
    let requests = fetch_requests(&urls);
    assert_eq!(requests.len(), 1);
    assert_eq!(requests[0].kind, EndpointKind::Vehicles);
    // Whatever the vehicles fetch returns, the forward reports the
    // other channels as unconfigured.
    for vehicles in [None, Some(vec![9u8; 16])] {
        let outcome = FetchOutcome { vehicles, trips: None, alerts: None };
        let plan = plan_cycle(&agency.onetrip, &urls, outcome);
        assert!(plan.publish.vehicles_configured);
        assert!(!plan.publish.trips_configured);
        assert!(!plan.publish.alerts_configured);
    }
}

#[test]
fn full_cycle_plan_for_one_successful_and_two_failed_fetches() {
    let agency = mk_agency("f-test~rt", "https://v.example/rt", "https://t.example/rt", "https://a.example/rt", None);
    let credential = select_credential(&agency).unwrap();
    let urls = resolve_urls(&agency, &credential);
    assert!(urls.vehicles.is_some() && urls.trips.is_some() && urls.alerts.is_some());
    let payload = vec![7u8; 32];
    let outcome = FetchOutcome { vehicles: Some(payload.clone()), trips: None, alerts: None };
    let plan = plan_cycle(&agency.onetrip, &urls, outcome);
    assert_eq!(plan.puts.len(), 1);
    assert_eq!(plan.puts[0].feed_id, "f-test~rt");
    assert_eq!(plan.puts[0].kind, EndpointKind::Vehicles);
    assert_eq!(plan.puts[0].bytes.len(), 32);
    assert_eq!(plan.puts[0].bytes, payload);
    assert_eq!(plan.publish.feed_id, "f-test~rt");
    assert_eq!(plan.publish.vehicles, Some(payload));
    assert_eq!(plan.publish.trips, None);
    assert_eq!(plan.publish.alerts, None);
    assert!(plan.publish.vehicles_configured);
    assert!(plan.publish.trips_configured);
    assert!(plan.publish.alerts_configured);
    assert!(plan.publish.immediate);
}

#[test]
fn all_fetches_failing_still_forwards_configured_flags() {
    let agency = mk_agency("f-down~rt", "https://v", "https://t", "", None);
    let credential = select_credential(&agency).unwrap();
    let urls = resolve_urls(&agency, &credential);
    let outcome = FetchOutcome { vehicles: None, trips: None, alerts: None };
    let plan = plan_cycle(&agency.onetrip, &urls, outcome);
    assert_eq!(plan.puts.len(), 0);
    assert!(plan.publish.vehicles_configured);
    assert!(plan.publish.trips_configured);
    assert!(!plan.publish.alerts_configured);
    assert!(plan.publish.vehicles.is_none());
}

#[test]
fn only_the_designated_agency_makes_a_reference_fetch() {
    assert!(needs_reference_fetch(&"f-octa~rt".to_string()));
    assert!(!needs_reference_fetch(&"f-test~rt".to_string()));
    assert!(!needs_reference_fetch(&"".to_string()));
}

#[test]
fn reference_outcome_never_replaces_the_fetched_bytes() {
    let original = vec![1u8, 2, 3];
    let reference = Some(vec![4u8, 5, 6]);
    assert_eq!(vehicles_bytes_to_persist(original.clone(), &reference), original);
    assert_eq!(vehicles_bytes_to_persist(original.clone(), &None), original);
}

#[test]
fn conversion_feed_plan() {
    let plan = amtrak_plan(vec![1u8, 2], vec![3u8]);
    assert_eq!(plan.puts.len(), 2);
    assert_eq!(plan.puts[0].feed_id, "f-amtrak~rt");
    assert_eq!(plan.puts[0].kind, EndpointKind::Vehicles);
    assert_eq!(plan.puts[0].bytes, vec![1u8, 2]);
    assert_eq!(plan.puts[1].kind, EndpointKind::Trips);
    assert_eq!(plan.puts[1].bytes, vec![3u8]);
    assert_eq!(plan.publish.feed_id, "f-amtrak~rt");
    assert_eq!(plan.publish.vehicles, Some(vec![1u8, 2]));
    assert_eq!(plan.publish.trips, Some(vec![3u8]));
    assert_eq!(plan.publish.alerts, None);
    assert!(plan.publish.vehicles_configured);
    assert!(plan.publish.trips_configured);
    assert!(!plan.publish.alerts_configured);
    assert!(!plan.publish.immediate);
}
