use kactus_ingest::agency::{agency_from_row, catalog_from_rows, RowError};
use kactus_ingest::membership::{node_path, registration_plan, register_self, root_path};
use kactus_ingest::text::{parse_u64, u64_to_dec};
use kactus_ingest::urls::resolve_one;

fn row(fields: &[&str]) -> Vec<String> {
    fields.iter().map(|f| f.to_string()).collect()
}

fn good_row() -> Vec<String> {
    row(&[
        "f-test~rt",
        "https://v.example/rt",
        "https://t.example/rt",
        "https://a.example/rt",
        "true",
        "header",
        "Authorization",
        "secret",
        "60",
        "k1,k2,k3",
    ])
}

#[test]
fn a_full_row_becomes_an_agency() {
    let a = agency_from_row(&good_row()).unwrap();
    assert_eq!(a.onetrip, "f-test~rt");
    assert_eq!(a.realtime_vehicle_positions, "https://v.example/rt");
    assert_eq!(a.realtime_trip_updates, "https://t.example/rt");
    assert_eq!(a.realtime_alerts, "https://a.example/rt");
    assert!(a.has_auth);
    assert_eq!(a.auth_type, "header");
    assert_eq!(a.auth_header, "Authorization");
    assert_eq!(a.auth_password, "secret");
    assert_eq!(a.fetch_interval, 60);
    assert_eq!(a.multiauth, Some(vec!["k1".to_string(), "k2".to_string(), "k3".to_string()]));
}

#[test]
fn an_empty_rotation_column_means_no_rotation_list() {
    let mut fields = good_row();
    fields[9] = String::new();
    fields[4] = "false".to_string();
    let a = agency_from_row(&fields).unwrap();
    assert!(!a.has_auth);
    assert_eq!(a.multiauth, None);
}

#[test]
fn a_rotation_column_without_commas_is_one_credential() {
    let mut fields = good_row();
    fields[9] = "only".to_string();
    let a = agency_from_row(&fields).unwrap();
    assert_eq!(a.multiauth, Some(vec!["only".to_string()]));
}

#[test]
fn short_rows_are_rejected() {
    assert!(matches!(agency_from_row(&row(&["f-x~rt", "https://v"])), Err(RowError::TooShort)));
    assert!(matches!(agency_from_row(&Vec::new()), Err(RowError::TooShort)));
}

#[test]
fn a_bad_auth_flag_is_rejected() {
    let mut fields = good_row();
    fields[4] = "yes".to_string();
    assert!(matches!(agency_from_row(&fields), Err(RowError::BadAuthFlag)));
}

#[test]
fn a_bad_interval_is_rejected() {
    for bad in ["", "12x", "-3", "18446744073709551616"] {
        let mut fields = good_row();
        fields[8] = bad.to_string();
        let outcome = agency_from_row(&fields);
        assert!(matches!(outcome, Err(RowError::BadInterval)), "interval {:?}", bad);
    }
}

#[test]
fn decimal_parsing_reads_exact_values() {
    let digits = |s: &str| s.chars().collect::<Vec<char>>();
    assert_eq!(parse_u64(&digits("0")), Some(0));
    assert_eq!(parse_u64(&digits("007")), Some(7));
    assert_eq!(parse_u64(&digits("18446744073709551615")), Some(u64::MAX));
    assert_eq!(parse_u64(&digits("18446744073709551616")), None);
    assert_eq!(parse_u64(&digits("")), None);
    assert_eq!(parse_u64(&digits("1 2")), None);
}

#[test]
fn decimal_printing_round_trips() {
    let printed = |n: u64| u64_to_dec(n).into_iter().collect::<String>();
    assert_eq!(printed(0), "0");
    assert_eq!(printed(1234), "1234");
    assert_eq!(printed(u64::MAX), "18446744073709551615");
    for n in [0u64, 9, 10, 12345, u64::MAX] {
        let back: Vec<char> = printed(n).chars().collect();
        assert_eq!(parse_u64(&back), Some(n));
    }
}

#[test]
fn membership_paths() {
    assert_eq!(root_path(), "/kactusworkers");
    assert_eq!(node_path(42), "/kactusworkers/42");
    assert_eq!(node_path(0), "/kactusworkers/0");
}

#[test]
fn registration_creates_the_root_only_when_it_is_missing() {
    let plan = registration_plan(false, 7);
    assert!(plan.create_root);
    assert_eq!(plan.ephemeral_path, "/kactusworkers/7");
    let plan = registration_plan(true, 7);
    assert!(!plan.create_root);
}

#[test]
fn a_fresh_registration_uses_its_own_identifier() {
    let plan = register_self(true);
    assert!(!plan.create_root);
    assert_eq!(plan.ephemeral_path, node_path(plan.uid));
}

#[test]
fn url_resolution_by_auth_type() {
    let cred = "s3cret".to_string();
    let in_url = resolve_one(&"https://x.example/rt?key=".to_string(), &"url".to_string(), &cred);
    assert_eq!(in_url, Some("https://x.example/rt?key=s3cret".to_string()));
    let in_header = resolve_one(&"https://x.example/rt".to_string(), &"header".to_string(), &cred);
    assert_eq!(in_header, Some("https://x.example/rt".to_string()));
    let absent = resolve_one(&String::new(), &"url".to_string(), &cred);
    assert_eq!(absent, None);
}

#[test]
fn catalog_building_skips_malformed_rows_and_continues() {
    let mut bad_flag = good_row();
    bad_flag[0] = "f-two~rt".to_string();
    bad_flag[4] = "maybe".to_string();
    let mut second = good_row();
    second[0] = "f-three~rt".to_string();
    let rows = vec![
        good_row(),
        bad_flag,
        vec!["f-short~rt".to_string()],
        second,
    ];
    let (agencies, skipped) = catalog_from_rows(&rows);
    assert_eq!(agencies.len(), 2);
    assert_eq!(agencies[0].onetrip, "f-test~rt");
    assert_eq!(agencies[1].onetrip, "f-three~rt");
    assert_eq!(skipped.len(), 2);
    assert_eq!(skipped[0].0, 1);
    assert!(matches!(skipped[0].1, RowError::BadAuthFlag));
    assert_eq!(skipped[1].0, 2);
    assert!(matches!(skipped[1].1, RowError::TooShort));
}
