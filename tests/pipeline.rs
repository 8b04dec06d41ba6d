use pathnynj_gtfs_realtime::extract::{extract_station_records, StationRecord};
use pathnynj_gtfs_realtime::feed::{assemble_entities, feed_header};
use pathnynj_gtfs_realtime::parse_path_alerts;
use pathnynj_gtfs_realtime::normalize::normalize_alert_text;
use pathnynj_gtfs_realtime::routes::{default_agency_id, find_route_ids, informed_scopes, AgencyRef, ReferenceData, RouteRef};
use pathnynj_gtfs_realtime::timestamp::resolve_timestamp;

const NOW: u64 = 1_700_000_000;

fn route(id: &str, long_name: Option<&str>) -> RouteRef {
    RouteRef { id: id.to_string(), long_name: long_name.map(|s| s.to_string()) }
}

fn no_reference() -> ReferenceData {
    ReferenceData { routes: vec![], agencies: vec![] }
}

fn station(date: Option<&str>, time: Option<&str>, text: Option<&str>) -> String {
    let mut labels = String::new();
    for l in [date, time].into_iter().flatten() {
        labels.push_str(&format!("<td><strong><span>{}</span></strong></td>", l));
    }
    let text = text.map(|t| format!("<span class=\"alertText\">{}</span>", t)).unwrap_or_default();
    format!(
        "<div class=\"station\"><div class=\"stationName\"><table><tr>{}</tr></table></div><div>{}</div></div>",
        labels, text
    )
}

fn document(blocks: &[String]) -> String {
    format!("<html><body>{}</body></html>", blocks.concat())
}

#[test]
fn timestamp_valid_pair_is_utc_epoch() {
    assert_eq!(resolve_timestamp("11/25/2025", "11:21 PM", NOW), 1764112860);
    assert_eq!(resolve_timestamp("02/29/2024", "12:05 AM", NOW), 1709165100);
    assert_eq!(resolve_timestamp("01/01/2025", "12:00 PM", NOW), 1735732800);
}

#[test]
fn timestamp_malformed_pair_falls_back_to_now() {
    assert_eq!(resolve_timestamp("", "", NOW), NOW);
    assert_eq!(resolve_timestamp("11/25/2025", "", NOW), NOW);
    assert_eq!(resolve_timestamp("", "11:21 PM", NOW), NOW);
    assert_eq!(resolve_timestamp("13/25/2025", "11:21 PM", NOW), NOW);
    assert_eq!(resolve_timestamp("02/30/2025", "11:21 PM", NOW), NOW);
    assert_eq!(resolve_timestamp("2025-11-25", "23:21", NOW), NOW);
}

#[test]
fn normalizer_removes_apology_clause() {
    assert_eq!(
        normalize_alert_text("Service is delayed. We apologize for the inconvenience this may have caused."),
        "Service is delayed."
    );
    assert_eq!(normalize_alert_text("We regret the inconvenience."), "");
    assert_eq!(normalize_alert_text("  Trains are running on time.  "), "Trains are running on time.");
    assert_eq!(normalize_alert_text(""), "");
}

#[test]
fn normalizer_is_idempotent() {
    for s in [
        "Service is delayed. We apologize for the inconvenience this may have caused.",
        "  Trains are running on time.  ",
        "We regret any inconvenience.",
        "Elevator out of service at Grove St.",
    ] {
        let once = normalize_alert_text(s);
        assert_eq!(normalize_alert_text(&once), once);
    }
}

#[test]
fn routes_for_newark_abbreviation() {
    let routes = vec![
        route("R1", Some("Newark - World Trade Center")),
        route("R2", Some("Hoboken - 33rd Street")),
        route("R3", Some("Newark - World Trade Center")),
        route("R4", None),
    ];
    assert_eq!(find_route_ids("NWK-WTC trains delayed", &routes), vec!["R1".to_string(), "R3".to_string()]);
    assert_eq!(
        find_route_ids("HOB-33 and NWK-WTC delayed", &routes),
        vec!["R1".to_string(), "R3".to_string(), "R2".to_string()]
    );
    assert!(find_route_ids("JSQ-33 delayed", &routes).is_empty());
    assert!(find_route_ids("All lines delayed", &routes).is_empty());
}

#[test]
fn scopes_without_abbreviation_are_agency_wide() {
    let data = ReferenceData {
        routes: vec![route("R1", Some("Newark - World Trade Center"))],
        agencies: vec![AgencyRef { id: Some("151".to_string()) }],
    };
    let scopes = informed_scopes("All lines delayed", &data);
    assert_eq!(scopes.len(), 1);
    assert_eq!(scopes[0].agency_id.as_deref(), Some("151"));
    assert_eq!(scopes[0].route_id, None);

    let scopes = informed_scopes("NWK-WTC delayed", &data);
    assert_eq!(scopes.len(), 1);
    assert_eq!(scopes[0].agency_id.as_deref(), Some("151"));
    assert_eq!(scopes[0].route_id.as_deref(), Some("R1"));
}

#[test]
fn default_agency_falls_back() {
    assert_eq!(default_agency_id(&vec![]), "PATH");
    assert_eq!(default_agency_id(&vec![AgencyRef { id: None }, AgencyRef { id: Some("X".to_string()) }]), "PATH");
    assert_eq!(default_agency_id(&vec![AgencyRef { id: Some("X".to_string()) }]), "X");
}

#[test]
fn extractor_reads_blocks_in_order() {
    let doc = document(&[
        station(Some("11/25/2025"), Some("11:21 PM"), Some("  First &quotalert&quot  ")),
        station(None, None, None),
    ]);
    let records = extract_station_records(&doc, NOW);
    assert_eq!(records.len(), 2);
    assert_eq!(records[0].index, 0);
    assert_eq!(records[0].timestamp, 1764112860);
    assert_eq!(records[0].text, "First \"alert\"");
    assert_eq!(records[1].index, 1);
    assert_eq!(records[1].timestamp, NOW);
    assert_eq!(records[1].text, "");
}

#[test]
fn assembler_drops_empty_and_keeps_indices() {
    let records = vec![
        StationRecord { index: 0, timestamp: 5, text: "We regret the inconvenience.".to_string() },
        StationRecord { index: 1, timestamp: 7, text: "Delays on HOB-WTC.".to_string() },
    ];
    let entities = assemble_entities(&records, &no_reference());
    assert_eq!(entities.len(), 1);
    assert_eq!(entities[0].id, "path_alert_1");
    assert_eq!(entities[0].start, 7);
    assert_eq!(entities[0].description, "Delays on HOB-WTC.");
    assert_eq!(entities[0].informed.len(), 1);
    assert_eq!(entities[0].informed[0].agency_id.as_deref(), Some("PATH"));
    assert_eq!(entities[0].informed[0].route_id, None);
}

#[test]
fn header_fields() {
    let h = feed_header(42);
    assert_eq!(h.version, "2.0");
    assert!(h.full_dataset);
    assert_eq!(h.timestamp, 42);
    assert_eq!(h.feed_version, "1.0");
}

#[test]
fn one_block_with_apology_and_route() {
    let doc = document(&[station(
        Some("11/25/2025"),
        Some("11:21 PM"),
        Some("NWK-WTC: Service is delayed. We apologize for the inconvenience this may have caused."),
    )]);
    let data = ReferenceData { routes: vec![route("R1", Some("Newark - World Trade Center"))], agencies: vec![] };
    let feed = parse_path_alerts(&doc, &data, NOW);
    assert_eq!(feed.entities.len(), 1);
    let e = &feed.entities[0];
    assert_eq!(e.id, "path_alert_0");
    assert_eq!(e.description, "NWK-WTC: Service is delayed.");
    assert_eq!(e.start, 1764112860);
    assert_eq!(e.informed.len(), 1);
    assert_eq!(e.informed[0].route_id.as_deref(), Some("R1"));
    assert_eq!(e.informed[0].agency_id.as_deref(), Some("PATH"));
}

#[test]
fn one_block_with_apology_only_text_is_cleaned() {
    let doc = document(&[station(
        Some("11/25/2025"),
        Some("11:21 PM"),
        Some("Service is delayed. We apologize for the inconvenience this may have caused."),
    )]);
    let feed = parse_path_alerts(&doc, &no_reference(), NOW);
    assert_eq!(feed.entities.len(), 1);
    assert_eq!(feed.entities[0].description, "Service is delayed.");
    assert_eq!(feed.entities[0].start, 1764112860);
}

#[test]
fn apology_only_block_is_dropped() {
    let doc = document(&[station(Some("11/25/2025"), Some("11:21 PM"), Some("We regret the inconvenience."))]);
    let feed = parse_path_alerts(&doc, &no_reference(), NOW);
    assert!(feed.entities.is_empty());
}

#[test]
fn no_blocks_gives_empty_feed_with_header() {
    let feed = parse_path_alerts("<html><body><p>No alerts</p></body></html>", &no_reference(), NOW);
    assert!(feed.entities.is_empty());
    assert_eq!(feed.header.version, "2.0");
    assert!(feed.header.full_dataset);
    assert_eq!(feed.header.timestamp, NOW);
    assert_eq!(feed.header.feed_version, "1.0");
}

#[test]
fn entities_never_exceed_blocks() {
    let doc = document(&[
        station(None, None, Some("Elevator out of service.")),
        station(None, None, Some("We apologize for the inconvenience.")),
        station(None, None, None),
        station(None, None, Some("JSQ-33 delays.")),
    ]);
    let feed = parse_path_alerts(&doc, &no_reference(), NOW);
    assert_eq!(feed.entities.len(), 2);
    assert_eq!(feed.entities[0].id, "path_alert_0");
    assert_eq!(feed.entities[1].id, "path_alert_3");
    assert_eq!(feed.entities[0].start, NOW);
    for e in &feed.entities {
        assert!(!e.description.is_empty());
    }
}
