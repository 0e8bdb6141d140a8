use node_census::from_json;
use node_census::CensusEvent;
use node_census::CensusReport;
use node_census::ConsumerStep;
use node_census::NodeStats;
use node_census::OutputFormat;
use node_census::Peer;
use node_census::PeerAddress;
use node_census::PeerServices;
use node_census::SERVICE_COMPACT_FILTERS;
use node_census::SERVICE_P2P_V2;

fn scenario_stats() -> NodeStats {
    let mut stats = NodeStats::new();
    stats.increment_contacted();
    stats.add_node(Peer {
        address: PeerAddress::Ipv4([1, 2, 3, 4]),
        services: PeerServices::Known(SERVICE_P2P_V2 | SERVICE_COMPACT_FILTERS),
    });
    stats.increment_contacted();
    stats.add_node(Peer {
        address: PeerAddress::Ipv6([0; 16]),
        services: PeerServices::Known(SERVICE_P2P_V2),
    });
    stats.increment_contacted();
    stats.add_node(Peer {
        address: PeerAddress::TorV3([7; 32]),
        services: PeerServices::Known(0),
    });
    stats.increment_contacted();
    stats.increment_contacted();
    stats.set_duration(90);
    stats
}

fn bucket_json(total: usize, v2: usize, filters: usize, both: usize) -> String {
    format!(
        "{{\"total_nodes\":{total},\"v2_transport\":{v2},\"compact_filters\":{filters},\"v2_and_filters\":{both}}}"
    )
}

#[test]
fn from_stats_copies_everything() {
    let stats = scenario_stats();
    let report = CensusReport::from_stats(&stats, 1_700_000_000);
    assert_eq!(report.timestamp, 1_700_000_000);
    assert_eq!(report.duration_seconds, 90);
    assert_eq!(report.total_contacted, 5);
    assert_eq!(report.stats, stats.features);
    assert_eq!(report.census_version, "0.1.0");
}

#[test]
fn handle_event_drives_the_consumer() {
    let mut stats = NodeStats::new();
    let step = node_census::handle_event(
        &mut stats,
        CensusEvent::Listening(Peer {
            address: PeerAddress::Ipv4([9, 9, 9, 9]),
            services: PeerServices::Known(SERVICE_P2P_V2),
        }),
    );
    assert!(matches!(step, ConsumerStep::Continue));
    assert_eq!(stats.total_nodes(), 1);
    assert_eq!(stats.total_contacted(), 1);

    let step = node_census::handle_event(&mut stats, CensusEvent::NonListening);
    assert!(matches!(step, ConsumerStep::Continue));
    assert_eq!(stats.total_nodes(), 1);
    assert_eq!(stats.total_contacted(), 2);

    let step = node_census::handle_event(
        &mut stats,
        CensusEvent::Tick { elapsed_seconds: 60, now: 1_700_000_123 },
    );
    match step {
        ConsumerStep::EmitProgress(report) => {
            assert_eq!(report.timestamp, 1_700_000_123);
            assert_eq!(report.duration_seconds, 60);
            assert_eq!(report.total_contacted, 2);
            assert_eq!(report.stats.total_nodes, 1);
        }
        _ => panic!("a tick must emit a progress report"),
    }
    assert_eq!(stats.duration(), 60);
    assert_eq!(stats.total_contacted(), 2);

    let step = node_census::handle_event(&mut stats, CensusEvent::Closed);
    assert!(matches!(step, ConsumerStep::Finished));
    assert_eq!(stats.total_nodes(), 1);
    assert_eq!(stats.total_contacted(), 2);
}

#[test]
fn summary_line_exact() {
    let stats = scenario_stats();
    let report = CensusReport::from_stats(&stats, 1);
    assert_eq!(
        report.summary_line(),
        "nodes: 3 out of 5 contacted | v2: 2 (66.7%) | filters: 1 (33.3%) | \
         v2 & filters: 1 (33.3%) | ipv4: 1 (33.3%) | ipv6: 1 (33.3%) | \
         tor: 1 (33.3%) | i2p: 0 (0.0%) | cjdns: 0 (0.0%)"
    );
}

#[test]
fn summary_line_empty_census() {
    let report = CensusReport::from_stats(&NodeStats::new(), 0);
    assert_eq!(
        report.summary_line(),
        "nodes: 0 out of 0 contacted | v2: 0 (0.0%) | filters: 0 (0.0%) | \
         v2 & filters: 0 (0.0%) | ipv4: 0 (0.0%) | ipv6: 0 (0.0%) | \
         tor: 0 (0.0%) | i2p: 0 (0.0%) | cjdns: 0 (0.0%)"
    );
}

#[test]
fn csv_has_one_header_row_and_one_data_row() {
    let stats = scenario_stats();
    let report = CensusReport::from_stats(&stats, 1_700_000_000);
    let text = report.render(OutputFormat::Csv);
    assert!(text.ends_with('\n'));
    let lines: Vec<&str> = text.lines().collect();
    assert_eq!(lines.len(), 2);
    let header: Vec<&str> = lines[0].split(',').collect();
    let data: Vec<&str> = lines[1].split(',').collect();
    assert_eq!(header.len(), 66);
    assert_eq!(data.len(), 66);
    assert_eq!(header[0], "timestamp");
    assert_eq!(header[1], "duration_seconds");
    assert_eq!(header[2], "total_nodes");
    assert_eq!(header[3], "total_contacted");
    assert_eq!(header[10], "ipv4_total");
    assert_eq!(header[65], "unknown_v2_and_filters_pct");
    assert_eq!(data[0], "1700000000");
    assert_eq!(data[1], "90");
    assert_eq!(data[2], "3");
    assert_eq!(data[3], "5");
    assert_eq!(data[4], "2");
    assert_eq!(data[5], "66.67");
    assert_eq!(data[6], "1");
    assert_eq!(data[7], "33.33");
    assert_eq!(data[8], "1");
    assert_eq!(data[9], "33.33");
    // ipv4 bucket: total 1 (33.33% of the network), every feature 100%.
    assert_eq!(data[10], "1");
    assert_eq!(data[11], "33.33");
    assert_eq!(data[12], "1");
    assert_eq!(data[13], "100.00");
    // tor_v2 bucket is empty: all zero, percentages 0.00.
    assert_eq!(data[26], "0");
    assert_eq!(data[27], "0.00");
    assert_eq!(data[28], "0");
    assert_eq!(data[29], "0.00");
}

#[test]
fn csv_on_empty_census_still_renders() {
    let report = CensusReport::from_stats(&NodeStats::new(), 7);
    let text = report.render(OutputFormat::Csv);
    let lines: Vec<&str> = text.lines().collect();
    assert_eq!(lines.len(), 2);
    assert_eq!(lines[0].split(',').count(), 66);
    let data: Vec<&str> = lines[1].split(',').collect();
    assert_eq!(data.len(), 66);
    assert_eq!(data[0], "7");
    for k in 2..66 {
        let field = data[k];
        assert!(field == "0" || field == "0.00", "field {k} was {field}");
    }
}

#[test]
fn json_exact_text_for_empty_census() {
    let mut stats = NodeStats::new();
    stats.set_duration(7);
    let report = CensusReport::from_stats(&stats, 5);
    let zero = bucket_json(0, 0, 0, 0);
    let expected = format!(
        "{{\"timestamp\":5,\"duration_seconds\":7,\"total_contacted\":0,\"stats\":{{\
         \"total_nodes\":0,\"v2_transport\":0,\"compact_filters\":0,\"v2_and_filters\":0,\
         \"connection_types\":{{\"ipv4\":{zero},\"ipv6\":{zero},\"tor_v2\":{zero},\
         \"tor_v3\":{zero},\"i2p\":{zero},\"cjdns\":{zero},\"unknown\":{zero}}}}},\
         \"census_version\":\"0.1.0\"}}"
    );
    assert_eq!(report.render(OutputFormat::Json), expected);
    assert_eq!(report.render(OutputFormat::Jsonl), format!("{expected}\n"));
}

#[test]
fn json_round_trip_preserves_the_report() {
    let stats = scenario_stats();
    let report = CensusReport::from_stats(&stats, 1_700_000_000);
    let text = report.to_json();
    let back = from_json(&text).expect("the library parses what it writes");
    assert_eq!(back.timestamp, report.timestamp);
    assert_eq!(back.duration_seconds, report.duration_seconds);
    assert_eq!(back.total_contacted, report.total_contacted);
    assert_eq!(back.stats, report.stats);
    assert_eq!(back.census_version, report.census_version);
}

#[test]
fn jsonl_round_trip_with_trailing_newline() {
    let stats = scenario_stats();
    let report = CensusReport::from_stats(&stats, 42);
    let line = report.to_json_line();
    assert!(line.ends_with('\n'));
    let back = from_json(&line).expect("a report line parses whole");
    assert_eq!(back.stats, report.stats);
    assert_eq!(back.timestamp, 42);
}

#[test]
fn json_round_trip_escapes_version() {
    let stats = scenario_stats();
    let mut report = CensusReport::from_stats(&stats, 3);
    report.census_version = String::from("a\"b\\c");
    let text = report.to_json();
    let back = from_json(&text).expect("escaped characters survive the trip");
    assert_eq!(back.census_version, "a\"b\\c");
}

#[test]
fn document_missing_total_contacted_defaults_to_zero() {
    let stats = scenario_stats();
    let report = CensusReport::from_stats(&stats, 11);
    let text = report.to_json();
    let legacy = text.replace(",\"total_contacted\":5", "");
    assert_ne!(legacy, text);
    let back = from_json(&legacy).expect("an older document still reads");
    assert_eq!(back.total_contacted, 0);
    assert_eq!(back.stats, report.stats);
    assert_eq!(back.timestamp, 11);
}

#[test]
fn malformed_documents_are_rejected() {
    assert!(from_json("").is_none());
    assert!(from_json("{}").is_none());
    assert!(from_json("{\"timestamp\":").is_none());
    let stats = scenario_stats();
    let report = CensusReport::from_stats(&stats, 9);
    let text = report.to_json();
    let truncated = &text[..text.len() - 1];
    assert!(from_json(truncated).is_none());
    let trailing = format!("{text}x");
    assert!(from_json(&trailing).is_none());
    let huge = text.replace("\"timestamp\":9", "\"timestamp\":99999999999999999999");
    assert!(from_json(&huge).is_none());
}

#[test]
fn largest_timestamp_survives_the_round_trip() {
    let report = CensusReport::from_stats(&NodeStats::new(), u64::MAX);
    let text = report.to_json();
    assert!(text.contains("\"timestamp\":18446744073709551615,"));
    let back = from_json(&text).expect("the largest counter value still parses");
    assert_eq!(back.timestamp, u64::MAX);
}

#[test]
fn rendered_json_is_valid_for_a_standard_parser() {
    let stats = scenario_stats();
    let report = CensusReport::from_stats(&stats, 1_700_000_000);
    let text = report.render(OutputFormat::Json);
    let value: serde_json::Value = serde_json::from_str(&text).expect("well-formed JSON");
    assert_eq!(value["timestamp"], serde_json::Value::from(1_700_000_000u64));
    assert_eq!(value["duration_seconds"], serde_json::Value::from(90u64));
    assert_eq!(value["total_contacted"], serde_json::Value::from(5u64));
    assert_eq!(value["stats"]["total_nodes"], serde_json::Value::from(3u64));
    assert_eq!(value["stats"]["v2_transport"], serde_json::Value::from(2u64));
    assert_eq!(
        value["stats"]["connection_types"]["ipv4"]["v2_and_filters"],
        serde_json::Value::from(1u64)
    );
    assert_eq!(
        value["stats"]["connection_types"]["unknown"]["total_nodes"],
        serde_json::Value::from(0u64)
    );
    assert_eq!(value["census_version"], serde_json::Value::from("0.1.0"));
}
