use node_census::classify;
use node_census::extract_features;
use node_census::ConnectionType;
use node_census::ConnectionTypeFeatures;
use node_census::ConnectionTypeStats;
use node_census::FeatureStats;
use node_census::NodeStats;
use node_census::Peer;
use node_census::PeerAddress;
use node_census::PeerServices;
use node_census::SERVICE_COMPACT_FILTERS;
use node_census::SERVICE_P2P_V2;

fn listening(address: PeerAddress, v2: bool, filters: bool) -> Peer {
    let mut bits: u64 = 0;
    if v2 {
        bits |= SERVICE_P2P_V2;
    }
    if filters {
        bits |= SERVICE_COMPACT_FILTERS;
    }
    Peer {
        address,
        services: PeerServices::Known(bits),
    }
}

#[test]
fn classify_covers_every_variant() {
    assert_eq!(classify(&PeerAddress::Ipv4([127, 0, 0, 1])), ConnectionType::Ipv4);
    assert_eq!(classify(&PeerAddress::Ipv6([0; 16])), ConnectionType::Ipv6);
    assert_eq!(classify(&PeerAddress::TorV2([0; 10])), ConnectionType::TorV2);
    assert_eq!(classify(&PeerAddress::TorV3([0; 32])), ConnectionType::TorV3);
    assert_eq!(classify(&PeerAddress::I2p([0; 32])), ConnectionType::I2p);
    assert_eq!(classify(&PeerAddress::Cjdns([0; 16])), ConnectionType::Cjdns);
    assert_eq!(
        classify(&PeerAddress::Unknown(42, vec![1, 2, 3])),
        ConnectionType::Unknown
    );
    assert_eq!(
        classify(&PeerAddress::Unknown(255, Vec::new())),
        ConnectionType::Unknown
    );
}

#[test]
fn extract_features_reads_the_two_bits() {
    assert_eq!(
        extract_features(&PeerServices::Known(SERVICE_P2P_V2)),
        (true, false)
    );
    assert_eq!(
        extract_features(&PeerServices::Known(SERVICE_COMPACT_FILTERS)),
        (false, true)
    );
    assert_eq!(
        extract_features(&PeerServices::Known(SERVICE_P2P_V2 | SERVICE_COMPACT_FILTERS)),
        (true, true)
    );
    assert_eq!(extract_features(&PeerServices::Known(0)), (false, false));
    assert_eq!(extract_features(&PeerServices::Known(1)), (false, false));
    assert_eq!(extract_features(&PeerServices::Unknown), (false, false));
}

#[test]
fn three_listening_two_non_listening() {
    let mut stats = NodeStats::new();
    stats.increment_contacted();
    stats.add_node(listening(PeerAddress::Ipv4([1, 2, 3, 4]), true, true));
    stats.increment_contacted();
    stats.add_node(listening(PeerAddress::Ipv6([0; 16]), true, false));
    stats.increment_contacted();
    stats.add_node(listening(PeerAddress::TorV3([7; 32]), false, false));
    stats.increment_contacted();
    stats.increment_contacted();

    assert_eq!(stats.total_nodes(), 3);
    assert_eq!(stats.total_contacted(), 5);
    let f = &stats.features;
    assert_eq!(f.total_nodes, 3);
    assert_eq!(f.v2_transport, 2);
    assert_eq!(f.compact_filters, 1);
    assert_eq!(f.v2_and_filters, 1);

    let cts = &f.connection_types;
    assert_eq!(
        cts.ipv4,
        ConnectionTypeFeatures {
            total_nodes: 1,
            v2_transport: 1,
            compact_filters: 1,
            v2_and_filters: 1,
        }
    );
    assert_eq!(
        cts.ipv6,
        ConnectionTypeFeatures {
            total_nodes: 1,
            v2_transport: 1,
            compact_filters: 0,
            v2_and_filters: 0,
        }
    );
    assert_eq!(
        cts.tor_v3,
        ConnectionTypeFeatures {
            total_nodes: 1,
            v2_transport: 0,
            compact_filters: 0,
            v2_and_filters: 0,
        }
    );
    let zero = ConnectionTypeFeatures::new();
    assert_eq!(cts.tor_v2, zero);
    assert_eq!(cts.i2p, zero);
    assert_eq!(cts.cjdns, zero);
    assert_eq!(cts.unknown, zero);
}

#[test]
fn global_counters_equal_bucket_sums_after_each_call() {
    let mut stats = NodeStats::new();
    let peers = vec![
        listening(PeerAddress::Ipv4([1, 1, 1, 1]), true, true),
        listening(PeerAddress::Unknown(9, vec![0]), true, false),
        listening(PeerAddress::Cjdns([2; 16]), false, true),
        listening(PeerAddress::I2p([3; 32]), false, false),
        listening(PeerAddress::Ipv4([4, 4, 4, 4]), true, true),
    ];
    for peer in peers {
        stats.add_node(peer);
        let f = &stats.features;
        let c = &f.connection_types;
        let buckets = [
            &c.ipv4, &c.ipv6, &c.tor_v2, &c.tor_v3, &c.i2p, &c.cjdns, &c.unknown,
        ];
        let total: usize = buckets.iter().map(|b| b.total_nodes).sum();
        let v2: usize = buckets.iter().map(|b| b.v2_transport).sum();
        let filters: usize = buckets.iter().map(|b| b.compact_filters).sum();
        let both: usize = buckets.iter().map(|b| b.v2_and_filters).sum();
        assert_eq!(f.total_nodes, total);
        assert_eq!(f.v2_transport, v2);
        assert_eq!(f.compact_filters, filters);
        assert_eq!(f.v2_and_filters, both);
        for b in buckets {
            assert!(b.v2_and_filters <= b.v2_transport);
            assert!(b.v2_and_filters <= b.compact_filters);
            assert!(b.v2_transport <= b.total_nodes);
            assert!(b.compact_filters <= b.total_nodes);
        }
    }
    assert_eq!(stats.features.connection_types.total_nodes(), 5);
}

#[test]
fn percentage_is_zero_on_empty_total() {
    let f = ConnectionTypeFeatures::new();
    assert_eq!(f.percentage(0), 0);
    let s = FeatureStats::new();
    assert_eq!(s.percentage(0), 0);
    let c = ConnectionTypeStats::new();
    assert_eq!(c.connection_percentage(0), 0);
}

#[test]
fn percentage_values_in_hundredths() {
    let f = ConnectionTypeFeatures {
        total_nodes: 3,
        v2_transport: 2,
        compact_filters: 1,
        v2_and_filters: 1,
    };
    // 2/3 = 66.67% rounded half up from 66.666...
    assert_eq!(f.percentage(f.v2_transport), 6667);
    assert_eq!(f.percentage(f.compact_filters), 3333);
    assert_eq!(f.percentage(f.total_nodes), 10000);
    let half = ConnectionTypeFeatures {
        total_nodes: 2,
        v2_transport: 1,
        compact_filters: 0,
        v2_and_filters: 0,
    };
    assert_eq!(half.percentage(1), 5000);
}

#[test]
fn percentage_rounds_half_up() {
    // 1/8 is exactly 12.50%: no rounding needed.
    let eighth = ConnectionTypeFeatures {
        total_nodes: 8,
        v2_transport: 1,
        compact_filters: 0,
        v2_and_filters: 0,
    };
    assert_eq!(eighth.percentage(1), 1250);
    // 1/16 is 6.25%: the hundredths digit sits exactly on a half and goes up.
    let sixteenth = ConnectionTypeFeatures {
        total_nodes: 16,
        v2_transport: 1,
        compact_filters: 0,
        v2_and_filters: 0,
    };
    assert_eq!(sixteenth.percentage(1), 625);
    // 1/3 of 10000 is 3333.33...: rounds down to 3333.
    let third = ConnectionTypeFeatures {
        total_nodes: 3,
        v2_transport: 1,
        compact_filters: 0,
        v2_and_filters: 0,
    };
    assert_eq!(third.percentage(1), 3333);
}

#[test]
fn coherence_check_matches_the_invariant() {
    let mut stats = NodeStats::new();
    stats.add_node(listening(PeerAddress::Ipv4([8, 8, 8, 8]), true, false));
    assert!(stats.features.is_coherent());

    let mut broken = stats.features;
    broken.total_nodes = 2;
    assert!(!broken.is_coherent());

    let mut lopsided = stats.features;
    lopsided.connection_types.ipv4.v2_and_filters = 5;
    assert!(!lopsided.is_coherent());
}

#[test]
fn duration_and_contacted_accessors() {
    let mut stats = NodeStats::new();
    assert_eq!(stats.duration(), 0);
    assert_eq!(stats.total_contacted(), 0);
    stats.set_duration(61);
    assert_eq!(stats.duration(), 61);
    stats.increment_contacted();
    assert_eq!(stats.total_contacted(), 1);
    assert_eq!(stats.total_nodes(), 0);
}

#[test]
fn defaults_are_empty() {
    assert_eq!(ConnectionTypeFeatures::default(), ConnectionTypeFeatures::new());
    assert_eq!(ConnectionTypeStats::default(), ConnectionTypeStats::new());
    assert_eq!(FeatureStats::default(), FeatureStats::new());
    let d = NodeStats::default();
    assert_eq!(d.total_nodes(), 0);
    assert_eq!(d.total_contacted(), 0);
    assert_eq!(d.duration(), 0);
}
