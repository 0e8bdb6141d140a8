use vstd::prelude::*;

verus! {

/// Service bit advertised by a peer that serves compact block filters
/// (BIP-157/158). The bit position follows the P2P service-flag assignment.
pub const SERVICE_COMPACT_FILTERS: u64 = 1u64 << 6;

/// Service bit advertised by a peer that speaks the v2 encrypted transport
/// (BIP-324). The bit position follows the P2P service-flag assignment.
pub const SERVICE_P2P_V2: u64 = 1u64 << 11;

/// A peer's network address, as the census reads it: the variant tag alone
/// drives classification. An address of a network this census does not
/// recognize carries its raw network id and payload.
pub enum PeerAddress {
    /// IPv4 clearnet address.
    Ipv4([u8; 4]),
    /// IPv6 clearnet address.
    Ipv6([u8; 16]),
    /// Tor v2 onion address (deprecated).
    TorV2([u8; 10]),
    /// Tor v3 onion address.
    TorV3([u8; 32]),
    /// I2P address.
    I2p([u8; 32]),
    /// CJDNS mesh network address.
    Cjdns([u8; 16]),
    /// Any other network: raw network id and payload.
    Unknown(u8, Vec<u8>),
}

/// The capability bitset a peer advertised, or the marker that none was seen.
pub enum PeerServices {
    /// The peer's advertised service bits.
    Known(u64),
    /// The services were never learned or could not be parsed.
    Unknown,
}

/// One listening peer, as handed to the aggregator.
pub struct Peer {
    /// The peer's network address.
    pub address: PeerAddress,
    /// The peer's advertised services, if known.
    pub services: PeerServices,
}

/// The seven fixed connection-type buckets.
#[derive(Clone, Copy, Debug, PartialEq, Eq, Structural)]
pub enum ConnectionType {
    Ipv4,
    Ipv6,
    TorV2,
    TorV3,
    I2p,
    Cjdns,
    Unknown,
}

/// The bucket an address falls into: one bucket per recognized network,
/// and every unrecognized network in `Unknown`.
pub open spec fn spec_classify(addr: PeerAddress) -> ConnectionType {
    match addr {
        PeerAddress::Ipv4(_) => ConnectionType::Ipv4,
        PeerAddress::Ipv6(_) => ConnectionType::Ipv6,
        PeerAddress::TorV2(_) => ConnectionType::TorV2,
        PeerAddress::TorV3(_) => ConnectionType::TorV3,
        PeerAddress::I2p(_) => ConnectionType::I2p,
        PeerAddress::Cjdns(_) => ConnectionType::Cjdns,
        PeerAddress::Unknown(_, _) => ConnectionType::Unknown,
    }
}

/// Map an address to its bucket. Total over the whole address union:
/// every recognized network has its own bucket and any other address
/// lands in `ConnectionType::Unknown`.
pub fn classify(addr: &PeerAddress) -> (t: ConnectionType)
    ensures
        t == spec_classify(*addr),
        (addr matches PeerAddress::Unknown(..)) ==> t == ConnectionType::Unknown,
{
    match addr {
        PeerAddress::Ipv4(_) => ConnectionType::Ipv4,
        PeerAddress::Ipv6(_) => ConnectionType::Ipv6,
        PeerAddress::TorV2(_) => ConnectionType::TorV2,
        PeerAddress::TorV3(_) => ConnectionType::TorV3,
        PeerAddress::I2p(_) => ConnectionType::I2p,
        PeerAddress::Cjdns(_) => ConnectionType::Cjdns,
        PeerAddress::Unknown(_, _) => ConnectionType::Unknown,
    }
}

/// Whether `bits` has every bit of `flag` set.
pub open spec fn spec_has_flag(bits: u64, flag: u64) -> bool {
    bits & flag == flag
}

/// The two capability flags of a peer: v2 transport and compact filters.
/// An unknown bitset yields neither flag.
pub open spec fn spec_extract(s: PeerServices) -> (bool, bool) {
    match s {
        PeerServices::Known(bits) => (
            spec_has_flag(bits, SERVICE_P2P_V2),
            spec_has_flag(bits, SERVICE_COMPACT_FILTERS),
        ),
        PeerServices::Unknown => (false, false),
    }
}

/// Derive `(has_v2_transport, has_compact_filters)` from a peer's advertised
/// services. A peer whose services were never learned counts as supporting
/// neither feature.
pub fn extract_features(services: &PeerServices) -> (r: (bool, bool))
    ensures
        r == spec_extract(*services),
{
    match services {
        PeerServices::Known(bits) => (
            *bits & SERVICE_P2P_V2 == SERVICE_P2P_V2,
            *bits & SERVICE_COMPACT_FILTERS == SERVICE_COMPACT_FILTERS,
        ),
        PeerServices::Unknown => (false, false),
    }
}

/// Feature counters scoped to one connection-type bucket.
#[derive(Clone, Copy, Debug, PartialEq, Eq, Structural)]
pub struct ConnectionTypeFeatures {
    /// Total number of nodes for this connection type.
    pub total_nodes: usize,
    /// Nodes supporting v2 transport (BIP-324).
    pub v2_transport: usize,
    /// Nodes supporting compact block filters (BIP-157/158).
    pub compact_filters: usize,
    /// Nodes supporting both v2 transport and compact filters.
    pub v2_and_filters: usize,
}

impl ConnectionTypeFeatures {
    /// The counters cohere: the joint counter never exceeds either feature
    /// counter, and neither feature counter exceeds the bucket total.
    pub open spec fn wf(self) -> bool {
        &&& self.v2_and_filters <= self.v2_transport <= self.total_nodes
        &&& self.v2_and_filters <= self.compact_filters <= self.total_nodes
    }

    /// The value of this bucket after one more node with the given flags.
    pub open spec fn spec_added(self, has_v2: bool, has_filters: bool) -> ConnectionTypeFeatures {
        ConnectionTypeFeatures {
            total_nodes: (self.total_nodes + 1) as usize,
            v2_transport: (self.v2_transport + if has_v2 { 1int } else { 0int }) as usize,
            compact_filters: (self.compact_filters + if has_filters { 1int } else { 0int }) as usize,
            v2_and_filters: (self.v2_and_filters + if has_v2 && has_filters { 1int } else {
                0int
            }) as usize,
        }
    }

    pub fn new() -> (r: Self)
        ensures
            r == (ConnectionTypeFeatures {
                total_nodes: 0,
                v2_transport: 0,
                compact_filters: 0,
                v2_and_filters: 0,
            }),
    {
        Self { total_nodes: 0, v2_transport: 0, compact_filters: 0, v2_and_filters: 0 }
    }

    /// Count one more node with the given features in this bucket.
    pub fn add_node(&mut self, has_v2: bool, has_filters: bool)
        requires
            old(self).wf(),
            old(self).total_nodes < usize::MAX,
        ensures
            *final(self) == old(self).spec_added(has_v2, has_filters),
            final(self).wf(),
    {
        self.total_nodes += 1;
        if has_v2 {
            self.v2_transport += 1;
        }
        if has_filters {
            self.compact_filters += 1;
        }
        if has_v2 && has_filters {
            self.v2_and_filters += 1;
        }
    }

    /// Decide at run time whether the counters cohere.
    pub fn is_coherent(&self) -> (r: bool)
        ensures
            r == self.wf(),
    {
        self.v2_and_filters <= self.v2_transport && self.v2_transport <= self.total_nodes
            && self.v2_and_filters <= self.compact_filters && self.compact_filters
            <= self.total_nodes
    }

    /// Share of this bucket's nodes that have a feature, in hundredths of a
    /// percent, rounded half up; exactly `0` when the bucket is empty.
    pub fn percentage(&self, count: usize) -> (r: u64)
        requires
            count <= self.total_nodes,
        ensures
            r == spec_pct(count as int, self.total_nodes as int, 10000),
            r <= 10000,
    {
        pct_scaled(count, self.total_nodes, 10000)
    }
}

impl Default for ConnectionTypeFeatures {
    fn default() -> (r: Self)
        ensures
            r == (ConnectionTypeFeatures {
                total_nodes: 0,
                v2_transport: 0,
                compact_filters: 0,
                v2_and_filters: 0,
            }),
    {
        Self::new()
    }
}

/// A feature share scaled to `scale` (`10000` gives hundredths of a percent,
/// `1000` gives tenths), rounded half up; exactly `0` when `total` is `0`.
pub open spec fn spec_pct(count: int, total: int, scale: int) -> int {
    if total == 0 {
        0
    } else {
        (count * scale + total / 2) / total
    }
}

/// Compute `spec_pct(count, total, scale)`: `count` out of `total`, scaled.
pub fn pct_scaled(count: usize, total: usize, scale: u64) -> (r: u64)
    requires
        count <= total,
        scale <= 10000,
    ensures
        r == spec_pct(count as int, total as int, scale as int),
        r <= scale,
{
    if total == 0 {
        return 0;
    }
    let c: u128 = count as u128;
    let t: u128 = total as u128;
    let s: u128 = scale as u128;
    proof {
        vstd::arithmetic::mul::lemma_mul_upper_bound(c as int, u64::MAX as int, s as int, 10000);
    }
    let num: u128 = c * s + t / 2;
    let q: u128 = num / t;
    proof {
        lemma_pct_bound(c as int, t as int, s as int);
    }
    q as u64
}

/// For a positive total and `count <= total`, the scaled share rounds to at
/// most `scale`.
proof fn lemma_pct_bound(c: int, t: int, s: int)
    requires
        0 < t,
        0 <= c <= t,
        0 <= s,
    ensures
        (c * s + t / 2) / t <= s,
{
    vstd::arithmetic::mul::lemma_mul_inequality(c, t, s);
    assert(c * s + t / 2 <= t * s + t / 2) by {
        vstd::arithmetic::mul::lemma_mul_is_commutative(c, s);
        vstd::arithmetic::mul::lemma_mul_is_commutative(t, s);
    }
    vstd::arithmetic::div_mod::lemma_div_is_ordered(c * s + t / 2, t * s + t / 2, t);
    assert((t * s + t / 2) / t == s + (t / 2) / t) by {
        vstd::arithmetic::div_mod::lemma_hoist_over_denominator(t / 2, s, t as nat);
    }
    assert((t / 2) / t == 0) by {
        vstd::arithmetic::div_mod::lemma_basic_div(t / 2, t);
    }
}

/// Feature counters broken down by connection type: exactly seven fixed
/// buckets.
#[derive(Clone, Copy, Debug, PartialEq, Eq, Structural)]
pub struct ConnectionTypeStats {
    /// IPv4 clearnet connections.
    pub ipv4: ConnectionTypeFeatures,
    /// IPv6 clearnet connections.
    pub ipv6: ConnectionTypeFeatures,
    /// Tor v2 onion addresses (deprecated).
    pub tor_v2: ConnectionTypeFeatures,
    /// Tor v3 onion addresses.
    pub tor_v3: ConnectionTypeFeatures,
    /// I2P addresses.
    pub i2p: ConnectionTypeFeatures,
    /// CJDNS mesh network addresses.
    pub cjdns: ConnectionTypeFeatures,
    /// Unknown/future address types.
    pub unknown: ConnectionTypeFeatures,
}

impl ConnectionTypeStats {
    /// The bucket for a given connection type.
    pub open spec fn spec_bucket(self, t: ConnectionType) -> ConnectionTypeFeatures {
        match t {
            ConnectionType::Ipv4 => self.ipv4,
            ConnectionType::Ipv6 => self.ipv6,
            ConnectionType::TorV2 => self.tor_v2,
            ConnectionType::TorV3 => self.tor_v3,
            ConnectionType::I2p => self.i2p,
            ConnectionType::Cjdns => self.cjdns,
            ConnectionType::Unknown => self.unknown,
        }
    }

    /// This breakdown with the bucket for `t` replaced by `f`.
    pub open spec fn spec_with_bucket(self, t: ConnectionType, f: ConnectionTypeFeatures) -> Self {
        match t {
            ConnectionType::Ipv4 => ConnectionTypeStats { ipv4: f, ..self },
            ConnectionType::Ipv6 => ConnectionTypeStats { ipv6: f, ..self },
            ConnectionType::TorV2 => ConnectionTypeStats { tor_v2: f, ..self },
            ConnectionType::TorV3 => ConnectionTypeStats { tor_v3: f, ..self },
            ConnectionType::I2p => ConnectionTypeStats { i2p: f, ..self },
            ConnectionType::Cjdns => ConnectionTypeStats { cjdns: f, ..self },
            ConnectionType::Unknown => ConnectionTypeStats { unknown: f, ..self },
        }
    }

    /// Sum of the seven bucket totals.
    pub open spec fn sum_total(self) -> int {
        self.ipv4.total_nodes + self.ipv6.total_nodes + self.tor_v2.total_nodes
            + self.tor_v3.total_nodes + self.i2p.total_nodes + self.cjdns.total_nodes
            + self.unknown.total_nodes
    }

    /// Sum of the seven bucket v2-transport counters.
    pub open spec fn sum_v2(self) -> int {
        self.ipv4.v2_transport + self.ipv6.v2_transport + self.tor_v2.v2_transport
            + self.tor_v3.v2_transport + self.i2p.v2_transport + self.cjdns.v2_transport
            + self.unknown.v2_transport
    }

    /// Sum of the seven bucket compact-filter counters.
    pub open spec fn sum_filters(self) -> int {
        self.ipv4.compact_filters + self.ipv6.compact_filters + self.tor_v2.compact_filters
            + self.tor_v3.compact_filters + self.i2p.compact_filters + self.cjdns.compact_filters
            + self.unknown.compact_filters
    }

    /// Sum of the seven bucket joint counters.
    pub open spec fn sum_both(self) -> int {
        self.ipv4.v2_and_filters + self.ipv6.v2_and_filters + self.tor_v2.v2_and_filters
            + self.tor_v3.v2_and_filters + self.i2p.v2_and_filters + self.cjdns.v2_and_filters
            + self.unknown.v2_and_filters
    }

    /// Every bucket's counters cohere.
    pub open spec fn wf(self) -> bool {
        &&& self.ipv4.wf()
        &&& self.ipv6.wf()
        &&& self.tor_v2.wf()
        &&& self.tor_v3.wf()
        &&& self.i2p.wf()
        &&& self.cjdns.wf()
        &&& self.unknown.wf()
    }

    pub fn new() -> (r: Self)
        ensures
            r.wf(),
            r.sum_total() == 0,
            r.sum_v2() == 0,
            r.sum_filters() == 0,
            r.sum_both() == 0,
            forall|t: ConnectionType| (#[trigger] r.spec_bucket(t)).total_nodes == 0,
    {
        Self {
            ipv4: ConnectionTypeFeatures::new(),
            ipv6: ConnectionTypeFeatures::new(),
            tor_v2: ConnectionTypeFeatures::new(),
            tor_v3: ConnectionTypeFeatures::new(),
            i2p: ConnectionTypeFeatures::new(),
            cjdns: ConnectionTypeFeatures::new(),
            unknown: ConnectionTypeFeatures::new(),
        }
    }

    /// Total nodes across all connection types.
    pub fn total_nodes(&self) -> (r: usize)
        requires
            self.sum_total() <= usize::MAX,
        ensures
            r == self.sum_total(),
    {
        self.ipv4.total_nodes + self.ipv6.total_nodes + self.tor_v2.total_nodes
            + self.tor_v3.total_nodes + self.i2p.total_nodes + self.cjdns.total_nodes
            + self.unknown.total_nodes
    }

    /// Count one more node in the bucket its address classifies to; every
    /// other bucket is untouched.
    pub fn add_node(&mut self, addr: &PeerAddress, has_v2: bool, has_filters: bool)
        requires
            old(self).wf(),
            old(self).spec_bucket(spec_classify(*addr)).total_nodes < usize::MAX,
        ensures
            final(self).wf(),
            *final(self) == old(self).spec_with_bucket(
                spec_classify(*addr),
                old(self).spec_bucket(spec_classify(*addr)).spec_added(has_v2, has_filters),
            ),
            final(self).spec_bucket(spec_classify(*addr)) == old(self).spec_bucket(
                spec_classify(*addr),
            ).spec_added(has_v2, has_filters),
            forall|u: ConnectionType|
                u != spec_classify(*addr)
                    ==> #[trigger] final(self).spec_bucket(u) == old(self).spec_bucket(u),
            final(self).sum_total() == old(self).sum_total() + 1,
            final(self).sum_v2() == old(self).sum_v2() + if has_v2 { 1int } else { 0int },
            final(self).sum_filters() == old(self).sum_filters() + if has_filters { 1int } else {
                0int
            },
            final(self).sum_both() == old(self).sum_both() + if has_v2 && has_filters {
                1int
            } else {
                0int
            },
    {
        match addr {
            PeerAddress::Ipv4(_) => self.ipv4.add_node(has_v2, has_filters),
            PeerAddress::Ipv6(_) => self.ipv6.add_node(has_v2, has_filters),
            PeerAddress::TorV2(_) => self.tor_v2.add_node(has_v2, has_filters),
            PeerAddress::TorV3(_) => self.tor_v3.add_node(has_v2, has_filters),
            PeerAddress::I2p(_) => self.i2p.add_node(has_v2, has_filters),
            PeerAddress::Cjdns(_) => self.cjdns.add_node(has_v2, has_filters),
            PeerAddress::Unknown(_, _) => self.unknown.add_node(has_v2, has_filters),
        }
    }

    /// Share of the whole network that a bucket holds, in hundredths of a
    /// percent; the denominator is the grand total across all buckets, and
    /// the share is exactly `0` when that grand total is `0`.
    pub fn connection_percentage(&self, conn_type_total: usize) -> (r: u64)
        requires
            self.sum_total() <= usize::MAX,
            conn_type_total <= self.sum_total(),
        ensures
            r == spec_pct(conn_type_total as int, self.sum_total(), 10000),
            r <= 10000,
    {
        let total = self.total_nodes();
        pct_scaled(conn_type_total, total, 10000)
    }
}

impl Default for ConnectionTypeStats {
    fn default() -> (r: Self)
        ensures
            r.wf(),
            r.sum_total() == 0,
            forall|t: ConnectionType| (#[trigger] r.spec_bucket(t)).total_nodes == 0,
    {
        Self::new()
    }
}

/// Global feature counters with their per-connection-type breakdown.
#[derive(Clone, Copy, Debug, PartialEq, Eq, Structural)]
pub struct FeatureStats {
    /// Total number of nodes analyzed (sum across all connection types).
    pub total_nodes: usize,
    /// Nodes supporting v2 transport (sum across all connection types).
    pub v2_transport: usize,
    /// Nodes supporting compact block filters (sum across all connection types).
    pub compact_filters: usize,
    /// Nodes supporting both features (sum across all connection types).
    pub v2_and_filters: usize,
    /// Detailed breakdown by connection type.
    pub connection_types: ConnectionTypeStats,
}

impl FeatureStats {
    /// Every bucket coheres and each global counter equals the sum of its
    /// seven bucket counterparts.
    pub open spec fn wf(self) -> bool {
        &&& self.connection_types.wf()
        &&& self.total_nodes == self.connection_types.sum_total()
        &&& self.v2_transport == self.connection_types.sum_v2()
        &&& self.compact_filters == self.connection_types.sum_filters()
        &&& self.v2_and_filters == self.connection_types.sum_both()
    }

    /// These statistics after one more listening peer: the bucket its
    /// address classifies to and all four global counters move together.
    pub open spec fn spec_added(self, peer: Peer) -> FeatureStats {
        let has_v2 = spec_extract(peer.services).0;
        let has_filters = spec_extract(peer.services).1;
        let t = spec_classify(peer.address);
        FeatureStats {
            total_nodes: (self.total_nodes + 1) as usize,
            v2_transport: (self.v2_transport + if has_v2 { 1int } else { 0int }) as usize,
            compact_filters: (self.compact_filters + if has_filters { 1int } else {
                0int
            }) as usize,
            v2_and_filters: (self.v2_and_filters + if has_v2 && has_filters { 1int } else {
                0int
            }) as usize,
            connection_types: self.connection_types.spec_with_bucket(
                t,
                self.connection_types.spec_bucket(t).spec_added(has_v2, has_filters),
            ),
        }
    }

    pub fn new() -> (r: Self)
        ensures
            r.wf(),
            r.total_nodes == 0,
            r.v2_transport == 0,
            r.compact_filters == 0,
            r.v2_and_filters == 0,
            forall|t: ConnectionType|
                (#[trigger] r.connection_types.spec_bucket(t)).total_nodes == 0,
    {
        Self {
            total_nodes: 0,
            v2_transport: 0,
            compact_filters: 0,
            v2_and_filters: 0,
            connection_types: ConnectionTypeStats::new(),
        }
    }

    /// Decide at run time whether every bucket coheres and each global
    /// counter equals the sum of its seven bucket counterparts.
    pub fn is_coherent(&self) -> (r: bool)
        ensures
            r == self.wf(),
    {
        let c = &self.connection_types;
        c.ipv4.is_coherent() && c.ipv6.is_coherent() && c.tor_v2.is_coherent()
            && c.tor_v3.is_coherent() && c.i2p.is_coherent() && c.cjdns.is_coherent()
            && c.unknown.is_coherent() && self.total_nodes as u128 == c.ipv4.total_nodes as u128
            + c.ipv6.total_nodes as u128 + c.tor_v2.total_nodes as u128
            + c.tor_v3.total_nodes as u128 + c.i2p.total_nodes as u128
            + c.cjdns.total_nodes as u128 + c.unknown.total_nodes as u128
            && self.v2_transport as u128 == c.ipv4.v2_transport as u128
            + c.ipv6.v2_transport as u128 + c.tor_v2.v2_transport as u128
            + c.tor_v3.v2_transport as u128 + c.i2p.v2_transport as u128
            + c.cjdns.v2_transport as u128 + c.unknown.v2_transport as u128
            && self.compact_filters as u128 == c.ipv4.compact_filters as u128
            + c.ipv6.compact_filters as u128 + c.tor_v2.compact_filters as u128
            + c.tor_v3.compact_filters as u128 + c.i2p.compact_filters as u128
            + c.cjdns.compact_filters as u128 + c.unknown.compact_filters as u128
            && self.v2_and_filters as u128 == c.ipv4.v2_and_filters as u128
            + c.ipv6.v2_and_filters as u128 + c.tor_v2.v2_and_filters as u128
            + c.tor_v3.v2_and_filters as u128 + c.i2p.v2_and_filters as u128
            + c.cjdns.v2_and_filters as u128 + c.unknown.v2_and_filters as u128
    }

    /// Share of all nodes that have a feature, in hundredths of a percent;
    /// exactly `0` when no node was counted.
    pub fn percentage(&self, count: usize) -> (r: u64)
        requires
            count <= self.total_nodes,
        ensures
            r == spec_pct(count as int, self.total_nodes as int, 10000),
            r <= 10000,
    {
        pct_scaled(count, self.total_nodes, 10000)
    }
}

impl Default for FeatureStats {
    fn default() -> (r: Self)
        ensures
            r.wf(),
            r.total_nodes == 0,
    {
        Self::new()
    }
}

/// Law: in a coherent `FeatureStats`, each global counter equals the sum of
/// the seven bucket counters of its kind. This holds after every single
/// `add_node` call, since `add_node` both requires and ensures coherence.
pub proof fn lemma_global_counts_are_bucket_sums(s: FeatureStats)
    requires
        s.wf(),
    ensures
        s.total_nodes == s.connection_types.sum_total(),
        s.v2_transport == s.connection_types.sum_v2(),
        s.compact_filters == s.connection_types.sum_filters(),
        s.v2_and_filters == s.connection_types.sum_both(),
{
}

/// Law: in a coherent `FeatureStats`, the joint counter never exceeds either
/// feature counter and neither feature counter exceeds the total — in every
/// bucket and globally.
pub proof fn lemma_feature_counters_bounded(s: FeatureStats)
    requires
        s.wf(),
    ensures
        forall|t: ConnectionType| (#[trigger] s.connection_types.spec_bucket(t)).wf(),
        s.v2_and_filters <= s.v2_transport <= s.total_nodes,
        s.v2_and_filters <= s.compact_filters <= s.total_nodes,
{
    assert forall|t: ConnectionType| (#[trigger] s.connection_types.spec_bucket(t)).wf() by {
        match t {
            ConnectionType::Ipv4 => assert(s.connection_types.ipv4.wf()),
            ConnectionType::Ipv6 => assert(s.connection_types.ipv6.wf()),
            ConnectionType::TorV2 => assert(s.connection_types.tor_v2.wf()),
            ConnectionType::TorV3 => assert(s.connection_types.tor_v3.wf()),
            ConnectionType::I2p => assert(s.connection_types.i2p.wf()),
            ConnectionType::Cjdns => assert(s.connection_types.cjdns.wf()),
            ConnectionType::Unknown => assert(s.connection_types.unknown.wf()),
        }
    }
}

/// The live accumulator for one census run: global and per-bucket feature
/// counters, the elapsed duration, and the count of all contact attempts.
pub struct NodeStats {
    /// Feature statistics for the listening peers seen so far.
    pub features: FeatureStats,
    /// Elapsed wall time recorded for this run, in seconds.
    pub duration_seconds: u64,
    /// Number of peers contacted so far, listening or not.
    pub total_contacted: usize,
}

impl NodeStats {
    /// The feature counters cohere across both granularities.
    pub open spec fn wf(self) -> bool {
        self.features.wf()
    }

    pub fn new() -> (r: Self)
        ensures
            r.wf(),
            r.features.total_nodes == 0,
            r.features.v2_transport == 0,
            r.features.compact_filters == 0,
            r.features.v2_and_filters == 0,
            forall|t: ConnectionType|
                (#[trigger] r.features.connection_types.spec_bucket(t)).total_nodes == 0,
            r.duration_seconds == 0,
            r.total_contacted == 0,
    {
        Self { features: FeatureStats::new(), duration_seconds: 0, total_contacted: 0 }
    }

    /// Fold one listening peer into the census: the bucket its address
    /// classifies to and the global counters move together, so the
    /// cross-granularity sums hold again as soon as the call returns.
    pub fn add_node(&mut self, peer: Peer)
        requires
            old(self).wf(),
            old(self).features.total_nodes < usize::MAX,
        ensures
            final(self).wf(),
            final(self).features == old(self).features.spec_added(peer),
            final(self).features.total_nodes == old(self).features.total_nodes + 1,
            final(self).features.v2_transport == old(self).features.v2_transport
                + if spec_extract(peer.services).0 { 1int } else { 0int },
            final(self).features.compact_filters == old(self).features.compact_filters
                + if spec_extract(peer.services).1 { 1int } else { 0int },
            final(self).features.v2_and_filters == old(self).features.v2_and_filters
                + if spec_extract(peer.services).0 && spec_extract(peer.services).1 {
                1int
            } else {
                0int
            },
            final(self).features.connection_types.spec_bucket(spec_classify(peer.address))
                == old(self).features.connection_types.spec_bucket(
                spec_classify(peer.address),
            ).spec_added(spec_extract(peer.services).0, spec_extract(peer.services).1),
            forall|u: ConnectionType|
                u != spec_classify(peer.address)
                    ==> #[trigger] final(self).features.connection_types.spec_bucket(u)
                    == old(self).features.connection_types.spec_bucket(u),
            final(self).duration_seconds == old(self).duration_seconds,
            final(self).total_contacted == old(self).total_contacted,
    {
        let (has_v2, has_filters) = extract_features(&peer.services);

        self.features.connection_types.add_node(&peer.address, has_v2, has_filters);

        self.features.total_nodes += 1;
        if has_v2 {
            self.features.v2_transport += 1;
        }
        if has_filters {
            self.features.compact_filters += 1;
        }
        if has_v2 && has_filters {
            self.features.v2_and_filters += 1;
        }
    }

    /// Count one contact attempt, listening or not; no feature counter moves.
    pub fn increment_contacted(&mut self)
        requires
            old(self).total_contacted < usize::MAX,
        ensures
            final(self).total_contacted == old(self).total_contacted + 1,
            final(self).features == old(self).features,
            final(self).duration_seconds == old(self).duration_seconds,
    {
        self.total_contacted += 1;
    }

    pub fn total_nodes(&self) -> (r: usize)
        ensures
            r == self.features.total_nodes,
    {
        self.features.total_nodes
    }

    pub fn total_contacted(&self) -> (r: usize)
        ensures
            r == self.total_contacted,
    {
        self.total_contacted
    }

    /// Record the elapsed wall time; nothing else moves.
    pub fn set_duration(&mut self, seconds: u64)
        ensures
            final(self).duration_seconds == seconds,
            final(self).features == old(self).features,
            final(self).total_contacted == old(self).total_contacted,
    {
        self.duration_seconds = seconds;
    }

    pub fn duration(&self) -> (r: u64)
        ensures
            r == self.duration_seconds,
    {
        self.duration_seconds
    }
}

impl Default for NodeStats {
    fn default() -> (r: Self)
        ensures
            r.wf(),
            r.features.total_nodes == 0,
            r.duration_seconds == 0,
            r.total_contacted == 0,
    {
        Self::new()
    }
}

} // verus!
