use vstd::prelude::*;

use crate::numfmt::pct1_string;
use crate::numfmt::spec_dec;
use crate::numfmt::spec_pct1;
use crate::numfmt::u64_to_string;
use crate::report::CensusReport;
use crate::stats::pct_scaled;
use crate::stats::spec_pct;

verus! {

/// One `count (pct%)` piece of the summary line, with the percentage in
/// tenths.
pub open spec fn spec_summary_part(n: nat, pct_tenths: nat) -> Seq<char> {
    spec_dec(n) + " ("@ + spec_pct1(pct_tenths) + "%)"@
}

/// The one-line human summary of a report: global counts and feature shares
/// against all listening nodes, then each network's share of the whole,
/// with the two Tor generations folded into one `tor` figure. Percentages
/// carry one decimal place.
pub open spec fn spec_summary(r: CensusReport) -> Seq<char> {
    let s = r.stats;
    let cts = s.connection_types;
    let grand = cts.sum_total();
    "nodes: "@ + spec_dec(s.total_nodes as nat) + " out of "@ + spec_dec(r.total_contacted as nat)
        + " contacted | v2: "@ + spec_summary_part(
        s.v2_transport as nat,
        spec_pct(s.v2_transport as int, s.total_nodes as int, 1000) as nat,
    ) + " | filters: "@ + spec_summary_part(
        s.compact_filters as nat,
        spec_pct(s.compact_filters as int, s.total_nodes as int, 1000) as nat,
    ) + " | v2 & filters: "@ + spec_summary_part(
        s.v2_and_filters as nat,
        spec_pct(s.v2_and_filters as int, s.total_nodes as int, 1000) as nat,
    ) + " | ipv4: "@ + spec_summary_part(
        cts.ipv4.total_nodes as nat,
        spec_pct(cts.ipv4.total_nodes as int, grand, 1000) as nat,
    ) + " | ipv6: "@ + spec_summary_part(
        cts.ipv6.total_nodes as nat,
        spec_pct(cts.ipv6.total_nodes as int, grand, 1000) as nat,
    ) + " | tor: "@ + spec_summary_part(
        (cts.tor_v2.total_nodes + cts.tor_v3.total_nodes) as nat,
        spec_pct(cts.tor_v2.total_nodes + cts.tor_v3.total_nodes, grand, 1000) as nat,
    ) + " | i2p: "@ + spec_summary_part(
        cts.i2p.total_nodes as nat,
        spec_pct(cts.i2p.total_nodes as int, grand, 1000) as nat,
    ) + " | cjdns: "@ + spec_summary_part(
        cts.cjdns.total_nodes as nat,
        spec_pct(cts.cjdns.total_nodes as int, grand, 1000) as nat,
    )
}

/// Append `label`, then `n (pct%)` with the percentage in tenths.
fn push_summary_part(out: &mut String, label: &str, n: u64, tenths: u64)
    ensures
        final(out)@ == (old(out)@ + label@) + spec_summary_part(n as nat, tenths as nat),
{
    out.append(label);
    out.append(u64_to_string(n).as_str());
    out.append(" (");
    out.append(pct1_string(tenths).as_str());
    out.append("%)");
    proof {
        assert(out@ =~= (old(out)@ + label@) + spec_summary_part(n as nat, tenths as nat));
    }
}

impl CensusReport {
    /// Render the one-line human summary of this report.
    #[verifier::rlimit(100)]
    pub fn summary_line(&self) -> (r: String)
        requires
            self.wf(),
        ensures
            r@ == spec_summary(*self),
    {
        let s = &self.stats;
        let cts = &s.connection_types;
        let grand = cts.total_nodes();
        let mut out = String::from_str("nodes: ");
        out.append(u64_to_string(s.total_nodes as u64).as_str());
        out.append(" out of ");
        out.append(u64_to_string(self.total_contacted as u64).as_str());
        push_summary_part(
            &mut out,
            " contacted | v2: ",
            s.v2_transport as u64,
            pct_scaled(s.v2_transport, s.total_nodes, 1000),
        );
        push_summary_part(
            &mut out,
            " | filters: ",
            s.compact_filters as u64,
            pct_scaled(s.compact_filters, s.total_nodes, 1000),
        );
        push_summary_part(
            &mut out,
            " | v2 & filters: ",
            s.v2_and_filters as u64,
            pct_scaled(s.v2_and_filters, s.total_nodes, 1000),
        );
        push_summary_part(
            &mut out,
            " | ipv4: ",
            cts.ipv4.total_nodes as u64,
            pct_scaled(cts.ipv4.total_nodes, grand, 1000),
        );
        push_summary_part(
            &mut out,
            " | ipv6: ",
            cts.ipv6.total_nodes as u64,
            pct_scaled(cts.ipv6.total_nodes, grand, 1000),
        );
        let tor_total = cts.tor_v2.total_nodes + cts.tor_v3.total_nodes;
        push_summary_part(&mut out, " | tor: ", tor_total as u64, pct_scaled(tor_total, grand, 1000));
        push_summary_part(
            &mut out,
            " | i2p: ",
            cts.i2p.total_nodes as u64,
            pct_scaled(cts.i2p.total_nodes, grand, 1000),
        );
        push_summary_part(
            &mut out,
            " | cjdns: ",
            cts.cjdns.total_nodes as u64,
            pct_scaled(cts.cjdns.total_nodes, grand, 1000),
        );
        proof {
            assert(out@ =~= spec_summary(*self));
        }
        out
    }
}

} // verus!
