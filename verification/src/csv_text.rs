use vstd::prelude::*;

use crate::numfmt::is_digit_char;
use crate::numfmt::lemma_dec_digits_only;
use crate::numfmt::pct2_string;
use crate::numfmt::spec_dec;
use crate::numfmt::spec_pct2;
use crate::numfmt::u64_to_string;
use crate::report::CensusReport;
use crate::stats::spec_pct;
use crate::stats::ConnectionTypeFeatures;
use crate::stats::ConnectionTypeStats;

verus! {

/// A character that would force CSV quoting: the delimiter, the quote, or a
/// line break.
pub open spec fn is_csv_special(c: char) -> bool {
    c == ',' || c == '"' || c == '\n' || c == '\r'
}

/// A field that CSV writes verbatim: free of delimiter, quote and line
/// breaks.
pub open spec fn plain_csv_field(s: Seq<char>) -> bool {
    forall|i: int| 0 <= i < s.len() ==> !is_csv_special(#[trigger] s[i])
}

/// One CSV record over already-rendered fields: the fields joined by commas,
/// closed by a newline.
pub open spec fn spec_csv_line(fields: Seq<Seq<char>>) -> Seq<char>
    decreases fields.len(),
{
    if fields.len() == 0 {
        seq!['\n']
    } else if fields.len() == 1 {
        fields[0] + seq!['\n']
    } else {
        fields[0] + seq![','] + spec_csv_line(fields.drop_first())
    }
}

/// How often `c` occurs in `s`.
pub open spec fn count_char(s: Seq<char>, c: char) -> int
    decreases s.len(),
{
    if s.len() == 0 {
        0
    } else {
        count_char(s.drop_first(), c) + if s.first() == c {
            1int
        } else {
            0int
        }
    }
}

/// Counting distributes over concatenation.
pub proof fn lemma_count_char_concat(a: Seq<char>, b: Seq<char>, c: char)
    ensures
        count_char(a + b, c) == count_char(a, c) + count_char(b, c),
    decreases a.len(),
{
    if a.len() == 0 {
        assert(a + b =~= b);
    } else {
        lemma_count_char_concat(a.drop_first(), b, c);
        assert((a + b).drop_first() =~= a.drop_first() + b);
    }
}

/// A one-character sequence holds `c` exactly when that character is `c`.
proof fn lemma_count_char_single(d: char, c: char)
    ensures
        count_char(seq![d], c) == if d == c {
            1int
        } else {
            0int
        },
{
    reveal_with_fuel(count_char, 2);
    assert(seq![d].len() == 1);
    assert(seq![d].first() == d);
    assert(seq![d].drop_first().len() == 0);
}

/// A plain field holds no delimiter and no newline at all.
proof fn lemma_plain_field_counts(s: Seq<char>)
    requires
        plain_csv_field(s),
    ensures
        count_char(s, ',') == 0,
        count_char(s, '\n') == 0,
    decreases s.len(),
{
    if s.len() > 0 {
        assert(!is_csv_special(s[0]));
        assert(plain_csv_field(s.drop_first())) by {
            assert forall|i: int| 0 <= i < s.drop_first().len() implies !is_csv_special(
                #[trigger] s.drop_first()[i],
            ) by {
                assert(s.drop_first()[i] == s[i + 1]);
            }
        }
        lemma_plain_field_counts(s.drop_first());
    }
}

/// In a record of plain fields, the closing newline is the only newline, and
/// the commas are exactly the separators between the fields.
pub proof fn lemma_csv_line_shape(fields: Seq<Seq<char>>)
    requires
        forall|i: int| 0 <= i < fields.len() ==> plain_csv_field(#[trigger] fields[i]),
    ensures
        spec_csv_line(fields).len() >= 1,
        spec_csv_line(fields).last() == '\n',
        count_char(spec_csv_line(fields), '\n') == 1,
        count_char(spec_csv_line(fields), ',') == if fields.len() == 0 {
            0int
        } else {
            fields.len() - 1
        },
    decreases fields.len(),
{
    let line = spec_csv_line(fields);
    lemma_count_char_single('\n', '\n');
    lemma_count_char_single('\n', ',');
    lemma_count_char_single(',', ',');
    lemma_count_char_single(',', '\n');
    if fields.len() == 0 {
    } else if fields.len() == 1 {
        lemma_plain_field_counts(fields[0]);
        lemma_count_char_concat(fields[0], seq!['\n'], '\n');
        lemma_count_char_concat(fields[0], seq!['\n'], ',');
        assert(line.last() == '\n');
    } else {
        lemma_csv_line_shape(fields.drop_first());
        lemma_plain_field_counts(fields[0]);
        let rest = spec_csv_line(fields.drop_first());
        lemma_count_char_concat(fields[0], seq![','], '\n');
        lemma_count_char_concat(fields[0], seq![','], ',');
        lemma_count_char_concat(fields[0] + seq![','], rest, '\n');
        lemma_count_char_concat(fields[0] + seq![','], rest, ',');
        assert(line =~= (fields[0] + seq![',']) + rest);
        assert(line.last() == rest.last());
    }
}

/// Relies on `csv::Writer::write_record` with the writer's default
/// configuration (comma delimiter, `\n` terminator, quoting only where
/// needed): fields free of quote, comma, CR and LF are written verbatim,
/// joined by commas, and the record is closed with one newline.
#[verifier::external_body]
fn csv_record_line(fields: &Vec<String>) -> (r: String)
    requires
        fields@.len() >= 2,
        forall|i: int| 0 <= i < fields@.len() ==> plain_csv_field(#[trigger] fields@[i]@),
    ensures
        r@ == spec_csv_line(fields@.map_values(|f: String| f@)),
{
    let mut w = csv::Writer::from_writer(Vec::new());
    w.write_record(fields).expect("write to an in-memory buffer cannot fail");
    let bytes = w.into_inner().expect("flush to an in-memory buffer cannot fail");
    String::from_utf8(bytes).expect("the record was built from UTF-8 fields")
}

/// The fixed CSV column names: four run-level counters and three feature
/// columns with their percentages, then eight columns per bucket.
pub open spec fn spec_csv_header() -> Seq<Seq<char>> {
    spec_global_header() + spec_bucket_header("ipv4"@) + spec_bucket_header("ipv6"@)
        + spec_bucket_header("tor_v2"@) + spec_bucket_header("tor_v3"@) + spec_bucket_header(
        "i2p"@,
    ) + spec_bucket_header("cjdns"@) + spec_bucket_header("unknown"@)
}

/// The ten run-level column names.
pub open spec fn spec_global_header() -> Seq<Seq<char>> {
    seq![
        "timestamp"@,
        "duration_seconds"@,
        "total_nodes"@,
        "total_contacted"@,
        "v2_transport"@,
        "v2_transport_pct"@,
        "compact_filters"@,
        "compact_filters_pct"@,
        "v2_and_filters"@,
        "v2_and_filters_pct"@,
    ]
}

/// The eight column names of one bucket.
pub open spec fn spec_bucket_header(name: Seq<char>) -> Seq<Seq<char>> {
    seq![
        name + "_total"@,
        name + "_total_pct"@,
        name + "_v2"@,
        name + "_v2_pct"@,
        name + "_filters"@,
        name + "_filters_pct"@,
        name + "_v2_and_filters"@,
        name + "_v2_and_filters_pct"@,
    ]
}

/// The eight data columns of one bucket: each counter and its percentage.
/// The bucket's share of the network divides by the grand total `grand`;
/// the three feature shares divide by the bucket's own total.
pub open spec fn spec_bucket_data(f: ConnectionTypeFeatures, grand: int) -> Seq<Seq<char>> {
    seq![
        spec_dec(f.total_nodes as nat),
        spec_pct2(spec_pct(f.total_nodes as int, grand, 10000) as nat),
        spec_dec(f.v2_transport as nat),
        spec_pct2(spec_pct(f.v2_transport as int, f.total_nodes as int, 10000) as nat),
        spec_dec(f.compact_filters as nat),
        spec_pct2(spec_pct(f.compact_filters as int, f.total_nodes as int, 10000) as nat),
        spec_dec(f.v2_and_filters as nat),
        spec_pct2(spec_pct(f.v2_and_filters as int, f.total_nodes as int, 10000) as nat),
    ]
}

/// The 66 data columns of a report, in the order of `spec_csv_header`.
pub open spec fn spec_csv_data(r: CensusReport) -> Seq<Seq<char>> {
    let s = r.stats;
    let grand = s.connection_types.sum_total();
    seq![
        spec_dec(r.timestamp as nat),
        spec_dec(r.duration_seconds as nat),
        spec_dec(s.total_nodes as nat),
        spec_dec(r.total_contacted as nat),
        spec_dec(s.v2_transport as nat),
        spec_pct2(spec_pct(s.v2_transport as int, s.total_nodes as int, 10000) as nat),
        spec_dec(s.compact_filters as nat),
        spec_pct2(spec_pct(s.compact_filters as int, s.total_nodes as int, 10000) as nat),
        spec_dec(s.v2_and_filters as nat),
        spec_pct2(spec_pct(s.v2_and_filters as int, s.total_nodes as int, 10000) as nat),
    ] + spec_bucket_data(s.connection_types.ipv4, grand) + spec_bucket_data(
        s.connection_types.ipv6,
        grand,
    ) + spec_bucket_data(s.connection_types.tor_v2, grand) + spec_bucket_data(
        s.connection_types.tor_v3,
        grand,
    ) + spec_bucket_data(s.connection_types.i2p, grand) + spec_bucket_data(
        s.connection_types.cjdns,
        grand,
    ) + spec_bucket_data(s.connection_types.unknown, grand)
}

/// The whole CSV rendering: the header record, then one data record.
pub open spec fn spec_csv_text(r: CensusReport) -> Seq<char> {
    spec_csv_line(spec_csv_header()) + spec_csv_line(spec_csv_data(r))
}

/// Push the eight column names of one bucket.
fn push_bucket_header(fields: &mut Vec<String>, name: &str)
    ensures
        final(fields)@.map_values(|f: String| f@) == old(fields)@.map_values(|f: String| f@)
            + spec_bucket_header(name@),
{
    let mut s = String::from_str(name);
    s.append("_total");
    fields.push(s);
    let mut s = String::from_str(name);
    s.append("_total_pct");
    fields.push(s);
    let mut s = String::from_str(name);
    s.append("_v2");
    fields.push(s);
    let mut s = String::from_str(name);
    s.append("_v2_pct");
    fields.push(s);
    let mut s = String::from_str(name);
    s.append("_filters");
    fields.push(s);
    let mut s = String::from_str(name);
    s.append("_filters_pct");
    fields.push(s);
    let mut s = String::from_str(name);
    s.append("_v2_and_filters");
    fields.push(s);
    let mut s = String::from_str(name);
    s.append("_v2_and_filters_pct");
    fields.push(s);
    proof {
        assert(fields@.map_values(|f: String| f@) =~= old(fields)@.map_values(|f: String| f@)
            + spec_bucket_header(name@));
    }
}

/// Push the eight data columns of one bucket of `cts`, whose grand total
/// gives the denominator of the bucket's network share.
fn push_bucket_data(fields: &mut Vec<String>, f: &ConnectionTypeFeatures, cts: &ConnectionTypeStats)
    requires
        f.wf(),
        cts.sum_total() <= usize::MAX,
        f.total_nodes <= cts.sum_total(),
    ensures
        final(fields)@.map_values(|g: String| g@) == old(fields)@.map_values(|g: String| g@)
            + spec_bucket_data(*f, cts.sum_total()),
{
    fields.push(u64_to_string(f.total_nodes as u64));
    fields.push(pct2_string(cts.connection_percentage(f.total_nodes)));
    fields.push(u64_to_string(f.v2_transport as u64));
    fields.push(pct2_string(f.percentage(f.v2_transport)));
    fields.push(u64_to_string(f.compact_filters as u64));
    fields.push(pct2_string(f.percentage(f.compact_filters)));
    fields.push(u64_to_string(f.v2_and_filters as u64));
    fields.push(pct2_string(f.percentage(f.v2_and_filters)));
    proof {
        assert(fields@.map_values(|g: String| g@) =~= old(fields)@.map_values(|g: String| g@)
            + spec_bucket_data(*f, cts.sum_total()));
    }
}

impl CensusReport {
    /// Render this report as CSV: the fixed 66-column header record, then
    /// exactly one data record in the same column order, percentages with
    /// exactly two decimal places.
    #[verifier::rlimit(100)]
    pub fn format_csv(&self) -> (r: String)
        requires
            self.wf(),
        ensures
            r@ == spec_csv_text(*self),
    {
        let mut fields: Vec<String> = Vec::new();
        fields.push(String::from_str("timestamp"));
        fields.push(String::from_str("duration_seconds"));
        fields.push(String::from_str("total_nodes"));
        fields.push(String::from_str("total_contacted"));
        fields.push(String::from_str("v2_transport"));
        fields.push(String::from_str("v2_transport_pct"));
        fields.push(String::from_str("compact_filters"));
        fields.push(String::from_str("compact_filters_pct"));
        fields.push(String::from_str("v2_and_filters"));
        fields.push(String::from_str("v2_and_filters_pct"));
        push_bucket_header(&mut fields, "ipv4");
        push_bucket_header(&mut fields, "ipv6");
        push_bucket_header(&mut fields, "tor_v2");
        push_bucket_header(&mut fields, "tor_v3");
        push_bucket_header(&mut fields, "i2p");
        push_bucket_header(&mut fields, "cjdns");
        push_bucket_header(&mut fields, "unknown");
        proof {
            assert(fields@.map_values(|f: String| f@) =~= spec_csv_header());
            lemma_csv_header_plain();
            assert forall|i: int| 0 <= i < fields@.len() implies plain_csv_field(
                #[trigger] fields@[i]@,
            ) by {
                assert(fields@.map_values(|f: String| f@)[i] == fields@[i]@);
            }
        }
        let mut out = csv_record_line(&fields);

        let cts = &self.stats.connection_types;
        let mut data: Vec<String> = Vec::new();
        data.push(u64_to_string(self.timestamp));
        data.push(u64_to_string(self.duration_seconds));
        data.push(u64_to_string(self.stats.total_nodes as u64));
        data.push(u64_to_string(self.total_contacted as u64));
        data.push(u64_to_string(self.stats.v2_transport as u64));
        data.push(pct2_string(self.stats.percentage(self.stats.v2_transport)));
        data.push(u64_to_string(self.stats.compact_filters as u64));
        data.push(pct2_string(self.stats.percentage(self.stats.compact_filters)));
        data.push(u64_to_string(self.stats.v2_and_filters as u64));
        data.push(pct2_string(self.stats.percentage(self.stats.v2_and_filters)));
        push_bucket_data(&mut data, &cts.ipv4, cts);
        push_bucket_data(&mut data, &cts.ipv6, cts);
        push_bucket_data(&mut data, &cts.tor_v2, cts);
        push_bucket_data(&mut data, &cts.tor_v3, cts);
        push_bucket_data(&mut data, &cts.i2p, cts);
        push_bucket_data(&mut data, &cts.cjdns, cts);
        push_bucket_data(&mut data, &cts.unknown, cts);
        proof {
            assert(data@.map_values(|f: String| f@) =~= spec_csv_data(*self));
            lemma_csv_data_plain(*self);
            assert forall|i: int| 0 <= i < data@.len() implies plain_csv_field(
                #[trigger] data@[i]@,
            ) by {
                assert(data@.map_values(|f: String| f@)[i] == data@[i]@);
            }
        }
        let line = csv_record_line(&data);
        out.append(line.as_str());
        out
    }
}

/// A decimal rendering is a plain CSV field.
proof fn lemma_dec_plain(n: nat)
    ensures
        plain_csv_field(spec_dec(n)),
{
    lemma_dec_digits_only(n);
    assert forall|i: int| 0 <= i < spec_dec(n).len() implies !is_csv_special(
        #[trigger] spec_dec(n)[i],
    ) by {
        assert(is_digit_char(spec_dec(n)[i]));
    }
}

/// A two-decimal percentage rendering is a plain CSV field.
proof fn lemma_pct2_plain(h: nat)
    ensures
        plain_csv_field(spec_pct2(h)),
{
    lemma_dec_digits_only(h / 100);
    assert forall|i: int| 0 <= i < spec_pct2(h).len() implies !is_csv_special(
        #[trigger] spec_pct2(h)[i],
    ) by {
        let s = spec_pct2(h);
        let d = spec_dec(h / 100);
        if i < d.len() {
            assert(s[i] == d[i]);
            assert(is_digit_char(d[i]));
        }
    }
}

/// Every header column name is a plain CSV field.
#[verifier::rlimit(100)]
proof fn lemma_csv_header_plain()
    ensures
        forall|i: int|
            0 <= i < spec_csv_header().len() ==> plain_csv_field(#[trigger] spec_csv_header()[i]),
{
    reveal_strlit("timestamp");
    reveal_strlit("duration_seconds");
    reveal_strlit("total_nodes");
    reveal_strlit("total_contacted");
    reveal_strlit("v2_transport");
    reveal_strlit("v2_transport_pct");
    reveal_strlit("compact_filters");
    reveal_strlit("compact_filters_pct");
    reveal_strlit("v2_and_filters");
    reveal_strlit("v2_and_filters_pct");
    reveal_strlit("ipv4");
    reveal_strlit("ipv6");
    reveal_strlit("tor_v2");
    reveal_strlit("tor_v3");
    reveal_strlit("i2p");
    reveal_strlit("cjdns");
    reveal_strlit("unknown");
    reveal_strlit("_total");
    reveal_strlit("_total_pct");
    reveal_strlit("_v2");
    reveal_strlit("_v2_pct");
    reveal_strlit("_filters");
    reveal_strlit("_filters_pct");
    reveal_strlit("_v2_and_filters");
    reveal_strlit("_v2_and_filters_pct");
}

/// Every data column of any report is a plain CSV field.
#[verifier::rlimit(100)]
proof fn lemma_csv_data_plain(r: CensusReport)
    ensures
        forall|i: int|
            0 <= i < spec_csv_data(r).len() ==> plain_csv_field(#[trigger] spec_csv_data(r)[i]),
{
    assert forall|i: int| 0 <= i < spec_csv_data(r).len() implies plain_csv_field(
        #[trigger] spec_csv_data(r)[i],
    ) by {
        lemma_bucket_data_plain(r.stats.connection_types.ipv4, r.stats.connection_types.sum_total());
        lemma_bucket_data_plain(r.stats.connection_types.ipv6, r.stats.connection_types.sum_total());
        lemma_bucket_data_plain(
            r.stats.connection_types.tor_v2,
            r.stats.connection_types.sum_total(),
        );
        lemma_bucket_data_plain(
            r.stats.connection_types.tor_v3,
            r.stats.connection_types.sum_total(),
        );
        lemma_bucket_data_plain(r.stats.connection_types.i2p, r.stats.connection_types.sum_total());
        lemma_bucket_data_plain(
            r.stats.connection_types.cjdns,
            r.stats.connection_types.sum_total(),
        );
        lemma_bucket_data_plain(
            r.stats.connection_types.unknown,
            r.stats.connection_types.sum_total(),
        );
        lemma_dec_plain(r.timestamp as nat);
        lemma_dec_plain(r.duration_seconds as nat);
        lemma_dec_plain(r.stats.total_nodes as nat);
        lemma_dec_plain(r.total_contacted as nat);
        lemma_dec_plain(r.stats.v2_transport as nat);
        lemma_dec_plain(r.stats.compact_filters as nat);
        lemma_dec_plain(r.stats.v2_and_filters as nat);
        lemma_pct2_plain(
            spec_pct(r.stats.v2_transport as int, r.stats.total_nodes as int, 10000) as nat,
        );
        lemma_pct2_plain(
            spec_pct(r.stats.compact_filters as int, r.stats.total_nodes as int, 10000) as nat,
        );
        lemma_pct2_plain(
            spec_pct(r.stats.v2_and_filters as int, r.stats.total_nodes as int, 10000) as nat,
        );
    }
}

/// Every data column of one bucket is a plain CSV field.
proof fn lemma_bucket_data_plain(f: ConnectionTypeFeatures, grand: int)
    ensures
        forall|i: int|
            0 <= i < spec_bucket_data(f, grand).len() ==> plain_csv_field(
                #[trigger] spec_bucket_data(f, grand)[i],
            ),
{
    lemma_dec_plain(f.total_nodes as nat);
    lemma_dec_plain(f.v2_transport as nat);
    lemma_dec_plain(f.compact_filters as nat);
    lemma_dec_plain(f.v2_and_filters as nat);
    lemma_pct2_plain(spec_pct(f.total_nodes as int, grand, 10000) as nat);
    lemma_pct2_plain(spec_pct(f.v2_transport as int, f.total_nodes as int, 10000) as nat);
    lemma_pct2_plain(spec_pct(f.compact_filters as int, f.total_nodes as int, 10000) as nat);
    lemma_pct2_plain(spec_pct(f.v2_and_filters as int, f.total_nodes as int, 10000) as nat);
}

/// Law: the CSV rendering is exactly one header record and one data record
/// — its two newlines close the two records, the text ends at the second —
/// and each record has exactly the documented 66 columns, separated by the
/// only commas in the text.
#[verifier::rlimit(100)]
pub proof fn lemma_csv_shape(r: CensusReport)
    ensures
        spec_csv_text(r) == spec_csv_line(spec_csv_header()) + spec_csv_line(spec_csv_data(r)),
        spec_csv_header().len() == 66,
        spec_csv_data(r).len() == 66,
        count_char(spec_csv_text(r), '\n') == 2,
        spec_csv_text(r).last() == '\n',
        count_char(spec_csv_text(r), ',') == 130,
{
    lemma_csv_header_plain();
    lemma_csv_data_plain(r);
    lemma_csv_line_shape(spec_csv_header());
    lemma_csv_line_shape(spec_csv_data(r));
    lemma_count_char_concat(spec_csv_line(spec_csv_header()), spec_csv_line(spec_csv_data(r)), '\n');
    lemma_count_char_concat(spec_csv_line(spec_csv_header()), spec_csv_line(spec_csv_data(r)), ',');
}

} // verus!
