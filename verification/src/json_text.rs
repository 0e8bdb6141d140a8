use vstd::prelude::*;

use crate::numfmt::is_digit_char;
use crate::numfmt::lemma_dec_digits_only;
use crate::numfmt::spec_dec;
use crate::numfmt::spec_digits_val;
use crate::numfmt::u64_to_string;
use crate::report::CensusReport;
use crate::report::ReportView;
use crate::stats::ConnectionTypeFeatures;
use crate::stats::ConnectionTypeStats;
use crate::stats::FeatureStats;

verus! {

// ---------------------------------------------------------------------------
// Rendering: the compact JSON text of a report.
// ---------------------------------------------------------------------------
/// How one character stands inside a JSON string: a quote or a backslash is
/// preceded by a backslash, anything else stands as itself.
pub open spec fn spec_esc_char(c: char) -> Seq<char> {
    if c == '"' || c == '\\' {
        seq!['\\', c]
    } else {
        seq![c]
    }
}

/// A character sequence as it stands inside a JSON string.
pub open spec fn spec_esc(s: Seq<char>) -> Seq<char>
    decreases s.len(),
{
    if s.len() == 0 {
        Seq::empty()
    } else {
        spec_esc_char(s.first()) + spec_esc(s.drop_first())
    }
}

/// The JSON object of one bucket's counters.
pub open spec fn spec_json_features(f: ConnectionTypeFeatures) -> Seq<char> {
    "{\"total_nodes\":"@ + spec_dec(f.total_nodes as nat) + ",\"v2_transport\":"@ + spec_dec(
        f.v2_transport as nat,
    ) + ",\"compact_filters\":"@ + spec_dec(f.compact_filters as nat) + ",\"v2_and_filters\":"@
        + spec_dec(f.v2_and_filters as nat) + "}"@
}

/// The JSON object of the seven buckets, in their fixed order.
pub open spec fn spec_json_cts(c: ConnectionTypeStats) -> Seq<char> {
    "{\"ipv4\":"@ + spec_json_features(c.ipv4) + ",\"ipv6\":"@ + spec_json_features(c.ipv6)
        + ",\"tor_v2\":"@ + spec_json_features(c.tor_v2) + ",\"tor_v3\":"@ + spec_json_features(
        c.tor_v3,
    ) + ",\"i2p\":"@ + spec_json_features(c.i2p) + ",\"cjdns\":"@ + spec_json_features(c.cjdns)
        + ",\"unknown\":"@ + spec_json_features(c.unknown) + "}"@
}

/// The JSON object of the global counters with their breakdown.
pub open spec fn spec_json_stats(s: FeatureStats) -> Seq<char> {
    "{\"total_nodes\":"@ + spec_dec(s.total_nodes as nat) + ",\"v2_transport\":"@ + spec_dec(
        s.v2_transport as nat,
    ) + ",\"compact_filters\":"@ + spec_dec(s.compact_filters as nat) + ",\"v2_and_filters\":"@
        + spec_dec(s.v2_and_filters as nat) + ",\"connection_types\":"@ + spec_json_cts(
        s.connection_types,
    ) + "}"@
}

/// The compact JSON document of a whole report.
pub open spec fn spec_json_report(rv: ReportView) -> Seq<char> {
    "{\"timestamp\":"@ + spec_dec(rv.timestamp as nat) + ",\"duration_seconds\":"@ + spec_dec(
        rv.duration_seconds as nat,
    ) + ",\"total_contacted\":"@ + spec_dec(rv.total_contacted as nat) + ",\"stats\":"@
        + spec_json_stats(rv.stats) + ",\"census_version\":\""@ + spec_esc(rv.census_version)
        + "\"}"@
}

// ---------------------------------------------------------------------------
// Parsing: the inverse reading of such a document.
// ---------------------------------------------------------------------------
/// Consume the exact token `tok` from the front of `rem`.
pub open spec fn spec_eat_tok(rem: Seq<char>, tok: Seq<char>) -> Option<Seq<char>> {
    if tok.len() <= rem.len() && rem.take(tok.len() as int) == tok {
        Some(rem.skip(tok.len() as int))
    } else {
        None
    }
}

/// The length of the run of digits at the front of `rem`.
pub open spec fn spec_digit_run(rem: Seq<char>) -> int
    decreases rem.len(),
{
    if rem.len() == 0 || !is_digit_char(rem.first()) {
        0
    } else {
        1 + spec_digit_run(rem.drop_first())
    }
}

/// Consume an unsigned decimal number: at least one digit, value at most
/// `u64::MAX`.
pub open spec fn spec_parse_u64(rem: Seq<char>) -> Option<(u64, Seq<char>)> {
    let k = spec_digit_run(rem);
    if k == 0 {
        None
    } else if spec_digits_val(rem.take(k), 0) > u64::MAX {
        None
    } else {
        Some((spec_digits_val(rem.take(k), 0) as u64, rem.skip(k)))
    }
}

/// Consume a decimal number that must fit a `usize` counter.
pub open spec fn spec_parse_usize(rem: Seq<char>) -> Option<(usize, Seq<char>)> {
    match spec_parse_u64(rem) {
        Some((v, r)) => if v <= usize::MAX {
            Some((v as usize, r))
        } else {
            None
        },
        None => None,
    }
}

/// Consume a JSON string body up to and including its closing quote,
/// undoing the backslash escapes; yields the decoded characters.
pub open spec fn spec_parse_strbody(rem: Seq<char>) -> Option<(Seq<char>, Seq<char>)>
    decreases rem.len(),
{
    if rem.len() == 0 {
        None
    } else if rem.first() == '"' {
        Some((Seq::empty(), rem.drop_first()))
    } else if rem.first() == '\\' {
        if rem.len() < 2 {
            None
        } else {
            match spec_parse_strbody(rem.skip(2)) {
                Some((body, rest)) => Some((seq![rem[1]] + body, rest)),
                None => None,
            }
        }
    } else {
        match spec_parse_strbody(rem.drop_first()) {
            Some((body, rest)) => Some((seq![rem.first()] + body, rest)),
            None => None,
        }
    }
}

/// Consume `key` then an unsigned number fitting `usize`.
pub open spec fn spec_field_usize(rem: Seq<char>, key: Seq<char>) -> Option<(usize, Seq<char>)> {
    match spec_eat_tok(rem, key) {
        Some(r) => spec_parse_usize(r),
        None => None,
    }
}

/// Consume `key` then an unsigned number.
pub open spec fn spec_field_u64(rem: Seq<char>, key: Seq<char>) -> Option<(u64, Seq<char>)> {
    match spec_eat_tok(rem, key) {
        Some(r) => spec_parse_u64(r),
        None => None,
    }
}

/// Parse one bucket object, fields in their fixed order.
pub open spec fn spec_parse_features(rem: Seq<char>) -> Option<(ConnectionTypeFeatures, Seq<char>)> {
    match spec_field_usize(rem, "{\"total_nodes\":"@) {
        Some((tn, r2)) => match spec_field_usize(r2, ",\"v2_transport\":"@) {
            Some((v2, r4)) => match spec_field_usize(r4, ",\"compact_filters\":"@) {
                Some((cf, r6)) => match spec_field_usize(r6, ",\"v2_and_filters\":"@) {
                    Some((bo, r8)) => match spec_eat_tok(r8, "}"@) {
                        Some(r9) => Some(
                            (
                                ConnectionTypeFeatures {
                                    total_nodes: tn,
                                    v2_transport: v2,
                                    compact_filters: cf,
                                    v2_and_filters: bo,
                                },
                                r9,
                            ),
                        ),
                        None => None,
                    },
                    None => None,
                },
                None => None,
            },
            None => None,
        },
        None => None,
    }
}

/// Consume `key` then one bucket object.
pub open spec fn spec_bucket_field(rem: Seq<char>, key: Seq<char>) -> Option<
    (ConnectionTypeFeatures, Seq<char>),
> {
    match spec_eat_tok(rem, key) {
        Some(r) => spec_parse_features(r),
        None => None,
    }
}

/// Parse the seven-bucket object, buckets in their fixed order.
pub open spec fn spec_parse_cts(rem: Seq<char>) -> Option<(ConnectionTypeStats, Seq<char>)> {
    match spec_bucket_field(rem, "{\"ipv4\":"@) {
        Some((ipv4, r2)) => match spec_bucket_field(r2, ",\"ipv6\":"@) {
            Some((ipv6, r4)) => match spec_bucket_field(r4, ",\"tor_v2\":"@) {
                Some((tor_v2, r6)) => match spec_bucket_field(r6, ",\"tor_v3\":"@) {
                    Some((tor_v3, r8)) => match spec_bucket_field(r8, ",\"i2p\":"@) {
                        Some((i2p, r10)) => match spec_bucket_field(r10, ",\"cjdns\":"@) {
                            Some((cjdns, r12)) => match spec_bucket_field(r12, ",\"unknown\":"@) {
                                Some((unknown, r14)) => match spec_eat_tok(r14, "}"@) {
                                    Some(r15) => Some(
                                        (
                                            ConnectionTypeStats {
                                                ipv4,
                                                ipv6,
                                                tor_v2,
                                                tor_v3,
                                                i2p,
                                                cjdns,
                                                unknown,
                                            },
                                            r15,
                                        ),
                                    ),
                                    None => None,
                                },
                                None => None,
                            },
                            None => None,
                        },
                        None => None,
                    },
                    None => None,
                },
                None => None,
            },
            None => None,
        },
        None => None,
    }
}

/// Consume `key` then the seven-bucket object.
pub open spec fn spec_cts_field(rem: Seq<char>, key: Seq<char>) -> Option<
    (ConnectionTypeStats, Seq<char>),
> {
    match spec_eat_tok(rem, key) {
        Some(r) => spec_parse_cts(r),
        None => None,
    }
}

/// Parse the statistics object, fields in their fixed order.
pub open spec fn spec_parse_stats(rem: Seq<char>) -> Option<(FeatureStats, Seq<char>)> {
    match spec_field_usize(rem, "{\"total_nodes\":"@) {
        Some((tn, r2)) => match spec_field_usize(r2, ",\"v2_transport\":"@) {
            Some((v2, r4)) => match spec_field_usize(r4, ",\"compact_filters\":"@) {
                Some((cf, r6)) => match spec_field_usize(r6, ",\"v2_and_filters\":"@) {
                    Some((bo, r8)) => match spec_cts_field(r8, ",\"connection_types\":"@) {
                        Some((cts, r10)) => match spec_eat_tok(r10, "}"@) {
                            Some(r11) => Some(
                                (
                                    FeatureStats {
                                        total_nodes: tn,
                                        v2_transport: v2,
                                        compact_filters: cf,
                                        v2_and_filters: bo,
                                        connection_types: cts,
                                    },
                                    r11,
                                ),
                            ),
                            None => None,
                        },
                        None => None,
                    },
                    None => None,
                },
                None => None,
            },
            None => None,
        },
        None => None,
    }
}

/// Consume `key` then the statistics object.
pub open spec fn spec_stats_field(rem: Seq<char>, key: Seq<char>) -> Option<
    (FeatureStats, Seq<char>),
> {
    match spec_eat_tok(rem, key) {
        Some(r) => spec_parse_stats(r),
        None => None,
    }
}

/// Parse the optional `total_contacted` field: a document written before
/// the field existed simply lacks it, and then it reads as `0`.
pub open spec fn spec_parse_contacted(rem: Seq<char>) -> Option<(usize, Seq<char>)> {
    match spec_eat_tok(rem, ",\"total_contacted\":"@) {
        Some(r) => spec_parse_usize(r),
        None => Some((0, rem)),
    }
}

/// Consume the version key with its opening quote, then the string body.
pub open spec fn spec_version_field(rem: Seq<char>) -> Option<(Seq<char>, Seq<char>)> {
    match spec_eat_tok(rem, ",\"census_version\":\""@) {
        Some(r) => spec_parse_strbody(r),
        None => None,
    }
}

/// Parse a whole report document: the compact object this library writes,
/// with `total_contacted` optional, closed by nothing or one final newline.
pub open spec fn spec_parse_report(t: Seq<char>) -> Option<ReportView> {
    match spec_field_u64(t, "{\"timestamp\":"@) {
        Some((ts, r2)) => match spec_field_u64(r2, ",\"duration_seconds\":"@) {
            Some((du, r4)) => match spec_parse_contacted(r4) {
                Some((tc, r5)) => match spec_stats_field(r5, ",\"stats\":"@) {
                    Some((st, r7)) => match spec_version_field(r7) {
                        Some((ver, r9)) => match spec_eat_tok(r9, "}"@) {
                            Some(r10) => if r10.len() == 0 || r10 == seq!['\n'] {
                                Some(
                                    ReportView {
                                        timestamp: ts,
                                        duration_seconds: du,
                                        total_contacted: tc,
                                        stats: st,
                                        census_version: ver,
                                    },
                                )
                            } else {
                                None
                            },
                            None => None,
                        },
                        None => None,
                    },
                    None => None,
                },
                None => None,
            },
            None => None,
        },
        None => None,
    }
}


// ---------------------------------------------------------------------------
// Round trip: parsing a rendered document recovers the report.
// ---------------------------------------------------------------------------
/// Eating a token from a text that starts with it leaves exactly the tail.
proof fn lemma_eat_tok_prefix(tok: Seq<char>, rest: Seq<char>)
    ensures
        spec_eat_tok(tok + rest, tok) == Some(rest),
{
    let rem = tok + rest;
    assert(rem.take(tok.len() as int) =~= tok);
    assert(rem.skip(tok.len() as int) =~= rest);
}

/// Concatenation of character sequences associates.
proof fn lemma_assoc(a: Seq<char>, b: Seq<char>, c: Seq<char>)
    ensures
        (a + b) + c == a + (b + c),
{
    assert((a + b) + c =~= a + (b + c));
}

/// Reading one more digit multiplies the value read so far by ten.
pub proof fn lemma_digits_val_push(a: Seq<char>, d: char, acc: int)
    ensures
        spec_digits_val(a.push(d), acc) == spec_digits_val(a, acc) * 10
            + crate::numfmt::spec_digit_val(d),
    decreases a.len(),
{
    reveal_with_fuel(crate::numfmt::spec_digits_val, 2);
    if a.len() == 0 {
        assert(a.push(d).drop_first() =~= Seq::<char>::empty());
        assert(a.push(d).first() == d);
    } else {
        assert(a.push(d).drop_first() =~= a.drop_first().push(d));
        assert(a.push(d).first() == a.first());
        lemma_digits_val_push(
            a.drop_first(),
            d,
            acc * 10 + crate::numfmt::spec_digit_val(a.first()),
        );
    }
}

/// Reading the decimal rendering of `n` gives back `n`.
proof fn lemma_digits_val_of_dec(n: nat)
    ensures
        spec_digits_val(spec_dec(n), 0) == n,
    decreases n,
{
    if n < 10 {
        assert(spec_dec(n) =~= Seq::<char>::empty().push(crate::numfmt::spec_digit(n as int)));
        lemma_digits_val_push(Seq::<char>::empty(), crate::numfmt::spec_digit(n as int), 0);
    } else {
        lemma_digits_val_of_dec(n / 10);
        lemma_digits_val_push(spec_dec(n / 10), crate::numfmt::spec_digit((n % 10) as int), 0);
    }
}

/// The run of digits in front of a non-digit is exactly the digits.
proof fn lemma_digit_run_of_digits(a: Seq<char>, b: Seq<char>)
    requires
        forall|i: int| 0 <= i < a.len() ==> is_digit_char(#[trigger] a[i]),
        b.len() == 0 || !is_digit_char(b.first()),
    ensures
        spec_digit_run(a + b) == a.len(),
    decreases a.len(),
{
    if a.len() == 0 {
        assert(a + b =~= b);
    } else {
        assert((a + b).first() == a.first());
        assert((a + b).drop_first() =~= a.drop_first() + b);
        assert(forall|i: int|
            0 <= i < a.drop_first().len() ==> is_digit_char(#[trigger] a.drop_first()[i]));
        lemma_digit_run_of_digits(a.drop_first(), b);
    }
}

/// Parsing the decimal rendering of `n` in front of a non-digit yields `n`
/// and leaves the tail.
proof fn lemma_parse_u64_of_dec(n: u64, rest: Seq<char>)
    requires
        rest.len() == 0 || !is_digit_char(rest.first()),
    ensures
        spec_parse_u64(spec_dec(n as nat) + rest) == Some((n, rest)),
{
    let d = spec_dec(n as nat);
    lemma_dec_digits_only(n as nat);
    lemma_digit_run_of_digits(d, rest);
    assert((d + rest).take(d.len() as int) =~= d);
    assert((d + rest).skip(d.len() as int) =~= rest);
    lemma_digits_val_of_dec(n as nat);
}

/// Consuming a key and the rendered number after it.
proof fn lemma_field_u64(key: Seq<char>, n: u64, rest: Seq<char>)
    requires
        rest.len() == 0 || !is_digit_char(rest.first()),
    ensures
        spec_field_u64(key + (spec_dec(n as nat) + rest), key) == Some((n, rest)),
{
    lemma_eat_tok_prefix(key, spec_dec(n as nat) + rest);
    lemma_parse_u64_of_dec(n, rest);
}

/// Consuming a key and the rendered counter after it.
proof fn lemma_field_usize(key: Seq<char>, n: usize, rest: Seq<char>)
    requires
        rest.len() == 0 || !is_digit_char(rest.first()),
    ensures
        spec_field_usize(key + (spec_dec(n as nat) + rest), key) == Some((n, rest)),
{
    lemma_eat_tok_prefix(key, spec_dec(n as nat) + rest);
    lemma_parse_u64_of_dec(n as u64, rest);
}

/// Escaping one more character appends its escaped form.
pub proof fn lemma_esc_push(s: Seq<char>, c: char)
    ensures
        spec_esc(s.push(c)) == spec_esc(s) + spec_esc_char(c),
    decreases s.len(),
{
    reveal_with_fuel(spec_esc, 2);
    if s.len() == 0 {
        assert(s.push(c).drop_first() =~= Seq::<char>::empty());
        assert(s.push(c).first() == c);
        assert(spec_esc(s.push(c)) =~= spec_esc(s) + spec_esc_char(c));
    } else {
        assert(s.push(c).drop_first() =~= s.drop_first().push(c));
        assert(s.push(c).first() == s.first());
        lemma_esc_push(s.drop_first(), c);
        assert(spec_esc(s.push(c)) =~= spec_esc(s) + spec_esc_char(c));
    }
}

/// Reading an escaped string body up to its closing quote undoes the
/// escaping exactly.
proof fn lemma_strbody_of_esc(s: Seq<char>, rest: Seq<char>)
    ensures
        spec_parse_strbody(spec_esc(s) + (seq!['"'] + rest)) == Some((s, rest)),
    decreases s.len(),
{
    let rem = spec_esc(s) + (seq!['"'] + rest);
    if s.len() == 0 {
        assert(rem =~= seq!['"'] + rest);
        assert(rem.first() == '"');
        assert(rem.drop_first() =~= rest);
    } else {
        let c = s.first();
        lemma_strbody_of_esc(s.drop_first(), rest);
        if c == '"' || c == '\\' {
            assert(rem =~= seq!['\\', c] + (spec_esc(s.drop_first()) + (seq!['"'] + rest)));
            assert(rem.first() == '\\');
            assert(rem.len() >= 2);
            assert(rem[1] == c);
            assert(rem.skip(2) =~= spec_esc(s.drop_first()) + (seq!['"'] + rest));
            assert(seq![c] + s.drop_first() =~= s);
        } else {
            assert(rem =~= seq![c] + (spec_esc(s.drop_first()) + (seq!['"'] + rest)));
            assert(rem.first() == c);
            assert(rem.drop_first() =~= spec_esc(s.drop_first()) + (seq!['"'] + rest));
            assert(seq![c] + s.drop_first() =~= s);
        }
    }
}

/// Parsing a rendered bucket object in front of any tail recovers the
/// bucket and leaves the tail.
#[verifier::rlimit(100)]
proof fn lemma_features_roundtrip(f: ConnectionTypeFeatures, rest: Seq<char>)
    ensures
        spec_parse_features(spec_json_features(f) + rest) == Some((f, rest)),
{
    reveal_strlit("{\"total_nodes\":");
    reveal_strlit(",\"v2_transport\":");
    reveal_strlit(",\"compact_filters\":");
    reveal_strlit(",\"v2_and_filters\":");
    reveal_strlit("}");
    let t1 = "{\"total_nodes\":"@;
    let t2 = ",\"v2_transport\":"@;
    let t3 = ",\"compact_filters\":"@;
    let t4 = ",\"v2_and_filters\":"@;
    let t5 = "}"@;
    let d1 = spec_dec(f.total_nodes as nat);
    let d2 = spec_dec(f.v2_transport as nat);
    let d3 = spec_dec(f.compact_filters as nat);
    let d4 = spec_dec(f.v2_and_filters as nat);
    let s9 = t5 + rest;
    let s8 = d4 + s9;
    let s7 = t4 + s8;
    let s6 = d3 + s7;
    let s5 = t3 + s6;
    let s4 = d2 + s5;
    let s3 = t2 + s4;
    let s2 = d1 + s3;
    assert(spec_json_features(f) + rest =~= t1 + s2);
    assert(s3.first() == ',');
    assert(s5.first() == ',');
    assert(s7.first() == ',');
    assert(s9.first() == '}');
    lemma_field_usize(t1, f.total_nodes, s3);
    lemma_field_usize(t2, f.v2_transport, s5);
    lemma_field_usize(t3, f.compact_filters, s7);
    lemma_field_usize(t4, f.v2_and_filters, s9);
    lemma_eat_tok_prefix(t5, rest);
}

/// Consuming a key and the rendered bucket after it.
proof fn lemma_bucket_field(key: Seq<char>, f: ConnectionTypeFeatures, rest: Seq<char>)
    ensures
        spec_bucket_field(key + (spec_json_features(f) + rest), key) == Some((f, rest)),
{
    lemma_eat_tok_prefix(key, spec_json_features(f) + rest);
    lemma_features_roundtrip(f, rest);
}

/// Parsing the rendered seven-bucket object recovers the buckets.
#[verifier::rlimit(100)]
proof fn lemma_cts_roundtrip(c: ConnectionTypeStats, rest: Seq<char>)
    ensures
        spec_parse_cts(spec_json_cts(c) + rest) == Some((c, rest)),
{
    reveal_strlit("{\"ipv4\":");
    reveal_strlit(",\"ipv6\":");
    reveal_strlit(",\"tor_v2\":");
    reveal_strlit(",\"tor_v3\":");
    reveal_strlit(",\"i2p\":");
    reveal_strlit(",\"cjdns\":");
    reveal_strlit(",\"unknown\":");
    reveal_strlit("}");
    let u1 = "{\"ipv4\":"@;
    let u2 = ",\"ipv6\":"@;
    let u3 = ",\"tor_v2\":"@;
    let u4 = ",\"tor_v3\":"@;
    let u5 = ",\"i2p\":"@;
    let u6 = ",\"cjdns\":"@;
    let u7 = ",\"unknown\":"@;
    let u8 = "}"@;
    let f1 = spec_json_features(c.ipv4);
    let f2 = spec_json_features(c.ipv6);
    let f3 = spec_json_features(c.tor_v2);
    let f4 = spec_json_features(c.tor_v3);
    let f5 = spec_json_features(c.i2p);
    let f6 = spec_json_features(c.cjdns);
    let f7 = spec_json_features(c.unknown);
    let s15 = u8 + rest;
    let s14 = f7 + s15;
    let s13 = u7 + s14;
    let s12 = f6 + s13;
    let s11 = u6 + s12;
    let s10 = f5 + s11;
    let s9 = u5 + s10;
    let s8 = f4 + s9;
    let s7 = u4 + s8;
    let s6 = f3 + s7;
    let s5 = u3 + s6;
    let s4 = f2 + s5;
    let s3 = u2 + s4;
    let s2 = f1 + s3;
    let a1 = u1 + f1;
    let a2 = a1 + u2;
    let a3 = a2 + f2;
    let a4 = a3 + u3;
    let a5 = a4 + f3;
    let a6 = a5 + u4;
    let a7 = a6 + f4;
    let a8 = a7 + u5;
    let a9 = a8 + f5;
    let a10 = a9 + u6;
    let a11 = a10 + f6;
    let a12 = a11 + u7;
    let a13 = a12 + f7;
    let a14 = a13 + u8;
    assert(spec_json_cts(c) == a14);
    lemma_assoc(a13, u8, rest);
    lemma_assoc(a12, f7, s15);
    lemma_assoc(a11, u7, s14);
    lemma_assoc(a10, f6, s13);
    lemma_assoc(a9, u6, s12);
    lemma_assoc(a8, f5, s11);
    lemma_assoc(a7, u5, s10);
    lemma_assoc(a6, f4, s9);
    lemma_assoc(a5, u4, s8);
    lemma_assoc(a4, f3, s7);
    lemma_assoc(a3, u3, s6);
    lemma_assoc(a2, f2, s5);
    lemma_assoc(a1, u2, s4);
    lemma_assoc(u1, f1, s3);
    assert(spec_json_cts(c) + rest == u1 + s2);
    lemma_bucket_field(u1, c.ipv4, s3);
    lemma_bucket_field(u2, c.ipv6, s5);
    lemma_bucket_field(u3, c.tor_v2, s7);
    lemma_bucket_field(u4, c.tor_v3, s9);
    lemma_bucket_field(u5, c.i2p, s11);
    lemma_bucket_field(u6, c.cjdns, s13);
    lemma_bucket_field(u7, c.unknown, s15);
    lemma_eat_tok_prefix(u8, rest);
}

/// Parsing the rendered statistics object recovers the statistics.
#[verifier::rlimit(100)]
proof fn lemma_stats_roundtrip(st: FeatureStats, rest: Seq<char>)
    ensures
        spec_parse_stats(spec_json_stats(st) + rest) == Some((st, rest)),
{
    reveal_strlit("{\"total_nodes\":");
    reveal_strlit(",\"v2_transport\":");
    reveal_strlit(",\"compact_filters\":");
    reveal_strlit(",\"v2_and_filters\":");
    reveal_strlit(",\"connection_types\":");
    reveal_strlit("}");
    let t1 = "{\"total_nodes\":"@;
    let t2 = ",\"v2_transport\":"@;
    let t3 = ",\"compact_filters\":"@;
    let t4 = ",\"v2_and_filters\":"@;
    let t5 = ",\"connection_types\":"@;
    let t6 = "}"@;
    let d1 = spec_dec(st.total_nodes as nat);
    let d2 = spec_dec(st.v2_transport as nat);
    let d3 = spec_dec(st.compact_filters as nat);
    let d4 = spec_dec(st.v2_and_filters as nat);
    let c0 = spec_json_cts(st.connection_types);
    let s11 = t6 + rest;
    let s10 = c0 + s11;
    let s9 = t5 + s10;
    let s8 = d4 + s9;
    let s7 = t4 + s8;
    let s6 = d3 + s7;
    let s5 = t3 + s6;
    let s4 = d2 + s5;
    let s3 = t2 + s4;
    let s2 = d1 + s3;
    let a1 = t1 + d1;
    let a2 = a1 + t2;
    let a3 = a2 + d2;
    let a4 = a3 + t3;
    let a5 = a4 + d3;
    let a6 = a5 + t4;
    let a7 = a6 + d4;
    let a8 = a7 + t5;
    let a9 = a8 + c0;
    let a10 = a9 + t6;
    assert(spec_json_stats(st) == a10);
    lemma_assoc(a9, t6, rest);
    lemma_assoc(a8, c0, s11);
    lemma_assoc(a7, t5, s10);
    lemma_assoc(a6, d4, s9);
    lemma_assoc(a5, t4, s8);
    lemma_assoc(a4, d3, s7);
    lemma_assoc(a3, t3, s6);
    lemma_assoc(a2, d2, s5);
    lemma_assoc(a1, t2, s4);
    lemma_assoc(t1, d1, s3);
    assert(spec_json_stats(st) + rest == t1 + s2);
    assert(s3.first() == ',');
    assert(s5.first() == ',');
    assert(s7.first() == ',');
    assert(s9.first() == ',');
    lemma_field_usize(t1, st.total_nodes, s3);
    lemma_field_usize(t2, st.v2_transport, s5);
    lemma_field_usize(t3, st.compact_filters, s7);
    lemma_field_usize(t4, st.v2_and_filters, s9);
    lemma_eat_tok_prefix(t5, s10);
    lemma_cts_roundtrip(st.connection_types, s11);
    lemma_eat_tok_prefix(t6, rest);
}

/// Law: parsing a rendered report document yields back exactly the report
/// that was rendered — for every report value.
#[verifier::rlimit(100)]
pub proof fn lemma_json_round_trip(rv: ReportView)
    ensures
        spec_parse_report(spec_json_report(rv)) == Some(rv),
{
    reveal_strlit("{\"timestamp\":");
    reveal_strlit(",\"duration_seconds\":");
    reveal_strlit(",\"total_contacted\":");
    reveal_strlit(",\"stats\":");
    reveal_strlit(",\"census_version\":\"");
    reveal_strlit("\"}");
    reveal_strlit("}");
    let t1 = "{\"timestamp\":"@;
    let t2 = ",\"duration_seconds\":"@;
    let t3 = ",\"total_contacted\":"@;
    let t4 = ",\"stats\":"@;
    let t5 = ",\"census_version\":\""@;
    let t6 = "}"@;
    let d1 = spec_dec(rv.timestamp as nat);
    let d2 = spec_dec(rv.duration_seconds as nat);
    let d3 = spec_dec(rv.total_contacted as nat);
    let e0 = spec_esc(rv.census_version);
    let st0 = spec_json_stats(rv.stats);
    let s12 = Seq::<char>::empty();
    let s11 = t6 + s12;
    let s10 = seq!['"'] + s11;
    let s9 = e0 + s10;
    let s8 = t5 + s9;
    let s7 = st0 + s8;
    let s6 = t4 + s7;
    let s5 = d3 + s6;
    let s4 = t3 + s5;
    let s3 = d2 + s4;
    let s2 = t2 + s3;
    let s1 = d1 + s2;
    let a1 = t1 + d1;
    let a2 = a1 + t2;
    let a3 = a2 + d2;
    let a4 = a3 + t3;
    let a5 = a4 + d3;
    let a6 = a5 + t4;
    let a7 = a6 + st0;
    let a8 = a7 + t5;
    let a9 = a8 + e0;
    let a10 = a9 + "\"}"@;
    assert(spec_json_report(rv) == a10);
    assert("\"}"@ =~= seq!['"'] + t6);
    assert(a10 =~= (a9 + seq!['"']) + t6);
    lemma_assoc(a9 + seq!['"'], t6, s12);
    assert(t6 + s12 =~= s11);
    lemma_assoc(a9, seq!['"'], s11);
    lemma_assoc(a8, e0, s10);
    lemma_assoc(a7, t5, s9);
    lemma_assoc(a6, st0, s8);
    lemma_assoc(a5, t4, s7);
    lemma_assoc(a4, d3, s6);
    lemma_assoc(a3, t3, s5);
    lemma_assoc(a2, d2, s4);
    lemma_assoc(a1, t2, s3);
    lemma_assoc(t1, d1, s2);
    assert(spec_json_report(rv) == t1 + s1) by {
        assert(a10 + s12 =~= a10);
        assert(spec_json_report(rv) + s12 =~= spec_json_report(rv));
    }
    assert(s2.first() == ',');
    assert(s4.first() == ',');
    assert(s6.first() == ',');
    lemma_field_u64(t1, rv.timestamp, s2);
    lemma_field_u64(t2, rv.duration_seconds, s4);
    lemma_eat_tok_prefix(t3, s5);
    lemma_parse_u64_of_dec(rv.total_contacted as u64, s6);
    lemma_eat_tok_prefix(t4, s7);
    lemma_stats_roundtrip(rv.stats, s8);
    lemma_eat_tok_prefix(t5, s9);
    lemma_strbody_of_esc(rv.census_version, s11);
    lemma_eat_tok_prefix(t6, s12);
    assert(s12.len() == 0);
}


// ---------------------------------------------------------------------------
// Executable rendering.
// ---------------------------------------------------------------------------
/// Append the characters of `v` as they stand inside a JSON string, a
/// backslash before every quote or backslash.
fn append_escaped(out: &mut String, v: &str)
    ensures
        final(out)@ == old(out)@ + spec_esc(v@),
{
    let n = v.unicode_len();
    let mut i: usize = 0;
    while i < n
        invariant
            i <= n,
            n == v@.len(),
            out@ == old(out)@ + spec_esc(v@.take(i as int)),
        decreases n - i,
    {
        let c = v.get_char(i);
        if c == '"' || c == '\\' {
            out.append("\\");
        }
        let piece = v.substring_char(i, i + 1);
        out.append(piece);
        proof {
            reveal_strlit("\\");
            assert(v@.take(i as int).push(c) =~= v@.take((i + 1) as int));
            lemma_esc_push(v@.take(i as int), c);
            assert(piece@ =~= seq![c]);
            assert(out@ =~= old(out)@ + spec_esc(v@.take((i + 1) as int)));
        }
        i = i + 1;
    }
    proof {
        assert(v@.take(n as int) =~= v@);
    }
}

/// Render one bucket object.
fn json_features_string(f: &ConnectionTypeFeatures) -> (r: String)
    ensures
        r@ == spec_json_features(*f),
{
    let mut out = String::from_str("{\"total_nodes\":");
    out.append(u64_to_string(f.total_nodes as u64).as_str());
    out.append(",\"v2_transport\":");
    out.append(u64_to_string(f.v2_transport as u64).as_str());
    out.append(",\"compact_filters\":");
    out.append(u64_to_string(f.compact_filters as u64).as_str());
    out.append(",\"v2_and_filters\":");
    out.append(u64_to_string(f.v2_and_filters as u64).as_str());
    out.append("}");
    proof {
        assert(out@ =~= spec_json_features(*f));
    }
    out
}

/// Render the seven-bucket object.
#[verifier::rlimit(100)]
fn json_cts_string(c: &ConnectionTypeStats) -> (r: String)
    ensures
        r@ == spec_json_cts(*c),
{
    let mut out = String::from_str("{\"ipv4\":");
    out.append(json_features_string(&c.ipv4).as_str());
    out.append(",\"ipv6\":");
    out.append(json_features_string(&c.ipv6).as_str());
    out.append(",\"tor_v2\":");
    out.append(json_features_string(&c.tor_v2).as_str());
    out.append(",\"tor_v3\":");
    out.append(json_features_string(&c.tor_v3).as_str());
    out.append(",\"i2p\":");
    out.append(json_features_string(&c.i2p).as_str());
    out.append(",\"cjdns\":");
    out.append(json_features_string(&c.cjdns).as_str());
    out.append(",\"unknown\":");
    out.append(json_features_string(&c.unknown).as_str());
    out.append("}");
    proof {
        assert(out@ =~= spec_json_cts(*c));
    }
    out
}

/// Render the statistics object.
#[verifier::rlimit(100)]
fn json_stats_string(s: &FeatureStats) -> (r: String)
    ensures
        r@ == spec_json_stats(*s),
{
    let mut out = String::from_str("{\"total_nodes\":");
    out.append(u64_to_string(s.total_nodes as u64).as_str());
    out.append(",\"v2_transport\":");
    out.append(u64_to_string(s.v2_transport as u64).as_str());
    out.append(",\"compact_filters\":");
    out.append(u64_to_string(s.compact_filters as u64).as_str());
    out.append(",\"v2_and_filters\":");
    out.append(u64_to_string(s.v2_and_filters as u64).as_str());
    out.append(",\"connection_types\":");
    out.append(json_cts_string(&s.connection_types).as_str());
    out.append("}");
    proof {
        assert(out@ =~= spec_json_stats(*s));
    }
    out
}

impl CensusReport {
    /// Render this report as one compact JSON object, fields in their fixed
    /// order.
    #[verifier::rlimit(100)]
    pub fn to_json(&self) -> (r: String)
        ensures
            r@ == spec_json_report(self@),
    {
        let mut out = String::from_str("{\"timestamp\":");
        out.append(u64_to_string(self.timestamp).as_str());
        out.append(",\"duration_seconds\":");
        out.append(u64_to_string(self.duration_seconds).as_str());
        out.append(",\"total_contacted\":");
        out.append(u64_to_string(self.total_contacted as u64).as_str());
        out.append(",\"stats\":");
        out.append(json_stats_string(&self.stats).as_str());
        out.append(",\"census_version\":\"");
        append_escaped(&mut out, self.census_version.as_str());
        out.append("\"}");
        proof {
            assert(out@ =~= spec_json_report(self@));
        }
        out
    }

    /// Render this report as one newline-terminated line of compact JSON.
    pub fn to_json_line(&self) -> (r: String)
        ensures
            r@ == spec_json_report(self@) + "\n"@,
    {
        let mut out = self.to_json();
        out.append("\n");
        out
    }
}

// ---------------------------------------------------------------------------
// Executable parsing.
// ---------------------------------------------------------------------------
/// Consume the token `tok` at position `i`.
fn eat_tok(s: &str, i: usize, tok: &str) -> (r: Option<usize>)
    requires
        i <= s@.len(),
    ensures
        match r {
            Some(j) => i <= j <= s@.len() && spec_eat_tok(s@.skip(i as int), tok@) == Some(
                s@.skip(j as int),
            ),
            None => spec_eat_tok(s@.skip(i as int), tok@) is None,
        },
{
    let n = s.unicode_len();
    let m = tok.unicode_len();
    if m > n - i {
        return None;
    }
    let mut k: usize = 0;
    while k < m
        invariant
            0 <= k <= m,
            m == tok@.len(),
            n == s@.len(),
            i + m <= n,
            forall|q: int| 0 <= q < k ==> s@[i + q] == tok@[q],
        decreases m - k,
    {
        if s.get_char(i + k) != tok.get_char(k) {
            proof {
                let rem = s@.skip(i as int);
                assert(rem.take(m as int)[k as int] == s@[i + k]);
                assert(rem.take(m as int) != tok@);
            }
            return None;
        }
        k = k + 1;
    }
    proof {
        let rem = s@.skip(i as int);
        assert(rem.take(m as int) =~= tok@);
        assert(rem.skip(m as int) =~= s@.skip((i + m) as int));
    }
    Some(i + m)
}

/// Consume an unsigned decimal number at position `i`.
#[verifier::rlimit(100)]
fn parse_u64(s: &str, i: usize) -> (r: Option<(u64, usize)>)
    requires
        i <= s@.len(),
    ensures
        match r {
            Some(p) => i <= p.1 <= s@.len() && spec_parse_u64(s@.skip(i as int)) == Some(
                (p.0, s@.skip(p.1 as int)),
            ),
            None => spec_parse_u64(s@.skip(i as int)) is None,
        },
{
    let n = s.unicode_len();
    let mut j: usize = i;
    let mut val: u64 = 0;
    let mut over = false;
    while j < n && crate::numfmt::is_digit(s.get_char(j))
        invariant
            i <= j <= n,
            n == s@.len(),
            forall|q: int| i <= q < j ==> is_digit_char(#[trigger] s@[q]),
            !over ==> val == spec_digits_val(s@.subrange(i as int, j as int), 0),
            over ==> spec_digits_val(s@.subrange(i as int, j as int), 0) > u64::MAX,
        decreases n - j,
    {
        let c = s.get_char(j);
        let d = crate::numfmt::digit_val(c);
        proof {
            assert(s@.subrange(i as int, (j + 1) as int) =~= s@.subrange(i as int, j as int).push(
                c,
            ));
            lemma_digits_val_push(s@.subrange(i as int, j as int), c, 0);
        }
        if !over {
            let big = val.checked_mul(10);
            match big {
                Some(v1) => {
                    let bigger = v1.checked_add(d);
                    match bigger {
                        Some(v2) => {
                            val = v2;
                        },
                        None => {
                            over = true;
                        },
                    }
                },
                None => {
                    over = true;
                },
            }
        }
        j = j + 1;
    }
    if j == i {
        return None;
    }
    proof {
        let rem = s@.skip(i as int);
        let a = s@.subrange(i as int, j as int);
        let b = s@.skip(j as int);
        assert(rem =~= a + b);
        assert(b.len() == 0 || !is_digit_char(b.first()));
        lemma_digit_run_of_digits(a, b);
        assert(spec_digit_run(rem) == j - i);
        assert(rem.take((j - i) as int) =~= a);
        assert(rem.skip((j - i) as int) =~= b);
    }
    if over {
        return None;
    }
    Some((val, j))
}

/// Consume a decimal number that must fit a `usize` counter.
fn parse_usize(s: &str, i: usize) -> (r: Option<(usize, usize)>)
    requires
        i <= s@.len(),
    ensures
        match r {
            Some(p) => i <= p.1 <= s@.len() && spec_parse_usize(s@.skip(i as int)) == Some(
                (p.0, s@.skip(p.1 as int)),
            ),
            None => spec_parse_usize(s@.skip(i as int)) is None,
        },
{
    match parse_u64(s, i) {
        Some((v, j)) => {
            if v > usize::MAX as u64 {
                None
            } else {
                Some((v as usize, j))
            }
        },
        None => None,
    }
}

/// Consume a JSON string body up to and including its closing quote,
/// undoing the backslash escapes.
fn parse_strbody(s: &str, i: usize) -> (r: Option<(String, usize)>)
    requires
        i <= s@.len(),
    ensures
        match r {
            Some(p) => i <= p.1 <= s@.len() && spec_parse_strbody(s@.skip(i as int)) == Some(
                (p.0@, s@.skip(p.1 as int)),
            ),
            None => spec_parse_strbody(s@.skip(i as int)) is None,
        },
{
    let n = s.unicode_len();
    let mut acc = String::new();
    let mut j: usize = i;
    loop
        invariant
            i <= j <= n,
            n == s@.len(),
            spec_parse_strbody(s@.skip(i as int)) == (match spec_parse_strbody(
                s@.skip(j as int),
            ) {
                Some((b, r)) => Some((acc@ + b, r)),
                None => None::<(Seq<char>, Seq<char>)>,
            }),
        decreases n - j,
    {
        if j >= n {
            proof {
                assert(s@.skip(j as int).len() == 0);
            }
            return None;
        }
        let c = s.get_char(j);
        if c == '"' {
            proof {
                assert(s@.skip(j as int).first() == '"');
                assert(s@.skip(j as int).drop_first() =~= s@.skip((j + 1) as int));
                assert(acc@ + Seq::<char>::empty() =~= acc@);
            }
            return Some((acc, j + 1));
        } else if c == '\\' {
            if j + 1 >= n {
                proof {
                    assert(s@.skip(j as int).len() < 2);
                    assert(s@.skip(j as int).first() == '\\');
                }
                return None;
            }
            let ghost acc0 = acc@;
            let piece = s.substring_char(j + 1, j + 2);
            acc.append(piece);
            proof {
                let rem = s@.skip(j as int);
                assert(rem.first() == '\\');
                assert(rem.len() >= 2);
                assert(rem[1] == s@[(j + 1) as int]);
                assert(rem.skip(2) =~= s@.skip((j + 2) as int));
                assert(piece@ =~= seq![rem[1]]);
                match spec_parse_strbody(s@.skip((j + 2) as int)) {
                    Some(p) => {
                        assert((acc0 + seq![rem[1]]) + p.0 =~= acc0 + (seq![rem[1]] + p.0));
                    },
                    None => {},
                }
            }
            j = j + 2;
        } else {
            let ghost acc0 = acc@;
            let piece = s.substring_char(j, j + 1);
            acc.append(piece);
            proof {
                let rem = s@.skip(j as int);
                assert(rem.first() == c);
                assert(rem.drop_first() =~= s@.skip((j + 1) as int));
                assert(piece@ =~= seq![c]);
                match spec_parse_strbody(s@.skip((j + 1) as int)) {
                    Some(p) => {
                        assert((acc0 + seq![c]) + p.0 =~= acc0 + (seq![c] + p.0));
                    },
                    None => {},
                }
            }
            j = j + 1;
        }
    }
}

/// Parse one bucket object at position `i`.
#[verifier::rlimit(100)]
fn parse_features(s: &str, i: usize) -> (r: Option<(ConnectionTypeFeatures, usize)>)
    requires
        i <= s@.len(),
    ensures
        match r {
            Some(p) => i <= p.1 <= s@.len() && spec_parse_features(s@.skip(i as int)) == Some(
                (p.0, s@.skip(p.1 as int)),
            ),
            None => spec_parse_features(s@.skip(i as int)) is None,
        },
{
    let j1 = match eat_tok(s, i, "{\"total_nodes\":") {
        Some(j) => j,
        None => {
            return None;
        },
    };
    let (tn, j2) = match parse_usize(s, j1) {
        Some(p) => p,
        None => {
            return None;
        },
    };
    let j3 = match eat_tok(s, j2, ",\"v2_transport\":") {
        Some(j) => j,
        None => {
            return None;
        },
    };
    let (v2, j4) = match parse_usize(s, j3) {
        Some(p) => p,
        None => {
            return None;
        },
    };
    let j5 = match eat_tok(s, j4, ",\"compact_filters\":") {
        Some(j) => j,
        None => {
            return None;
        },
    };
    let (cf, j6) = match parse_usize(s, j5) {
        Some(p) => p,
        None => {
            return None;
        },
    };
    let j7 = match eat_tok(s, j6, ",\"v2_and_filters\":") {
        Some(j) => j,
        None => {
            return None;
        },
    };
    let (bo, j8) = match parse_usize(s, j7) {
        Some(p) => p,
        None => {
            return None;
        },
    };
    let j9 = match eat_tok(s, j8, "}") {
        Some(j) => j,
        None => {
            return None;
        },
    };
    Some(
        (
            ConnectionTypeFeatures {
                total_nodes: tn,
                v2_transport: v2,
                compact_filters: cf,
                v2_and_filters: bo,
            },
            j9,
        ),
    )
}

/// Parse the seven-bucket object at position `i`.
#[verifier::rlimit(100)]
fn parse_cts(s: &str, i: usize) -> (r: Option<(ConnectionTypeStats, usize)>)
    requires
        i <= s@.len(),
    ensures
        match r {
            Some(p) => i <= p.1 <= s@.len() && spec_parse_cts(s@.skip(i as int)) == Some(
                (p.0, s@.skip(p.1 as int)),
            ),
            None => spec_parse_cts(s@.skip(i as int)) is None,
        },
{
    let j1 = match eat_tok(s, i, "{\"ipv4\":") {
        Some(j) => j,
        None => {
            return None;
        },
    };
    let (ipv4, j2) = match parse_features(s, j1) {
        Some(p) => p,
        None => {
            return None;
        },
    };
    let j3 = match eat_tok(s, j2, ",\"ipv6\":") {
        Some(j) => j,
        None => {
            return None;
        },
    };
    let (ipv6, j4) = match parse_features(s, j3) {
        Some(p) => p,
        None => {
            return None;
        },
    };
    let j5 = match eat_tok(s, j4, ",\"tor_v2\":") {
        Some(j) => j,
        None => {
            return None;
        },
    };
    let (tor_v2, j6) = match parse_features(s, j5) {
        Some(p) => p,
        None => {
            return None;
        },
    };
    let j7 = match eat_tok(s, j6, ",\"tor_v3\":") {
        Some(j) => j,
        None => {
            return None;
        },
    };
    let (tor_v3, j8) = match parse_features(s, j7) {
        Some(p) => p,
        None => {
            return None;
        },
    };
    let j9 = match eat_tok(s, j8, ",\"i2p\":") {
        Some(j) => j,
        None => {
            return None;
        },
    };
    let (i2p, j10) = match parse_features(s, j9) {
        Some(p) => p,
        None => {
            return None;
        },
    };
    let j11 = match eat_tok(s, j10, ",\"cjdns\":") {
        Some(j) => j,
        None => {
            return None;
        },
    };
    let (cjdns, j12) = match parse_features(s, j11) {
        Some(p) => p,
        None => {
            return None;
        },
    };
    let j13 = match eat_tok(s, j12, ",\"unknown\":") {
        Some(j) => j,
        None => {
            return None;
        },
    };
    let (unknown, j14) = match parse_features(s, j13) {
        Some(p) => p,
        None => {
            return None;
        },
    };
    let j15 = match eat_tok(s, j14, "}") {
        Some(j) => j,
        None => {
            return None;
        },
    };
    Some((ConnectionTypeStats { ipv4, ipv6, tor_v2, tor_v3, i2p, cjdns, unknown }, j15))
}

/// Parse the statistics object at position `i`.
#[verifier::rlimit(100)]
fn parse_stats(s: &str, i: usize) -> (r: Option<(FeatureStats, usize)>)
    requires
        i <= s@.len(),
    ensures
        match r {
            Some(p) => i <= p.1 <= s@.len() && spec_parse_stats(s@.skip(i as int)) == Some(
                (p.0, s@.skip(p.1 as int)),
            ),
            None => spec_parse_stats(s@.skip(i as int)) is None,
        },
{
    let j1 = match eat_tok(s, i, "{\"total_nodes\":") {
        Some(j) => j,
        None => {
            return None;
        },
    };
    let (tn, j2) = match parse_usize(s, j1) {
        Some(p) => p,
        None => {
            return None;
        },
    };
    let j3 = match eat_tok(s, j2, ",\"v2_transport\":") {
        Some(j) => j,
        None => {
            return None;
        },
    };
    let (v2, j4) = match parse_usize(s, j3) {
        Some(p) => p,
        None => {
            return None;
        },
    };
    let j5 = match eat_tok(s, j4, ",\"compact_filters\":") {
        Some(j) => j,
        None => {
            return None;
        },
    };
    let (cf, j6) = match parse_usize(s, j5) {
        Some(p) => p,
        None => {
            return None;
        },
    };
    let j7 = match eat_tok(s, j6, ",\"v2_and_filters\":") {
        Some(j) => j,
        None => {
            return None;
        },
    };
    let (bo, j8) = match parse_usize(s, j7) {
        Some(p) => p,
        None => {
            return None;
        },
    };
    let j9 = match eat_tok(s, j8, ",\"connection_types\":") {
        Some(j) => j,
        None => {
            return None;
        },
    };
    let (cts, j10) = match parse_cts(s, j9) {
        Some(p) => p,
        None => {
            return None;
        },
    };
    let j11 = match eat_tok(s, j10, "}") {
        Some(j) => j,
        None => {
            return None;
        },
    };
    Some(
        (
            FeatureStats {
                total_nodes: tn,
                v2_transport: v2,
                compact_filters: cf,
                v2_and_filters: bo,
                connection_types: cts,
            },
            j11,
        ),
    )
}

/// Read a report back from the JSON this library writes: the compact object
/// with its fields in their fixed order. A document written before
/// `total_contacted` existed still reads, with that count as `0`; one final
/// newline may follow the closing brace. Anything else yields `None`.
#[verifier::rlimit(100)]
pub fn from_json(s: &str) -> (r: Option<CensusReport>)
    ensures
        match r {
            Some(rep) => spec_parse_report(s@) == Some(rep@),
            None => spec_parse_report(s@) is None,
        },
{
    let n = s.unicode_len();
    proof {
        assert(s@.skip(0) =~= s@);
    }
    let j1 = match eat_tok(s, 0, "{\"timestamp\":") {
        Some(j) => j,
        None => {
            return None;
        },
    };
    let (ts, j2) = match parse_u64(s, j1) {
        Some(p) => p,
        None => {
            return None;
        },
    };
    let j3 = match eat_tok(s, j2, ",\"duration_seconds\":") {
        Some(j) => j,
        None => {
            return None;
        },
    };
    let (du, j4) = match parse_u64(s, j3) {
        Some(p) => p,
        None => {
            return None;
        },
    };
    let (tc, j5) = match eat_tok(s, j4, ",\"total_contacted\":") {
        Some(jc) => match parse_usize(s, jc) {
            Some(p) => p,
            None => {
                return None;
            },
        },
        None => (0, j4),
    };
    let j6 = match eat_tok(s, j5, ",\"stats\":") {
        Some(j) => j,
        None => {
            return None;
        },
    };
    let (st, j7) = match parse_stats(s, j6) {
        Some(p) => p,
        None => {
            return None;
        },
    };
    let j8 = match eat_tok(s, j7, ",\"census_version\":\"") {
        Some(j) => j,
        None => {
            return None;
        },
    };
    let (ver, j9) = match parse_strbody(s, j8) {
        Some(p) => p,
        None => {
            return None;
        },
    };
    let j10 = match eat_tok(s, j9, "}") {
        Some(j) => j,
        None => {
            return None;
        },
    };
    if j10 == n {
        proof {
            assert(s@.skip(j10 as int).len() == 0);
        }
    } else if j10 + 1 == n && s.get_char(j10) == '\n' {
        proof {
            assert(s@.skip(j10 as int) =~= seq!['\n']);
        }
    } else {
        proof {
            let rem = s@.skip(j10 as int);
            assert(rem.len() >= 1);
            if rem.len() == 1 {
                assert(rem[0] == s@[j10 as int]);
                assert(rem != seq!['\n']) by {
                    assert(seq!['\n'][0] == '\n');
                }
            } else {
                assert(rem.len() != 1);
                assert(rem != seq!['\n']) by {
                    assert(seq!['\n'].len() == 1);
                }
            }
        }
        return None;
    }
    Some(
        CensusReport {
            timestamp: ts,
            duration_seconds: du,
            total_contacted: tc,
            stats: st,
            census_version: ver,
        },
    )
}

/// The document this library wrote before it counted contact attempts: the
/// same object without the `total_contacted` field.
pub open spec fn spec_json_report_legacy(rv: ReportView) -> Seq<char> {
    "{\"timestamp\":"@ + spec_dec(rv.timestamp as nat) + ",\"duration_seconds\":"@ + spec_dec(
        rv.duration_seconds as nat,
    ) + ",\"stats\":"@ + spec_json_stats(rv.stats) + ",\"census_version\":\""@ + spec_esc(
        rv.census_version,
    ) + "\"}"@
}

/// Law: a document that lacks the `total_contacted` field still reads, and
/// the count defaults to zero.
#[verifier::rlimit(100)]
pub proof fn lemma_json_legacy_default(rv: ReportView)
    requires
        rv.total_contacted == 0,
    ensures
        spec_parse_report(spec_json_report_legacy(rv)) == Some(rv),
{
    reveal_strlit("{\"timestamp\":");
    reveal_strlit(",\"duration_seconds\":");
    reveal_strlit(",\"total_contacted\":");
    reveal_strlit(",\"stats\":");
    reveal_strlit(",\"census_version\":\"");
    reveal_strlit("\"}");
    reveal_strlit("}");
    let t1 = "{\"timestamp\":"@;
    let t2 = ",\"duration_seconds\":"@;
    let t3 = ",\"total_contacted\":"@;
    let t4 = ",\"stats\":"@;
    let t5 = ",\"census_version\":\""@;
    let t6 = "}"@;
    let d1 = spec_dec(rv.timestamp as nat);
    let d2 = spec_dec(rv.duration_seconds as nat);
    let e0 = spec_esc(rv.census_version);
    let st0 = spec_json_stats(rv.stats);
    let s12 = Seq::<char>::empty();
    let s11 = t6 + s12;
    let s10 = seq!['"'] + s11;
    let s9 = e0 + s10;
    let s8 = t5 + s9;
    let s7 = st0 + s8;
    let s6 = t4 + s7;
    let s3 = d2 + s6;
    let s2 = t2 + s3;
    let s1 = d1 + s2;
    let a1 = t1 + d1;
    let a2 = a1 + t2;
    let a3 = a2 + d2;
    let a6 = a3 + t4;
    let a7 = a6 + st0;
    let a8 = a7 + t5;
    let a9 = a8 + e0;
    let a10 = a9 + "\"}"@;
    assert(spec_json_report_legacy(rv) == a10);
    assert("\"}"@ =~= seq!['"'] + t6);
    assert(a10 =~= (a9 + seq!['"']) + t6);
    lemma_assoc(a9 + seq!['"'], t6, s12);
    assert(t6 + s12 =~= s11);
    lemma_assoc(a9, seq!['"'], s11);
    lemma_assoc(a8, e0, s10);
    lemma_assoc(a7, t5, s9);
    lemma_assoc(a6, st0, s8);
    lemma_assoc(a3, t4, s7);
    lemma_assoc(a2, d2, s6);
    lemma_assoc(a1, t2, s3);
    lemma_assoc(t1, d1, s2);
    assert(spec_json_report_legacy(rv) == t1 + s1) by {
        assert(a10 + s12 =~= a10);
        assert(spec_json_report_legacy(rv) + s12 =~= spec_json_report_legacy(rv));
    }
    assert(s2.first() == ',');
    assert(s6.first() == ',');
    lemma_field_u64(t1, rv.timestamp, s2);
    lemma_field_u64(t2, rv.duration_seconds, s6);
    assert(spec_eat_tok(s6, t3) is None) by {
        if t3.len() <= s6.len() && s6.take(t3.len() as int) == t3 {
            assert(s6.take(t3.len() as int)[2] == s6[2]);
            assert(s6[2] == t4[2]);
            assert(t4[2] != t3[2]);
        }
    }
    lemma_eat_tok_prefix(t4, s7);
    lemma_stats_roundtrip(rv.stats, s8);
    lemma_eat_tok_prefix(t5, s9);
    lemma_strbody_of_esc(rv.census_version, s11);
    lemma_eat_tok_prefix(t6, s12);
    assert(s12.len() == 0);
}

} // verus!
