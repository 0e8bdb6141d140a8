use vstd::prelude::*;

use crate::stats::FeatureStats;
use crate::stats::NodeStats;
use crate::stats::Peer;

verus! {

/// The version tag written into every report.
pub open spec fn spec_census_version() -> Seq<char> {
    "0.1.0"@
}

/// The version tag written into every report, as a fresh `String`.
pub fn census_version() -> (s: String)
    ensures
        s@ == spec_census_version(),
{
    String::from_str("0.1.0")
}

/// The output renderings a census run can be asked for.
#[derive(Clone, Copy, Debug, PartialEq, Eq, Structural)]
pub enum OutputFormat {
    Json,
    Jsonl,
    Csv,
}

/// An immutable snapshot of one census run: the capture instant, the elapsed
/// duration, the contact count, a copy of the feature statistics, and the
/// version tag of the software that took it.
#[derive(Clone, Debug)]
pub struct CensusReport {
    /// When the census was taken (seconds since the epoch).
    pub timestamp: u64,
    /// Duration of the census in seconds.
    pub duration_seconds: u64,
    /// Total number of peers contacted (listening and non-listening).
    pub total_contacted: usize,
    /// Feature statistics.
    pub stats: FeatureStats,
    /// Version of the census software.
    pub census_version: String,
}

/// The mathematical value of a report: its counters and the characters of
/// its version tag.
pub struct ReportView {
    pub timestamp: u64,
    pub duration_seconds: u64,
    pub total_contacted: usize,
    pub stats: FeatureStats,
    pub census_version: Seq<char>,
}

impl View for CensusReport {
    type V = ReportView;

    open spec fn view(&self) -> ReportView {
        ReportView {
            timestamp: self.timestamp,
            duration_seconds: self.duration_seconds,
            total_contacted: self.total_contacted,
            stats: self.stats,
            census_version: self.census_version@,
        }
    }
}

impl CensusReport {
    /// The snapshot's counters cohere across both granularities.
    pub open spec fn wf(self) -> bool {
        self.stats.wf()
    }

    /// Decide at run time whether this snapshot's counters cohere, so that
    /// an unverified caller can test `wf` before rendering.
    pub fn is_coherent(&self) -> (r: bool)
        ensures
            r == self.wf(),
    {
        self.stats.is_coherent()
    }

    /// Snapshot the accumulator at instant `now` (seconds since the epoch):
    /// a pure copy of the counters and run metadata, stamped with `now` and
    /// the version tag. The accumulator is only read.
    pub fn from_stats(node_stats: &NodeStats, now: u64) -> (r: CensusReport)
        ensures
            r.timestamp == now,
            r.duration_seconds == node_stats.duration_seconds,
            r.total_contacted == node_stats.total_contacted,
            r.stats == node_stats.features,
            r.census_version@ == spec_census_version(),
    {
        CensusReport {
            timestamp: now,
            duration_seconds: node_stats.duration(),
            total_contacted: node_stats.total_contacted(),
            stats: node_stats.features,
            census_version: census_version(),
        }
    }
}

/// One event the stream consumer can see.
pub enum CensusEvent {
    /// A contact attempt found a listening peer.
    Listening(Peer),
    /// A contact attempt ended without a listening peer.
    NonListening,
    /// The observation stream closed; no more observations will come.
    Closed,
    /// The periodic progress timer fired. Carries the elapsed wall time of
    /// the run and the current instant (both in seconds).
    Tick { elapsed_seconds: u64, now: u64 },
}

/// What the caller must do after one consumer step.
pub enum ConsumerStep {
    /// Keep waiting on the next event.
    Continue,
    /// Log this progress snapshot, then keep waiting.
    EmitProgress(CensusReport),
    /// The stream is exhausted: record the final duration, snapshot once
    /// more, and write the final report.
    Finished,
}

/// One step of the stream consumer: fold a single event into the accumulator
/// and say what to do next.
///
/// A listening observation counts one contact and one node; a non-listening
/// observation counts the contact alone; a tick refreshes the duration and
/// snapshots a progress report without touching any counter; closure of the
/// stream changes nothing and ends the run. Observations never reorder:
/// each call folds exactly the event it was handed.
pub fn handle_event(stats: &mut NodeStats, event: CensusEvent) -> (step: ConsumerStep)
    requires
        old(stats).wf(),
        event matches CensusEvent::Listening(_) ==> old(stats).features.total_nodes
            < usize::MAX && old(stats).total_contacted < usize::MAX,
        event matches CensusEvent::NonListening ==> old(stats).total_contacted < usize::MAX,
    ensures
        final(stats).wf(),
        match event {
            CensusEvent::Listening(peer) => {
                &&& final(stats).features == old(stats).features.spec_added(peer)
                &&& final(stats).total_contacted == old(stats).total_contacted + 1
                &&& final(stats).duration_seconds == old(stats).duration_seconds
                &&& step matches ConsumerStep::Continue
            },
            CensusEvent::NonListening => {
                &&& final(stats).features == old(stats).features
                &&& final(stats).total_contacted == old(stats).total_contacted + 1
                &&& final(stats).duration_seconds == old(stats).duration_seconds
                &&& step matches ConsumerStep::Continue
            },
            CensusEvent::Closed => {
                &&& *final(stats) == *old(stats)
                &&& step matches ConsumerStep::Finished
            },
            CensusEvent::Tick { elapsed_seconds, now } => {
                &&& final(stats).features == old(stats).features
                &&& final(stats).total_contacted == old(stats).total_contacted
                &&& final(stats).duration_seconds == elapsed_seconds
                &&& (step matches ConsumerStep::EmitProgress(r) && r.timestamp == now
                    && r.duration_seconds == elapsed_seconds
                    && r.total_contacted == final(stats).total_contacted
                    && r.stats == final(stats).features
                    && r.census_version@ == spec_census_version())
            },
        },
{
    match event {
        CensusEvent::Listening(peer) => {
            stats.increment_contacted();
            stats.add_node(peer);
            ConsumerStep::Continue
        },
        CensusEvent::NonListening => {
            stats.increment_contacted();
            ConsumerStep::Continue
        },
        CensusEvent::Closed => ConsumerStep::Finished,
        CensusEvent::Tick { elapsed_seconds, now } => {
            stats.set_duration(elapsed_seconds);
            let report = CensusReport::from_stats(stats, now);
            ConsumerStep::EmitProgress(report)
        },
    }
}

} // verus!
