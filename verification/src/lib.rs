//! A streaming feature census for a peer-to-peer network: classifies each
//! observed peer into one of seven connection-type buckets, folds its
//! capability flags into global and per-bucket counters whose sums agree at
//! all times, and renders the result as JSON, newline-delimited JSON, CSV, or
//! a one-line summary.

pub mod csv_text;
pub mod json_text;
pub mod numfmt;
pub mod output;
pub mod report;
pub mod stats;
pub mod summary;

pub use json_text::from_json;
pub use report::handle_event;
pub use report::CensusEvent;
pub use report::CensusReport;
pub use report::ConsumerStep;
pub use report::OutputFormat;
pub use report::ReportView;
pub use stats::classify;
pub use stats::extract_features;
pub use stats::ConnectionType;
pub use stats::ConnectionTypeFeatures;
pub use stats::ConnectionTypeStats;
pub use stats::FeatureStats;
pub use stats::NodeStats;
pub use stats::Peer;
pub use stats::PeerAddress;
pub use stats::PeerServices;
pub use stats::SERVICE_COMPACT_FILTERS;
pub use stats::SERVICE_P2P_V2;
