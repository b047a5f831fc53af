//! A structured-tracing ingest pipeline: captured span and event records
//! are translated into attribute key/value pairs for a remote timeline
//! store, with key interning, a timeline residency cache, and a clean
//! shutdown protocol.
//!
//! The library holds the verified logic of the pipeline: field capture,
//! attribute handlers, record translation, timeline binding and the
//! least-recently-used residency cache. The surrounding process glue
//! (the tracing facade callbacks, the network session, channels and
//! tasks) lives outside and drives this logic.

pub mod assoc;
pub mod attr_bag;
pub mod attr_handlers;
pub mod common;
pub mod fields;
pub mod ids;
pub mod ingest;
pub mod interner;
pub mod keys;
pub mod laws;
pub mod layer;
pub mod options;
pub mod span_names;
pub mod timeline_lru;
pub mod types;

pub use common::InitError;
pub use common::UserTimelineInfo;
pub use ids::timeline_id;
pub use ingest::IngestError;
pub use options::Options;
pub use types::TimelineId;
