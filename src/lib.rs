//! Lazy resolution of media sources through an external extraction tool.
//!
//! A query (a URL or search terms) becomes a source descriptor. Resolution runs
//! the extractor at most once per descriptor; its records yield cached metadata
//! and a plan for the transport that streams the audio.

pub mod front;
pub mod invoke;
pub mod keys;
pub mod record;
pub mod source;
pub mod text;
pub mod transport;

pub use invoke::{output_lines, split_lines, ExtractionError, Invocation, RunOutcome};
pub use keys::{ConfigContainer, HttpKey, ShardManagerContainer, TrackMetaKey};
pub use record::{collect_records, ExtractionRecord, Metadata, Output, StreamSource, TransportKind};
pub use source::{playlist_invocation, query_playlist, MetadataStep, Phase, QueryType, StreamStep, Ytdl};
pub use transport::{filter_headers, plan_stream, StreamPlan};
