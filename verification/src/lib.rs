//! Line-oriented text normalization: a rule-driven evaluator (trim,
//! ASCII uppercase, drop-empty, deduplicate), a batch stream driver with
//! run statistics, and a session/buffer boundary that hands transformed
//! lines out as owned, zero-terminated byte blocks.

pub mod boundary;
pub mod dedup;
pub mod profile;
pub mod stream;
pub mod transform;

pub use boundary::AstraSession;
pub use dedup::Deduplicator;
pub use profile::AstraProfile;
pub use profile::TransformProfile;
pub use stream::IoError;
pub use stream::Stats;
pub use stream::process_stream;
pub use transform::transform_line;
