//! Resumable HTTP downloads: the decisions behind them, verified.

pub mod answers;
pub mod content_range;
pub mod download;
pub mod entity_tag;
pub mod error;
pub mod fields;
pub mod progress;
pub mod runs;
pub mod text;
pub mod validator;

pub use content_range::unsatisfiable_range_total;
pub use download::{Action, Download, Event, Outcome, Response};
pub use error::Error;
pub use progress::ProgressTracker;
pub use validator::{IfRange, ResumeValidator, Timestamp};
