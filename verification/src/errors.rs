//! Error-protocol types shared by all parsing components.

mod skip_or_fatal;

pub use skip_or_fatal::IntoSkipOrFatal;
pub use skip_or_fatal::SkipOrFatal;
