//! Segment streams: the lazy, single-pass cursor over a template string and
//! the eager, reusable container of pre-parsed segments.

mod eager_parse_iter;
mod lazy_parse_iter;
mod segment_iter;

pub use eager_parse_iter::EagerParseIter;
pub use eager_parse_iter::ParsedTemplate;
pub use lazy_parse_iter::LazyParseIter;
pub use segment_iter::SegmentSource;
