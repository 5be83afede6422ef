//! Templates whose queries are enclosed between an opening bracket character
//! and a closing bracket character, such as curly braces.

mod config;
mod parser;
mod segment;
mod simple_template_system;

pub mod simple_escape;
pub mod simple_query;

pub use config::ComponentParserInput;
pub use config::ParserConfig;
pub use parser::EnclosedTemplateParser;
pub use parser::ParseError;
pub use parser::Parser;
pub use parser::lemma_spec_parse_step_wf;
pub use parser::spec_parse_all;
pub use parser::spec_parse_failure;
pub use parser::spec_parse_step;
pub use parser::spec_segments;
pub use segment::Segment;
pub use segment::SegmentDisplay;
pub use segment::SegmentModel;
pub use segment::spec_render_segment;
pub use simple_escape::SimpleEscapeParser;
pub use simple_escape::escape_brackets;
pub use simple_escape::spec_escape_brackets;
pub use simple_query::SimpleQuery;
pub use simple_query::SimpleQueryParser;
pub use simple_template_system::SimpleEnclosedTemplateSystem;
