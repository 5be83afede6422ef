//! A string-interpolation library.
//!
//! A template string mixes literal text with queries enclosed between
//! delimiter characters (by default curly braces, as in `"Hello, {name}!"`).
//! Rendering a template sends each query to a caller-supplied responder and
//! stitches the answers back into the surrounding text.
//!
//! Templates can be parsed lazily (one segment at a time, streaming partial
//! output even when a later segment is malformed) or eagerly (validated once
//! up front, then rendered any number of times with different responders).

pub mod enclosed;
pub mod iter;

mod errors;
mod laws;
mod parse;
mod render;
mod respond;
mod shorthands;
mod system;
mod template;
mod utils;

pub use errors::IntoSkipOrFatal;
pub use errors::SkipOrFatal;
pub use laws::SimpleParser;
pub use laws::lemma_eager_render_repeatable;
pub use laws::lemma_escape_round_trip;
pub use laws::lemma_lazy_eager_render_agree;
pub use laws::lemma_plain_text_renders_unchanged;
pub use parse::ComponentOutcome;
pub use parse::Parse;
pub use parse::outcome_wf;
pub use render::Sink;
pub use render::lemma_spec_render_congruence;
pub use render::lemma_spec_render_error_stable;
pub use render::lemma_spec_render_snoc;
pub use render::spec_render;
pub use respond::KeyValueResponder;
pub use respond::Respond;
pub use respond::spec_lookup;
pub use shorthands::simple_curly_braces;
pub use system::IntoTemplateSystem;
pub use system::TemplateSystem;
pub use template::Template;
pub use template::TemplateApplicationError;
pub use utils::split_first_char;
pub use utils::str_eq;
