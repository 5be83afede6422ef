use crate::enclosed::EnclosedTemplateParser;
use crate::enclosed::SimpleEscapeParser;
use crate::enclosed::SimpleQueryParser;
use crate::system::TemplateSystem;
use vstd::prelude::*;

verus! {

/// The template system of the two reference components: escape sequences and
/// bracket-enclosed queries.
pub type SimpleEnclosedTemplateSystem = TemplateSystem<
    EnclosedTemplateParser<SimpleEscapeParser, SimpleQueryParser>,
>;

} // verus!
