use crate::enclosed::ParserConfig;
use crate::enclosed::Parser;
use crate::enclosed::SimpleEnclosedTemplateSystem;
use crate::enclosed::SimpleEscapeParser;
use crate::enclosed::SimpleQueryParser;
use crate::system::IntoTemplateSystem;
use vstd::prelude::*;

verus! {

/// Creates the default template system of string interpolation: queries are
/// enclosed in curly braces, and backslash escapes the braces and a fixed
/// table of named control characters.
pub fn simple_curly_braces() -> (system: SimpleEnclosedTemplateSystem)
    ensures
        system.parser.config == (ParserConfig {
            open_bracket: '{',
            close_bracket: '}',
            escape: Some('\\'),
        }),
        system.parser.config.wf(),
{
    Parser::curly_braces().with_escape_parser(SimpleEscapeParser).with_query_parser(
        SimpleQueryParser,
    ).into_template_system()
}

} // verus!
