use crate::enclosed::EnclosedTemplateParser;
use crate::enclosed::ParseError;
use crate::enclosed::Segment;
use crate::enclosed::SimpleQuery;
use crate::enclosed::spec_parse_all;
use crate::enclosed::spec_parse_failure;
use crate::enclosed::spec_segments;
use crate::errors::IntoSkipOrFatal;
use crate::iter::LazyParseIter;
use crate::iter::ParsedTemplate;
use crate::iter::SegmentSource;
use crate::parse::Parse;
use crate::template::Template;
use vstd::prelude::*;

verus! {

/// A parser packaged as a template system: the entry point for parsing
/// template strings lazily or eagerly.
#[derive(Debug, Clone, Copy)]
pub struct TemplateSystem<Parser> {
    pub parser: Parser,
}

impl<Parser> TemplateSystem<Parser> {
    /// Wraps a parser.
    pub fn new(parser: Parser) -> (system: Self)
        ensures
            system.parser == parser,
    {
        TemplateSystem { parser }
    }
}

impl<EscapeParser, QueryParser> TemplateSystem<
    EnclosedTemplateParser<EscapeParser, QueryParser>,
> where
    EscapeParser: Parse<Output = char>,
    QueryParser: Parse<Output = SimpleQuery>,
 {
    /// Creates a rendering session that parses `text` one segment at a time.
    /// Rendering such a session can produce partial output before a syntax
    /// error late in the template is even looked at.
    pub fn lazy_parse<'a>(&'a self, text: &'a str) -> (template: Template<
        LazyParseIter<'a, EscapeParser, QueryParser>,
    >)
        ensures
            template.iter.upcoming() == spec_segments(self.parser, text@),
            template.iter.failure() == spec_parse_failure(self.parser, text@),
    {
        Template::new(LazyParseIter::new(text, &self.parser))
    }

    /// Parses the whole of `text` ahead of time: all its segments, or the
    /// first fatal parse error with everything parsed so far discarded. The
    /// parsed template can be rendered repeatedly with different responders.
    pub fn eager_parse<'a>(&'a self, text: &'a str) -> (r: Result<
        ParsedTemplate,
        ParseError<
            <EscapeParser::Error as IntoSkipOrFatal>::Fatal,
            <QueryParser::Error as IntoSkipOrFatal>::Fatal,
        >,
    >)
        ensures
            match spec_parse_all(self.parser, text@) {
                Ok(segments) => r matches Ok(parsed) && parsed@ == segments,
                Err(error) => r matches Err(e) && e == error,
            },
    {
        let mut iter = LazyParseIter::new(text, &self.parser);
        let mut segments: Vec<Segment<SimpleQuery>> = Vec::new();
        proof {
            assert(segments@.map_values(|segment: Segment<SimpleQuery>| segment@)
                + iter.upcoming() =~= spec_segments(self.parser, text@));
        }
        loop
            invariant
                segments@.map_values(|segment: Segment<SimpleQuery>| segment@) + iter.upcoming()
                    == spec_segments(self.parser, text@),
                iter.failure() == spec_parse_failure(self.parser, text@),
            decreases iter.upcoming().len(),
        {
            let ghost upcoming_before = iter.upcoming();
            match iter.next_segment() {
                None => {
                    proof {
                        assert(segments@.map_values(|segment: Segment<SimpleQuery>| segment@)
                            =~= spec_segments(self.parser, text@));
                    }
                    return Ok(ParsedTemplate::new(segments));
                },
                Some(Err(error)) => {
                    return Err(error);
                },
                Some(Ok(segment)) => {
                    let ghost before = segments@;
                    segments.push(segment);
                    proof {
                        assert(segments@.map_values(|s: Segment<SimpleQuery>| s@)
                            =~= before.map_values(|s: Segment<SimpleQuery>| s@).push(segment@));
                        assert(before.map_values(|s: Segment<SimpleQuery>| s@).push(segment@)
                            + upcoming_before.skip(1) =~= before.map_values(
                            |s: Segment<SimpleQuery>| s@,
                        ) + upcoming_before);
                    }
                },
            }
        }
    }
}

/// Converts a parser into a [`TemplateSystem`].
pub trait IntoTemplateSystem: Sized {
    /// Wraps this parser in a template system.
    fn into_template_system(self) -> (system: TemplateSystem<Self>)
        ensures
            system.parser == self,
    {
        TemplateSystem::new(self)
    }
}

impl<Parser> IntoTemplateSystem for Parser {

}

} // verus!
