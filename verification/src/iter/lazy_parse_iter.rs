use crate::enclosed::EnclosedTemplateParser;
use crate::enclosed::Segment;
use crate::enclosed::SegmentModel;
use crate::enclosed::SimpleQuery;
use crate::enclosed::lemma_spec_parse_step_wf;
use crate::enclosed::spec_parse_failure;
use crate::enclosed::spec_segments;
use crate::errors::IntoSkipOrFatal;
use crate::iter::SegmentSource;
use crate::parse::Parse;
use vstd::prelude::*;

verus! {

/// A lazy cursor over a template string: each step parses one segment off the
/// front of the remaining input and advances past it. Nothing is parsed ahead
/// of what is asked for, so a template with a late syntax error still yields
/// the segments before it.
#[derive(Debug, Clone, Copy)]
pub struct LazyParseIter<'a, EscapeParser, QueryParser> {
    pub template: &'a str,
    pub parser: &'a EnclosedTemplateParser<EscapeParser, QueryParser>,
}

impl<'a, EscapeParser, QueryParser> LazyParseIter<'a, EscapeParser, QueryParser> {
    /// A cursor at the start of `template`.
    pub(crate) fn new(
        template: &'a str,
        parser: &'a EnclosedTemplateParser<EscapeParser, QueryParser>,
    ) -> (iter: Self)
        ensures
            iter.template == template,
            iter.parser == parser,
    {
        Self { template, parser }
    }
}

impl<'a, EscapeParser, QueryParser> SegmentSource for LazyParseIter<
    'a,
    EscapeParser,
    QueryParser,
> where
    EscapeParser: Parse<Output = char>,
    QueryParser: Parse<Output = SimpleQuery>,
 {
    type ParseError = crate::enclosed::ParseError<
        <EscapeParser::Error as IntoSkipOrFatal>::Fatal,
        <QueryParser::Error as IntoSkipOrFatal>::Fatal,
    >;

    open spec fn upcoming(&self) -> Seq<SegmentModel> {
        spec_segments(*self.parser, self.template@)
    }

    open spec fn failure(&self) -> Option<Self::ParseError> {
        spec_parse_failure(*self.parser, self.template@)
    }

    fn next_segment(&mut self) -> (r: Option<
        Result<Segment<SimpleQuery>, Self::ParseError>,
    >) {
        if self.template.is_empty() {
            return None;
        }
        match self.parser.parse(self.template) {
            Ok(pair) => {
                proof {
                    lemma_spec_parse_step_wf(*self.parser, self.template@);
                    assert(spec_segments(*self.parser, self.template@) == seq![pair.0@]
                        + spec_segments(*self.parser, pair.1@));
                    assert((seq![pair.0@] + spec_segments(*self.parser, pair.1@)).skip(1)
                        =~= spec_segments(*self.parser, pair.1@));
                }
                self.template = pair.1;
                Some(Ok(pair.0))
            },
            Err(error) => {
                self.template = "";
                proof {
                    reveal_strlit("");
                    assert(self.template@.len() == 0);
                }
                Some(Err(error))
            },
        }
    }
}

} // verus!
