use crate::enclosed::ComponentParserInput;
use crate::enclosed::ParserConfig;
use crate::enclosed::Segment;
use crate::enclosed::SegmentModel;
use crate::errors::IntoSkipOrFatal;
use crate::parse::ComponentOutcome;
use crate::parse::Parse;
use crate::utils::push_char;
use crate::utils::split_first_char;
use vstd::pervasive::arbitrary;
use vstd::prelude::*;
use vstd::string::StringExecFns;

verus! {

/// Parses a template string whose queries are placed between an opening
/// bracket character and a closing bracket character, such as curly braces.
///
/// At each position it tries the escape parser, then the query parser, then
/// falls back to consuming one literal character, using the skip-or-fatal
/// protocol to decide between the alternatives.
#[derive(Debug, Clone, Copy)]
pub struct EnclosedTemplateParser<EscapeParser, QueryParser> {
    pub config: ParserConfig,
    pub escape_parser: EscapeParser,
    pub query_parser: QueryParser,
}

pub type Parser<EscapeParser, QueryParser> = EnclosedTemplateParser<EscapeParser, QueryParser>;

impl<EscapeParser, QueryParser> Parser<EscapeParser, QueryParser> {
    /// Replaces [`Parser::config`].
    pub fn with_config(self, config: ParserConfig) -> (parser: Self)
        ensures
            parser == (Parser { config, ..self }),
    {
        Parser { config, ..self }
    }

    /// Replaces [`Parser::escape_parser`].
    pub fn with_escape_parser<NewEscapeParser>(self, escape_parser: NewEscapeParser) -> (parser:
        Parser<NewEscapeParser, QueryParser>)
        ensures
            parser.config == self.config,
            parser.escape_parser == escape_parser,
            parser.query_parser == self.query_parser,
    {
        let Parser { config, query_parser, escape_parser: _ } = self;
        Parser { config, escape_parser, query_parser }
    }

    /// Replaces [`Parser::query_parser`].
    pub fn with_query_parser<NewQueryParser>(self, query_parser: NewQueryParser) -> (parser:
        Parser<EscapeParser, NewQueryParser>)
        ensures
            parser.config == self.config,
            parser.escape_parser == self.escape_parser,
            parser.query_parser == query_parser,
    {
        let Parser { config, escape_parser, query_parser: _ } = self;
        Parser { config, escape_parser, query_parser }
    }
}

impl Parser<(), ()> {
    /// A builder of a parser of templates whose queries are placed between
    /// curly braces, with backslash as the escape trigger. The escape parser
    /// and the query parser must be supplied before the value is useful.
    pub fn curly_braces() -> (parser: Self)
        ensures
            parser.config == (ParserConfig {
                open_bracket: '{',
                close_bracket: '}',
                escape: Some('\\'),
            }),
            parser.config.wf(),
    {
        Parser {
            config: ParserConfig::curly_braces().with_escape('\\'),
            escape_parser: (),
            query_parser: (),
        }
    }
}

/// Error of one parse step of [`EnclosedTemplateParser`]: an unmatched
/// closing bracket, input that ended where a segment was expected, or a fatal
/// error of one of the two component parsers.
#[derive(Debug, Clone, Copy)]
pub enum ParseError<ParseEscapeError, ParseQueryError> {
    UnexpectedChar(char),
    UnexpectedEndOfInput,
    ParseEscape(ParseEscapeError),
    ParseQuery(ParseQueryError),
}

impl ParseError<
    crate::enclosed::simple_escape::ParseError,
    crate::enclosed::simple_query::ParseError,
> {
    /// The error text of a parse step over the two reference components,
    /// naming the component that failed.
    pub open spec fn spec_message(self) -> Seq<char> {
        match self {
            ParseError::UnexpectedChar(c) => "Unexpected token '"@ + seq![c] + "'"@,
            ParseError::UnexpectedEndOfInput => "Unexpected end of input"@,
            ParseError::ParseEscape(e) => "Fail to escape: "@ + e.spec_message(),
            ParseError::ParseQuery(e) => "Fail to parse query: "@ + e.spec_message(),
        }
    }

    /// The error text, with the offending character between single quotes.
    pub fn message(&self) -> (r: String)
        ensures
            r@ == self.spec_message(),
    {
        match self {
            ParseError::UnexpectedChar(c) => {
                let mut text = String::from_str("Unexpected token '");
                push_char(&mut text, *c);
                text.append("'");
                proof {
                    assert(text@ =~= "Unexpected token '"@ + seq![*c] + "'"@);
                }
                text
            },
            ParseError::UnexpectedEndOfInput => String::from_str("Unexpected end of input"),
            ParseError::ParseEscape(e) => {
                let mut text = String::from_str("Fail to escape: ");
                let inner = e.message();
                text.append(inner.as_str());
                text
            },
            ParseError::ParseQuery(e) => {
                let mut text = String::from_str("Fail to parse query: ");
                let inner = e.message();
                text.append(inner.as_str());
                text
            },
        }
    }
}

/// One step of the top-level parser on the remaining input: try the escape
/// component, then the query component, then take one literal character; a
/// fatal error of a component aborts, and a leading closing bracket or empty
/// input is an error of the step itself.
pub open spec fn spec_parse_step<EscapeParser, QueryParser>(
    parser: EnclosedTemplateParser<EscapeParser, QueryParser>,
    text: Seq<char>,
) -> Result<
    (SegmentModel, Seq<char>),
    ParseError<
        <EscapeParser::Error as IntoSkipOrFatal>::Fatal,
        <QueryParser::Error as IntoSkipOrFatal>::Fatal,
    >,
> where
    EscapeParser: Parse<Output = char>,
    QueryParser: Parse,
    QueryParser::Output: View<V = Seq<char>>,
{
    match parser.escape_parser.spec_parse(text, parser.config) {
        ComponentOutcome::Failed(fatal) => Err(ParseError::ParseEscape(fatal)),
        ComponentOutcome::Parsed(escaped, consumed) => Ok(
            (SegmentModel::Character(escaped), text.skip(consumed)),
        ),
        ComponentOutcome::Skipped => match parser.query_parser.spec_parse(text, parser.config) {
            ComponentOutcome::Failed(fatal) => Err(ParseError::ParseQuery(fatal)),
            ComponentOutcome::Parsed(query, consumed) => Ok(
                (SegmentModel::Expression(query), text.skip(consumed)),
            ),
            ComponentOutcome::Skipped => {
                if text.len() == 0 {
                    Err(ParseError::UnexpectedEndOfInput)
                } else if text[0] == parser.config.close_bracket {
                    Err(ParseError::UnexpectedChar(text[0]))
                } else {
                    Ok((SegmentModel::Character(text[0]), text.skip(1)))
                }
            },
        },
    }
}

/// A successful parse step leaves a strict suffix of the input.
pub proof fn lemma_spec_parse_step_wf<EscapeParser, QueryParser>(
    parser: EnclosedTemplateParser<EscapeParser, QueryParser>,
    text: Seq<char>,
) where
    EscapeParser: Parse<Output = char>,
    QueryParser: Parse,
    QueryParser::Output: View<V = Seq<char>>,

    ensures
        spec_parse_step(parser, text) matches Ok(step) ==> step.1.len() < text.len(),
{
    parser.escape_parser.lemma_spec_parse_wf(text, parser.config);
    parser.query_parser.lemma_spec_parse_wf(text, parser.config);
}

/// The segments that step-wise parsing yields from the front of `text`,
/// up to the first fatal error or the end of the input.
pub open spec fn spec_segments<EscapeParser, QueryParser>(
    parser: EnclosedTemplateParser<EscapeParser, QueryParser>,
    text: Seq<char>,
) -> Seq<SegmentModel> where
    EscapeParser: Parse<Output = char>,
    QueryParser: Parse,
    QueryParser::Output: View<V = Seq<char>>,

    decreases text.len(),
{
    if text.len() == 0 {
        Seq::empty()
    } else {
        match spec_parse_step(parser, text) {
            Err(_) => Seq::empty(),
            Ok(step) => {
                if step.1.len() < text.len() {
                    seq![step.0] + spec_segments(parser, step.1)
                } else {
                    arbitrary()
                }
            },
        }
    }
}

/// The fatal error that ends step-wise parsing of `text`, or `None` when
/// parsing reaches the end of the input.
pub open spec fn spec_parse_failure<EscapeParser, QueryParser>(
    parser: EnclosedTemplateParser<EscapeParser, QueryParser>,
    text: Seq<char>,
) -> Option<
    ParseError<
        <EscapeParser::Error as IntoSkipOrFatal>::Fatal,
        <QueryParser::Error as IntoSkipOrFatal>::Fatal,
    >,
> where
    EscapeParser: Parse<Output = char>,
    QueryParser: Parse,
    QueryParser::Output: View<V = Seq<char>>,

    decreases text.len(),
{
    if text.len() == 0 {
        None
    } else {
        match spec_parse_step(parser, text) {
            Err(error) => Some(error),
            Ok(step) => {
                if step.1.len() < text.len() {
                    spec_parse_failure(parser, step.1)
                } else {
                    arbitrary()
                }
            },
        }
    }
}

/// Parsing `text` to completion: all its segments, or the first fatal error.
pub open spec fn spec_parse_all<EscapeParser, QueryParser>(
    parser: EnclosedTemplateParser<EscapeParser, QueryParser>,
    text: Seq<char>,
) -> Result<
    Seq<SegmentModel>,
    ParseError<
        <EscapeParser::Error as IntoSkipOrFatal>::Fatal,
        <QueryParser::Error as IntoSkipOrFatal>::Fatal,
    >,
> where
    EscapeParser: Parse<Output = char>,
    QueryParser: Parse,
    QueryParser::Output: View<V = Seq<char>>,
{
    match spec_parse_failure(parser, text) {
        Some(error) => Err(error),
        None => Ok(spec_segments(parser, text)),
    }
}

impl<EscapeParser, QueryParser> EnclosedTemplateParser<EscapeParser, QueryParser> where
    EscapeParser: Parse<Output = char>,
    QueryParser: Parse,
    QueryParser::Output: View<V = Seq<char>>,
 {
    /// Parses one segment off the front of the remaining input, returning the
    /// segment and the unconsumed suffix, or the error that aborts the parse.
    pub fn parse<'a>(&self, text: &'a str) -> (r: Result<
        (Segment<QueryParser::Output>, &'a str),
        ParseError<
            <EscapeParser::Error as IntoSkipOrFatal>::Fatal,
            <QueryParser::Error as IntoSkipOrFatal>::Fatal,
        >,
    >)
        ensures
            match spec_parse_step(*self, text@) {
                Ok(step) => r matches Ok(pair) && pair.0@ == step.0 && pair.1@ == step.1,
                Err(error) => r matches Err(e) && e == error,
            },
    {
        let input = ComponentParserInput { text, config: self.config };

        match self.escape_parser.parse_as_component(input) {
            Err(fatal) => {
                return Err(ParseError::ParseEscape(fatal));
            },
            Ok(Some(pair)) => {
                proof {
                    assert(pair.0@ == pair.0);
                }
                return Ok((Segment::Character(pair.0), pair.1));
            },
            Ok(None) => {},
        }

        match self.query_parser.parse_as_component(input) {
            Err(fatal) => {
                return Err(ParseError::ParseQuery(fatal));
            },
            Ok(Some(pair)) => {
                return Ok((Segment::Expression(pair.0), pair.1));
            },
            Ok(None) => {},
        }

        let (head, tail) = match split_first_char(text) {
            None => return Err(ParseError::UnexpectedEndOfInput),
            Some(pair) => pair,
        };

        if head == self.config.close_bracket {
            return Err(ParseError::UnexpectedChar(head));
        }

        Ok((Segment::Character(head), tail))
    }
}

} // verus!
