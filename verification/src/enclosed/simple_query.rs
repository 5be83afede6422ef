use crate::enclosed::ComponentParserInput;
use crate::enclosed::ParserConfig;
use crate::errors::IntoSkipOrFatal;
use crate::errors::SkipOrFatal;
use crate::parse::ComponentOutcome;
use crate::parse::Parse;
use crate::utils::push_char;
use crate::utils::split_first_char;
use vstd::prelude::*;
use vstd::string::StrSliceExecFns;
use vstd::string::StringExecFns;

verus! {

/// A component parser for queries: an opening bracket, the query text (which
/// may not contain the closing bracket), and a closing bracket.
#[derive(Debug, Clone, Copy)]
pub struct SimpleQueryParser;

/// The raw text between the delimiters of a parsed query. The parser performs
/// no validation, trimming or interpretation of this text.
#[derive(Debug)]
pub struct SimpleQuery(String);

impl View for SimpleQuery {
    type V = Seq<char>;

    closed spec fn view(&self) -> Seq<char> {
        self.0@
    }
}

impl SimpleQuery {
    /// Wraps query text.
    pub(crate) fn new(text: String) -> (q: Self)
        ensures
            q@ == text@,
    {
        SimpleQuery(text)
    }

    /// The query text.
    pub fn as_str(&self) -> (r: &str)
        ensures
            r@ == self@,
    {
        self.0.as_str()
    }

    /// An owned copy holding the same query text.
    pub fn duplicate(&self) -> (q: Self)
        ensures
            q@ == self@,
    {
        SimpleQuery(self.0.clone())
    }
}

/// A fatal failure of [`SimpleQueryParser`]: the input starts with a stray
/// closing bracket, or an opening bracket is never closed.
#[derive(Debug, Clone, Copy)]
pub enum ParseError {
    UnexpectedChar(char),
    UnexpectedEndOfInput,
}

impl ParseError {
    /// The error text: the stray character, or the missing closing bracket.
    pub open spec fn spec_message(self) -> Seq<char> {
        match self {
            ParseError::UnexpectedChar(c) => "Unexpected token '"@ + seq![c] + "'"@,
            ParseError::UnexpectedEndOfInput => "Unexpected end of input"@,
        }
    }

    /// The error text, with the offending character between single quotes.
    pub fn message(&self) -> (r: String)
        ensures
            r@ == self.spec_message(),
    {
        match self {
            ParseError::UnexpectedChar(c) => {
                let mut text = String::from_str("Unexpected token '");
                push_char(&mut text, *c);
                text.append("'");
                proof {
                    assert(text@ =~= "Unexpected token '"@ + seq![*c] + "'"@);
                }
                text
            },
            ParseError::UnexpectedEndOfInput => String::from_str("Unexpected end of input"),
        }
    }
}

/// Index of the first occurrence of `needle` in `text`, if any.
pub open spec fn spec_find(text: Seq<char>, needle: char) -> Option<int>
    decreases text.len(),
{
    if text.len() == 0 {
        None
    } else if text[0] == needle {
        Some(0)
    } else {
        match spec_find(text.skip(1), needle) {
            Some(i) => Some(i + 1),
            None => None,
        }
    }
}

/// `spec_find` returns the index of the first occurrence of `needle`, or
/// `None` when `needle` does not occur.
pub proof fn lemma_spec_find(text: Seq<char>, needle: char)
    ensures
        match spec_find(text, needle) {
            Some(i) => 0 <= i < text.len() && text[i] == needle && (forall|j: int|
                0 <= j < i ==> text[j] != needle),
            None => forall|j: int| 0 <= j < text.len() ==> text[j] != needle,
        },
    decreases text.len(),
{
    if text.len() > 0 && text[0] != needle {
        lemma_spec_find(text.skip(1), needle);
        assert forall|j: int| 1 <= j < text.len() implies text[j] == text.skip(1)[j - 1] by {}
    }
}

/// What [`SimpleQueryParser`] does on given input: skip unless the input
/// starts with the opening bracket; then produce the text strictly between
/// the brackets and consume through the closing bracket. A leading stray
/// closing bracket, or an opening bracket with no closing bracket anywhere
/// after it, is fatal.
pub open spec fn spec_query_outcome(text: Seq<char>, config: ParserConfig) -> ComponentOutcome<
    Seq<char>,
    ParseError,
> {
    if text.len() == 0 {
        ComponentOutcome::Skipped
    } else if text[0] == config.close_bracket {
        ComponentOutcome::Failed(ParseError::UnexpectedChar(text[0]))
    } else if text[0] != config.open_bracket {
        ComponentOutcome::Skipped
    } else {
        match spec_find(text.skip(1), config.close_bracket) {
            Some(i) => ComponentOutcome::Parsed(text.skip(1).take(i), i + 2),
            None => ComponentOutcome::Failed(ParseError::UnexpectedEndOfInput),
        }
    }
}

impl Parse for SimpleQueryParser {
    type Output = SimpleQuery;

    type Error = SkipOrFatal<(), ParseError>;

    open spec fn spec_parse(&self, text: Seq<char>, config: ParserConfig) -> ComponentOutcome<
        Seq<char>,
        ParseError,
    > {
        spec_query_outcome(text, config)
    }

    proof fn lemma_spec_parse_wf(&self, text: Seq<char>, config: ParserConfig) {
        if text.len() > 0 && text[0] != config.close_bracket && text[0] == config.open_bracket {
            lemma_spec_find(text.skip(1), config.close_bracket);
        }
    }

    fn parse<'a>(&self, input: ComponentParserInput<'a>) -> (r: Result<
        (SimpleQuery, &'a str),
        SkipOrFatal<(), ParseError>,
    >) {
        proof {
            assert(forall|e: SkipOrFatal<(), ParseError>|
                #[trigger] e.spec_into_skip_or_fatal() == e);
        }
        let (head, tail) = match split_first_char(input.text) {
            None => return Err(SkipOrFatal::Skip(())),
            Some(pair) => pair,
        };
        if head == input.config.close_bracket {
            return Err(SkipOrFatal::Fatal(ParseError::UnexpectedChar(head)));
        }
        if head != input.config.open_bracket {
            return Err(SkipOrFatal::Skip(()));
        }
        let tail_len = tail.unicode_len();
        let mut i: usize = 0;
        while i < tail_len
            invariant
                i <= tail_len,
                tail_len == tail@.len(),
                tail@ == input.text@.skip(1),
                input.text@.len() == tail_len + 1,
                input.text@[0] == input.config.open_bracket,
                input.config.open_bracket != input.config.close_bracket,
                forall|j: int| 0 <= j < i ==> tail@[j] != input.config.close_bracket,
            decreases tail_len - i,
        {
            if tail.get_char(i) == input.config.close_bracket {
                let query_text = tail.substring_char(0, i);
                let rest = tail.substring_char(i + 1, tail_len);
                proof {
                    lemma_spec_find(tail@, input.config.close_bracket);
                    assert(spec_find(tail@, input.config.close_bracket) == Some(i as int)) by {
                        match spec_find(tail@, input.config.close_bracket) {
                            Some(k) => {
                                if k < i {
                                    assert(tail@[k] == input.config.close_bracket);
                                } else if k > i {
                                    assert(tail@[i as int] != input.config.close_bracket);
                                }
                            },
                            None => {
                                assert(tail@[i as int] != input.config.close_bracket);
                            },
                        }
                    }
                    assert(query_text@ =~= input.text@.skip(1).take(i as int));
                    assert(rest@ =~= input.text@.skip(i + 2));
                }
                return Ok((SimpleQuery::new(query_text.to_owned()), rest));
            }
            i += 1;
        }
        proof {
            lemma_spec_find(tail@, input.config.close_bracket);
            assert(spec_find(tail@, input.config.close_bracket) is None) by {
                match spec_find(tail@, input.config.close_bracket) {
                    Some(k) => {
                        assert(tail@[k] == input.config.close_bracket);
                    },
                    None => {},
                }
            }
        }
        Err(SkipOrFatal::Fatal(ParseError::UnexpectedEndOfInput))
    }
}

} // verus!
