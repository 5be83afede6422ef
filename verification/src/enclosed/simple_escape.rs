use crate::enclosed::ComponentParserInput;
use crate::enclosed::ParserConfig;
use crate::errors::IntoSkipOrFatal;
use crate::parse::ComponentOutcome;
use crate::parse::Parse;
use crate::utils::push_char;
use crate::utils::split_first_char;
use vstd::prelude::*;
use vstd::string::StringExecFns;

verus! {

/// A component parser for two-character escape sequences: the configured
/// escape trigger followed by a bracket (which escapes to that literal
/// bracket) or by one of a fixed table of named control characters.
#[derive(Debug, Clone, Copy)]
pub struct SimpleEscapeParser;

/// A fatal failure of [`SimpleEscapeParser`]: the escape trigger was found,
/// but what follows is not an escapable character, or the input ended.
#[derive(Debug, Clone, Copy)]
pub enum ParseError {
    UnexpectedChar(char),
    UnexpectedEndOfInput,
}

impl ParseError {
    /// The error text: the unsupported escape code, or the truncated input.
    pub open spec fn spec_message(self) -> Seq<char> {
        match self {
            ParseError::UnexpectedChar(c) => "Unexpected token '"@ + seq![c] + "'"@,
            ParseError::UnexpectedEndOfInput => "Unexpected end of input"@,
        }
    }

    /// The error text, with the offending character between single quotes.
    pub fn message(&self) -> (r: String)
        ensures
            r@ == self.spec_message(),
    {
        match self {
            ParseError::UnexpectedChar(c) => {
                let mut text = String::from_str("Unexpected token '");
                push_char(&mut text, *c);
                text.append("'");
                proof {
                    assert(text@ =~= "Unexpected token '"@ + seq![*c] + "'"@);
                }
                text
            },
            ParseError::UnexpectedEndOfInput => String::from_str("Unexpected end of input"),
        }
    }
}

/// The fixed table of named control characters: backslash, null, backspace,
/// escape, newline, carriage return and tab.
pub open spec fn spec_special_character(escape_code: char) -> Option<char> {
    match escape_code {
        '\\' => Some('\\'),
        '0' => Some('\0'),
        'b' => Some('\x08'),
        'e' => Some('\x1b'),
        'n' => Some('\n'),
        'r' => Some('\r'),
        't' => Some('\t'),
        _ => None,
    }
}

/// What a valid escape code stands for: a bracket escapes to itself, any
/// other character is looked up in the table of named control characters.
pub open spec fn spec_escape_value(escape_code: char, config: ParserConfig) -> Option<char> {
    if escape_code == config.open_bracket || escape_code == config.close_bracket {
        Some(escape_code)
    } else {
        spec_special_character(escape_code)
    }
}

/// What [`SimpleEscapeParser`] does on given input: skip unless the input
/// starts with the configured escape trigger; then consume exactly two
/// characters and produce the escaped character, or fail fatally on a
/// truncated or unsupported escape sequence. Without a configured trigger it
/// always skips.
pub open spec fn spec_escape_outcome(text: Seq<char>, config: ParserConfig) -> ComponentOutcome<
    char,
    ParseError,
> {
    match config.escape {
        None => ComponentOutcome::Skipped,
        Some(trigger) => {
            if text.len() == 0 || text[0] != trigger {
                ComponentOutcome::Skipped
            } else if text.len() == 1 {
                ComponentOutcome::Failed(ParseError::UnexpectedEndOfInput)
            } else {
                match spec_escape_value(text[1], config) {
                    Some(c) => ComponentOutcome::Parsed(c, 2),
                    None => ComponentOutcome::Failed(ParseError::UnexpectedChar(text[1])),
                }
            }
        },
    }
}

/// A bracket escapes to itself; any other character does not escape here.
fn escape_bracket(escape_code: char, config: ParserConfig) -> (r: Option<char>)
    ensures
        r == (if escape_code == config.open_bracket || escape_code == config.close_bracket {
            Some(escape_code)
        } else {
            Option::<char>::None
        }),
{
    if escape_code == config.open_bracket || escape_code == config.close_bracket {
        Some(escape_code)
    } else {
        None
    }
}

/// Looks the escape code up in the table of named control characters.
fn make_special_character(escape_code: char) -> (r: Option<char>)
    ensures
        r == spec_special_character(escape_code),
{
    match escape_code {
        '\\' => Some('\\'),
        '0' => Some('\0'),
        'b' => Some('\x08'),
        'e' => Some('\x1b'),
        'n' => Some('\n'),
        'r' => Some('\r'),
        't' => Some('\t'),
        _ => None,
    }
}

/// `text` with every occurrence of the two brackets preceded by the escape
/// trigger; all other characters are kept as they are. Without a configured
/// trigger, `text` unchanged.
pub open spec fn spec_escape_brackets(text: Seq<char>, config: ParserConfig) -> Seq<char>
    decreases text.len(),
{
    match config.escape {
        None => text,
        Some(trigger) => {
            if text.len() == 0 {
                text
            } else {
                let head = if text[0] == config.open_bracket || text[0] == config.close_bracket {
                    seq![trigger, text[0]]
                } else {
                    seq![text[0]]
                };
                head + spec_escape_brackets(text.skip(1), config)
            }
        },
    }
}

/// Escapes every bracket of `text`, so that the brackets come out as literal
/// characters when the result is parsed and rendered as a template.
pub fn escape_brackets(text: &str, config: &ParserConfig) -> (r: String)
    ensures
        r@ == spec_escape_brackets(text@, *config),
{
    let trigger = match config.escape {
        None => {
            return text.to_owned();
        },
        Some(trigger) => trigger,
    };
    let text_len = text.unicode_len();
    let mut escaped = String::new();
    let mut i: usize = 0;
    proof {
        assert(text@.skip(0) =~= text@);
    }
    while i < text_len
        invariant
            i <= text_len,
            text_len == text@.len(),
            config.escape == Some(trigger),
            spec_escape_brackets(text@, *config) == escaped@ + spec_escape_brackets(
                text@.skip(i as int),
                *config,
            ),
        decreases text_len - i,
    {
        let c = text.get_char(i);
        proof {
            assert(text@.skip(i as int)[0] == c);
            assert(text@.skip(i as int).skip(1) =~= text@.skip(i + 1));
        }
        let ghost escaped_before = escaped@;
        if c == config.open_bracket || c == config.close_bracket {
            push_char(&mut escaped, trigger);
            push_char(&mut escaped, c);
            proof {
                assert(escaped@ =~= escaped_before + seq![trigger, c]);
                assert(escaped_before + (seq![trigger, c] + spec_escape_brackets(
                    text@.skip(i + 1),
                    *config,
                )) =~= escaped@ + spec_escape_brackets(text@.skip(i + 1), *config));
            }
        } else {
            push_char(&mut escaped, c);
            proof {
                assert(escaped@ =~= escaped_before + seq![c]);
                assert(escaped_before + (seq![c] + spec_escape_brackets(text@.skip(i + 1), *config))
                    =~= escaped@ + spec_escape_brackets(text@.skip(i + 1), *config));
            }
        }
        i += 1;
    }
    proof {
        assert(text@.skip(text_len as int) =~= Seq::<char>::empty());
        assert(escaped@ + spec_escape_brackets(Seq::<char>::empty(), *config) =~= escaped@);
    }
    escaped
}

impl Parse for SimpleEscapeParser {
    type Output = char;

    type Error = Option<ParseError>;

    open spec fn spec_parse(&self, text: Seq<char>, config: ParserConfig) -> ComponentOutcome<
        char,
        ParseError,
    > {
        spec_escape_outcome(text, config)
    }

    proof fn lemma_spec_parse_wf(&self, text: Seq<char>, config: ParserConfig) {
    }

    fn parse<'a>(&self, input: ComponentParserInput<'a>) -> (r: Result<
        (char, &'a str),
        Option<ParseError>,
    >) {
        proof {
            let skip: Option<ParseError> = None;
            assert(skip.spec_into_skip_or_fatal() matches crate::errors::SkipOrFatal::Skip(_));
        }
        let trigger = match input.config.escape {
            None => return Err(None),
            Some(trigger) => trigger,
        };
        let (head, tail) = match split_first_char(input.text) {
            None => return Err(None),
            Some(pair) => pair,
        };
        if head != trigger {
            return Err(None);
        }
        let (escape_code, rest) = match split_first_char(tail) {
            None => return Err(Some(ParseError::UnexpectedEndOfInput)),
            Some(pair) => pair,
        };
        proof {
            assert(escape_code == input.text@[1]);
            assert(rest@ =~= input.text@.skip(2));
        }
        let escaped = match escape_bracket(escape_code, input.config) {
            Some(c) => c,
            None => match make_special_character(escape_code) {
                Some(c) => c,
                None => return Err(Some(ParseError::UnexpectedChar(escape_code))),
            },
        };
        proof {
            assert(spec_escape_outcome(input.text@, input.config) matches ComponentOutcome::Parsed(
                v,
                _consumed,
            ) && escaped == v);
            assert(escaped@ == escaped);
        }
        Ok((escaped, rest))
    }
}

} // verus!
