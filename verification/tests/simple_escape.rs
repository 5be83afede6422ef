use lazy_template::IntoTemplateSystem;
use lazy_template::KeyValueResponder;
use lazy_template::TemplateApplicationError;
use lazy_template::enclosed::Parser;
use lazy_template::enclosed::SimpleEscapeParser;
use lazy_template::enclosed::SimpleQueryParser;
use lazy_template::enclosed::{self, simple_escape};

fn number_responder() -> KeyValueResponder {
    KeyValueResponder::new(vec![
        ("foo".to_string(), "123".to_string()),
        ("bar".to_string(), "456".to_string()),
    ])
}

#[test]
fn make_special_characters() {
    let mut responder = KeyValueResponder::new(vec![]);
    let system = Parser::curly_braces()
        .with_escape_parser(SimpleEscapeParser)
        .with_query_parser(SimpleQueryParser)
        .into_template_system();
    let actual = system
        .lazy_parse(r"special characters: \\, \0, \b, \e, \n, \r, \t")
        .to_string(&mut responder)
        .unwrap();
    let expected = "special characters: \\, \0, \u{8}, \u{1b}, \n, \r, \t";
    assert_eq!(actual, expected);
}

#[test]
fn escape_curly_braces() {
    let mut responder = number_responder();
    let system = Parser::curly_braces()
        .with_escape_parser(SimpleEscapeParser)
        .with_query_parser(SimpleQueryParser)
        .into_template_system();
    let actual = system
        .lazy_parse(r"\{foo\} is {foo}, \{bar\} is {bar}")
        .to_string(&mut responder)
        .unwrap();
    let expected = "{foo} is 123, {bar} is 456";
    assert_eq!(actual, expected);
}

#[test]
fn reject_invalid_escapes() {
    let mut responder = number_responder();
    let system = Parser::curly_braces()
        .with_escape_parser(SimpleEscapeParser)
        .with_query_parser(SimpleQueryParser)
        .into_template_system();
    let error = system
        .lazy_parse(r"foo {foo} b\ar {bar}")
        .to_string(&mut responder)
        .unwrap_err();
    let expected_message = "Fail to escape: Unexpected token 'a'";
    assert_eq!(error.message(), expected_message);
    assert!(matches!(
        error,
        TemplateApplicationError::Parse(enclosed::ParseError::ParseEscape(
            simple_escape::ParseError::UnexpectedChar('a')
        ))
    ));
}

#[test]
fn reject_unexpected_end_of_input() {
    let mut responder = number_responder();
    let system = Parser::curly_braces()
        .with_escape_parser(SimpleEscapeParser)
        .with_query_parser(SimpleQueryParser)
        .into_template_system();
    let error = system
        .lazy_parse(r"foo {foo} bar {bar}\")
        .to_string(&mut responder)
        .unwrap_err();
    let expected_message = "Fail to escape: Unexpected end of input";
    assert_eq!(error.message(), expected_message);
    assert!(matches!(
        error,
        TemplateApplicationError::Parse(enclosed::ParseError::ParseEscape(
            simple_escape::ParseError::UnexpectedEndOfInput,
        )),
    ));
}
