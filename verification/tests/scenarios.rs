use lazy_template::KeyValueResponder;
use lazy_template::TemplateApplicationError;
use lazy_template::enclosed::{self, simple_query};
use lazy_template::simple_curly_braces;

fn person_responder() -> KeyValueResponder {
    KeyValueResponder::new(vec![
        ("name".to_string(), "Alice".to_string()),
        ("age".to_string(), "20".to_string()),
        ("gender".to_string(), "girl".to_string()),
    ])
}

#[test]
fn interpolates_each_query_in_order() {
    let mut responder = person_responder();
    let system = simple_curly_braces();
    let output = system
        .lazy_parse("{name} is a {age} years old {gender}")
        .to_string(&mut responder)
        .unwrap();
    assert_eq!(output, "Alice is a 20 years old girl");
}

#[test]
fn escaped_brackets_stay_literal() {
    let mut responder = KeyValueResponder::new(vec![("BAR".to_string(), "456".to_string())]);
    let system = simple_curly_braces();
    let output = system
        .lazy_parse(r"foo = \{FOO\}; bar = {BAR}")
        .to_string(&mut responder)
        .unwrap();
    assert_eq!(output, "foo = {FOO}; bar = 456");
}

#[test]
fn stray_close_bracket_stops_lazy_rendering_after_partial_output() {
    let mut responder = person_responder();
    let system = simple_curly_braces();
    let mut output = String::new();
    let error = system
        .lazy_parse("{name} is a {age} years } old {gender})")
        .write_to(&mut output, &mut responder)
        .unwrap_err();
    assert_eq!(output, "Alice is a 20 years ");
    assert_eq!(error.message(), "Fail to parse query: Unexpected token '}'");
    assert!(matches!(
        error,
        TemplateApplicationError::Parse(enclosed::ParseError::ParseQuery(
            simple_query::ParseError::UnexpectedChar('}')
        ))
    ));
}

#[test]
fn unterminated_query_fails_eager_parsing() {
    let system = simple_curly_braces();
    let error = system.eager_parse("Hello, {name!").unwrap_err();
    assert_eq!(error.message(), "Fail to parse query: Unexpected end of input");
    assert!(matches!(
        error,
        enclosed::ParseError::ParseQuery(simple_query::ParseError::UnexpectedEndOfInput)
    ));
}

#[test]
fn responder_is_consulted_once_per_query_in_template_order() {
    let mut responder = KeyValueResponder::new(vec![
        ("a".to_string(), "1".to_string()),
        ("b".to_string(), "2".to_string()),
    ]);
    let system = simple_curly_braces();
    let output = system
        .lazy_parse("{b}{a}{b} and again {b}")
        .to_string(&mut responder)
        .unwrap();
    assert_eq!(output, "212 and again 2");
    assert_eq!(responder.answered, vec!["b", "a", "b", "b"]);
}

#[test]
fn responder_error_stops_rendering_after_partial_output() {
    let mut responder = KeyValueResponder::new(vec![
        ("a".to_string(), "1".to_string()),
        ("b".to_string(), "2".to_string()),
    ]);
    let system = simple_curly_braces();
    let mut output = String::new();
    let error = system
        .lazy_parse("{a}-{missing}-{b}")
        .write_to(&mut output, &mut responder)
        .unwrap_err();
    assert_eq!(output, "1-");
    match error {
        TemplateApplicationError::Query(query) => assert_eq!(query, "missing"),
        _ => panic!("expected a query-phase error"),
    }
}
