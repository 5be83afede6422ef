use lazy_template::KeyValueResponder;
use lazy_template::Respond;
use lazy_template::enclosed::ParserConfig;
use lazy_template::enclosed::Segment;
use lazy_template::enclosed::SegmentDisplay;
use lazy_template::enclosed::escape_brackets;
use lazy_template::split_first_char;
use lazy_template::str_eq;

#[test]
fn curly_brace_config_has_no_escape() {
    let config = ParserConfig::curly_braces();
    assert_eq!(config.open_bracket, '{');
    assert_eq!(config.close_bracket, '}');
    assert!(config.escape.is_none());
}

#[test]
fn with_escape_sets_and_without_escape_clears_the_trigger() {
    let config = ParserConfig::curly_braces().with_escape('\\');
    assert_eq!(config.escape, Some('\\'));
    let config = config.without_escape();
    assert!(config.escape.is_none());
}

#[test]
fn split_first_char_splits_off_the_head() {
    assert_eq!(split_first_char("abc"), Some(('a', "bc")));
    assert_eq!(split_first_char("x"), Some(('x', "")));
    assert_eq!(split_first_char(""), None);
}

#[test]
fn str_eq_compares_by_characters() {
    assert!(str_eq("", ""));
    assert!(str_eq("abc", "abc"));
    assert!(!str_eq("abc", "abd"));
    assert!(!str_eq("abc", "ab"));
}

#[test]
fn eager_segments_expose_their_query_text() {
    let system = lazy_template::simple_curly_braces();
    let parsed = system.eager_parse("a{name}").unwrap();
    assert_eq!(parsed.segments.len(), 2);
    match &parsed.segments[0] {
        Segment::Character(c) => assert_eq!(*c, 'a'),
        Segment::Expression(_) => panic!("expected a literal character"),
    }
    match &parsed.segments[1] {
        Segment::Character(_) => panic!("expected a query"),
        Segment::Expression(query) => assert_eq!(query.as_str(), "name"),
    }
}

#[test]
fn segment_display_prints_characters_and_outputs() {
    let display: SegmentDisplay<String> = SegmentDisplay::Character('x');
    assert_eq!(display.into_text(), "x");
    let display: SegmentDisplay<String> = SegmentDisplay::ExpressionResult("value".to_string());
    assert_eq!(display.into_text(), "value");
}

#[test]
fn escaping_without_a_trigger_changes_nothing() {
    let config = ParserConfig::curly_braces();
    assert_eq!(escape_brackets("{a} and }", &config), "{a} and }");
    let config = config.with_escape('\\');
    assert_eq!(escape_brackets("{a} and }", &config), r"\{a\} and \}");
}

#[test]
fn key_value_responder_answers_the_first_matching_entry() {
    let mut responder = KeyValueResponder::new(vec![
        ("key".to_string(), "first".to_string()),
        ("key".to_string(), "second".to_string()),
    ]);
    assert_eq!(responder.respond("key").unwrap(), "first");
    assert_eq!(responder.respond("lost").unwrap_err(), "lost");
}
