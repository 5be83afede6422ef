use lazy_template::KeyValueResponder;
use lazy_template::TemplateApplicationError;
use lazy_template::enclosed::escape_brackets;
use lazy_template::simple_curly_braces;

#[test]
fn plain_text_renders_unchanged() {
    let mut responder = KeyValueResponder::new(vec![("anything".to_string(), "whatever".to_string())]);
    let system = simple_curly_braces();
    let text = "plain text: no delimiters, no triggers!";
    let output = system.lazy_parse(text).to_string(&mut responder).unwrap();
    assert_eq!(output, text);
}

#[test]
fn lazy_and_eager_rendering_agree() {
    let system = simple_curly_braces();
    let text = r"{name} is {age}; \{name\} is not";
    let mut lazy_responder = KeyValueResponder::new(vec![
        ("name".to_string(), "Bob".to_string()),
        ("age".to_string(), "32".to_string()),
    ]);
    let mut eager_responder = KeyValueResponder::new(vec![
        ("name".to_string(), "Bob".to_string()),
        ("age".to_string(), "32".to_string()),
    ]);
    let lazy_output = system.lazy_parse(text).to_string(&mut lazy_responder).unwrap();
    let parsed = system.eager_parse(text).unwrap();
    let eager_output = parsed
        .to_template()
        .to_string(&mut eager_responder)
        .unwrap();
    assert_eq!(lazy_output, eager_output);
    assert_eq!(lazy_output, "Bob is 32; {name} is not");
}

#[test]
fn eager_template_renders_the_same_twice() {
    let system = simple_curly_braces();
    let parsed = system.eager_parse("Hello, {name}!").unwrap();
    let mut responder = KeyValueResponder::new(vec![("name".to_string(), "Alice".to_string())]);
    let first = parsed.to_template().to_string(&mut responder).unwrap();
    let second = parsed.to_template().to_string(&mut responder).unwrap();
    assert_eq!(first, second);
    assert_eq!(first, "Hello, Alice!");
}

#[test]
fn eager_template_renders_with_different_responders() {
    let system = simple_curly_braces();
    let parsed = system.eager_parse("Hello, {name}!").unwrap();
    let mut alice = KeyValueResponder::new(vec![("name".to_string(), "Alice".to_string())]);
    let mut bob = KeyValueResponder::new(vec![("name".to_string(), "Bob".to_string())]);
    assert_eq!(
        parsed.to_template().to_string(&mut alice).unwrap(),
        "Hello, Alice!"
    );
    assert_eq!(
        parsed.to_template().to_string(&mut bob).unwrap(),
        "Hello, Bob!"
    );
}

#[test]
fn escaping_brackets_round_trips() {
    let mut responder = KeyValueResponder::new(vec![]);
    let system = simple_curly_braces();
    // "{a} and {b}" with each bracket escaped by hand
    let escaped = r"\{a\} and \{b\}";
    let output = system.lazy_parse(escaped).to_string(&mut responder).unwrap();
    assert_eq!(output, "{a} and {b}");
    // the same through escape_brackets, on text with stray brackets and tabs
    let text = "{}} weird {{ text\twith brackets }";
    let escaped = escape_brackets(text, &system.parser.config);
    assert_eq!(escaped, "\\{\\}\\} weird \\{\\{ text\twith brackets \\}");
    let output = system
        .lazy_parse(escaped.as_str())
        .to_string(&mut responder)
        .unwrap();
    assert_eq!(output, text);
}

#[test]
fn empty_template_renders_empty() {
    let mut responder = KeyValueResponder::new(vec![]);
    let system = simple_curly_braces();
    let output = system.lazy_parse("").to_string(&mut responder).unwrap();
    assert_eq!(output, "");
    let parsed = system.eager_parse("").unwrap();
    let output = parsed.to_template().to_string(&mut responder).unwrap();
    assert_eq!(output, "");
}

#[test]
fn empty_query_is_sent_to_the_responder() {
    let mut responder = KeyValueResponder::new(vec![("".to_string(), "void".to_string())]);
    let system = simple_curly_braces();
    let output = system.lazy_parse("a{}b").to_string(&mut responder).unwrap();
    assert_eq!(output, "avoidb");
}

#[test]
fn write_error_message_names_the_phase() {
    let error: TemplateApplicationError<
        lazy_template::enclosed::ParseError<
            lazy_template::enclosed::simple_escape::ParseError,
            lazy_template::enclosed::simple_query::ParseError,
        >,
        String,
        (),
    > = TemplateApplicationError::Write(());
    assert_eq!(error.message(), "Fail to write output");
    let error: TemplateApplicationError<
        lazy_template::enclosed::ParseError<
            lazy_template::enclosed::simple_escape::ParseError,
            lazy_template::enclosed::simple_query::ParseError,
        >,
        String,
        (),
    > = TemplateApplicationError::Query("nope".to_string());
    assert_eq!(error.message(), "Fail to respond to query");
}
