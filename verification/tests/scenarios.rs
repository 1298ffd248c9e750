use slog_logfmt::{Field, Level, Logfmt, Record, Redaction, Value};

fn string(text: &str) -> Value {
    Value::Str(text.to_string())
}

fn tagged_event() -> Record {
    Record::new(
        Level::Debug,
        "hi there",
        "testing_tag",
        vec![Field::new("foo", string("bar'baz\""))],
    )
}

#[test]
fn default_config_quotes_a_value_with_quote_characters() {
    let line = Logfmt::new().build().log(&tagged_event(), &[]);
    assert_eq!(line, "DEBG | #testing_tag\thi there\tfoo=\"bar\\'baz\\\"\"\n");
}

#[test]
fn forced_quotes_with_a_logger_field() {
    let logger = vec![Field::new("logger", string("tests"))];
    let line = Logfmt::new().force_quotes().build().log(&tagged_event(), &logger);
    assert_eq!(
        line,
        "DEBG | #testing_tag\thi there\tlogger=\"tests\" foo=\"bar\\'baz\\\"\"\n"
    );
}

#[test]
fn redacted_secret_and_skipped_foo() {
    let formatter = Logfmt::new()
        .redact(|key: &str| match key {
            "secret" => Redaction::Redact(|_value: &Value| "***".to_string()),
            "foo" => Redaction::Skip,
            _ => Redaction::Plain,
        })
        .build();
    let record = Record::new(
        Level::Info,
        "msg",
        "",
        vec![
            Field::new("foo", string("visible?")),
            Field::new("secret", Value::I32(900)),
            Field::new("other", Value::I32(1)),
        ],
    );
    let line = formatter.log(&record, &[]);
    assert!(line.contains("secret=\"***\""));
    assert!(!line.contains("foo="));
    assert!(!line.contains("900"));
    assert_eq!(line, "INFO | msg\tsecret=\"***\" other=1\n");
}

#[test]
fn no_prefix_integer_field() {
    let record = Record::new(Level::Debug, "", "", vec![Field::new("f", Value::I32(12))]);
    let bare = Logfmt::new().no_prefix().build().log(&record, &[]);
    assert_eq!(bare, "f=12\n");
    let forced = Logfmt::new().no_prefix().force_quotes().build().log(&record, &[]);
    assert_eq!(forced, "f=12\n");
}

#[test]
fn empty_tag_leaves_marker_and_tab_out() {
    let record = Record::new(Level::Warning, "disk is full", "", vec![]);
    let line = Logfmt::new().build().log(&record, &[]);
    assert_eq!(line, "WARN | disk is full\t\n");
}
