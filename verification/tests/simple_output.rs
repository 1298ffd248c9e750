use core::fmt;
use core::fmt::Write;
use slog_logfmt::{Field, Level, Logfmt, Record, Redaction, Value};

struct DebugRepr(char, usize);

impl fmt::Debug for DebugRepr {
    fn fmt(&self, f: &mut fmt::Formatter<'_>) -> fmt::Result {
        for _ in 0..self.1 {
            f.write_char(self.0)?;
        }
        Ok(())
    }
}

fn debug_value(repr: DebugRepr) -> Value {
    Value::Arguments(format!("{:?}", repr))
}

fn logger_values() -> Vec<Field> {
    vec![Field::new("logger", Value::Str("tests".to_string()))]
}

#[test]
fn write_stuff() {
    let formatter = Logfmt::new().build();
    let record = Record::new(
        Level::Debug,
        "hi there",
        "testing_tag",
        vec![
            Field::new("double_quotes", debug_value(DebugRepr('"', 3))),
            Field::new("single_quotes", debug_value(DebugRepr('\'', 2))),
            Field::new("backslashes", debug_value(DebugRepr('\\', 2))),
        ],
    );

    assert_eq!(
        formatter.log(&record, &logger_values()),
        "DEBG | #testing_tag\thi there\tlogger=tests double_quotes=\"\\\"\\\"\\\"\" single_quotes=\"\\\'\\\'\" backslashes=\"\\\\\\\\\"\n"
    );
}

#[test]
fn force_quotes() {
    let formatter = Logfmt::new().force_quotes().build();
    let record = Record::new(
        Level::Debug,
        "hi there",
        "testing_tag",
        vec![Field::new("foo", Value::Str("bar'baz\"".to_string()))],
    );

    assert_eq!(
        formatter.log(&record, &logger_values()),
        "DEBG | #testing_tag\thi there\tlogger=\"tests\" foo=\"bar\\'baz\\\"\"\n"
    );
}

#[test]
fn prefixed_stuff() {
    let formatter = Logfmt::new()
        .set_prefix(|rec: &Record| {
            let mut out = String::from("[");
            for field in &rec.kv {
                out.push_str(&field.value.render());
            }
            out.push_str("] ");
            out
        })
        .build();
    let record = Record::new(
        Level::Debug,
        "hi there",
        "tag",
        vec![Field::new("foo", Value::Str("9029292".to_string()))],
    );

    assert_eq!(
        formatter.log(&record, &logger_values()),
        "[9029292] logger=tests foo=9029292\n"
    );
}

#[test]
fn redactions() {
    let formatter = Logfmt::new()
        .redact(|key: &str| match key {
            "foo" => Redaction::Skip,
            "secret" => Redaction::Redact(|_val: &Value| "***".to_string()),
            _ => Redaction::Plain,
        })
        .build();
    let record = Record::new(
        Level::Debug,
        "hi there",
        "tag",
        vec![
            Field::new("secret", Value::I32(900)),
            Field::new("foo", Value::Str("9029292".to_string())),
        ],
    );

    assert_eq!(
        formatter.log(&record, &logger_values()),
        "DEBG | #tag\thi there\tlogger=tests secret=\"***\"\n"
    );
}

fn format_one(value: Value, force_quotes: bool) -> String {
    let builder = Logfmt::new().no_prefix().print_level(false);
    let builder = if force_quotes { builder.force_quotes() } else { builder };
    let record = Record::new(Level::Debug, "", "", vec![Field::new("f", value)]);
    builder.build().log(&record, &[])
}

fn string(text: &str) -> Value {
    Value::Str(text.to_string())
}

#[test]
fn field_formatting_with_quoting_a_plain_string() {
    assert_eq!(format_one(string(r#"foo"#), true).trim_end(), r#"f="foo""#);
}

#[test]
fn field_formatting_with_quoting_something_that_looks_like_a_field() {
    assert_eq!(format_one(string(r#"hi="there""#), true).trim_end(), r#"f="hi=\"there\"""#);
}

#[test]
fn field_formatting_with_quoting_spaces_and_quotes() {
    assert_eq!(format_one(string(r#" "hi" "#), true).trim_end(), r#"f=" \"hi\" ""#);
}

#[test]
fn field_formatting_with_quoting_pathname() {
    assert_eq!(format_one(string(r#"/foo/bar/baz"#), true).trim_end(), r#"f="/foo/bar/baz""#);
}

#[test]
fn field_formatting_with_quoting_i128() {
    assert_eq!(format_one(Value::I128(2_i128), true).trim_end(), r#"f=2"#);
}

#[test]
fn field_formatting_with_quoting_u64() {
    assert_eq!(format_one(Value::U64(12_u64), true).trim_end(), r#"f=12"#);
}

#[test]
fn field_formatting_with_quoting_i64() {
    assert_eq!(format_one(Value::I64(12_i64), true).trim_end(), r#"f=12"#);
}

#[test]
fn field_formatting_without_quoting_a_plain_string() {
    assert_eq!(format_one(string(r#"foo"#), false).trim_end(), r#"f=foo"#);
}

#[test]
fn field_formatting_without_quoting_something_that_looks_like_a_field() {
    assert_eq!(format_one(string(r#"hi="there""#), false).trim_end(), r#"f="hi=\"there\"""#);
}

#[test]
fn field_formatting_without_quoting_spaces_and_quotes() {
    assert_eq!(format_one(string(r#" "hi" "#), false).trim_end(), r#"f=" \"hi\" ""#);
}

#[test]
fn field_formatting_without_quoting_pathname() {
    assert_eq!(format_one(string(r#"/foo/bar/baz"#), false).trim_end(), r#"f=/foo/bar/baz"#);
}

#[test]
fn field_formatting_without_quoting_i128() {
    assert_eq!(format_one(Value::I128(2_i128), false).trim_end(), r#"f=2"#);
}

#[test]
fn field_formatting_without_quoting_u64() {
    assert_eq!(format_one(Value::U64(12_u64), false).trim_end(), r#"f=12"#);
}

#[test]
fn field_formatting_without_quoting_i64() {
    assert_eq!(format_one(Value::I64(12_i64), false).trim_end(), r#"f=12"#);
}
