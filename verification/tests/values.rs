use slog_logfmt::decimal::{signed_decimal, unsigned_decimal};
use slog_logfmt::{
    all_can_skip_quoting, can_skip_quoting, default_prefix, optionally_quote, wrap_in_quotes,
    Field, Level, Logfmt, Record, Value,
};

fn one_field(value: Value, force_quotes: bool) -> String {
    let builder = Logfmt::new().no_prefix();
    let builder = if force_quotes { builder.force_quotes() } else { builder };
    let record = Record::new(Level::Info, "", "", vec![Field::new("k", value)]);
    builder.build().log(&record, &[])
}

#[test]
fn unsigned_decimal_matches_std() {
    assert_eq!(unsigned_decimal(0), "0");
    assert_eq!(unsigned_decimal(7), "7");
    assert_eq!(unsigned_decimal(10), "10");
    assert_eq!(unsigned_decimal(1_000_000), "1000000");
    assert_eq!(unsigned_decimal(u64::MAX as u128), u64::MAX.to_string());
    assert_eq!(unsigned_decimal(u128::MAX), "340282366920938463463374607431768211455");
    for n in [1u128, 9, 11, 99, 100, 101, 12345678901234567890] {
        assert_eq!(unsigned_decimal(n), n.to_string());
    }
}

#[test]
fn signed_decimal_matches_std() {
    assert_eq!(signed_decimal(0), "0");
    assert_eq!(signed_decimal(-1), "-1");
    assert_eq!(signed_decimal(-10), "-10");
    assert_eq!(signed_decimal(42), "42");
    assert_eq!(signed_decimal(i128::MAX), "170141183460469231731687303715884105727");
    assert_eq!(signed_decimal(i128::MIN), "-170141183460469231731687303715884105728");
    for n in [i64::MIN as i128, i64::MAX as i128, -99, -100, 1234567] {
        assert_eq!(signed_decimal(n), n.to_string());
    }
}

#[test]
fn every_integer_width_renders_in_decimal() {
    assert_eq!(Value::U8(u8::MAX).render(), "255");
    assert_eq!(Value::U16(u16::MAX).render(), "65535");
    assert_eq!(Value::U32(u32::MAX).render(), "4294967295");
    assert_eq!(Value::U64(u64::MAX).render(), "18446744073709551615");
    assert_eq!(Value::U128(u128::MAX).render(), u128::MAX.to_string());
    assert_eq!(Value::Usize(usize::MAX).render(), usize::MAX.to_string());
    assert_eq!(Value::I8(i8::MIN).render(), "-128");
    assert_eq!(Value::I16(i16::MIN).render(), "-32768");
    assert_eq!(Value::I32(i32::MIN).render(), "-2147483648");
    assert_eq!(Value::I64(i64::MIN).render(), "-9223372036854775808");
    assert_eq!(Value::I128(i128::MIN).render(), i128::MIN.to_string());
    assert_eq!(Value::Isize(isize::MIN).render(), isize::MIN.to_string());
}

#[test]
fn other_kinds_render_to_their_canonical_text() {
    assert_eq!(Value::Bool(true).render(), "true");
    assert_eq!(Value::Bool(false).render(), "false");
    assert_eq!(Value::Char('x').render(), "x");
    assert_eq!(Value::Char('é').render(), "é");
    assert_eq!(Value::Float(1.5f64.to_string()).render(), "1.5");
    assert_eq!(Value::Str("a b".to_string()).render(), "a b");
    assert_eq!(Value::Unit.render(), "()");
    assert_eq!(Value::Absent.render(), "None");
    assert_eq!(Value::Arguments(format!("{}-{}", 1, 2)).render(), "1-2");
}

#[test]
fn numbers_and_booleans_are_never_quoted() {
    for force in [false, true] {
        assert_eq!(one_field(Value::U8(0), force), "k=0\n");
        assert_eq!(one_field(Value::I64(-17), force), "k=-17\n");
        assert_eq!(one_field(Value::U128(u128::MAX), force), format!("k={}\n", u128::MAX));
        assert_eq!(one_field(Value::Bool(true), force), "k=true\n");
        assert_eq!(one_field(Value::Bool(false), force), "k=false\n");
        assert_eq!(one_field(Value::Float((-2.25f64).to_string()), force), "k=-2.25\n");
        assert_eq!(one_field(Value::Absent, force), "k=None\n");
    }
}

#[test]
fn unit_and_characters_are_never_quoted() {
    for force in [false, true] {
        assert_eq!(one_field(Value::Unit, force), "k=()\n");
        assert_eq!(one_field(Value::Char('x'), force), "k=x\n");
        assert_eq!(one_field(Value::Char(' '), force), "k= \n");
        assert_eq!(one_field(Value::Char('"'), force), "k=\"\n");
    }
}

#[test]
fn strings_and_messages_pass_the_quoting_policy() {
    assert_eq!(one_field(Value::Str("a.b".to_string()), false), "k=a.b\n");
    assert_eq!(one_field(Value::Str("a.b".to_string()), true), "k=\"a.b\"\n");
    assert_eq!(one_field(Value::Str("()".to_string()), false), "k=\"()\"\n");
    assert_eq!(one_field(Value::Str("12".to_string()), false), "k=12\n");
    assert_eq!(one_field(Value::Str("12".to_string()), true), "k=\"12\"\n");
    assert_eq!(one_field(Value::Arguments("a=b".to_string()), false), "k=\"a=b\"\n");
    assert_eq!(one_field(Value::Arguments("a.b".to_string()), false), "k=a.b\n");
    assert_eq!(one_field(Value::Arguments("a.b".to_string()), true), "k=\"a.b\"\n");
}

#[test]
fn encode_quotes_texts_alone() {
    assert_eq!(Value::Str("two words".to_string()).encode(false), "\"two words\"");
    assert_eq!(Value::Arguments("word".to_string()).encode(true), "\"word\"");
    assert_eq!(Value::Arguments("word".to_string()).encode(false), "word");
    assert_eq!(Value::I16(-5).encode(true), "-5");
    assert_eq!(Value::Unit.encode(false), "()");
    assert_eq!(Value::Char('\n').encode(true), "\n");
}

#[test]
fn empty_string_stands_bare() {
    assert_eq!(optionally_quote("", false), "");
    assert_eq!(optionally_quote("", true), "\"\"");
    assert_eq!(one_field(Value::Str(String::new()), false), "k=\n");
    assert_eq!(one_field(Value::Str(String::new()), true), "k=\"\"\n");
}

#[test]
fn the_unquoted_safe_set() {
    for ch in "abcxyzABCXYZ0123456789-._/@^+".chars() {
        assert!(can_skip_quoting(ch), "{:?}", ch);
    }
    for ch in " \t\n\"'\\=,:;!#$%&()*<>?[]`{|}~\u{0}\u{7f}éß中".chars() {
        assert!(!can_skip_quoting(ch), "{:?}", ch);
    }
    assert!(all_can_skip_quoting(""));
    assert!(all_can_skip_quoting("/var/log/app.log"));
    assert!(!all_can_skip_quoting("two words"));
    assert!(!all_can_skip_quoting("naïve"));
}

#[test]
fn escapes_are_debug_style() {
    assert_eq!(optionally_quote("a\"b", false), "\"a\\\"b\"");
    assert_eq!(optionally_quote("tab\there", false), "\"tab\\there\"");
    assert_eq!(optionally_quote("line\nfeed\r", false), "\"line\\nfeed\\r\"");
    assert_eq!(optionally_quote("back\\slash", false), "\"back\\\\slash\"");
    assert_eq!(optionally_quote("it's", false), "\"it\\'s\"");
    assert_eq!(optionally_quote("\u{1}", false), "\"\\u{1}\"");
    assert_eq!(optionally_quote("naïve", false), "\"naïve\"");
}

#[test]
fn quotes_wrap_what_they_are_given() {
    assert_eq!(wrap_in_quotes(""), "\"\"");
    assert_eq!(wrap_in_quotes("a\\\"b"), "\"a\\\"b\"");
}

#[test]
fn a_quoted_value_holds_no_raw_line_terminator() {
    let line = one_field(Value::Str("a\nb\r\nc".to_string()), false);
    assert_eq!(line, "k=\"a\\nb\\r\\nc\"\n");
    assert_eq!(line.matches('\n').count(), 1);
    assert!(!line.contains('\r'));
}

#[test]
fn level_codes() {
    let codes = [
        (Level::Critical, slog::Level::Critical, "CRIT"),
        (Level::Error, slog::Level::Error, "ERRO"),
        (Level::Warning, slog::Level::Warning, "WARN"),
        (Level::Info, slog::Level::Info, "INFO"),
        (Level::Debug, slog::Level::Debug, "DEBG"),
        (Level::Trace, slog::Level::Trace, "TRCE"),
    ];
    for (level, slog_level, code) in codes {
        let record = Record::new(level, "m", "", vec![]);
        assert_eq!(default_prefix(&record), format!("{} | m\t", code));
        assert_eq!(slog_level.as_short_str(), code);
    }
}

#[test]
fn the_level_field_holds_the_code() {
    let formatter = Logfmt::new().no_prefix().print_level(true).build();
    for (level, code) in [(Level::Error, "ERRO"), (Level::Trace, "TRCE")] {
        let record = Record::new(level, "", "", vec![]);
        assert_eq!(formatter.log(&record, &[]), format!("level={}\n", code));
    }
}

#[test]
fn default_prefix_with_and_without_tag() {
    let tagged = Record::new(Level::Info, "started up", "boot", vec![]);
    assert_eq!(default_prefix(&tagged), "INFO | #boot\tstarted up\t");
    let bare = Record::new(Level::Info, "started up", "", vec![]);
    assert_eq!(default_prefix(&bare), "INFO | started up\t");
}

#[test]
fn the_prefix_is_not_quoted() {
    let record = Record::new(Level::Error, "it's \"broken\"", "a b", vec![]);
    assert_eq!(default_prefix(&record), "ERRO | #a b\tit's \"broken\"\t");
}

#[test]
fn keys_are_written_as_they_are() {
    let record = Record::new(
        Level::Info,
        "",
        "",
        vec![Field::new("my key", Value::U8(1)), Field::new("é", Value::U8(2))],
    );
    assert_eq!(Logfmt::new().no_prefix().build().log(&record, &[]), "my key=1 é=2\n");
}
