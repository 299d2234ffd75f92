//! Tests of the declarative-binding parsing chain: the argument splitter,
//! the literal parser, the argument-list parser, and field-binding
//! assembly.

use mirror_config::bindings::ConfigFieldInfo;
use mirror_config::parse_attr_args;
use mirror_config::parse_value_str;
use mirror_config::split_arguments;
use mirror_config::AttributeArgument;
use mirror_config::LiteralToken;

fn split(s: &str) -> Vec<String> {
    split_arguments(&s.to_string()).expect("split should succeed")
}

#[test]
fn split_plain_list() {
    assert_eq!(split("a,b,c"), vec!["a".to_string(), "b".to_string(), "c".to_string()]);
}

#[test]
fn split_empty_input_yields_no_tokens() {
    assert_eq!(split(""), Vec::<String>::new());
}

#[test]
fn split_skips_leading_whitespace_only() {
    assert_eq!(split(" a , b "), vec!["a ".to_string(), "b ".to_string()]);
}

#[test]
fn split_keeps_empty_tokens_between_commas() {
    assert_eq!(split("a,,b"), vec!["a".to_string(), "".to_string(), "b".to_string()]);
}

#[test]
fn split_trailing_comma_emits_no_empty_token() {
    assert_eq!(split("a,"), vec!["a".to_string()]);
}

#[test]
fn split_comma_inside_parentheses_does_not_split() {
    assert_eq!(split("a=(1,2), b=3"), vec!["a=(1,2)".to_string(), "b=3".to_string()]);
}

#[test]
fn split_comma_inside_brackets_and_braces() {
    assert_eq!(split("x=[1,2],y={3,4}"), vec!["x=[1,2]".to_string(), "y={3,4}".to_string()]);
}

#[test]
fn split_bracket_scope_tracks_only_the_matching_closer() {
    // Inside `(...)` only `)` ends the scope: another opener of a
    // different kind is copied verbatim and needs no closer of its own.
    assert_eq!(split("a=(1,[2),3"), vec!["a=(1,[2)".to_string(), "3".to_string()]);
    // An opener of the same kind inside the scope is not counted either:
    // the first closer ends the scope.
    assert_eq!(split("((),x"), vec!["(()".to_string(), "x".to_string()]);
}

#[test]
fn split_quotes_are_not_special() {
    // Documented limitation: a comma inside a quoted literal still splits.
    assert_eq!(split("a=\"x,y\""), vec!["a=\"x".to_string(), "y\"".to_string()]);
}

#[test]
fn split_unterminated_bracket_is_illegal() {
    let r = split_arguments(&"a=(1,2".to_string());
    assert_eq!(r.unwrap_err(), "Illegal argument \"(a=(1,2)\".");
}

#[test]
fn parse_integer_literal() {
    assert_eq!(parse_value_str("123").unwrap(), LiteralToken::IntegerLiteral(123));
    assert_eq!(parse_value_str("+5").unwrap(), LiteralToken::IntegerLiteral(5));
    assert_eq!(parse_value_str("-7").unwrap(), LiteralToken::IntegerLiteral(-7));
    assert_eq!(parse_value_str("0").unwrap(), LiteralToken::IntegerLiteral(0));
}

#[test]
fn parse_extreme_integer_literals() {
    assert_eq!(
        parse_value_str("9223372036854775807").unwrap(),
        LiteralToken::IntegerLiteral(i64::MAX)
    );
    assert_eq!(
        parse_value_str("-9223372036854775808").unwrap(),
        LiteralToken::IntegerLiteral(i64::MIN)
    );
}

#[test]
fn parse_string_literal() {
    assert_eq!(
        parse_value_str("\"hello\"").unwrap(),
        LiteralToken::StringLiteral("hello".to_string())
    );
    // The integer grammar demands the whole token be digits, so a quoted
    // number is a string.
    assert_eq!(
        parse_value_str("\"123\"").unwrap(),
        LiteralToken::StringLiteral("123".to_string())
    );
}

#[test]
fn parse_unsupported_format_names_the_token() {
    assert_eq!(parse_value_str("abc").unwrap_err(), "Unsupported format \"abc\".");
    assert_eq!(parse_value_str("1.5").unwrap_err(), "Unsupported format \"1.5\".");
    assert_eq!(parse_value_str("+").unwrap_err(), "Unsupported format \"+\".");
    // Out of the signed 64-bit range matches neither grammar.
    assert_eq!(
        parse_value_str("99999999999999999999").unwrap_err(),
        "Unsupported format \"99999999999999999999\"."
    );
}

#[test]
fn attr_args_empty_input() {
    assert_eq!(parse_attr_args("").unwrap(), Vec::<AttributeArgument>::new());
}

#[test]
fn attr_args_keyed_entry() {
    let args = parse_attr_args("(key = \"log_path\")").unwrap();
    assert_eq!(args.len(), 1);
    assert_eq!(args[0].key, Some("key".to_string()));
    assert_eq!(args[0].value, LiteralToken::StringLiteral("log_path".to_string()));
}

#[test]
fn attr_args_mixed_entries() {
    let args = parse_attr_args("(a=1, 2, _b3 = \"x\")").unwrap();
    assert_eq!(args.len(), 3);
    assert_eq!(args[0].key, Some("a".to_string()));
    assert_eq!(args[0].value, LiteralToken::IntegerLiteral(1));
    assert_eq!(args[1].key, None);
    assert_eq!(args[1].value, LiteralToken::IntegerLiteral(2));
    assert_eq!(args[2].key, Some("_b3".to_string()));
    assert_eq!(args[2].value, LiteralToken::StringLiteral("x".to_string()));
}

#[test]
fn attr_args_without_parentheses_is_illegal() {
    assert_eq!(parse_attr_args("key = 1").unwrap_err(), "Illegal argument \"key = 1\".");
}

#[test]
fn attr_args_unterminated_bracket_propagates() {
    assert_eq!(parse_attr_args("(a=[1)").unwrap_err(), "Illegal argument \"(a=[1)\".");
}

#[test]
fn attr_args_bad_literal_propagates() {
    assert_eq!(parse_attr_args("(a = what)").unwrap_err(), "Unsupported format \"what\".");
}

#[test]
fn attr_arg_info_strings() {
    let args = parse_attr_args("(a=1, 2, b = \"x\", \"y\")").unwrap();
    assert_eq!(args[0].info_string(), "key: \"a\", value: 1");
    assert_eq!(args[1].info_string(), "key: None, value: 2");
    assert_eq!(args[2].info_string(), "key: \"b\", value: \"x\"");
    assert_eq!(args[3].info_string(), "key: None, value: \"y\"");
}

#[test]
fn field_binding_takes_the_key_entry() {
    let args = parse_attr_args("(key = \"log_path\")").unwrap();
    let info = ConfigFieldInfo::new(&args, "log_path_field".to_string()).unwrap();
    assert_eq!(info.field_name, "log_path_field");
    assert_eq!(info.key, "log_path");
}

#[test]
fn field_binding_rejects_other_keywords() {
    let args = parse_attr_args("(path = \"x\")").unwrap();
    let err = ConfigFieldInfo::new(&args, "f".to_string()).unwrap_err();
    assert_eq!(err, "Illegal keyword argument \"path\" of attribute \"config_field\"!");
}

#[test]
fn field_binding_rejects_positional_entries() {
    let args = parse_attr_args("(\"x\")").unwrap();
    let err = ConfigFieldInfo::new(&args, "f".to_string()).unwrap_err();
    assert_eq!(err, "Illegal position argument of attribute \"config_field\"!");
}

#[test]
fn field_binding_requires_a_key() {
    let args = parse_attr_args("").unwrap();
    let err = ConfigFieldInfo::new(&args, "f".to_string()).unwrap_err();
    assert_eq!(err, "Missing keyword argument \"key\" of attribute \"config_field\"!");
}

#[test]
fn field_binding_rejects_integer_valued_key() {
    let args = parse_attr_args("(key = 3)").unwrap();
    let err = ConfigFieldInfo::new(&args, "f".to_string()).unwrap_err();
    assert_eq!(err, "Illegal keyword argument \"key\" of attribute \"config_field\"!");
}
