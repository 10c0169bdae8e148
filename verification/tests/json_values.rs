use chatbot::json::Json;
use chatbot::text::{appended, decimal_text, integer_text, is_blank, is_whitespace, join, same_text};

fn s(text: &str) -> String {
    text.to_string()
}

#[test]
fn object_builder_appends_members_in_order() {
    let built = Json::object().with("a", Json::Bool(true)).with_str("b", "x").with_bool("c", false);
    assert_eq!(
        built,
        Json::Object(vec![
            (s("a"), Json::Bool(true)),
            (s("b"), Json::Str(s("x"))),
            (s("c"), Json::Bool(false)),
        ])
    );
}

#[test]
fn array_builder_appends_items_in_order() {
    let built = Json::array().item(Json::Null).item_str("x").item(Json::integer(3));
    assert_eq!(built, Json::Array(vec![Json::Null, Json::Str(s("x")), Json::Number(s("3"))]));
    assert_eq!(Json::array_of(vec![Json::Null]), Json::Array(vec![Json::Null]));
    assert_eq!(Json::array(), Json::Array(vec![]));
    assert_eq!(Json::object(), Json::Object(vec![]));
}

#[test]
fn builders_leave_other_values_alone() {
    assert_eq!(Json::Null.with("a", Json::Bool(true)), Json::Null);
    assert_eq!(Json::string("x").item(Json::Null), Json::Str(s("x")));
    assert_eq!(Json::array().with("a", Json::Null), Json::Array(vec![]));
    assert_eq!(Json::object().item(Json::Null), Json::Object(vec![]));
}

#[test]
fn optional_members_are_left_out_when_absent() {
    let built = Json::object()
        .with_text("a", Some("x"))
        .with_text("b", None)
        .with_flag("c", true)
        .with_flag("d", false);
    assert_eq!(
        built,
        Json::Object(vec![(s("a"), Json::Str(s("x"))), (s("c"), Json::Bool(true))])
    );
}

#[test]
fn get_finds_members_by_key() {
    let value = Json::object().with_str("a", "1").with_str("b", "2");
    assert_eq!(value.get("a"), Some(&Json::Str(s("1"))));
    assert_eq!(value.get("b"), Some(&Json::Str(s("2"))));
    assert_eq!(value.get("c"), None);
    assert_eq!(value.get(""), None);
    assert_eq!(Json::Null.get("a"), None);
    assert_eq!(Json::array().item_str("a").get("a"), None);
}

#[test]
fn the_last_member_of_a_key_counts() {
    let value = Json::object().with_str("a", "old").with_str("b", "x").with_str("a", "new");
    assert_eq!(value.get("a"), Some(&Json::Str(s("new"))));
    assert_eq!(value.str_at("a"), Some("new"));
}

#[test]
fn typed_readers() {
    let value = Json::object()
        .with_str("text", "x")
        .with_bool("yes", true)
        .with_bool("no", false)
        .with("nothing", Json::Null);
    assert_eq!(value.str_at("text"), Some("x"));
    assert_eq!(value.str_at("yes"), None);
    assert_eq!(value.str_at("missing"), None);
    assert_eq!(value.bool_at("yes"), Some(true));
    assert_eq!(value.bool_at("no"), Some(false));
    assert_eq!(value.bool_at("text"), None);
    assert_eq!(value.bool_at("missing"), None);
    assert_eq!(value.str_or("text", "d"), "x");
    assert_eq!(value.str_or("yes", "d"), "d");
    assert_eq!(value.str_or("missing", "d"), "d");
    assert_eq!(value.bool_or("no", true), false);
    assert_eq!(value.bool_or("text", true), true);
    assert_eq!(value.bool_or("missing", false), false);
    assert_eq!(Json::string("x").as_str(), Some("x"));
    assert_eq!(Json::Null.as_str(), None);
    assert_eq!(Json::Bool(true).as_bool(), Some(true));
    assert_eq!(Json::string("true").as_bool(), None);
}

#[test]
fn a_missing_member_reads_as_null() {
    let value = Json::object().with_str("a", "1").with("b", Json::array());
    assert_eq!(value.member_or_null("a"), Json::Str(s("1")));
    assert_eq!(value.member_or_null("b"), Json::Array(vec![]));
    assert_eq!(value.member_or_null("c"), Json::Null);
    assert_eq!(Json::Bool(true).member_or_null("a"), Json::Null);
}

#[test]
fn clone_copies_the_whole_value() {
    let value = Json::object()
        .with("list", Json::array().item(Json::integer(-1)).item(Json::object().with_str("k", "v")))
        .with("n", Json::Null);
    let copy = value.clone();
    assert_eq!(copy, value);
}

#[test]
fn integers_are_written_in_decimal() {
    assert_eq!(Json::integer(0), Json::Number(s("0")));
    assert_eq!(Json::integer(64), Json::Number(s("64")));
    assert_eq!(Json::integer(-32601), Json::Number(s("-32601")));
    assert_eq!(Json::integer(i64::MAX), Json::Number(s("9223372036854775807")));
    assert_eq!(Json::integer(i64::MIN), Json::Number(s("-9223372036854775808")));
}

#[test]
fn decimal_text_of_numbers() {
    assert_eq!(decimal_text(0), "0");
    assert_eq!(decimal_text(9), "9");
    assert_eq!(decimal_text(10), "10");
    assert_eq!(decimal_text(1234567890), "1234567890");
    assert_eq!(decimal_text(u64::MAX), "18446744073709551615");
    assert_eq!(integer_text(-1), "-1");
    assert_eq!(integer_text(7), "7");
    for n in [0u64, 5, 42, 100, 65535, 4294967296] {
        assert_eq!(decimal_text(n), n.to_string());
    }
}

#[test]
fn join_puts_the_separator_between_neighbours() {
    assert_eq!(join(&vec![], ","), "");
    assert_eq!(join(&vec![s("a")], ","), "a");
    assert_eq!(join(&vec![s("a"), s("b"), s("c")], ","), "a,b,c");
    assert_eq!(join(&vec![s(""), s("")], ", "), ", ");
    assert_eq!(appended("ab", "cd"), "abcd");
}

#[test]
fn text_comparison() {
    assert!(same_text("abc", "abc"));
    assert!(same_text("", ""));
    assert!(!same_text("abc", "abd"));
    assert!(!same_text("abc", "ab"));
    assert!(!same_text("Abc", "abc"));
}

#[test]
fn blank_texts() {
    assert!(is_blank(""));
    assert!(is_blank(" "));
    assert!(is_blank(" \t\r\n"));
    assert!(is_blank("\u{a0}\u{2003}\u{3000}"));
    assert!(!is_blank("a"));
    assert!(!is_blank("  a  "));
    assert!(!is_blank("\u{200b}"));
}

#[test]
fn whitespace_is_what_the_standard_library_says() {
    for code in 0u32..0x3100 {
        if let Some(c) = char::from_u32(code) {
            assert_eq!(is_whitespace(c), c.is_whitespace(), "U+{:04X}", code);
        }
    }
}
