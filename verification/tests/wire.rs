use chatbot::api::{exchange_outcome, BackendReply};
use chatbot::json::Json;
use chatbot::protocol::{handle_line, handle_message, Dispatch};
use chatbot::registry::ToolRegistry;
use chatbot::tools::{register_all_tools, BuiltinTool};
use chatbot::wire::parse_json;

fn s(text: &str) -> String {
    text.to_string()
}

fn text(value: &str) -> Json {
    Json::Str(s(value))
}

fn number(value: &str) -> Json {
    Json::Number(s(value))
}

fn object(members: Vec<(&str, Json)>) -> Json {
    Json::Object(members.into_iter().map(|(k, v)| (s(k), v)).collect())
}

fn gateway() -> ToolRegistry<BuiltinTool> {
    let mut registry = ToolRegistry::new();
    register_all_tools(&mut registry);
    registry
}

#[test]
fn scalars_are_read() {
    assert_eq!(parse_json("null"), Some(Json::Null));
    assert_eq!(parse_json("true"), Some(Json::Bool(true)));
    assert_eq!(parse_json("false"), Some(Json::Bool(false)));
    assert_eq!(parse_json(r#""a b""#), Some(text("a b")));
    assert_eq!(parse_json(r#""""#), Some(text("")));
    assert_eq!(parse_json(r#""line\nbreak \"quoted\" é""#), Some(text("line\nbreak \"quoted\" \u{e9}")));
}

#[test]
fn numbers_keep_their_notation() {
    assert_eq!(parse_json("0"), Some(number("0")));
    assert_eq!(parse_json("42"), Some(number("42")));
    assert_eq!(parse_json("-7"), Some(number("-7")));
    assert_eq!(parse_json("18446744073709551615"), Some(number("18446744073709551615")));
    assert_eq!(parse_json("1.5"), Some(number("1.5")));
    assert_eq!(parse_json("-0.25"), Some(number("-0.25")));
    assert_eq!(parse_json("42"), Some(Json::integer(42)));
    assert_eq!(parse_json("-32000"), Some(Json::integer(-32000)));
}

#[test]
fn arrays_and_objects_are_read() {
    assert_eq!(parse_json("[]"), Some(Json::Array(vec![])));
    assert_eq!(parse_json("{}"), Some(Json::Object(vec![])));
    assert_eq!(
        parse_json(r#"[1, "two", [true, null], {"k": []}]"#),
        Some(Json::Array(vec![
            number("1"),
            text("two"),
            Json::Array(vec![Json::Bool(true), Json::Null]),
            object(vec![("k", Json::Array(vec![]))]),
        ]))
    );
    assert_eq!(
        parse_json(r#" { "a" : { "b" : { "c" : "deep" } } } "#),
        Some(object(vec![("a", object(vec![("b", object(vec![("c", text("deep"))]))]))]))
    );
}

#[test]
fn members_come_sorted_by_key_and_once() {
    assert_eq!(
        parse_json(r#"{"b": 1, "a": 2, "c": 3}"#),
        Some(object(vec![("a", number("2")), ("b", number("1")), ("c", number("3"))]))
    );
    assert_eq!(
        parse_json(r#"{"k": "first", "k": "second"}"#),
        Some(object(vec![("k", text("second"))]))
    );
}

#[test]
fn what_is_no_json_gives_nothing() {
    for text in ["", " ", "\n", "nul", "tru", "{", "}", "[1,", r#"{"a"}"#, r#"{"a":}"#, "'a'", "1 2", "{} {}", "NaN", "01", "--1"] {
        assert_eq!(parse_json(text), None, "{:?}", text);
    }
}

#[test]
fn a_line_is_handled_as_the_message_it_holds() {
    let registry = gateway();
    let text = r#"{"jsonrpc":"2.0","id":7,"method":"tools/call","params":{"name":"echo","input":{"x":[1,2]}}}"#;
    let message = parse_json(text).unwrap();
    let decided = handle_line(&registry, text);
    assert_eq!(decided, handle_message(&registry, &message));
    match decided {
        Some(Dispatch::Reply(response)) => {
            assert_eq!(response.id, number("7"));
            assert_eq!(
                response.result,
                Some(object(vec![(
                    "output",
                    object(vec![(
                        "echo",
                        object(vec![("x", Json::Array(vec![number("1"), number("2")]))])
                    )])
                )]))
            );
        }
        other => panic!("no reply: {:?}", other),
    }
}

#[test]
fn a_line_that_is_no_message_is_dropped() {
    let registry = gateway();
    for text in ["", "   ", "hello", "{", "[]", "3", r#"{"id":1}"#, r#"{"method":"tools/list"}"#] {
        assert_eq!(handle_line(&registry, text), None, "{:?}", text);
    }
}

#[test]
fn a_successful_answer_gives_its_body() {
    assert_eq!(
        BackendReply { status: 200, body: s(r#"{"id": "t-1", "existed": false}"#) }.outcome(),
        Ok(object(vec![("existed", Json::Bool(false)), ("id", text("t-1"))]))
    );
    assert_eq!(BackendReply { status: 204, body: s("null") }.outcome(), Ok(Json::Null));
    assert_eq!(BackendReply { status: 299, body: s("[]") }.outcome(), Ok(Json::Array(vec![])));
}

#[test]
fn an_unsuccessful_status_is_a_failure_whatever_the_body() {
    for (status, message) in [
        (0u16, "backend answered with status 0"),
        (100, "backend answered with status 100"),
        (199, "backend answered with status 199"),
        (300, "backend answered with status 300"),
        (302, "backend answered with status 302"),
        (404, "backend answered with status 404"),
        (500, "backend answered with status 500"),
        (65535, "backend answered with status 65535"),
    ] {
        assert_eq!(BackendReply { status, body: s(r#"{"ok": true}"#) }.outcome(), Err(s(message)));
        assert_eq!(BackendReply { status, body: s("") }.outcome(), Err(s(message)));
    }
}

#[test]
fn a_body_that_is_no_json_is_a_failure() {
    let failure = Err(s("backend answered with a body that is no JSON"));
    assert_eq!(BackendReply { status: 200, body: s("") }.outcome(), failure);
    assert_eq!(BackendReply { status: 200, body: s("<html></html>") }.outcome(), failure);
    assert_eq!(BackendReply { status: 201, body: s("{") }.outcome(), failure);
}

#[test]
fn a_failed_exchange_is_a_failure_with_its_message() {
    assert_eq!(exchange_outcome(Err(s("connection refused"))), Err(s("connection refused")));
    assert_eq!(
        exchange_outcome(Ok(BackendReply { status: 200, body: s("[1]") })),
        Ok(Json::Array(vec![number("1")]))
    );
    assert_eq!(
        exchange_outcome(Ok(BackendReply { status: 400, body: s("[1]") })),
        Err(s("backend answered with status 400"))
    );
}
