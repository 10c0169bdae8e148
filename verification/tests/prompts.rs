use chatbot::json::Json;
use chatbot::prompts::list_scan_config_prompts::{
    get_prompt, list_prompts, prompts_to_json, PromptArgument, PromptDef, PromptGetParams,
};

fn s(text: &str) -> String {
    text.to_string()
}

fn text(value: &str) -> Json {
    Json::Str(s(value))
}

fn object(members: Vec<(&str, Json)>) -> Json {
    Json::Object(members.into_iter().map(|(k, v)| (s(k), v)).collect())
}

#[test]
fn one_prompt_is_listed() {
    let prompts = list_prompts();
    assert_eq!(
        prompts,
        vec![PromptDef {
            name: s("explain_openvas_scan_configs"),
            description: s(
                "Explain OpenVAS scan configurations returned by openvas_list_scan_configs in a structured, human-readable way."
            ),
            arguments: vec![
                PromptArgument {
                    name: s("configs_json"),
                    description: s(
                        "The JSON object returned by the openvas_list_scan_configs tool (its `output` field)."
                    ),
                    required: true,
                    schema: object(vec![("type", text("object"))]),
                },
                PromptArgument {
                    name: s("user_goal"),
                    description: s(
                        "Optional short description of what the user wants (e.g. 'quick production check')."
                    ),
                    required: false,
                    schema: object(vec![("type", text("string"))]),
                },
            ],
        }]
    );
}

#[test]
fn prompts_are_listed_with_their_arguments() {
    let argument = PromptArgument {
        name: s("a"),
        description: s("d"),
        required: true,
        schema: Json::Null,
    };
    let expected_argument = object(vec![
        ("name", text("a")),
        ("description", text("d")),
        ("required", Json::Bool(true)),
        ("schema", Json::Null),
    ]);
    assert_eq!(argument.to_json(), expected_argument);
    let prompt = PromptDef { name: s("p"), description: s("q"), arguments: vec![argument] };
    let expected = object(vec![
        ("name", text("p")),
        ("description", text("q")),
        ("arguments", Json::Array(vec![expected_argument])),
    ]);
    assert_eq!(prompt.to_json(), expected);
    assert_eq!(prompts_to_json(&vec![prompt.clone(), prompt]), vec![expected.clone(), expected]);
    assert_eq!(prompts_to_json(&vec![]), Vec::<Json>::new());
}

#[test]
fn the_prompt_is_handed_out_with_its_messages() {
    let prompt = get_prompt("explain_openvas_scan_configs", Json::Null).unwrap();
    let listed = list_prompts()[0].to_json();
    assert_eq!(prompt.get("name"), listed.get("name"));
    assert_eq!(prompt.get("description"), listed.get("description"));
    assert_eq!(prompt.get("arguments"), listed.get("arguments"));
    let messages = match prompt.get("messages") {
        Some(Json::Array(messages)) => messages,
        other => panic!("no messages: {:?}", other),
    };
    assert_eq!(messages.len(), 1);
    assert_eq!(messages[0].str_at("role"), Some("user"));
    let content = match messages[0].get("content") {
        Some(Json::Array(content)) => content,
        other => panic!("no content: {:?}", other),
    };
    assert_eq!(content.len(), 1);
    assert_eq!(content[0].str_at("type"), Some("text"));
    let text = content[0].str_at("text").unwrap();
    assert!(text.starts_with(
        "You are helping a user understand OpenVAS / Greenbone scan configurations.\n\nYou are given"
    ));
    assert!(text.contains("`openvas_list_scan_configs` in the argument `configs_json`.\n\n1. Treat"));
    assert!(text.contains("1. <name> (`<id>`)\n- **Summary**: Short"));
    assert!(text.contains("2\u{2013}3 bullet points"));
    assert!(text.ends_with("Use clear language, no XML, and do not show raw JSON."));
    assert_eq!(text.lines().count(), 27);
}

#[test]
fn the_arguments_do_not_change_the_prompt() {
    assert_eq!(
        get_prompt("explain_openvas_scan_configs", Json::Null),
        get_prompt("explain_openvas_scan_configs", object(vec![("user_goal", text("x"))]))
    );
}

#[test]
fn an_unknown_prompt_is_an_error() {
    assert_eq!(get_prompt("nope", Json::Null), Err(s("Unknown prompt: nope")));
    assert_eq!(get_prompt("", Json::Null), Err(s("Unknown prompt: ")));
    assert_eq!(
        get_prompt("Explain_openvas_scan_configs", Json::Null),
        Err(s("Unknown prompt: Explain_openvas_scan_configs"))
    );
}

#[test]
fn every_listed_prompt_can_be_got() {
    for prompt in list_prompts() {
        assert!(get_prompt(&prompt.name, Json::Null).is_ok());
    }
}

#[test]
fn reading_the_parameters_of_a_prompt_request() {
    assert_eq!(
        PromptGetParams::from_json(&object(vec![
            ("name", text("p")),
            ("arguments", object(vec![("user_goal", text("g"))])),
        ])),
        Ok(PromptGetParams { name: s("p"), arguments: object(vec![("user_goal", text("g"))]) })
    );
    assert_eq!(
        PromptGetParams::from_json(&object(vec![("name", text("p"))])),
        Ok(PromptGetParams { name: s("p"), arguments: Json::Null })
    );
    assert_eq!(
        PromptGetParams::from_json(&object(vec![("arguments", Json::Null)])),
        Err(s("missing field `name`"))
    );
    assert_eq!(
        PromptGetParams::from_json(&object(vec![("name", Json::Bool(true))])),
        Err(s("invalid type for field `name`: expected a string"))
    );
    assert_eq!(PromptGetParams::from_json(&Json::Array(vec![])), Err(s("missing field `name`")));
}
