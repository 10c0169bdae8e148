//! The prompt that explains the scan configurations of the vulnerability
//! scanner.

use vstd::prelude::*;
use vstd::string::*;
use crate::json::{items_view, result_view, Json, JsonValue};
use crate::protocol::{name_of, read_name};
use crate::text::{appended, same_text};

verus! {

/// The name of the prompt that explains the scan configurations.
pub const EXPLAIN_CONFIGS_NAME: &'static str = "explain_openvas_scan_configs";

/// What the prompt is for.
pub const EXPLAIN_CONFIGS_DESCRIPTION: &'static str =
    "Explain OpenVAS scan configurations returned by openvas_list_scan_configs in a structured, human-readable way.";

/// What the argument `configs_json` is.
pub const CONFIGS_JSON_DESCRIPTION: &'static str =
    "The JSON object returned by the openvas_list_scan_configs tool (its `output` field).";

/// What the argument `user_goal` is.
pub const USER_GOAL_DESCRIPTION: &'static str =
    "Optional short description of what the user wants (e.g. 'quick production check').";

/// What the prompt tells the model to do.
pub const EXPLAIN_CONFIGS_TEXT: &'static str =
    "You are helping a user understand OpenVAS / Greenbone scan configurations.\n\nYou are given the JSON result from the MCP tool `openvas_list_scan_configs` in the argument `configs_json`.\n\n1. Treat `configs_json.configs` as the single source of truth. Do NOT invent configs that are not present.\n2. Present the result in this exact Markdown structure:\n\n### Available OpenVAS scan configurations\n\nFor each config in `configs_json.configs` in order:\n\n1. <name> (`<id>`)\n- **Summary**: Short plain-English explanation based on the `comment` field.\n- **Typical use cases**: 2–3 bullet points describing when to use this profile.\n- **Scan depth & performance**: One sentence on how deep/fast it is relative to others.\n- **Risk to targets**: One sentence indicating if it is low-risk or may be disruptive.\n\n3. After listing all configs, add a section:\n\n### Recommendations\n\n- **Quick, safe production check**: Recommend 1–2 configs by name and ID and explain why.\n- **Deep assessment of a critical system**: Recommend 1–2 configs by name and ID and explain why.\n- **First discovery on a new network**: Recommend 1–2 configs by name and ID and explain why.\n\nIf `user_goal` is provided, prioritize recommendations that match that goal and mention it explicitly.\nUse clear language, no XML, and do not show raw JSON.";

/// One argument of a prompt.
#[derive(Debug, Clone, PartialEq, Eq)]
pub struct PromptArgument {
    pub name: String,
    pub description: String,
    pub required: bool,
    /// The JSON schema of the argument.
    pub schema: Json,
}

/// A prompt: its name, what it is for, and the arguments it takes.
#[derive(Debug, Clone, PartialEq, Eq)]
pub struct PromptDef {
    pub name: String,
    pub description: String,
    pub arguments: Vec<PromptArgument>,
}

/// What a request for a prompt carries.
#[derive(Debug, Clone, PartialEq, Eq)]
pub struct PromptGetParams {
    pub name: String,
    /// The arguments for the prompt; `null` where none are given.
    pub arguments: Json,
}

/// The content of a [`PromptArgument`].
pub struct PromptArgumentView {
    pub name: Seq<char>,
    pub description: Seq<char>,
    pub required: bool,
    pub schema: JsonValue,
}

/// The content of a [`PromptDef`].
pub struct PromptDefView {
    pub name: Seq<char>,
    pub description: Seq<char>,
    pub arguments: Seq<PromptArgumentView>,
}

impl View for PromptArgument {
    type V = PromptArgumentView;

    open spec fn view(&self) -> PromptArgumentView {
        PromptArgumentView {
            name: self.name@,
            description: self.description@,
            required: self.required,
            schema: self.schema@,
        }
    }
}

/// The contents of a list of arguments.
pub open spec fn arguments_view(arguments: Seq<PromptArgument>) -> Seq<PromptArgumentView> {
    Seq::new(arguments.len(), |i: int| arguments[i]@)
}

impl View for PromptDef {
    type V = PromptDefView;

    open spec fn view(&self) -> PromptDefView {
        PromptDefView {
            name: self.name@,
            description: self.description@,
            arguments: arguments_view(self.arguments@),
        }
    }
}

/// The contents of a list of prompts.
pub open spec fn prompts_view(prompts: Seq<PromptDef>) -> Seq<PromptDefView> {
    Seq::new(prompts.len(), |i: int| prompts[i]@)
}

impl PromptArgumentView {
    /// The argument as it is listed.
    pub open spec fn to_json(self) -> JsonValue {
        JsonValue::object().with_str("name"@, self.name).with_str("description"@, self.description)
            .with_bool("required"@, self.required).with("schema"@, self.schema)
    }
}

/// A list of arguments as it is listed.
pub open spec fn arguments_json(arguments: Seq<PromptArgumentView>) -> Seq<JsonValue> {
    Seq::new(arguments.len(), |i: int| arguments[i].to_json())
}

impl PromptDefView {
    /// The prompt as it is listed.
    pub open spec fn to_json(self) -> JsonValue {
        JsonValue::object().with_str("name"@, self.name).with_str("description"@, self.description)
            .with("arguments"@, JsonValue::Array(arguments_json(self.arguments)))
    }

    /// The prompt as it is handed out: what is listed of it, and its
    /// messages.
    pub open spec fn with_messages(self, messages: JsonValue) -> JsonValue {
        self.to_json().with("messages"@, messages)
    }
}

/// A list of prompts as it is listed.
pub open spec fn prompts_json(prompts: Seq<PromptDefView>) -> Seq<JsonValue> {
    Seq::new(prompts.len(), |i: int| prompts[i].to_json())
}

impl PromptArgument {
    /// The argument as it is listed.
    pub fn to_json(&self) -> (listed: Json)
        ensures
            listed@ == self@.to_json(),
    {
        Json::object().with_str("name", self.name.as_str()).with_str(
            "description",
            self.description.as_str(),
        ).with_bool("required", self.required).with("schema", self.schema.clone())
    }
}

impl PromptDef {
    /// The prompt as it is listed.
    pub fn to_json(&self) -> (listed: Json)
        ensures
            listed@ == self@.to_json(),
    {
        let mut arguments: Vec<Json> = Vec::new();
        let mut i: usize = 0;
        while i < self.arguments.len()
            invariant
                i <= self.arguments.len(),
                arguments@.len() == i,
                forall|k: int| 0 <= k < i ==> arguments@[k]@ == self.arguments@[k]@.to_json(),
            decreases self.arguments.len() - i,
        {
            arguments.push(self.arguments[i].to_json());
            i += 1;
        }
        assert(items_view(arguments@) =~= arguments_json(self@.arguments));
        Json::object().with_str("name", self.name.as_str()).with_str(
            "description",
            self.description.as_str(),
        ).with("arguments", Json::array_of(arguments))
    }
}

/// The prompts as they are listed.
pub fn prompts_to_json(prompts: &Vec<PromptDef>) -> (listed: Vec<Json>)
    ensures
        items_view(listed@) == prompts_json(prompts_view(prompts@)),
{
    let mut listed: Vec<Json> = Vec::new();
    let mut i: usize = 0;
    while i < prompts.len()
        invariant
            i <= prompts.len(),
            listed@.len() == i,
            forall|k: int| 0 <= k < i ==> listed@[k]@ == prompts@[k]@.to_json(),
        decreases prompts.len() - i,
    {
        listed.push(prompts[i].to_json());
        i += 1;
    }
    assert(items_view(listed@) =~= prompts_json(prompts_view(prompts@)));
    listed
}

impl PromptGetParams {
    /// Reads the parameters of a request for a prompt: the name of the
    /// prompt, which must be a string, and the arguments for it.
    pub fn from_json(params: &Json) -> (read: Result<PromptGetParams, String>)
        ensures
            match read {
                Ok(p) => name_of(params@) == Ok::<Seq<char>, Seq<char>>(p.name@) && p.arguments@
                    == params@.member_or_null("arguments"@),
                Err(m) => name_of(params@) == Err::<Seq<char>, Seq<char>>(m@),
            },
    {
        match read_name(params) {
            Ok(name) => Ok(PromptGetParams { name, arguments: params.member_or_null("arguments") }),
            Err(message) => Err(message),
        }
    }
}

/// The schema of a value of the given type.
pub open spec fn type_schema(kind: Seq<char>) -> JsonValue {
    JsonValue::object().with_str("type"@, kind)
}

/// The prompts that the gateway offers.
pub open spec fn builtin_prompts() -> Seq<PromptDefView> {
    seq![
        PromptDefView {
            name: EXPLAIN_CONFIGS_NAME@,
            description: EXPLAIN_CONFIGS_DESCRIPTION@,
            arguments: seq![
                PromptArgumentView {
                    name: "configs_json"@,
                    description: CONFIGS_JSON_DESCRIPTION@,
                    required: true,
                    schema: type_schema("object"@),
                },
                PromptArgumentView {
                    name: "user_goal"@,
                    description: USER_GOAL_DESCRIPTION@,
                    required: false,
                    schema: type_schema("string"@),
                },
            ],
        },
    ]
}

/// The messages of the prompts: one message of the user, whose content is
/// one piece of text.
pub open spec fn prompt_messages() -> JsonValue {
    JsonValue::array().item(
        JsonValue::object().with_str("role"@, "user"@).with(
            "content"@,
            JsonValue::array().item(
                JsonValue::object().with_str("type"@, "text"@).with_str("text"@, EXPLAIN_CONFIGS_TEXT@),
            ),
        ),
    )
}

/// The first prompt called `name`, if `prompts` holds one.
pub open spec fn find_prompt(prompts: Seq<PromptDefView>, name: Seq<char>) -> Option<PromptDefView>
    decreases prompts.len(),
{
    if prompts.len() == 0 {
        None
    } else if prompts[0].name == name {
        Some(prompts[0])
    } else {
        find_prompt(prompts.skip(1), name)
    }
}

/// The message that reports a name under which there is no prompt.
pub open spec fn unknown_prompt(name: Seq<char>) -> Seq<char> {
    "Unknown prompt: "@ + name
}

/// What asking for the prompt `name` gives.
pub open spec fn prompt_result(name: Seq<char>) -> Result<JsonValue, Seq<char>> {
    match find_prompt(builtin_prompts(), name) {
        Some(prompt) => Ok(prompt.with_messages(prompt_messages())),
        None => Err(unknown_prompt(name)),
    }
}

/// All the prompts that the gateway offers.
pub fn list_prompts() -> (prompts: Vec<PromptDef>)
    ensures
        prompts_view(prompts@) == builtin_prompts(),
{
    let mut arguments: Vec<PromptArgument> = Vec::new();
    arguments.push(
        PromptArgument {
            name: "configs_json".to_owned(),
            description: CONFIGS_JSON_DESCRIPTION.to_owned(),
            required: true,
            schema: Json::object().with_str("type", "object"),
        },
    );
    arguments.push(
        PromptArgument {
            name: "user_goal".to_owned(),
            description: USER_GOAL_DESCRIPTION.to_owned(),
            required: false,
            schema: Json::object().with_str("type", "string"),
        },
    );
    let explain = PromptDef {
        name: EXPLAIN_CONFIGS_NAME.to_owned(),
        description: EXPLAIN_CONFIGS_DESCRIPTION.to_owned(),
        arguments,
    };
    assert(explain@.arguments =~= builtin_prompts()[0].arguments);
    let mut prompts: Vec<PromptDef> = Vec::new();
    prompts.push(explain);
    assert(prompts_view(prompts@) =~= builtin_prompts());
    prompts
}

/// Looks a prompt up by name and hands it out with its messages. The
/// arguments are not read: the messages refer to them by name.
pub fn get_prompt(name: &str, _arguments: Json) -> (prompt: Result<Json, String>)
    ensures
        result_view(prompt) == prompt_result(name@),
{
    let prompts = list_prompts();
    let ghost all = prompts_view(prompts@);
    let mut i: usize = 0;
    assert(all.skip(0) =~= all);
    while i < prompts.len()
        invariant
            i <= prompts.len(),
            all == prompts_view(prompts@),
            all == builtin_prompts(),
            find_prompt(all, name@) == find_prompt(all.skip(i as int), name@),
        decreases prompts.len() - i,
    {
        proof {
            assert(all.skip(i as int)[0] == prompts@[i as int]@);
            assert(all.skip(i as int).skip(1) =~= all.skip(i + 1));
        }
        if same_text(prompts[i].name.as_str(), name) {
            let messages = Json::array().item(
                Json::object().with_str("role", "user").with(
                    "content",
                    Json::array().item(
                        Json::object().with_str("type", "text").with_str("text", EXPLAIN_CONFIGS_TEXT),
                    ),
                ),
            );
            return Ok(prompts[i].to_json().with("messages", messages));
        }
        i += 1;
    }
    Err(appended("Unknown prompt: ", name))
}

/// A prompt that stands in a list is found under its name.
pub proof fn lemma_listed_prompt_is_found(prompts: Seq<PromptDefView>, i: int)
    requires
        0 <= i < prompts.len(),
    ensures
        find_prompt(prompts, prompts[i].name) matches Some(found) && found.name == prompts[i].name,
    decreases prompts.len(),
{
    if prompts[0].name != prompts[i].name {
        let rest = prompts.skip(1);
        assert(rest[i - 1] == prompts[i]);
        lemma_listed_prompt_is_found(rest, i - 1);
    }
}

/// Asking for a prompt by a name that the list of prompts shows never
/// fails.
pub proof fn lemma_listed_prompts_can_be_got(i: int)
    requires
        0 <= i < builtin_prompts().len(),
    ensures
        prompt_result(builtin_prompts()[i].name) is Ok,
{
    lemma_listed_prompt_is_found(builtin_prompts(), i);
}

} // verus!
