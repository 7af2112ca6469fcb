//! What holds of the offered tools, of their calls as the model is shown them, and of the
//! words for their results.
use vstd::prelude::*;

use crate::anthropic;
use crate::api::{
    CallMcpToolResultView, ReadMcpResourceResultView, ReadSkillResultView,
    RunShellCommandResultView, SkillReferenceView, ToolCallResultView, ToolCallView, ToolResultView, ToolView,
};
use crate::event_laws::{has, says};
use crate::history_laws::{is_input, known_as};
use crate::json::{json_text, JsonView};
use crate::openai::ToolDefinitionView;
use crate::proto::proto_to_json;
use crate::text::{
    decimal, digit_char, is_blank, is_white_space, signed_decimal, trimmed, trimmed_end,
    trimmed_start,
};
use crate::tools::{
    anthropic_definition, arguments_value, openai_call, result_text, tool_arguments,
    tool_definitions,
};

verus! {

/// Whether a character is a decimal digit.
pub open spec fn is_digit(c: char) -> bool {
    '0' <= c <= '9'
}

/// The number that digits denote.
pub open spec fn number_of(digits: Seq<char>) -> nat
    decreases digits.len(),
{
    if digits.len() == 0 {
        0
    } else {
        10 * number_of(digits.drop_last()) + (digits.last() as u32 - '0' as u32) as nat
    }
}

/// Whether digits are the decimal numeral of a number: they denote it, without zeros that it
/// does not need.
pub open spec fn counts(digits: Seq<char>, n: nat) -> bool {
    &&& digits.len() > 0
    &&& forall|i: int| 0 <= i < digits.len() ==> is_digit(#[trigger] digits[i])
    &&& digits.len() > 1 ==> digits[0] != '0'
    &&& number_of(digits) == n
}

/// Whether a text is the decimal numeral of an integer, with a minus sign in front where it is
/// negative.
pub open spec fn spells(text: Seq<char>, n: int) -> bool {
    if n < 0 {
        text.len() > 0 && text[0] == '-' && counts(text.drop_first(), (-n) as nat)
    } else {
        counts(text, n as nat)
    }
}

/// The numeral of a number counts it.
pub proof fn law_decimal(n: nat)
    ensures
        counts(decimal(n), n),
    decreases n,
{
    let digits = decimal(n);
    assert(is_digit(digit_char(n % 10)) && digit_char(n % 10) as u32 - '0' as u32 == n % 10);
    if n < 10 {
        assert(digits.drop_last() =~= Seq::empty());
        assert(number_of(digits.drop_last()) == 0);
        assert(digits.last() == digit_char(n));
        assert(digits[0] == digit_char(n));
    } else {
        law_decimal(n / 10);
        let front = decimal(n / 10);
        assert(digits.drop_last() =~= front);
        assert(digits.last() == digit_char(n % 10));
        assert forall|i: int| 0 <= i < digits.len() implies is_digit(#[trigger] digits[i]) by {
            if i < front.len() {
                assert(digits[i] == front[i]);
                assert(is_digit(front[i]));
            }
        }
        assert(digits[0] == front[0]);
        if front.len() == 1 {
            assert(front.drop_last() =~= Seq::empty());
            assert(number_of(front.drop_last()) == 0);
            assert(front.last() == front[0]);
        }
    }
}

/// The numeral of an integer spells it.
pub proof fn law_signed_decimal(n: int)
    ensures
        spells(signed_decimal(n), n),
{
    if n < 0 {
        law_decimal((-n) as nat);
        assert(signed_decimal(n).drop_first() =~= decimal((-n) as nat));
    } else {
        law_decimal(n as nat);
    }
}

/// Whether a text stands in another from a place on.
pub open spec fn cut_at(s: Seq<char>, part: Seq<char>, start: int) -> bool {
    0 <= start && start + part.len() <= s.len() && s.subrange(start, start + part.len()) == part
}

proof fn lemma_end_trimmed(s: Seq<char>)
    ensures
        ({
            let t = trimmed_end(s);
            &&& t.len() <= s.len()
            &&& t == s.take(t.len() as int)
            &&& t.len() > 0 ==> !is_white_space(t[t.len() - 1])
            &&& forall|i: int| t.len() <= i < s.len() ==> is_white_space(#[trigger] s[i])
        }),
    decreases s.len(),
{
    let t = trimmed_end(s);
    if s.len() > 0 && is_white_space(s.last()) {
        let rest = s.drop_last();
        lemma_end_trimmed(rest);
        assert(rest.take(t.len() as int) =~= s.take(t.len() as int));
        assert forall|i: int| t.len() <= i < s.len() implies is_white_space(#[trigger] s[i]) by {
            if i < rest.len() {
                assert(s[i] == rest[i]);
            }
        }
    } else {
        assert(s.take(s.len() as int) =~= s);
    }
}

/// Trimming takes white space off both ends of a text and nothing else: what is left begins and
/// ends with another character, or is empty.
pub proof fn law_trimmed(s: Seq<char>)
    ensures
        ({
            let t = trimmed(s);
            &&& t.len() > 0 ==> !is_white_space(t[0]) && !is_white_space(t[t.len() - 1])
            &&& exists|start: int| #[trigger]
                cut_at(s, t, start) && (forall|i: int|
                    0 <= i < start || start + t.len() <= i < s.len() ==> is_white_space(
                        #[trigger] s[i],
                    ))
        }),
{
    let u = trimmed_start(s);
    let t = trimmed(s);
    let start = s.len() - u.len();
    lemma_trimmed_start(s);
    lemma_end_trimmed(u);
    assert(s.subrange(start, start + t.len()) =~= t);
    assert forall|i: int| 0 <= i < start || start + t.len() <= i < s.len() implies is_white_space(
        #[trigger] s[i],
    ) by {
        if start <= i {
            assert(s[i] == u[i - start]);
        }
    }
    assert(cut_at(s, t, start));
}

/// A text is blank exactly where all of it is white space.
pub proof fn law_blank(s: Seq<char>)
    ensures
        is_blank(s) <==> forall|i: int| 0 <= i < s.len() ==> is_white_space(#[trigger] s[i]),
{
    lemma_trimmed_start(s);
    lemma_trimmed_end(trimmed_start(s));
    if forall|i: int| 0 <= i < s.len() ==> is_white_space(#[trigger] s[i]) {
        let t = trimmed_start(s);
        if t.len() > 0 {
            assert(is_white_space(s[s.len() - t.len()]));
        }
    }
    if is_blank(s) {
        let t = trimmed_start(s);
        if t.len() > 0 {
            assert(is_white_space(t[0]));
        }
    }
}

proof fn lemma_trimmed_start(s: Seq<char>)
    ensures
        ({
            let t = trimmed_start(s);
            &&& t.len() <= s.len()
            &&& t == s.skip(s.len() - t.len())
            &&& t.len() > 0 ==> !is_white_space(t[0])
            &&& forall|i: int| 0 <= i < s.len() - t.len() ==> is_white_space(#[trigger] s[i])
        }),
    decreases s.len(),
{
    let t = trimmed_start(s);
    if s.len() > 0 && is_white_space(s.first()) {
        let rest = s.drop_first();
        lemma_trimmed_start(rest);
        assert(rest.skip(rest.len() - t.len()) =~= s.skip(s.len() - t.len()));
        assert forall|i: int| 0 <= i < s.len() - t.len() implies is_white_space(
            #[trigger] s[i],
        ) by {
            if i > 0 {
                assert(s[i] == rest[i - 1]);
            }
        }
    } else {
        assert(s.skip(0) =~= s);
    }
}

proof fn lemma_trimmed_end(s: Seq<char>)
    ensures
        trimmed_end(s).len() == 0 ==> forall|i: int|
            0 <= i < s.len() ==> is_white_space(#[trigger] s[i]),
    decreases s.len(),
{
    if s.len() > 0 && is_white_space(s.last()) {
        let rest = s.drop_last();
        lemma_trimmed_end(rest);
        if trimmed_end(s).len() == 0 {
            assert forall|i: int| 0 <= i < s.len() implies is_white_space(#[trigger] s[i]) by {
                if i < rest.len() {
                    assert(s[i] == rest[i]);
                }
            }
        }
    }
}

proof fn lemma_keys()
    ensures
        "command"@ != "wait_until_complete"@,
        "name"@ != "args"@,
        "name"@ != "server_id"@,
        "args"@ != "server_id"@,
        "uri"@ != "server_id"@,
        "name"@ != "skill_path"@,
        "name"@ != "bundled_skill_id"@,
        "skill_path"@ != "bundled_skill_id"@,
        "type"@ != "properties"@,
        "type"@ != "required"@,
        "type"@ != "additionalProperties"@,
        "type"@ != "description"@,
        "properties"@ != "required"@,
        "properties"@ != "additionalProperties"@,
        "required"@ != "additionalProperties"@,
{
    reveal_strlit("command");
    reveal_strlit("wait_until_complete");
    reveal_strlit("name");
    reveal_strlit("args");
    reveal_strlit("server_id");
    reveal_strlit("uri");
    reveal_strlit("skill_path");
    reveal_strlit("bundled_skill_id");
    reveal_strlit("type");
    reveal_strlit("properties");
    reveal_strlit("required");
    reveal_strlit("additionalProperties");
    reveal_strlit("description");
    assert("command"@.len() != "wait_until_complete"@.len());
    assert("name"@[0] != "args"@[0]);
    assert("name"@.len() != "server_id"@.len() && "args"@.len() != "server_id"@.len());
    assert("uri"@.len() != "server_id"@.len());
    assert("name"@.len() != "skill_path"@.len() && "name"@.len() != "bundled_skill_id"@.len());
    assert("skill_path"@.len() != "bundled_skill_id"@.len());
    assert("type"@.len() != "properties"@.len() && "type"@.len() != "required"@.len());
    assert("type"@.len() != "additionalProperties"@.len() && "type"@.len() != "description"@.len());
    assert("properties"@.len() != "required"@.len());
    assert("properties"@.len() != "additionalProperties"@.len());
    assert("required"@.len() != "additionalProperties"@.len());
}

/// Whether an object has a text under a key where the text is not empty, and null where it is.
pub open spec fn says_or_null(object: JsonView, key: Seq<char>, text: Seq<char>) -> bool {
    has(
        object,
        key,
        if text.len() > 0 {
            JsonView::Str(text)
        } else {
            JsonView::Null
        },
    )
}

/// Whether an object has these keys and no others.
pub open spec fn has_keys(object: JsonView, keys: Set<Seq<char>>) -> bool {
    object matches JsonView::Object(fields) && fields.dom() == keys
}

/// The arguments that a model is shown of a call tell all that the tool is called with, each
/// under its own key, and nothing else.
pub proof fn law_arguments_written(tool: ToolView)
    ensures
        match tool {
            ToolView::RunShellCommand(run) => tool_arguments(tool) matches Some(object) && {
                &&& has_keys(object, set!["command"@, "wait_until_complete"@])
                &&& says(object, "command"@, run.command)
                &&& has(
                    object,
                    "wait_until_complete"@,
                    match run.wait_until_complete {
                        Some(wait) => JsonView::Bool(wait),
                        None => JsonView::Null,
                    },
                )
            },
            ToolView::CallMcpTool(call) => tool_arguments(tool) matches Some(object) && {
                &&& has_keys(object, set!["name"@, "args"@, "server_id"@])
                &&& says(object, "name"@, call.name)
                &&& says_or_null(object, "server_id"@, call.server_id)
                &&& call.args is None ==> has(object, "args"@, JsonView::Null)
                &&& call.args matches Some(fields) ==> exists|told: Map<Seq<char>, JsonView>|
                    #[trigger] has(object, "args"@, JsonView::Object(told)) && told.dom() == fields.dom() && (
                    forall|key: Seq<char>| #[trigger]
                        fields.contains_key(key) ==> told[key] == proto_to_json(fields[key]))
            },
            ToolView::ReadMcpResource(read) => tool_arguments(tool) matches Some(object) && {
                &&& has_keys(object, set!["uri"@, "server_id"@])
                &&& says(object, "uri"@, read.uri)
                &&& says_or_null(object, "server_id"@, read.server_id)
            },
            ToolView::ReadSkill(read) => tool_arguments(tool) matches Some(object) && {
                &&& has_keys(object, set!["name"@, "skill_path"@, "bundled_skill_id"@])
                &&& says_or_null(object, "name"@, read.name)
                &&& match read.skill_reference {
                    Some(SkillReferenceView::SkillPath(path)) => says(object, "skill_path"@, path)
                        && has(object, "bundled_skill_id"@, JsonView::Null),
                    Some(SkillReferenceView::BundledSkillId(id)) => says(
                        object,
                        "bundled_skill_id"@,
                        id,
                    ) && has(object, "skill_path"@, JsonView::Null),
                    None => has(object, "skill_path"@, JsonView::Null) && has(
                        object,
                        "bundled_skill_id"@,
                        JsonView::Null,
                    ),
                }
            },
            ToolView::Other => tool_arguments(tool) is None,
        },
{
    lemma_keys();
    if let Some(JsonView::Object(fields)) = tool_arguments(tool) {
        match tool {
            ToolView::RunShellCommand(_) => {
                assert(fields.dom() =~= set!["command"@, "wait_until_complete"@]);
            },
            ToolView::CallMcpTool(call) => {
                assert(fields.dom() =~= set!["name"@, "args"@, "server_id"@]);
                if let Some(proto) = call.args {
                    let told = fields["args"@]->Object_0;
                    assert(told.dom() =~= proto.dom());
                    assert(has(tool_arguments(tool)->0, "args"@, JsonView::Object(told)));
                }
            },
            ToolView::ReadMcpResource(_) => {
                assert(fields.dom() =~= set!["uri"@, "server_id"@]);
            },
            ToolView::ReadSkill(_) => {
                assert(fields.dom() =~= set!["name"@, "skill_path"@, "bundled_skill_id"@]);
            },
            ToolView::Other => {},
        }
    }
}

/// A model is shown a call of a known tool as a function call under the tool's name, with the
/// call's own identifier, or a fresh one where it has none, and its arguments as JSON text. It
/// is shown no other call.
pub proof fn law_call_written(call: ToolCallView, fresh: Seq<char>)
    ensures
        match call.tool {
            Some(tool) => if known_as(tool) is Some {
                openai_call(call, fresh) matches Some(written) && {
                    &&& call.tool_call_id.len() > 0 ==> written.id == call.tool_call_id
                    &&& call.tool_call_id.len() == 0 ==> written.id == "local-tool-call-"@ + fresh
                    &&& written.kind == "function"@
                    &&& Some(written.function.name) == known_as(tool)
                    &&& written.function.arguments == json_text(tool_arguments(tool)->0)
                }
            } else {
                openai_call(call, fresh) is None
            },
            None => openai_call(call, fresh) is None,
        },
{
}

/// The value of a call's arguments is that of their text, and an empty object where the text
/// is blank or no JSON.
pub proof fn law_arguments_value(arguments: Seq<char>)
    ensures
        is_input(arguments_value(arguments), arguments),
{
}

/// The words for a result say what came of the call: the exit code and the output of a command,
/// how many items a tool or a resource gave, the text of a skill, and the message of an error.
/// The words for any other result name the tool where it is known.
pub proof fn law_result_words(result: ToolCallResultView, tool_name: Option<Seq<char>>)
    ensures
        ({
            let words = result_text(result, tool_name);
            match result.result {
                Some(
                    ToolResultView::RunShellCommand(
                        Some(RunShellCommandResultView::CommandFinished { exit_code, output }),
                    ),
                ) => exists|numeral: Seq<char>| #[trigger]
                    spells(numeral, exit_code as int) && words
                        == "Command finished with exit code "@ + numeral + ":\n"@ + output,
                Some(
                    ToolResultView::RunShellCommand(
                        Some(RunShellCommandResultView::LongRunningCommandSnapshot),
                    ),
                ) => words == "Command is still running."@,
                Some(
                    ToolResultView::RunShellCommand(
                        Some(RunShellCommandResultView::PermissionDenied),
                    ),
                ) => words == "Command execution was denied."@,
                Some(ToolResultView::RunShellCommand(None)) => words == "Command result received."@,
                Some(
                    ToolResultView::CallMcpTool(
                        Some(CallMcpToolResultView::Success { result_count }),
                    ),
                ) => exists|numeral: Seq<char>| #[trigger]
                    spells(numeral, result_count as int) && words == "MCP tool succeeded with "@
                        + numeral + " result item(s)."@,
                Some(
                    ToolResultView::CallMcpTool(Some(CallMcpToolResultView::Error { message })),
                ) => words == "MCP tool failed: "@ + message,
                Some(ToolResultView::CallMcpTool(None)) => words == "MCP tool result received."@,
                Some(
                    ToolResultView::ReadMcpResource(
                        Some(ReadMcpResourceResultView::Success { content_count }),
                    ),
                ) => exists|numeral: Seq<char>| #[trigger]
                    spells(numeral, content_count as int) && words == "Read "@ + numeral
                        + " MCP resource item(s)."@,
                Some(
                    ToolResultView::ReadMcpResource(
                        Some(ReadMcpResourceResultView::Error { message }),
                    ),
                ) => words == "MCP resource read failed: "@ + message,
                Some(ToolResultView::ReadMcpResource(None)) => words
                    == "MCP resource result received."@,
                Some(
                    ToolResultView::ReadSkill(Some(ReadSkillResultView::Success { content })),
                ) => match content {
                    Some(content) => words == if content.len() > 0 {
                        content
                    } else {
                        "Skill read successfully."@
                    },
                    None => words == "Skill read successfully."@,
                },
                Some(
                    ToolResultView::ReadSkill(Some(ReadSkillResultView::Error { message })),
                ) => words == "Skill read failed: "@ + message,
                Some(ToolResultView::ReadSkill(None)) => words == "Skill result received."@,
                Some(ToolResultView::Cancel) => words == "Tool call was cancelled."@,
                _ => match tool_name {
                    Some(name) => words == "Result received for tool `"@ + name + "`."@,
                    None => words == "Tool call result received."@,
                },
            }
        }),
{
    match result.result {
        Some(
            ToolResultView::RunShellCommand(
                Some(RunShellCommandResultView::CommandFinished { exit_code, output }),
            ),
        ) => {
            law_signed_decimal(exit_code as int);
            assert(spells(signed_decimal(exit_code as int), exit_code as int));
        },
        Some(
            ToolResultView::CallMcpTool(Some(CallMcpToolResultView::Success { result_count })),
        ) => {
            law_decimal(result_count as nat);
            assert(spells(decimal(result_count as nat), result_count as int));
        },
        Some(
            ToolResultView::ReadMcpResource(
                Some(ReadMcpResourceResultView::Success { content_count }),
            ),
        ) => {
            law_decimal(content_count as nat);
            assert(spells(decimal(content_count as nat), content_count as int));
        },
        _ => {},
    }
}

/// Whether what a schema requires is one key, and one that has a text.
pub open spec fn requires_text(required: JsonView, fields: Map<Seq<char>, JsonView>) -> bool {
    &&& required matches JsonView::Array(keys)
    &&& keys.len() == 1
    &&& keys[0] matches JsonView::Str(key)
    &&& fields.contains_key(key)
    &&& fields[key] is Str
}

/// Whether a schema takes arguments: it asks for an object with just their keys, and for each
/// of these for what stands there, unless that is null. It requires no key but one that always
/// has a text.
pub open spec fn takes(schema: JsonView, arguments: JsonView) -> bool {
    &&& says(schema, "type"@, "object"@)
    &&& has(schema, "additionalProperties"@, JsonView::Bool(false))
    &&& schema matches JsonView::Object(asked)
    &&& asked.contains_key("properties"@)
    &&& asked["properties"@] matches JsonView::Object(properties)
    &&& arguments matches JsonView::Object(fields)
    &&& properties.dom() == fields.dom()
    &&& forall|key: Seq<char>| #[trigger]
        fields.contains_key(key) ==> match fields[key] {
            JsonView::Str(_) => says(properties[key], "type"@, "string"@),
            JsonView::Bool(_) => says(properties[key], "type"@, "boolean"@),
            JsonView::Object(_) => says(properties[key], "type"@, "object"@),
            JsonView::Null => true,
            _ => false,
        }
    &&& asked.contains_key("required"@) ==> requires_text(asked["required"@], fields)
}

/// What a model is told that a tool does.
pub open spec fn described_as(tool: ToolView) -> Seq<char> {
    match tool {
        ToolView::RunShellCommand(_) => "Run a shell command in the current terminal session."@,
        ToolView::CallMcpTool(_) => "Call an MCP tool by name with optional JSON arguments."@,
        ToolView::ReadMcpResource(_) => "Read an MCP resource by URI."@,
        ToolView::ReadSkill(_) => "Read a local or bundled skill."@,
        ToolView::Other => Seq::empty(),
    }
}

/// The place of a tool among those that are offered.
pub open spec fn place_of(tool: ToolView) -> int {
    match tool {
        ToolView::RunShellCommand(_) => 0,
        ToolView::CallMcpTool(_) => 1,
        ToolView::ReadMcpResource(_) => 2,
        ToolView::ReadSkill(_) => 3,
        ToolView::Other => 4,
    }
}

/// Every known tool is offered, as a function under its name, with a schema that takes the
/// arguments of each of its calls; and no other tool is.
pub proof fn law_tools_offered(tool: ToolView)
    ensures
        tool_definitions().len() == 4,
        known_as(tool) is Some ==> {
            let definition = tool_definitions()[place_of(tool)];
            &&& definition.kind == "function"@
            &&& Some(definition.function.name) == known_as(tool)
            &&& takes(definition.function.parameters, tool_arguments(tool)->0)
            &&& definition.function.description == described_as(tool)
        },
{
    lemma_keys();
    law_arguments_written(tool);
    if known_as(tool) is Some {
        let schema = tool_definitions()[place_of(tool)].function.parameters;
        let properties = schema->Object_0["properties"@]->Object_0;
        let fields = tool_arguments(tool)->0->Object_0;
        assert(properties.dom() =~= fields.dom());
    }
}

/// The schema that a property of an object's schema has.
pub open spec fn property(schema: JsonView, key: Seq<char>, asked: JsonView) -> bool {
    schema matches JsonView::Object(fields) && fields.contains_key("properties"@) && has(
        fields["properties"@],
        key,
        asked,
    )
}

/// Whether a property is asked for by its type alone.
pub open spec fn typed(schema: JsonView, key: Seq<char>, json_type: Seq<char>) -> bool {
    exists|asked: JsonView| #[trigger]
        property(schema, key, asked) && has_keys(asked, set!["type"@]) && says(
            asked,
            "type"@,
            json_type,
        )
}

/// Whether a property is asked for by its type, with what it is for.
pub open spec fn explained(
    schema: JsonView,
    key: Seq<char>,
    json_type: Seq<char>,
    purpose: Seq<char>,
) -> bool {
    exists|asked: JsonView| #[trigger]
        property(schema, key, asked) && has_keys(asked, set!["type"@, "description"@]) && says(
            asked,
            "type"@,
            json_type,
        ) && says(asked, "description"@, purpose)
}

/// Whether a schema requires a key and no other.
pub open spec fn requires_key(schema: JsonView, key: Seq<char>) -> bool {
    &&& has_keys(schema, set!["type"@, "properties"@, "required"@, "additionalProperties"@])
    &&& has(schema, "required"@, JsonView::Array(seq![JsonView::Str(key)]))
}

/// A schema asks for each argument by its type, and says what those of a shell command are for.
/// A shell command, the name of an MCP tool and the address of a resource are required; of a
/// skill nothing is.
pub proof fn law_schemas(tool: ToolView)
    ensures
        ({
            let schema = tool_definitions()[place_of(tool)].function.parameters;
            match tool {
                ToolView::RunShellCommand(_) => {
                    &&& requires_key(schema, "command"@)
                    &&& explained(schema, "command"@, "string"@, "Shell command to execute."@)
                    &&& explained(
                        schema,
                        "wait_until_complete"@,
                        "boolean"@,
                        "Whether to wait for command completion before responding."@,
                    )
                },
                ToolView::CallMcpTool(_) => {
                    &&& requires_key(schema, "name"@)
                    &&& typed(schema, "name"@, "string"@)
                    &&& typed(schema, "args"@, "object"@)
                    &&& typed(schema, "server_id"@, "string"@)
                },
                ToolView::ReadMcpResource(_) => {
                    &&& requires_key(schema, "uri"@)
                    &&& typed(schema, "uri"@, "string"@)
                    &&& typed(schema, "server_id"@, "string"@)
                },
                ToolView::ReadSkill(_) => {
                    &&& has_keys(schema, set!["type"@, "properties"@, "additionalProperties"@])
                    &&& typed(schema, "name"@, "string"@)
                    &&& typed(schema, "skill_path"@, "string"@)
                    &&& typed(schema, "bundled_skill_id"@, "string"@)
                },
                ToolView::Other => true,
            }
        }),
{
    lemma_keys();
    if known_as(tool) is Some {
        let schema = tool_definitions()[place_of(tool)].function.parameters;
        let properties = schema->Object_0["properties"@]->Object_0;
        match tool {
            ToolView::ReadSkill(_) => {
                assert(schema->Object_0.dom() =~= set![
                    "type"@,
                    "properties"@,
                    "additionalProperties"@,
                ]);
            },
            _ => {
                assert(schema->Object_0.dom() =~= set![
                    "type"@,
                    "properties"@,
                    "required"@,
                    "additionalProperties"@,
                ]);
            },
        }
        assert forall|key: Seq<char>| #[trigger] properties.contains_key(key) implies property(
            schema,
            key,
            properties[key],
        ) && has_keys(
            properties[key],
            if tool is RunShellCommand {
                set!["type"@, "description"@]
            } else {
                set!["type"@]
            },
        ) by {
            if tool is RunShellCommand {
                assert(properties[key]->Object_0.dom() =~= set!["type"@, "description"@]);
            } else {
                assert(properties[key]->Object_0.dom() =~= set!["type"@]);
            }
        }
        match tool {
            ToolView::RunShellCommand(_) => {
                assert(property(schema, "command"@, properties["command"@]));
                assert(property(
                    schema,
                    "wait_until_complete"@,
                    properties["wait_until_complete"@],
                ));
            },
            ToolView::CallMcpTool(_) => {
                assert(property(schema, "name"@, properties["name"@]));
                assert(property(schema, "args"@, properties["args"@]));
                assert(property(schema, "server_id"@, properties["server_id"@]));
            },
            ToolView::ReadMcpResource(_) => {
                assert(property(schema, "uri"@, properties["uri"@]));
                assert(property(schema, "server_id"@, properties["server_id"@]));
            },
            ToolView::ReadSkill(_) => {
                assert(property(schema, "name"@, properties["name"@]));
                assert(property(schema, "skill_path"@, properties["skill_path"@]));
                assert(property(schema, "bundled_skill_id"@, properties["bundled_skill_id"@]));
            },
            ToolView::Other => {},
        }
    }
}

/// An Anthropic endpoint is offered the same tools: the name, the description and the schema of
/// each are kept.
pub proof fn law_same_tools(tool: ToolDefinitionView)
    ensures
        anthropic_definition(tool) == (anthropic::ToolDefinitionView {
            name: tool.function.name,
            description: tool.function.description,
            input_schema: tool.function.parameters,
        }),
{
}

} // verus!
