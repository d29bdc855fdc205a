use agent_workflow::chat::{
    assistant_message, choose_content, final_content, first_choice, normalize_content,
    remove_think_tags, reply_content, response_to_message, simple_request, ChatCompletionResponse,
    Choice, FunctionCall, Message, ResponseMessage, ToolCall, Usage,
};
use agent_workflow::error::{CompileError, ExecutionError, PlanError};
use agent_workflow::interaction::{
    a2a_message_to_llm_message, agent_reply, has_skill, llm_message_to_a2a_message, text_of_parts,
    MessagePart, Skill,
};
use agent_workflow::pattern::replace_matches;
use agent_workflow::tools::{define_all_tools, define_tool, ToolDescription};

fn s(text: &str) -> String {
    text.to_string()
}

fn skill(id: &str, name: &str, description: &str) -> Skill {
    Skill { id: s(id), name: s(name), description: s(description) }
}

#[test]
fn has_skill_looks_at_id_name_and_description() {
    let skills = vec![skill("weather-1", "Forecast", "tells tomorrow's weather"), skill("fx", "Rates", "currency")];
    assert!(has_skill(&skills, "weather"));
    assert!(has_skill(&skills, "Forecast"));
    assert!(has_skill(&skills, "tomorrow"));
    assert!(has_skill(&skills, "currency"));
    assert!(has_skill(&skills, ""));
    assert!(!has_skill(&skills, "forecast"));
    assert!(!has_skill(&skills, "stocks"));
    assert!(!has_skill(&Vec::new(), "weather"));
    assert!(!has_skill(&Vec::new(), ""));
}

#[test]
fn text_of_parts_joins_text_parts_by_line() {
    let parts = vec![
        MessagePart::Other,
        MessagePart::Text(s("first")),
        MessagePart::Other,
        MessagePart::Text(s("second")),
        MessagePart::Text(s("")),
        MessagePart::Text(s("fourth")),
    ];
    assert_eq!(text_of_parts(&parts), "first\nsecond\n\nfourth");
    assert_eq!(text_of_parts(&vec![MessagePart::Text(s("only"))]), "only");
    assert_eq!(text_of_parts(&vec![MessagePart::Other]), "");
    assert_eq!(text_of_parts(&Vec::new()), "");
    assert_eq!(text_of_parts(&vec![MessagePart::Text(s("")), MessagePart::Text(s("x"))]), "\nx");
}

#[test]
fn incoming_message_becomes_a_user_message() {
    let message = a2a_message_to_llm_message(&vec![MessagePart::Text(s("hi")), MessagePart::Text(s("there"))]);
    assert_eq!(message.role, "user");
    assert_eq!(message.content, Some(s("hi\nthere")));
    assert_eq!(message.tool_call_id, None);
    assert!(message.tool_calls.is_none());
}

#[test]
fn reply_messages() {
    let reply = agent_reply(s("done"));
    assert_eq!(reply.role, "agent");
    assert_eq!(reply.content, Some(s("done")));
    assert_eq!(reply.tool_call_id, None);
    assert!(reply.tool_calls.is_none());
    assert_eq!(llm_message_to_a2a_message(reply), Some(s("done")));
    let empty = Message { role: s("assistant"), content: None, tool_call_id: None, tool_calls: None };
    assert_eq!(llm_message_to_a2a_message(empty), None);
}

#[test]
fn simple_request_is_one_message() {
    let messages = simple_request(s("user"), s("what is up?"));
    assert_eq!(messages.len(), 1);
    assert_eq!(messages[0].role, "user");
    assert_eq!(messages[0].content, Some(s("what is up?")));
    assert_eq!(messages[0].tool_call_id, None);
    assert!(messages[0].tool_calls.is_none());
}

#[test]
fn reply_content_and_assistant_message() {
    let message = Message { role: s("assistant"), content: Some(s("c")), tool_call_id: None, tool_calls: None };
    assert_eq!(reply_content(Some(message)), Some(s("c")));
    assert_eq!(reply_content(None), None);
    let wrapped = assistant_message(Some(s("c"))).unwrap();
    assert_eq!(wrapped.role, "assistant");
    assert_eq!(wrapped.content, Some(s("c")));
    assert_eq!(wrapped.tool_call_id, None);
    assert!(wrapped.tool_calls.is_none());
    assert!(assistant_message(None).is_none());
}

fn response_with(choices: Vec<Choice>) -> ChatCompletionResponse {
    ChatCompletionResponse {
        id: s("r"),
        object: s("chat.completion"),
        created: 1,
        model: s("m"),
        choices,
        usage: Usage { prompt_tokens: 1, completion_tokens: 2, total_tokens: 3 },
        system_fingerprint: None,
    }
}

fn choice(index: u32, content: &str) -> Choice {
    Choice {
        index,
        message: ResponseMessage { role: s("assistant"), content: Some(s(content)), tool_calls: None },
        logprobs: None,
        finish_reason: s("stop"),
    }
}

#[test]
fn first_choice_of_a_response() {
    let message = first_choice(response_with(vec![choice(0, "zero"), choice(1, "one"), choice(2, "two")])).unwrap();
    assert_eq!(message.content, Some(s("zero")));
    assert_eq!(first_choice(response_with(vec![])).err(), Some(s("LLM response missing choices")));
}

#[test]
fn response_to_message_keeps_role_and_calls() {
    let call = ToolCall { id: s("c1"), kind: s("function"), function: FunctionCall { name: s("f"), arguments: s("{}") } };
    let response = ResponseMessage { role: s("assistant"), content: Some(s("raw")), tool_calls: Some(vec![call]) };
    let message = response_to_message(response, Some(s("clean")));
    assert_eq!(message.role, "assistant");
    assert_eq!(message.content, Some(s("clean")));
    assert_eq!(message.tool_call_id, None);
    let calls = message.tool_calls.unwrap();
    assert_eq!(calls.len(), 1);
    assert_eq!(calls[0].id, "c1");
    assert_eq!(calls[0].function.name, "f");
}

#[test]
fn replace_matches_replaces_every_match() {
    assert_eq!(replace_matches("a+", s("caaandaa"), "-"), "c-nd-");
    assert_eq!(replace_matches("(b)(c)", s("abcd"), "$2$1"), "acbd");
    assert_eq!(replace_matches("x", s("abc"), "y"), "abc");
    assert_eq!(replace_matches("(unclosed", s("abc"), "y"), "abc");
}

#[test]
fn remove_think_tags_unwraps_and_trims() {
    assert_eq!(remove_think_tags(s("<think>reasoning\nmore</think>answer")), "answer");
    assert_eq!(remove_think_tags(s("```json\n{\"a\": 1}\n```")), "{\"a\": 1}");
    assert_eq!(remove_think_tags(s("```\ncode\n``` tail")), "code tail");
    assert_eq!(remove_think_tags(s("  plain  ")), "plain");
    assert_eq!(remove_think_tags(s("a<think>1</think>b<think>2</think>c")), "abc");
    assert_eq!(remove_think_tags(s("<think>all</think>")), "");
    assert_eq!(remove_think_tags(s("")), "");
}

#[test]
fn choose_content_by_what_parsing_gave() {
    assert_eq!(choose_content(s("raw"), false, Some(s("x")), Some(s("y"))), Ok(s("raw")));
    assert_eq!(choose_content(s("raw"), true, Some(s("x")), Some(s("y"))), Ok(s("x")));
    assert_eq!(choose_content(s("raw"), true, None, Some(s("y"))), Ok(s("y")));
    assert_eq!(choose_content(s("raw"), true, None, None), Err(s("Failed to re-serialize JSON content")));
}

#[test]
fn normalize_content_reads_json() {
    assert_eq!(normalize_content(s("\"a string\"")), Ok(s("a string")));
    assert_eq!(normalize_content(s("{ \"a\" : 1 }")), Ok(s("{\"a\":1}")));
    assert_eq!(normalize_content(s("[1, 2,  3]")), Ok(s("[1,2,3]")));
    assert_eq!(normalize_content(s("42")), Ok(s("42")));
    assert_eq!(normalize_content(s("null")), Ok(s("null")));
    assert_eq!(normalize_content(s("just text")), Ok(s("just text")));
    assert_eq!(normalize_content(s("{ not json")), Ok(s("{ not json")));
    assert_eq!(normalize_content(s("")), Ok(s("")));
}

#[test]
fn final_content_cleans_then_normalizes() {
    assert_eq!(final_content(None), Ok(None));
    assert_eq!(final_content(Some(s("<think>hm</think> \"quoted\" "))), Ok(Some(s("quoted"))));
    assert_eq!(final_content(Some(s("```json\n{ \"k\": [true] }\n```"))), Ok(Some(s("{\"k\":[true]}"))));
    assert_eq!(final_content(Some(s("hello there"))), Ok(Some(s("hello there"))));
}

fn schema(entries: Vec<(&str, serde_json::Value)>) -> serde_json::Map<String, serde_json::Value> {
    let mut map = serde_json::Map::new();
    for (key, value) in entries {
        map.insert(key.to_string(), value);
    }
    map
}

fn text_value(text: &str) -> serde_json::Value {
    serde_json::Value::String(text.to_string())
}

#[test]
fn define_tool_reads_the_schema() {
    let properties = serde_json::Value::Object(schema(vec![("city", text_value("string"))]));
    let tool = define_tool(ToolDescription {
        name: s("weather"),
        description: Some(s("tells the weather")),
        input_schema: schema(vec![
            ("type", text_value("custom")),
            ("properties", properties.clone()),
            (
                "required",
                serde_json::Value::Array(vec![text_value("city"), serde_json::Value::Bool(true), text_value("day")]),
            ),
        ]),
    })
    .unwrap();
    assert_eq!(tool.kind, "function");
    assert_eq!(tool.function.name, "weather");
    assert_eq!(tool.function.description, "tells the weather");
    assert_eq!(tool.function.parameters.kind, "custom");
    assert_eq!(tool.function.parameters.properties, properties);
    assert_eq!(tool.function.parameters.required, Some(vec![s("city"), s("day")]));
}

#[test]
fn define_tool_falls_back_on_defaults() {
    let tool = define_tool(ToolDescription {
        name: s("bare"),
        description: Some(s("")),
        input_schema: schema(vec![("type", serde_json::Value::Bool(false)), ("required", text_value("city"))]),
    })
    .unwrap();
    assert_eq!(tool.function.parameters.kind, "object");
    assert_eq!(tool.function.parameters.properties, serde_json::Value::Object(serde_json::Map::new()));
    assert_eq!(tool.function.parameters.required, None);
    let tool = define_tool(ToolDescription { name: s("bare"), description: Some(s("d")), input_schema: schema(vec![]) })
        .unwrap();
    assert_eq!(tool.function.parameters.kind, "object");
    assert_eq!(tool.function.parameters.required, None);
}

#[test]
fn define_tool_refuses_a_missing_description() {
    let result = define_tool(ToolDescription { name: s("quiet"), description: None, input_schema: schema(vec![]) });
    assert_eq!(result.err(), Some(s("Tool description is missing for tool 'quiet'")));
}

#[test]
fn define_all_tools_converts_in_order_or_stops() {
    let all = define_all_tools(vec![
        ToolDescription { name: s("one"), description: Some(s("1")), input_schema: schema(vec![]) },
        ToolDescription { name: s("two"), description: Some(s("2")), input_schema: schema(vec![]) },
    ])
    .unwrap();
    assert_eq!(all.len(), 2);
    assert_eq!(all[0].function.name, "one");
    assert_eq!(all[1].function.name, "two");
    assert_eq!(define_all_tools(vec![]).unwrap().len(), 0);
    let stopped = define_all_tools(vec![
        ToolDescription { name: s("one"), description: Some(s("1")), input_schema: schema(vec![]) },
        ToolDescription { name: s("two"), description: None, input_schema: schema(vec![]) },
        ToolDescription { name: s("three"), description: None, input_schema: schema(vec![]) },
    ]);
    assert_eq!(
        stopped.err(),
        Some(s("Failed to define tools from rmcp::model::Tool vector: Tool description is missing for tool 'two'"))
    );
}

#[test]
fn error_messages() {
    assert_eq!(CompileError::CycleDetected.message(), "the dependencies of the plan form a cycle");
    assert_eq!(CompileError::UnknownDependency.message(), "a dependency names an undeclared activity");
    assert_eq!(CompileError::DuplicateNodeId.message(), "two activities declare the same id");
    assert_eq!(CompileError::MissingRequiredField.message(), "the plan lacks a required field");
    assert_eq!(ExecutionError::RemoteAgentUnavailable.message(), "remote agent unavailable");
    assert_eq!(ExecutionError::RemoteAgentError(s("x")).message(), "remote agent error: x");
    assert_eq!(ExecutionError::ToolExecutionError(s("y")).message(), "tool execution error: y");
    assert_eq!(ExecutionError::TaskExecutionError(s("z")).message(), "task execution error: z");
    assert_eq!(ExecutionError::Timeout.message(), "timeout");
    assert_eq!(PlanError::EmptyFrontier.message(), "empty frontier: no activity is free to start");
    assert_eq!(PlanError::Cancelled.message(), "cancelled");
    assert_eq!(
        PlanError::NodeExecutionFailed(s("n1"), ExecutionError::Timeout).message(),
        "activity 'n1' failed: timeout"
    );
}
