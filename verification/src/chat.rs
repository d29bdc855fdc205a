//! The messages exchanged with a chat-completion model.

use vstd::prelude::*;
use crate::document::{
    json_parsed, json_string, json_string_of, json_text, json_text_of, parse_json,
};
use crate::pattern::{replace_matches, replaced_or_same};
use crate::text::{opt_text, trim, trim_of};

verus! {

/// The name of a function that the model may call.
#[derive(Debug, Clone)]
pub struct FunctionName {
    pub name: String,
}

/// Which tool the model is to call, if any.
#[derive(Debug, Clone)]
pub enum ToolChoice {
    /// `none` or `auto`.
    String(String),
    /// One function, by name.
    Function {
        /// The `type` entry of the choice: `function`.
        kind: String,
        function: FunctionName,
    },
}

/// A call of a function, as the model asks for it.
#[derive(Debug, Clone)]
pub struct FunctionCall {
    pub name: String,
    /// The arguments, as JSON text.
    pub arguments: String,
}

pub struct FunctionCallView {
    pub name: Seq<char>,
    pub arguments: Seq<char>,
}

/// A call of a tool, as the model asks for it.
#[derive(Debug, Clone)]
pub struct ToolCall {
    /// The id to send back with the result of the call.
    pub id: String,
    /// The `type` entry of the call: `function`.
    pub kind: String,
    pub function: FunctionCall,
}

pub struct ToolCallView {
    pub id: Seq<char>,
    pub kind: Seq<char>,
    pub function: FunctionCallView,
}

impl DeepView for ToolCall {
    type V = ToolCallView;

    open spec fn deep_view(&self) -> ToolCallView {
        ToolCallView {
            id: self.id@,
            kind: self.kind@,
            function: FunctionCallView {
                name: self.function.name@,
                arguments: self.function.arguments@,
            },
        }
    }
}

impl View for ToolCall {
    type V = ToolCallView;

    open spec fn view(&self) -> ToolCallView {
        self.deep_view()
    }
}

/// One message of a conversation.
#[derive(Debug, Clone)]
pub struct Message {
    /// `system`, `user`, `assistant` or `tool`.
    pub role: String,
    pub content: Option<String>,
    /// The id of the call that a `tool` message answers.
    pub tool_call_id: Option<String>,
    /// The calls that an `assistant` message asks for.
    pub tool_calls: Option<Vec<ToolCall>>,
}

pub struct MessageView {
    pub role: Seq<char>,
    pub content: Option<Seq<char>>,
    pub tool_call_id: Option<Seq<char>>,
    pub tool_calls: Option<Seq<ToolCallView>>,
}

impl DeepView for Message {
    type V = MessageView;

    open spec fn deep_view(&self) -> MessageView {
        MessageView {
            role: self.role@,
            content: opt_text(self.content),
            tool_call_id: opt_text(self.tool_call_id),
            tool_calls: self.tool_calls.deep_view(),
        }
    }
}

impl View for Message {
    type V = MessageView;

    open spec fn view(&self) -> MessageView {
        self.deep_view()
    }
}

/// The message of the model in one choice of a response.
#[derive(Debug, Clone)]
pub struct ResponseMessage {
    pub role: String,
    /// Absent where the model asks for tool calls instead.
    pub content: Option<String>,
    pub tool_calls: Option<Vec<ToolCall>>,
}

/// The token counts of one completion.
#[derive(Debug, Clone, Copy, PartialEq, Eq, Structural)]
pub struct Usage {
    pub prompt_tokens: u32,
    pub completion_tokens: u32,
    pub total_tokens: u32,
}

/// One choice of a response.
#[derive(Debug, Clone)]
pub struct Choice {
    pub index: u32,
    pub message: ResponseMessage,
    pub logprobs: Option<serde_json::Value>,
    /// `stop`, `length`, `tool_calls` and the like.
    pub finish_reason: String,
}

/// The response of the model to one request.
#[derive(Debug, Clone)]
pub struct ChatCompletionResponse {
    pub id: String,
    pub object: String,
    pub created: u64,
    pub model: String,
    pub choices: Vec<Choice>,
    pub usage: Usage,
    pub system_fingerprint: Option<String>,
}

/// The conversation of a simple request: one message with the query, in the
/// given role.
pub fn simple_request(agent_role: String, user_query: String) -> (messages: Vec<Message>)
    ensures
        messages.deep_view() == seq![
            MessageView {
                role: agent_role@,
                content: Some(user_query@),
                tool_call_id: None,
                tool_calls: None,
            },
        ],
{
    let mut messages: Vec<Message> = Vec::new();
    messages.push(
        Message { role: agent_role, content: Some(user_query), tool_call_id: None, tool_calls: None },
    );
    assert(messages.deep_view() =~= seq![
        MessageView {
            role: agent_role@,
            content: Some(user_query@),
            tool_call_id: None,
            tool_calls: None,
        },
    ]);
    messages
}

/// The content of the reply to a simple request, if there is a reply and it
/// has content.
pub fn reply_content(reply: Option<Message>) -> (content: Option<String>)
    ensures
        content == (if reply is Some {
            reply->0.content
        } else {
            None
        }),
{
    match reply {
        Some(message) => message.content,
        None => None,
    }
}

/// The reply to a simple request as a message of the `assistant`, if there
/// is content.
pub fn assistant_message(content: Option<String>) -> (message: Option<Message>)
    ensures
        message is Some <==> content is Some,
        message is Some ==> message->0@ == (MessageView {
            role: "assistant"@,
            content: Some(content->0@),
            tool_call_id: None,
            tool_calls: None,
        }),
{
    match content {
        Some(text) => Some(
            Message {
                role: "assistant".to_string(),
                content: Some(text),
                tool_call_id: None,
                tool_calls: None,
            },
        ),
        None => None,
    }
}

/// The text of the error that a response without choices gives.
pub open spec fn missing_choices() -> Seq<char> {
    "LLM response missing choices"@
}

/// The message of the first choice of a response; an error where the
/// response has no choice.
pub fn first_choice(response: ChatCompletionResponse) -> (message: Result<ResponseMessage, String>)
    ensures
        message is Ok <==> response.choices@.len() > 0,
        message is Ok ==> message->Ok_0 == response.choices@[0].message,
        message is Err ==> message->Err_0@ == missing_choices(),
{
    let mut choices = response.choices;
    if choices.len() == 0 {
        return Err("LLM response missing choices".to_string());
    }
    let first = choices.swap_remove(0);
    Ok(first.message)
}

/// The message that a response of the model becomes: its role and tool
/// calls, with `content` in place of its content. It answers no tool call.
pub fn response_to_message(response: ResponseMessage, content: Option<String>) -> (message: Message)
    ensures
        message == (Message {
            role: response.role,
            content: content,
            tool_call_id: None,
            tool_calls: response.tool_calls,
        }),
{
    Message { role: response.role, content, tool_call_id: None, tool_calls: response.tool_calls }
}

/// The pattern of a fenced block that is marked as JSON; its first group is
/// what the fence holds.
pub open spec fn json_fence() -> Seq<char> {
    "```json\\s*([\\s\\S]*?)\\s*```"@
}

/// The pattern of any fenced block; its first group is what the fence holds.
pub open spec fn code_fence() -> Seq<char> {
    "```\\s*([\\s\\S]*?)\\s*```"@
}

/// The pattern of a block of reasoning that the model thinks aloud.
pub open spec fn think_block() -> Seq<char> {
    "<think>([\\s\\S]*?)</think>"@
}

/// A reply of the model made plain: every fenced block replaced by what it
/// holds, first those marked as JSON, then the others; every block of
/// reasoning removed; and the white space around the rest trimmed.
pub open spec fn without_think_tags(text: Seq<char>) -> Seq<char> {
    let unfenced_json = replaced_or_same(json_fence(), text, "$1"@);
    let unfenced = replaced_or_same(code_fence(), unfenced_json, "$1"@);
    let unthought = replaced_or_same(think_block(), unfenced, ""@);
    trim_of(unthought)
}

/// Makes a reply of the model plain: unwraps fenced blocks, removes blocks
/// of reasoning, and trims the white space around the rest.
pub fn remove_think_tags(result: String) -> (cleaned: String)
    ensures
        cleaned@ == without_think_tags(result@),
{
    let unfenced_json = replace_matches("```json\\s*([\\s\\S]*?)\\s*```", result, "$1");
    let unfenced = replace_matches("```\\s*([\\s\\S]*?)\\s*```", unfenced_json, "$1");
    let unthought = replace_matches("<think>([\\s\\S]*?)</think>", unfenced, "");
    trim(unthought.as_str())
}

/// The text of the error that a document gives which cannot be written
/// again.
pub open spec fn not_rewritten() -> Seq<char> {
    "Failed to re-serialize JSON content"@
}

/// The content that stands for a plain reply, given what reading it as JSON
/// gave: the reply itself where it is no JSON; the string where it is a JSON
/// string; else the document written again, compactly; an error where it
/// cannot be written.
pub open spec fn content_of(
    plain: Seq<char>,
    parsed: bool,
    string: Option<Seq<char>>,
    text: Option<Seq<char>>,
) -> Result<Seq<char>, Seq<char>> {
    if !parsed {
        Ok(plain)
    } else if string is Some {
        Ok(string->0)
    } else if text is Some {
        Ok(text->0)
    } else {
        Err(not_rewritten())
    }
}

/// The view of a content or its error.
pub open spec fn content_view(content: Result<String, String>) -> Result<Seq<char>, Seq<char>> {
    match content {
        Ok(c) => Ok(c@),
        Err(e) => Err(e@),
    }
}

/// Chooses the content that stands for a plain reply: `parsed` says whether
/// the reply is JSON, `string` is the string that it is where it is a JSON
/// string, and `text` is the document written again.
pub fn choose_content(
    plain: String,
    parsed: bool,
    string: Option<String>,
    text: Option<String>,
) -> (content: Result<String, String>)
    ensures
        content_view(content) == content_of(plain@, parsed, opt_text(string), opt_text(text)),
{
    if !parsed {
        return Ok(plain);
    }
    match string {
        Some(s) => Ok(s),
        None => match text {
            Some(t) => Ok(t),
            None => Err("Failed to re-serialize JSON content".to_string()),
        },
    }
}

/// The content that stands for the plain reply `plain`.
pub open spec fn normalized(plain: Seq<char>) -> Result<Seq<char>, Seq<char>> {
    let parsed = json_parsed(plain);
    if parsed is None {
        content_of(plain, false, None, None)
    } else if json_string_of(parsed->0) is Some {
        content_of(plain, true, json_string_of(parsed->0), None)
    } else {
        content_of(plain, true, None, json_text_of(parsed->0))
    }
}

/// Normalizes a plain reply: a reply that is a JSON string gives the string
/// itself; a reply that is any other JSON document gives the document,
/// written again compactly; a reply that is no JSON is kept as it is.
pub fn normalize_content(plain: String) -> (content: Result<String, String>)
    ensures
        content_view(content) == normalized(plain@),
{
    match parse_json(plain.as_str()) {
        None => choose_content(plain, false, None, None),
        Some(doc) => {
            let string = json_string(&doc);
            if string.is_some() {
                choose_content(plain, true, string, None)
            } else {
                let text = json_text(&doc);
                choose_content(plain, true, None, text)
            }
        },
    }
}

/// The content of the message that a reply of the model becomes: absent
/// where the reply has none, else the reply made plain and normalized.
pub open spec fn final_content_of(content: Option<Seq<char>>) -> Result<
    Option<Seq<char>>,
    Seq<char>,
> {
    if content is None {
        Ok(None)
    } else {
        match normalized(without_think_tags(content->0)) {
            Ok(c) => Ok(Some(c)),
            Err(e) => Err(e),
        }
    }
}

/// The content of the message that a reply of the model becomes.
pub fn final_content(content: Option<String>) -> (cleaned: Result<Option<String>, String>)
    ensures
        cleaned is Ok <==> final_content_of(opt_text(content)) is Ok,
        cleaned is Ok ==> Ok::<Option<Seq<char>>, Seq<char>>(opt_text(cleaned->Ok_0))
            == final_content_of(opt_text(content)),
        cleaned is Err ==> Err::<Option<Seq<char>>, Seq<char>>(cleaned->Err_0@)
            == final_content_of(opt_text(content)),
{
    match content {
        None => Ok(None),
        Some(text) => {
            match normalize_content(remove_think_tags(text)) {
                Ok(c) => Ok(Some(c)),
                Err(e) => Err(e),
            }
        },
    }
}

} // verus!
