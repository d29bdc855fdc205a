//! The tools that are offered to a chat-completion model.

use vstd::prelude::*;
use vstd::string::StringExecFns;
use crate::document::{
    empty_object, entry_of, json_entries_of, json_items, json_items_of, json_string, json_string_of,
    object_entries, object_get,
};
use crate::text::texts;

verus! {

/// The parameters of a function, as a JSON schema.
#[derive(Debug, Clone)]
pub struct FunctionParameters {
    /// The `type` entry of the schema, usually `object`.
    pub kind: String,
    /// The schema of every parameter, by name.
    pub properties: serde_json::Value,
    /// The names of the parameters that must be given.
    pub required: Option<Vec<String>>,
}

/// A function that the model may call.
#[derive(Debug, Clone)]
pub struct FunctionDefinition {
    pub name: String,
    pub description: String,
    pub parameters: FunctionParameters,
}

/// A tool as it is offered to the model.
#[derive(Debug, Clone)]
pub struct Tool {
    /// The `type` entry of the tool: `function`.
    pub kind: String,
    pub function: FunctionDefinition,
}

/// The result of one tool call, to be sent back to the model.
#[derive(Debug, Clone)]
pub struct ToolResult {
    /// The id of the call that this answers.
    pub tool_call_id: String,
    pub output: String,
}

/// What is read of a tool that a tool server describes.
#[derive(Debug)]
pub struct ToolDescription {
    pub name: String,
    pub description: Option<String>,
    /// The JSON schema of the parameters of the tool.
    pub input_schema: serde_json::Map<String, serde_json::Value>,
}

/// The strings among `items`, in order.
pub open spec fn strings_among(items: Seq<serde_json::Value>) -> Seq<Seq<char>>
    decreases items.len(),
{
    if items.len() == 0 {
        Seq::empty()
    } else {
        let earlier = strings_among(items.drop_last());
        match json_string_of(items.last()) {
            Some(s) => earlier.push(s),
            None => earlier,
        }
    }
}

/// The `type` of a schema: its entry `type` where that is a string, else
/// `object`.
pub open spec fn schema_type(schema: Map<Seq<char>, serde_json::Value>) -> Seq<char> {
    let entry = entry_of(schema, "type"@);
    if entry is Some && json_string_of(entry->0) is Some {
        json_string_of(entry->0)->0
    } else {
        "object"@
    }
}

/// The required parameters of a schema: the strings among the items of its
/// entry `required`, where that is an array.
pub open spec fn schema_required(schema: Map<Seq<char>, serde_json::Value>) -> Option<
    Seq<Seq<char>>,
> {
    let entry = entry_of(schema, "required"@);
    if entry is Some && json_items_of(entry->0) is Some {
        Some(strings_among(json_items_of(entry->0)->0))
    } else {
        None
    }
}

/// The view of an optional list of strings.
pub open spec fn opt_texts(list: Option<Vec<String>>) -> Option<Seq<Seq<char>>> {
    match list {
        Some(l) => Some(texts(l@)),
        None => None,
    }
}

/// `tool` is what the description `d` defines: a `function` with the name
/// and the description of `d`, whose parameters have the type, the
/// properties and the required names of the schema. A schema without
/// `properties` gives an object without entries.
pub open spec fn defines(d: ToolDescription, tool: Tool) -> bool {
    let schema = object_entries(d.input_schema);
    &&& d.description is Some
    &&& tool.kind@ == "function"@
    &&& tool.function.name@ == d.name@
    &&& tool.function.description@ == d.description->0@
    &&& tool.function.parameters.kind@ == schema_type(schema)
    &&& entry_of(schema, "properties"@) is Some ==> tool.function.parameters.properties == entry_of(
        schema,
        "properties"@,
    )->0
    &&& entry_of(schema, "properties"@) is None ==> json_entries_of(
        tool.function.parameters.properties,
    ) == Some(Map::<Seq<char>, serde_json::Value>::empty())
    &&& opt_texts(tool.function.parameters.required) == schema_required(schema)
}

/// The error that a tool without description gives.
pub open spec fn missing_description(name: Seq<char>) -> Seq<char> {
    "Tool description is missing for tool '"@ + name + "'"@
}

/// The error that a list of tools gives where `cause` stopped it.
pub open spec fn not_defined(cause: Seq<char>) -> Seq<char> {
    "Failed to define tools from rmcp::model::Tool vector: "@ + cause
}

/// The strings among `items`, in order.
fn strings_of(items: &Vec<serde_json::Value>) -> (strings: Vec<String>)
    ensures
        texts(strings@) == strings_among(items@),
{
    let mut strings: Vec<String> = Vec::new();
    let mut i: usize = 0;
    proof {
        assert(items@.take(0) =~= Seq::empty());
        assert(texts(strings@) =~= Seq::empty());
    }
    while i < items.len()
        invariant
            i <= items.len(),
            texts(strings@) == strings_among(items@.take(i as int)),
        decreases items.len() - i,
    {
        proof {
            assert(items@.take(i as int + 1).drop_last() =~= items@.take(i as int));
            assert(items@.take(i as int + 1).last() == items@[i as int]);
        }
        let ghost before = texts(strings@);
        match json_string(&items[i]) {
            Some(s) => {
                strings.push(s);
                assert(texts(strings@) =~= before.push(json_string_of(items@[i as int])->0));
            },
            None => {},
        }
        i += 1;
    }
    proof {
        assert(items@.take(i as int) =~= items@);
    }
    strings
}

/// Defines the tool that a description stands for. A description without
/// text is refused.
pub fn define_tool(d: ToolDescription) -> (defined: Result<Tool, String>)
    ensures
        defined is Ok <==> d.description is Some,
        defined is Ok ==> defines(d, defined->Ok_0),
        defined is Err ==> defined->Err_0@ == missing_description(d.name@),
{
    let ToolDescription { name, description, input_schema } = d;
    let description = match description {
        Some(text) => text,
        None => {
            return Err(
                "Tool description is missing for tool '".to_string().concat(name.as_str()).concat(
                    "'",
                ),
            );
        },
    };
    let kind = match object_get(&input_schema, "type") {
        Some(entry) => match json_string(&entry) {
            Some(s) => s,
            None => "object".to_string(),
        },
        None => "object".to_string(),
    };
    let properties = match object_get(&input_schema, "properties") {
        Some(entry) => entry,
        None => empty_object(),
    };
    let required = match object_get(&input_schema, "required") {
        Some(entry) => match json_items(&entry) {
            Some(items) => Some(strings_of(&items)),
            None => None,
        },
        None => None,
    };
    Ok(
        Tool {
            kind: "function".to_string(),
            function: FunctionDefinition {
                name,
                description,
                parameters: FunctionParameters { kind, properties, required },
            },
        },
    )
}

/// Defines the tools that a list of descriptions stands for, one for one and
/// in order. The first description without text stops the list with an
/// error that names its tool.
pub fn define_all_tools(tools: Vec<ToolDescription>) -> (defined: Result<Vec<Tool>, String>)
    ensures
        defined is Ok <==> forall|i: int| 0 <= i < tools@.len() ==> (#[trigger] tools@[i]).description is Some,
        defined is Ok ==> defined->Ok_0@.len() == tools@.len(),
        defined is Ok ==> forall|i: int|
            0 <= i < tools@.len() ==> defines(tools@[i], #[trigger] defined->Ok_0@[i]),
        defined is Err ==> exists|i: int|
            0 <= i < tools@.len() && (#[trigger] tools@[i]).description is None && (forall|j: int|
                0 <= j < i ==> (#[trigger] tools@[j]).description is Some) && defined->Err_0@
                == not_defined(missing_description(tools@[i].name@)),
{
    let ghost all = tools@;
    let mut defined: Vec<Tool> = Vec::new();
    for d in it: tools
        invariant
            it.seq() == all,
            defined.len() == it.index(),
            forall|j: int| 0 <= j < it.index() ==> (#[trigger] all[j]).description is Some,
            forall|j: int| 0 <= j < it.index() ==> defines(all[j], #[trigger] defined@[j]),
    {
        match define_tool(d) {
            Ok(tool) => {
                defined.push(tool);
            },
            Err(cause) => {
                return Err(
                    "Failed to define tools from rmcp::model::Tool vector: ".to_string().concat(
                        cause.as_str(),
                    ),
                );
            },
        }
    }
    Ok(defined)
}

} // verus!
