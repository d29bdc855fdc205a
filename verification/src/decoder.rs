//! The plan document as JSON: reading a plan from a document.
//!
//! A plan is a JSON object with the entries `plan_name` and `activities`.
//! Every activity is an object with the required entries `activity_type`,
//! `id`, `description`, `type` and `expected_outcome` and the optional
//! entries `agent`, `tools`, `tasks` and `dependencies`. An optional entry
//! may be left out or be `null`. Entries that the format does not name are
//! passed over. A document in which a required entry is missing, or in
//! which an entry is not of the kind that the format asks for, is refused
//! with `MissingRequiredField`.

use vstd::prelude::*;
use crate::compiler::{compile, plan_valid, refusal, CompiledPlan};
use crate::document::{
    entry_of, is_null, json_entries_of, json_is_null, json_items, json_items_of, json_object,
    json_parsed, json_string, json_string_of, null_document, object_entries, object_get,
    parse_json,
};
use crate::error::CompileError;
use crate::plan::{
    ActivityInput, ActivityInputView, ActivityType, AgentConfigInput, AgentConfigInputView,
    Dependency, DependencyView, TaskConfigInput, TaskConfigInputView, ToolConfigInput,
    ToolConfigInputView, WorkflowPlanInput, WorkflowPlanInputView,
};
use crate::text::opt_text;

verus! {

/// What stands for a JSON object: its entries by key.
pub type Entries = Map<Seq<char>, serde_json::Value>;

/// The entry under `key`, where there is one that is not `null`.
pub open spec fn given(entries: Entries, key: Seq<char>) -> Option<serde_json::Value> {
    let entry = entry_of(entries, key);
    if entry is Some && !json_is_null(entry->0) {
        entry
    } else {
        None
    }
}

/// The text under `key`, which must be there.
pub open spec fn required_text(entries: Entries, key: Seq<char>) -> Option<Seq<char>> {
    let entry = entry_of(entries, key);
    if entry is Some {
        json_string_of(entry->0)
    } else {
        None
    }
}

/// The text under `key`, which may be left out: `Some(None)` where it is,
/// `None` where the entry is no text.
pub open spec fn optional_text(entries: Entries, key: Seq<char>) -> Option<Option<Seq<char>>> {
    let entry = given(entries, key);
    if entry is None {
        Some(None)
    } else if json_string_of(entry->0) is Some {
        Some(json_string_of(entry->0))
    } else {
        None
    }
}

/// The document under `key`, or `null` where there is none.
pub open spec fn is_document_or_null(
    entries: Entries,
    key: Seq<char>,
    doc: serde_json::Value,
) -> bool {
    let entry = entry_of(entries, key);
    if entry is Some {
        doc == entry->0
    } else {
        json_is_null(doc)
    }
}

/// The items of a list, each read by `read`; `None` where one of them is
/// refused.
pub open spec fn each<T>(
    items: Seq<serde_json::Value>,
    read: spec_fn(serde_json::Value) -> Option<T>,
) -> Option<Seq<T>>
    decreases items.len(),
{
    if items.len() == 0 {
        Some(Seq::empty())
    } else {
        let earlier = each(items.drop_last(), read);
        let last = read(items.last());
        if earlier is Some && last is Some {
            Some(earlier->0.push(last->0))
        } else {
            None
        }
    }
}

/// A list of which a part is refused is refused.
pub proof fn lemma_each_refused<T>(
    items: Seq<serde_json::Value>,
    read: spec_fn(serde_json::Value) -> Option<T>,
    n: int,
)
    requires
        0 <= n <= items.len(),
        each(items.take(n), read) is None,
    ensures
        each(items, read) is None,
    decreases items.len() - n,
{
    if n < items.len() {
        assert(items.take(n + 1).drop_last() =~= items.take(n));
        lemma_each_refused(items, read, n + 1);
    } else {
        assert(items.take(n) =~= items);
    }
}

/// The list under `key`, which may be left out: `Some(None)` where it is,
/// `None` where the entry is no list.
pub open spec fn optional_items(entries: Entries, key: Seq<char>) -> Option<
    Option<Seq<serde_json::Value>>,
> {
    let entry = given(entries, key);
    if entry is None {
        Some(None)
    } else if json_items_of(entry->0) is Some {
        Some(json_items_of(entry->0))
    } else {
        None
    }
}

/// The activity type that a text names.
pub open spec fn activity_type_of(name: Seq<char>) -> Option<ActivityType> {
    if name == "delegation_agent"@ {
        Some(ActivityType::DelegationAgent)
    } else if name == "direct_tool_use"@ {
        Some(ActivityType::DirectToolUse)
    } else if name == "direct_task_execution"@ {
        Some(ActivityType::DirectTaskExecution)
    } else {
        None
    }
}

/// The dependency that the document `doc` stands for.
pub open spec fn dependency_of(doc: serde_json::Value) -> Option<DependencyView> {
    let entries = json_entries_of(doc);
    if entries is Some && required_text(entries->0, "source"@) is Some && optional_text(
        entries->0,
        "condition"@,
    ) is Some {
        Some(
            DependencyView {
                source: required_text(entries->0, "source"@)->0,
                condition: optional_text(entries->0, "condition"@)->0,
            },
        )
    } else {
        None
    }
}

/// `tool` is a tool entry that the document `doc` stands for. Its
/// parameters are the entry `tool_parameters`, or `null` where there is
/// none.
pub open spec fn is_tool_of(doc: serde_json::Value, tool: ToolConfigInputView) -> bool {
    let entries = json_entries_of(doc);
    &&& entries is Some
    &&& optional_text(entries->0, "tool_to_use"@) == Some(tool.tool_to_use)
    &&& is_document_or_null(entries->0, "tool_parameters"@, tool.tool_parameters)
}

/// The document `doc` stands for a tool entry.
pub open spec fn is_tool(doc: serde_json::Value) -> bool {
    json_entries_of(doc) is Some && optional_text(json_entries_of(doc)->0, "tool_to_use"@) is Some
}

/// `task` is a task entry that the document `doc` stands for. Its
/// parameters are the entry `task_parameters`, or `null` where there is
/// none.
pub open spec fn is_task_of(doc: serde_json::Value, task: TaskConfigInputView) -> bool {
    let entries = json_entries_of(doc);
    &&& entries is Some
    &&& optional_text(entries->0, "task_to_use"@) == Some(task.task_to_use)
    &&& is_document_or_null(entries->0, "task_parameters"@, task.task_parameters)
}

/// The document `doc` stands for a task entry.
pub open spec fn is_task(doc: serde_json::Value) -> bool {
    json_entries_of(doc) is Some && optional_text(json_entries_of(doc)->0, "task_to_use"@) is Some
}

/// The agent block that the document `doc` stands for.
pub open spec fn agent_of(doc: serde_json::Value) -> Option<AgentConfigInputView> {
    let entries = json_entries_of(doc);
    if entries is Some && optional_text(entries->0, "skill_to_use"@) is Some && optional_text(
        entries->0,
        "assigned_agent_id_preference"@,
    ) is Some {
        Some(
            AgentConfigInputView {
                skill_to_use: optional_text(entries->0, "skill_to_use"@)->0,
                assigned_agent_id_preference: optional_text(
                    entries->0,
                    "assigned_agent_id_preference"@,
                )->0,
                agent_context: given(entries->0, "agent_context"@),
            },
        )
    } else {
        None
    }
}

/// The text under `key`, which must be there.
fn read_required_text(object: &serde_json::Map<String, serde_json::Value>, key: &str) -> (text:
    Option<String>)
    ensures
        opt_text(text) == required_text(object_entries(*object), key@),
{
    match object_get(object, key) {
        Some(entry) => json_string(&entry),
        None => None,
    }
}

/// The entry under `key`, where there is one that is not `null`.
fn read_given(object: &serde_json::Map<String, serde_json::Value>, key: &str) -> (entry: Option<
    serde_json::Value,
>)
    ensures
        entry == given(object_entries(*object), key@),
{
    match object_get(object, key) {
        Some(entry) => {
            if is_null(&entry) {
                None
            } else {
                Some(entry)
            }
        },
        None => None,
    }
}

/// The view of a text that may be left out, or of its refusal.
pub open spec fn opt_opt_text(text: Option<Option<String>>) -> Option<Option<Seq<char>>> {
    match text {
        Some(t) => Some(opt_text(t)),
        None => None,
    }
}

/// The text under `key`, which may be left out.
fn read_optional_text(object: &serde_json::Map<String, serde_json::Value>, key: &str) -> (text:
    Option<Option<String>>)
    ensures
        opt_opt_text(text) == optional_text(object_entries(*object), key@),
{
    match read_given(object, key) {
        None => Some(None),
        Some(entry) => match json_string(&entry) {
            Some(text) => Some(Some(text)),
            None => None,
        },
    }
}

/// The document under `key`, or `null` where there is none.
fn read_document_or_null(object: &serde_json::Map<String, serde_json::Value>, key: &str) -> (doc:
    serde_json::Value)
    ensures
        is_document_or_null(object_entries(*object), key@, doc),
{
    match object_get(object, key) {
        Some(entry) => entry,
        None => null_document(),
    }
}

/// The list under `key`, which may be left out.
fn read_optional_items(object: &serde_json::Map<String, serde_json::Value>, key: &str) -> (items:
    Option<Option<Vec<serde_json::Value>>>)
    ensures
        items is Some <==> optional_items(object_entries(*object), key@) is Some,
        items is Some ==> (items->0 is Some <==> optional_items(object_entries(*object), key@)->0
            is Some),
        items is Some && items->0 is Some ==> items->0->0@ == optional_items(
            object_entries(*object),
            key@,
        )->0->0,
{
    match read_given(object, key) {
        None => Some(None),
        Some(entry) => match json_items(&entry) {
            Some(items) => Some(Some(items)),
            None => None,
        },
    }
}

/// The activity type that `name` names.
fn read_activity_type(name: &String) -> (activity_type: Option<ActivityType>)
    ensures
        activity_type == activity_type_of(name@),
{
    if *name == "delegation_agent".to_string() {
        Some(ActivityType::DelegationAgent)
    } else if *name == "direct_tool_use".to_string() {
        Some(ActivityType::DirectToolUse)
    } else if *name == "direct_task_execution".to_string() {
        Some(ActivityType::DirectTaskExecution)
    } else {
        None
    }
}

/// Reads one dependency.
fn read_dependency(doc: &serde_json::Value) -> (dependency: Option<Dependency>)
    ensures
        dependency.deep_view() == dependency_of(*doc),
{
    let object = match json_object(doc) {
        Some(object) => object,
        None => {
            return None;
        },
    };
    let source = match read_required_text(&object, "source") {
        Some(source) => source,
        None => {
            return None;
        },
    };
    match read_optional_text(&object, "condition") {
        Some(condition) => Some(Dependency { source, condition }),
        None => None,
    }
}

/// Reads one tool entry.
fn read_tool(doc: &serde_json::Value) -> (tool: Option<ToolConfigInput>)
    ensures
        tool is Some <==> is_tool(*doc),
        tool is Some ==> is_tool_of(*doc, tool->0@),
{
    let object = match json_object(doc) {
        Some(object) => object,
        None => {
            return None;
        },
    };
    match read_optional_text(&object, "tool_to_use") {
        Some(tool_to_use) => Some(
            ToolConfigInput {
                tool_to_use,
                tool_parameters: read_document_or_null(&object, "tool_parameters"),
            },
        ),
        None => None,
    }
}

/// Reads one task entry.
fn read_task(doc: &serde_json::Value) -> (task: Option<TaskConfigInput>)
    ensures
        task is Some <==> is_task(*doc),
        task is Some ==> is_task_of(*doc, task->0@),
{
    let object = match json_object(doc) {
        Some(object) => object,
        None => {
            return None;
        },
    };
    match read_optional_text(&object, "task_to_use") {
        Some(task_to_use) => Some(
            TaskConfigInput {
                task_to_use,
                task_parameters: read_document_or_null(&object, "task_parameters"),
            },
        ),
        None => None,
    }
}

/// Reads an agent block.
fn read_agent(doc: &serde_json::Value) -> (agent: Option<AgentConfigInput>)
    ensures
        agent.deep_view() == agent_of(*doc),
{
    let object = match json_object(doc) {
        Some(object) => object,
        None => {
            return None;
        },
    };
    let skill_to_use = match read_optional_text(&object, "skill_to_use") {
        Some(text) => text,
        None => {
            return None;
        },
    };
    let assigned_agent_id_preference = match read_optional_text(
        &object,
        "assigned_agent_id_preference",
    ) {
        Some(text) => text,
        None => {
            return None;
        },
    };
    let agent_context = read_given(&object, "agent_context");
    Some(AgentConfigInput { skill_to_use, assigned_agent_id_preference, agent_context })
}

/// `dependency_of` as a function.
pub open spec fn dependency_reader() -> spec_fn(serde_json::Value) -> Option<DependencyView> {
    |doc: serde_json::Value| dependency_of(doc)
}

/// Reads a list of dependencies.
fn read_dependencies(items: &Vec<serde_json::Value>) -> (list: Option<Vec<Dependency>>)
    ensures
        list is Some <==> each(items@, dependency_reader()) is Some,
        list is Some ==> list->0.deep_view() == each(items@, dependency_reader())->0,
{
    let mut list: Vec<Dependency> = Vec::new();
    let mut i: usize = 0;
    proof {
        assert(items@.take(0) =~= Seq::empty());
        assert(list.deep_view() =~= Seq::empty());
    }
    while i < items.len()
        invariant
            i <= items.len(),
            each(items@.take(i as int), dependency_reader()) == Some(list.deep_view()),
        decreases items.len() - i,
    {
        proof {
            assert(items@.take(i as int + 1).drop_last() =~= items@.take(i as int));
            assert(items@.take(i as int + 1).last() == items@[i as int]);
        }
        let ghost before = list.deep_view();
        match read_dependency(&items[i]) {
            Some(dependency) => {
                list.push(dependency);
                proof {
                    assert(list.deep_view() =~= before.push(dependency_of(items@[i as int])->0));
                }
            },
            None => {
                proof {
                    lemma_each_refused(items@, dependency_reader(), i as int + 1);
                }
                return None;
            },
        }
        i += 1;
    }
    proof {
        assert(items@.take(i as int) =~= items@);
    }
    Some(list)
}

/// `tools` are the tool entries that the documents `items` stand for, one
/// for one.
pub open spec fn are_tools_of(
    items: Seq<serde_json::Value>,
    tools: Seq<ToolConfigInputView>,
) -> bool {
    &&& tools.len() == items.len()
    &&& forall|k: int| 0 <= k < items.len() ==> is_tool_of(#[trigger] items[k], tools[k])
}

/// Every one of the documents `items` stands for a tool entry.
pub open spec fn all_tools(items: Seq<serde_json::Value>) -> bool {
    forall|k: int| 0 <= k < items.len() ==> is_tool(#[trigger] items[k])
}

/// Reads a list of tool entries.
fn read_tools(items: &Vec<serde_json::Value>) -> (list: Option<Vec<ToolConfigInput>>)
    ensures
        list is Some <==> all_tools(items@),
        list is Some ==> are_tools_of(items@, list->0.deep_view()),
{
    let mut list: Vec<ToolConfigInput> = Vec::new();
    let mut i: usize = 0;
    while i < items.len()
        invariant
            i <= items.len(),
            list.len() == i,
            forall|k: int| 0 <= k < i ==> is_tool(#[trigger] items@[k]),
            forall|k: int| 0 <= k < i ==> is_tool_of(#[trigger] items@[k], list.deep_view()[k]),
        decreases items.len() - i,
    {
        match read_tool(&items[i]) {
            Some(tool) => {
                list.push(tool);
            },
            None => {
                return None;
            },
        }
        i += 1;
    }
    Some(list)
}

/// `tasks` are the task entries that the documents `items` stand for, one
/// for one.
pub open spec fn are_tasks_of(
    items: Seq<serde_json::Value>,
    tasks: Seq<TaskConfigInputView>,
) -> bool {
    &&& tasks.len() == items.len()
    &&& forall|k: int| 0 <= k < items.len() ==> is_task_of(#[trigger] items[k], tasks[k])
}

/// Every one of the documents `items` stands for a task entry.
pub open spec fn all_tasks(items: Seq<serde_json::Value>) -> bool {
    forall|k: int| 0 <= k < items.len() ==> is_task(#[trigger] items[k])
}

/// Reads a list of task entries.
fn read_tasks(items: &Vec<serde_json::Value>) -> (list: Option<Vec<TaskConfigInput>>)
    ensures
        list is Some <==> all_tasks(items@),
        list is Some ==> are_tasks_of(items@, list->0.deep_view()),
{
    let mut list: Vec<TaskConfigInput> = Vec::new();
    let mut i: usize = 0;
    while i < items.len()
        invariant
            i <= items.len(),
            list.len() == i,
            forall|k: int| 0 <= k < i ==> is_task(#[trigger] items@[k]),
            forall|k: int| 0 <= k < i ==> is_task_of(#[trigger] items@[k], list.deep_view()[k]),
        decreases items.len() - i,
    {
        match read_task(&items[i]) {
            Some(task) => {
                list.push(task);
            },
            None => {
                return None;
            },
        }
        i += 1;
    }
    Some(list)
}

/// The optional list under `tools` is a list of tool entries, or left out.
pub open spec fn tools_given(entries: Entries, tools: Option<Seq<ToolConfigInputView>>) -> bool {
    let items = optional_items(entries, "tools"@);
    &&& items is Some
    &&& items->0 is Some <==> tools is Some
    &&& items->0 is Some ==> are_tools_of(items->0->0, tools->0)
}

/// The optional list under `tasks` is a list of task entries, or left out.
pub open spec fn tasks_given(entries: Entries, tasks: Option<Seq<TaskConfigInputView>>) -> bool {
    let items = optional_items(entries, "tasks"@);
    &&& items is Some
    &&& items->0 is Some <==> tasks is Some
    &&& items->0 is Some ==> are_tasks_of(items->0->0, tasks->0)
}

/// The dependencies under `dependencies`: none where the entry is left out.
pub open spec fn dependencies_given(entries: Entries) -> Option<Seq<DependencyView>> {
    let items = optional_items(entries, "dependencies"@);
    if items is None {
        None
    } else if items->0 is None {
        Some(Seq::empty())
    } else {
        each(items->0->0, dependency_reader())
    }
}

/// The agent block under `agent`, which may be left out.
pub open spec fn agent_given(entries: Entries) -> Option<Option<AgentConfigInputView>> {
    let entry = given(entries, "agent"@);
    if entry is None {
        Some(None)
    } else if agent_of(entry->0) is Some {
        Some(agent_of(entry->0))
    } else {
        None
    }
}

/// The entries of an activity are all of their kind, so that the document
/// stands for an activity.
pub open spec fn is_activity(doc: serde_json::Value) -> bool {
    let entries = json_entries_of(doc);
    &&& entries is Some
    &&& required_text(entries->0, "activity_type"@) is Some
    &&& activity_type_of(required_text(entries->0, "activity_type"@)->0) is Some
    &&& required_text(entries->0, "id"@) is Some
    &&& required_text(entries->0, "description"@) is Some
    &&& required_text(entries->0, "type"@) is Some
    &&& required_text(entries->0, "expected_outcome"@) is Some
    &&& agent_given(entries->0) is Some
    &&& optional_items(entries->0, "tools"@) is Some
    &&& optional_items(entries->0, "tools"@)->0 is Some ==> all_tools(
        optional_items(entries->0, "tools"@)->0->0,
    )
    &&& optional_items(entries->0, "tasks"@) is Some
    &&& optional_items(entries->0, "tasks"@)->0 is Some ==> all_tasks(
        optional_items(entries->0, "tasks"@)->0->0,
    )
    &&& dependencies_given(entries->0) is Some
}

/// `a` is an activity that the document `doc` stands for.
pub open spec fn is_activity_of(doc: serde_json::Value, a: ActivityInputView) -> bool {
    let entries = json_entries_of(doc);
    &&& is_activity(doc)
    &&& Some(a.activity_type) == activity_type_of(required_text(entries->0, "activity_type"@)->0)
    &&& Some(a.id) == required_text(entries->0, "id"@)
    &&& Some(a.description) == required_text(entries->0, "description"@)
    &&& Some(a.kind) == required_text(entries->0, "type"@)
    &&& Some(a.expected_outcome) == required_text(entries->0, "expected_outcome"@)
    &&& Some(a.agent) == agent_given(entries->0)
    &&& tools_given(entries->0, a.tools)
    &&& tasks_given(entries->0, a.tasks)
    &&& Some(a.dependencies) == dependencies_given(entries->0)
}

/// Reads one activity.
fn read_activity(doc: &serde_json::Value) -> (activity: Option<ActivityInput>)
    ensures
        activity is Some <==> is_activity(*doc),
        activity is Some ==> is_activity_of(*doc, activity->0@),
{
    let object = match json_object(doc) {
        Some(object) => object,
        None => {
            return None;
        },
    };
    let activity_type = match read_required_text(&object, "activity_type") {
        Some(name) => match read_activity_type(&name) {
            Some(activity_type) => activity_type,
            None => {
                return None;
            },
        },
        None => {
            return None;
        },
    };
    let id = match read_required_text(&object, "id") {
        Some(text) => text,
        None => {
            return None;
        },
    };
    let description = match read_required_text(&object, "description") {
        Some(text) => text,
        None => {
            return None;
        },
    };
    let kind = match read_required_text(&object, "type") {
        Some(text) => text,
        None => {
            return None;
        },
    };
    let expected_outcome = match read_required_text(&object, "expected_outcome") {
        Some(text) => text,
        None => {
            return None;
        },
    };
    let agent = match read_given(&object, "agent") {
        None => None,
        Some(block) => match read_agent(&block) {
            Some(agent) => Some(agent),
            None => {
                return None;
            },
        },
    };
    let tools = match read_optional_items(&object, "tools") {
        None => {
            return None;
        },
        Some(None) => None,
        Some(Some(items)) => match read_tools(&items) {
            Some(tools) => Some(tools),
            None => {
                return None;
            },
        },
    };
    let tasks = match read_optional_items(&object, "tasks") {
        None => {
            return None;
        },
        Some(None) => None,
        Some(Some(items)) => match read_tasks(&items) {
            Some(tasks) => Some(tasks),
            None => {
                return None;
            },
        },
    };
    let dependencies = match read_optional_items(&object, "dependencies") {
        None => {
            return None;
        },
        Some(None) => Vec::new(),
        Some(Some(items)) => match read_dependencies(&items) {
            Some(dependencies) => dependencies,
            None => {
                return None;
            },
        },
    };
    let activity = ActivityInput {
        activity_type,
        id,
        description,
        kind,
        agent,
        tools,
        tasks,
        dependencies,
        expected_outcome,
    };
    proof {
        assert(activity@.dependencies =~= dependencies_given(object_entries(object))->0);
    }
    Some(activity)
}

/// The document stands for a plan: an object with the name of the plan and
/// a list of activities, each of which stands for an activity.
pub open spec fn is_plan(doc: serde_json::Value) -> bool {
    let entries = json_entries_of(doc);
    &&& entries is Some
    &&& required_text(entries->0, "plan_name"@) is Some
    &&& entry_of(entries->0, "activities"@) is Some
    &&& json_items_of(entry_of(entries->0, "activities"@)->0) is Some
    &&& forall|k: int|
        0 <= k < json_items_of(entry_of(entries->0, "activities"@)->0)->0.len() ==> is_activity(
            #[trigger] json_items_of(entry_of(entries->0, "activities"@)->0)->0[k],
        )
}

/// `plan` is a plan that the document `doc` stands for: it has the name of
/// the document and its activities, one for one and in order.
pub open spec fn is_plan_of(doc: serde_json::Value, plan: WorkflowPlanInputView) -> bool {
    let entries = json_entries_of(doc);
    let items = json_items_of(entry_of(entries->0, "activities"@)->0)->0;
    &&& is_plan(doc)
    &&& Some(plan.plan_name) == required_text(entries->0, "plan_name"@)
    &&& plan.activities.len() == items.len()
    &&& forall|k: int|
        0 <= k < items.len() ==> is_activity_of(#[trigger] items[k], plan.activities[k])
}

/// Reads a plan from a JSON document.
///
/// Succeeds exactly on the documents that stand for a plan; every other
/// document is refused with `MissingRequiredField`.
pub fn read_plan(doc: &serde_json::Value) -> (plan: Result<WorkflowPlanInput, CompileError>)
    ensures
        plan is Ok <==> is_plan(*doc),
        plan is Ok ==> is_plan_of(*doc, plan->Ok_0@),
        plan is Err ==> plan->Err_0 == CompileError::MissingRequiredField,
{
    let object = match json_object(doc) {
        Some(object) => object,
        None => {
            return Err(CompileError::MissingRequiredField);
        },
    };
    let plan_name = match read_required_text(&object, "plan_name") {
        Some(text) => text,
        None => {
            return Err(CompileError::MissingRequiredField);
        },
    };
    let items = match object_get(&object, "activities") {
        Some(entry) => match json_items(&entry) {
            Some(items) => items,
            None => {
                return Err(CompileError::MissingRequiredField);
            },
        },
        None => {
            return Err(CompileError::MissingRequiredField);
        },
    };
    let ghost entries = object_entries(object);
    let mut activities: Vec<ActivityInput> = Vec::new();
    let mut i: usize = 0;
    while i < items.len()
        invariant
            i <= items.len(),
            activities.len() == i,
            json_entries_of(*doc) == Some(entries),
            entry_of(entries, "activities"@) is Some,
            json_items_of(entry_of(entries, "activities"@)->0) == Some(items@),
            forall|k: int| 0 <= k < i ==> is_activity(#[trigger] items@[k]),
            forall|k: int|
                0 <= k < i ==> is_activity_of(#[trigger] items@[k], activities.deep_view()[k]),
        decreases items.len() - i,
    {
        match read_activity(&items[i]) {
            Some(activity) => {
                activities.push(activity);
            },
            None => {
                proof {
                    let list = json_items_of(
                        entry_of(json_entries_of(*doc)->0, "activities"@)->0,
                    )->0;
                    assert(!is_activity(list[i as int]));
                }
                return Err(CompileError::MissingRequiredField);
            },
        }
        i += 1;
    }
    Ok(WorkflowPlanInput { plan_name, activities })
}

/// Reads a plan from JSON text and compiles it.
///
/// A text that is no JSON, or whose document stands for no plan, is refused
/// with `MissingRequiredField`; a plan that is read is compiled, and refused
/// with the error of the compiler where it is not valid.
pub fn compile_text(text: &str) -> (compiled: Result<CompiledPlan, CompileError>)
    ensures
        json_parsed(text@) is None || !is_plan(json_parsed(text@)->0) ==> compiled == Err::<
            CompiledPlan,
            CompileError,
        >(CompileError::MissingRequiredField),
        compiled is Ok ==> exists|plan: WorkflowPlanInputView|
            is_plan_of(json_parsed(text@)->0, plan) && plan_valid(plan)
                && #[trigger] crate::compiler::flatten(plan) == compiled->Ok_0.graph@,
        compiled is Err && json_parsed(text@) is Some && is_plan(json_parsed(text@)->0)
            ==> exists|plan: WorkflowPlanInputView|
            is_plan_of(json_parsed(text@)->0, plan) && #[trigger] refusal(plan) == Some(
                compiled->Err_0,
            ),
{
    let doc = match parse_json(text) {
        Some(doc) => doc,
        None => {
            return Err(CompileError::MissingRequiredField);
        },
    };
    match read_plan(&doc) {
        Err(e) => Err(e),
        Ok(plan) => compile(plan),
    }
}

} // verus!
