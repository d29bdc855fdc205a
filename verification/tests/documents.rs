use agent_workflow::decoder::{compile_text, read_plan};
use agent_workflow::error::CompileError;
use agent_workflow::plan::ActivityType;

fn json(text: &str) -> serde_json::Value {
    serde_json::from_str(text).unwrap()
}

const DEMO: &str = r#"{
    "plan_name": "demo",
    "activities": [
        {
            "activity_type": "direct_tool_use",
            "id": "A",
            "description": "say hello",
            "type": "tool",
            "tools": [
                { "tool_to_use": "greeter", "tool_parameters": { "name": "world" } },
                { "tool_parameters": 5 }
            ],
            "dependencies": [],
            "expected_outcome": "a greeting",
            "something_else": [1, 2, 3]
        },
        {
            "activity_type": "direct_task_execution",
            "id": "B",
            "description": "answer",
            "type": "task",
            "agent": null,
            "tasks": [ { "task_to_use": "reply" }, { "task_to_use": null, "task_parameters": null } ],
            "dependencies": [ { "source": "A", "condition": "hello" }, { "source": "A" } ],
            "expected_outcome": "an answer"
        },
        {
            "activity_type": "delegation_agent",
            "id": "C",
            "description": "delegate",
            "type": "agent",
            "agent": {
                "skill_to_use": "research",
                "assigned_agent_id_preference": null,
                "agent_context": { "depth": 2 }
            },
            "dependencies": [ { "source": "B", "condition": null } ],
            "expected_outcome": "a report"
        }
    ]
}"#;

#[test]
fn read_plan_reads_every_entry() {
    let plan = read_plan(&json(DEMO)).unwrap();
    assert_eq!(plan.plan_name, "demo");
    assert_eq!(plan.activities.len(), 3);

    let a = &plan.activities[0];
    assert_eq!(a.activity_type, ActivityType::DirectToolUse);
    assert_eq!(a.id, "A");
    assert_eq!(a.description, "say hello");
    assert_eq!(a.kind, "tool");
    assert_eq!(a.expected_outcome, "a greeting");
    assert!(a.agent.is_none());
    assert!(a.tasks.is_none());
    assert!(a.dependencies.is_empty());
    let tools = a.tools.as_ref().unwrap();
    assert_eq!(tools.len(), 2);
    assert_eq!(tools[0].tool_to_use.as_deref(), Some("greeter"));
    assert_eq!(tools[0].tool_parameters, json(r#"{ "name": "world" }"#));
    assert_eq!(tools[1].tool_to_use, None);
    assert_eq!(tools[1].tool_parameters, json("5"));

    let b = &plan.activities[1];
    assert_eq!(b.activity_type, ActivityType::DirectTaskExecution);
    assert!(b.agent.is_none());
    assert!(b.tools.is_none());
    let tasks = b.tasks.as_ref().unwrap();
    assert_eq!(tasks.len(), 2);
    assert_eq!(tasks[0].task_to_use.as_deref(), Some("reply"));
    assert_eq!(tasks[0].task_parameters, serde_json::Value::Null);
    assert_eq!(tasks[1].task_to_use, None);
    assert_eq!(tasks[1].task_parameters, serde_json::Value::Null);
    assert_eq!(b.dependencies.len(), 2);
    assert_eq!(b.dependencies[0].source, "A");
    assert_eq!(b.dependencies[0].condition.as_deref(), Some("hello"));
    assert_eq!(b.dependencies[1].source, "A");
    assert_eq!(b.dependencies[1].condition, None);

    let c = &plan.activities[2];
    assert_eq!(c.activity_type, ActivityType::DelegationAgent);
    let agent = c.agent.as_ref().unwrap();
    assert_eq!(agent.skill_to_use.as_deref(), Some("research"));
    assert_eq!(agent.assigned_agent_id_preference, None);
    assert_eq!(agent.agent_context, Some(json(r#"{ "depth": 2 }"#)));
    assert_eq!(c.dependencies[0].condition, None);
}

#[test]
fn read_plan_accepts_the_least_plan() {
    let plan = read_plan(&json(r#"{ "plan_name": "", "activities": [] }"#)).unwrap();
    assert_eq!(plan.plan_name, "");
    assert!(plan.activities.is_empty());
    let plan = read_plan(&json(
        r#"{ "plan_name": "p", "activities": [
            { "activity_type": "direct_tool_use", "id": "A", "description": "d", "type": "t", "expected_outcome": "e" }
        ] }"#,
    ))
    .unwrap();
    assert_eq!(plan.activities.len(), 1);
    assert!(plan.activities[0].dependencies.is_empty());
    assert!(plan.activities[0].agent.is_none());
    assert!(plan.activities[0].tools.is_none());
    assert!(plan.activities[0].tasks.is_none());
}

fn activity_with(change: &dyn Fn(&mut serde_json::Map<String, serde_json::Value>)) -> serde_json::Value {
    let mut activity = serde_json::Map::new();
    activity.insert("activity_type".to_string(), serde_json::Value::String("direct_tool_use".to_string()));
    activity.insert("id".to_string(), serde_json::Value::String("A".to_string()));
    activity.insert("description".to_string(), serde_json::Value::String("d".to_string()));
    activity.insert("type".to_string(), serde_json::Value::String("t".to_string()));
    activity.insert("expected_outcome".to_string(), serde_json::Value::String("e".to_string()));
    change(&mut activity);
    let mut plan = serde_json::Map::new();
    plan.insert("plan_name".to_string(), serde_json::Value::String("p".to_string()));
    plan.insert(
        "activities".to_string(),
        serde_json::Value::Array(vec![serde_json::Value::Object(activity)]),
    );
    serde_json::Value::Object(plan)
}

#[test]
fn read_plan_refuses_a_missing_required_entry() {
    assert!(read_plan(&activity_with(&|_| {})).is_ok());
    for key in ["activity_type", "id", "description", "type", "expected_outcome"] {
        let doc = activity_with(&|a| {
            a.remove(key);
        });
        assert_eq!(read_plan(&doc).err(), Some(CompileError::MissingRequiredField), "without {}", key);
        let doc = activity_with(&|a| {
            a.insert(key.to_string(), serde_json::Value::Null);
        });
        assert_eq!(read_plan(&doc).err(), Some(CompileError::MissingRequiredField), "null {}", key);
        let doc = activity_with(&|a| {
            a.insert(key.to_string(), serde_json::Value::Bool(true));
        });
        assert_eq!(read_plan(&doc).err(), Some(CompileError::MissingRequiredField), "wrong {}", key);
    }
    for text in [
        r#"{ "activities": [] }"#,
        r#"{ "plan_name": "p" }"#,
        r#"{ "plan_name": 7, "activities": [] }"#,
        r#"{ "plan_name": "p", "activities": {} }"#,
        r#"{ "plan_name": "p", "activities": null }"#,
        r#"{ "plan_name": "p", "activities": [ 1 ] }"#,
        r#"[]"#,
        r#""plan""#,
        r#"null"#,
    ] {
        assert_eq!(read_plan(&json(text)).err(), Some(CompileError::MissingRequiredField), "{}", text);
    }
}

#[test]
fn read_plan_refuses_entries_of_the_wrong_kind() {
    let wrong: Vec<(&str, &str)> = vec![
        ("activity_type", r#""delegate""#),
        ("agent", r#""an agent""#),
        ("agent", r#"{ "skill_to_use": 1 }"#),
        ("agent", r#"{ "assigned_agent_id_preference": [] }"#),
        ("tools", r#"{}"#),
        ("tools", r#"[ "tool" ]"#),
        ("tools", r#"[ { "tool_to_use": 1 } ]"#),
        ("tasks", r#""tasks""#),
        ("tasks", r#"[ null ]"#),
        ("tasks", r#"[ { "task_to_use": {} } ]"#),
        ("dependencies", r#"{}"#),
        ("dependencies", r#"[ { "condition": "x" } ]"#),
        ("dependencies", r#"[ { "source": 1 } ]"#),
        ("dependencies", r#"[ { "source": "A", "condition": 1 } ]"#),
        ("dependencies", r#"[ { "source": "A" }, "B" ]"#),
    ];
    for (key, value) in wrong {
        let doc = activity_with(&|a| {
            a.insert(key.to_string(), json(value));
        });
        assert_eq!(
            read_plan(&doc).err(),
            Some(CompileError::MissingRequiredField),
            "{} = {}",
            key,
            value
        );
    }
    let fine: Vec<(&str, &str)> = vec![
        ("agent", "null"),
        ("agent", "{}"),
        ("agent", r#"{ "agent_context": null }"#),
        ("tools", "null"),
        ("tools", "[]"),
        ("tools", "[ {} ]"),
        ("tasks", "null"),
        ("tasks", "[ {} ]"),
        ("dependencies", "null"),
        ("dependencies", "[]"),
    ];
    for (key, value) in fine {
        let doc = activity_with(&|a| {
            a.insert(key.to_string(), json(value));
        });
        assert!(read_plan(&doc).is_ok(), "{} = {}", key, value);
    }
}

#[test]
fn read_plan_keeps_absent_and_null_contexts_apart_from_documents() {
    let doc = activity_with(&|a| {
        a.insert("agent".to_string(), json(r#"{ "agent_context": false }"#));
        a.insert("tools".to_string(), json(r#"[ { "tool_parameters": null } ]"#));
    });
    let plan = read_plan(&doc).unwrap();
    let agent = plan.activities[0].agent.as_ref().unwrap();
    assert_eq!(agent.agent_context, Some(serde_json::Value::Bool(false)));
    assert_eq!(plan.activities[0].tools.as_ref().unwrap()[0].tool_parameters, serde_json::Value::Null);
}

#[test]
fn compile_text_reads_and_compiles() {
    let compiled = compile_text(DEMO).unwrap();
    assert_eq!(compiled.graph.plan_name, "demo");
    assert_eq!(compiled.graph.nodes.len(), 3);
    assert_eq!(compiled.graph.edges.len(), 3);
    assert_eq!(compiled.order, vec![0, 1, 2]);
    assert_eq!(compiled.graph.nodes[0].activity().tool_to_use.as_deref(), Some("greeter"));
}

#[test]
fn compile_text_refuses_what_is_no_plan() {
    assert_eq!(compile_text("not json at all").err(), Some(CompileError::MissingRequiredField));
    assert_eq!(compile_text("").err(), Some(CompileError::MissingRequiredField));
    assert_eq!(compile_text(r#"{ "plan_name": "p" }"#).err(), Some(CompileError::MissingRequiredField));
}

#[test]
fn compile_text_reports_the_errors_of_the_compiler() {
    let cyclic = r#"{ "plan_name": "p", "activities": [
        { "activity_type": "direct_tool_use", "id": "A", "description": "d", "type": "t",
          "dependencies": [ { "source": "B" } ], "expected_outcome": "e" },
        { "activity_type": "direct_tool_use", "id": "B", "description": "d", "type": "t",
          "dependencies": [ { "source": "A" } ], "expected_outcome": "e" }
    ] }"#;
    assert_eq!(compile_text(cyclic).err(), Some(CompileError::CycleDetected));
    let unknown = r#"{ "plan_name": "p", "activities": [
        { "activity_type": "direct_tool_use", "id": "A", "description": "d", "type": "t",
          "dependencies": [ { "source": "ghost" } ], "expected_outcome": "e" }
    ] }"#;
    assert_eq!(compile_text(unknown).err(), Some(CompileError::UnknownDependency));
    let twice = r#"{ "plan_name": "p", "activities": [
        { "activity_type": "direct_tool_use", "id": "A", "description": "d", "type": "t", "expected_outcome": "e" },
        { "activity_type": "direct_tool_use", "id": "A", "description": "d", "type": "t", "expected_outcome": "e" }
    ] }"#;
    assert_eq!(compile_text(twice).err(), Some(CompileError::DuplicateNodeId));
}
