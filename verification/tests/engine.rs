use agent_workflow::compiler::{compile, CompiledPlan};
use agent_workflow::condition::evaluate;
use agent_workflow::context::{PlanContext, PlanState};
use agent_workflow::coordinator::Action;
use agent_workflow::error::{CompileError, ExecutionError};
use agent_workflow::graph::{Graph, NodeType};
use agent_workflow::plan::{
    ActivityInput, ActivityType, AgentConfigInput, Dependency, TaskConfigInput, ToolConfigInput,
    WorkflowPlanInput,
};

fn activity(id: &str, activity_type: ActivityType, deps: Vec<(&str, Option<&str>)>) -> ActivityInput {
    ActivityInput {
        activity_type,
        id: id.to_string(),
        description: format!("do {}", id),
        kind: "step".to_string(),
        agent: None,
        tools: None,
        tasks: None,
        dependencies: deps
            .into_iter()
            .map(|(source, condition)| Dependency {
                source: source.to_string(),
                condition: condition.map(|c| c.to_string()),
            })
            .collect(),
        expected_outcome: "done".to_string(),
    }
}

fn plan(name: &str, activities: Vec<ActivityInput>) -> WorkflowPlanInput {
    WorkflowPlanInput { plan_name: name.to_string(), activities }
}

fn demo_plan() -> WorkflowPlanInput {
    plan(
        "demo",
        vec![
            activity("A", ActivityType::DirectToolUse, vec![]),
            activity("B", ActivityType::DirectTaskExecution, vec![("A", Some("hello"))]),
        ],
    )
}

fn started(compiled: CompiledPlan, query: &str) -> PlanContext {
    let mut context = PlanContext::new(compiled.graph, query.to_string());
    assert_eq!(context.plan_state, PlanState::Idle);
    assert!(context.start(query.to_string()).is_ok());
    assert_eq!(context.plan_state, PlanState::Initializing);
    context
}

fn output_of(graph: &Graph, id: &str) -> Option<String> {
    let node = graph.nodes.iter().find(|n| n.id == id).unwrap();
    match &node.node_type {
        NodeType::Activity(a) => a.activity_output.clone(),
    }
}

fn outcome(context: &PlanContext, id: &str) -> Option<String> {
    context.activities_outcome.get(&id.to_string()).cloned()
}

#[test]
fn evaluate_without_condition_is_true() {
    assert!(evaluate("hello world", None));
    assert!(evaluate("", None));
    assert!(evaluate("anything at all", None));
}

#[test]
fn evaluate_condition_is_substring_containment() {
    assert!(evaluate("hello world", Some("hello")));
    assert!(!evaluate("hello world", Some("xyz")));
    assert!(evaluate("hello world", Some("o w")));
    assert!(evaluate("hello world", Some("world")));
    assert!(evaluate("hello world", Some("")));
    assert!(evaluate("", Some("")));
    assert!(!evaluate("", Some("a")));
    assert!(!evaluate("hell", Some("hello")));
}

#[test]
fn evaluate_is_case_sensitive() {
    assert!(!evaluate("hello world", Some("Hello")));
    assert!(evaluate("Hello world", Some("Hello")));
}

#[test]
fn evaluate_handles_text_beyond_ascii() {
    assert!(evaluate("grüße aus köln", Some("köln")));
    assert!(!evaluate("grüße aus köln", Some("koln")));
}

#[test]
fn compile_counts_nodes_and_edges() {
    let compiled = compile(plan(
        "counts",
        vec![
            activity("A", ActivityType::DirectToolUse, vec![]),
            activity("B", ActivityType::DirectToolUse, vec![("A", None)]),
            activity("C", ActivityType::DelegationAgent, vec![("A", Some("x")), ("B", None)]),
        ],
    ))
    .unwrap();
    assert_eq!(compiled.graph.nodes.len(), 3);
    assert_eq!(compiled.graph.edges.len(), 3);
    assert_eq!(compiled.graph.plan_name, "counts");
    assert_eq!(compiled.order, vec![0, 1, 2]);
}

#[test]
fn compile_demo_plan_has_two_nodes_and_one_edge() {
    let compiled = compile(demo_plan()).unwrap();
    assert_eq!(compiled.graph.nodes.len(), 2);
    assert_eq!(compiled.graph.edges.len(), 1);
    let edge = &compiled.graph.edges[0];
    assert_eq!(edge.source, "A");
    assert_eq!(edge.target, "B");
    assert_eq!(edge.condition.as_deref(), Some("hello"));
}

#[test]
fn compile_flattens_agent_and_first_tool() {
    let mut a = activity("A", ActivityType::DelegationAgent, vec![]);
    a.agent = Some(AgentConfigInput {
        skill_to_use: Some("search".to_string()),
        assigned_agent_id_preference: Some("agent-7".to_string()),
        agent_context: Some(serde_json::Value::String("ctx".to_string())),
    });
    a.tools = Some(vec![
        ToolConfigInput {
            tool_to_use: Some("first".to_string()),
            tool_parameters: serde_json::Value::Bool(true),
        },
        ToolConfigInput {
            tool_to_use: Some("second".to_string()),
            tool_parameters: serde_json::Value::Null,
        },
    ]);
    a.tasks = Some(vec![TaskConfigInput {
        task_to_use: Some("t".to_string()),
        task_parameters: serde_json::Value::Null,
    }]);
    let compiled = compile(plan("flat", vec![a])).unwrap();
    let NodeType::Activity(act) = &compiled.graph.nodes[0].node_type;
    assert_eq!(compiled.graph.nodes[0].id, "A");
    assert_eq!(act.id, "A");
    assert_eq!(act.description, "do A");
    assert_eq!(act.kind.as_deref(), Some("step"));
    assert_eq!(act.skill_to_use.as_deref(), Some("search"));
    assert_eq!(act.assigned_agent_id_preference.as_deref(), Some("agent-7"));
    assert_eq!(act.agent_context, Some(serde_json::Value::String("ctx".to_string())));
    assert_eq!(act.tool_to_use.as_deref(), Some("first"));
    assert_eq!(act.tool_parameters, Some(serde_json::Value::Bool(true)));
    assert_eq!(act.tasks.as_ref().unwrap().len(), 1);
    assert_eq!(act.expected_outcome.as_deref(), Some("done"));
    assert_eq!(act.activity_output, None);
}

#[test]
fn compile_without_agent_or_tools_leaves_them_absent() {
    let mut a = activity("A", ActivityType::DirectToolUse, vec![]);
    a.tools = Some(vec![]);
    let compiled = compile(plan("bare", vec![a])).unwrap();
    let NodeType::Activity(act) = &compiled.graph.nodes[0].node_type;
    assert_eq!(act.skill_to_use, None);
    assert_eq!(act.assigned_agent_id_preference, None);
    assert_eq!(act.agent_context, None);
    assert_eq!(act.tool_to_use, None);
    assert_eq!(act.tool_parameters, None);
    assert!(act.tasks.is_none());
}

#[test]
fn compile_rejects_cycle() {
    let result = compile(plan(
        "cycle",
        vec![
            activity("A", ActivityType::DirectToolUse, vec![("B", None)]),
            activity("B", ActivityType::DirectToolUse, vec![("A", None)]),
        ],
    ));
    assert_eq!(result.err(), Some(CompileError::CycleDetected));
}

#[test]
fn compile_rejects_self_dependency() {
    let result = compile(plan("selfish", vec![activity("A", ActivityType::DirectToolUse, vec![("A", None)])]));
    assert_eq!(result.err(), Some(CompileError::CycleDetected));
}

#[test]
fn compile_rejects_longer_cycle_behind_a_free_node() {
    let result = compile(plan(
        "late cycle",
        vec![
            activity("start", ActivityType::DirectToolUse, vec![]),
            activity("A", ActivityType::DirectToolUse, vec![("start", None), ("C", None)]),
            activity("B", ActivityType::DirectToolUse, vec![("A", None)]),
            activity("C", ActivityType::DirectToolUse, vec![("B", None)]),
        ],
    ));
    assert_eq!(result.err(), Some(CompileError::CycleDetected));
}

#[test]
fn compile_rejects_unknown_dependency() {
    let result = compile(plan(
        "unknown",
        vec![
            activity("A", ActivityType::DirectToolUse, vec![]),
            activity("B", ActivityType::DirectToolUse, vec![("ghost", None)]),
        ],
    ));
    assert_eq!(result.err(), Some(CompileError::UnknownDependency));
}

#[test]
fn compile_rejects_duplicate_id() {
    let result = compile(plan(
        "twice",
        vec![
            activity("A", ActivityType::DirectToolUse, vec![]),
            activity("A", ActivityType::DirectTaskExecution, vec![]),
        ],
    ));
    assert_eq!(result.err(), Some(CompileError::DuplicateNodeId));
}

#[test]
fn compile_reports_unknown_dependency_before_duplicate_and_cycle() {
    let result = compile(plan(
        "all wrong",
        vec![
            activity("A", ActivityType::DirectToolUse, vec![("B", None), ("ghost", None)]),
            activity("B", ActivityType::DirectToolUse, vec![("A", None)]),
            activity("B", ActivityType::DirectToolUse, vec![]),
        ],
    ));
    assert_eq!(result.err(), Some(CompileError::UnknownDependency));
}

#[test]
fn compile_reports_duplicate_before_cycle() {
    let result = compile(plan(
        "twice and round",
        vec![
            activity("A", ActivityType::DirectToolUse, vec![("B", None)]),
            activity("B", ActivityType::DirectToolUse, vec![("A", None)]),
            activity("B", ActivityType::DirectToolUse, vec![]),
        ],
    ));
    assert_eq!(result.err(), Some(CompileError::DuplicateNodeId));
}

#[test]
fn compile_empty_plan_is_valid_and_empty() {
    let compiled = compile(plan("empty", vec![])).unwrap();
    assert_eq!(compiled.graph.nodes.len(), 0);
    assert_eq!(compiled.graph.edges.len(), 0);
    assert!(compiled.order.is_empty());
}

#[test]
fn compile_order_puts_sources_first_and_prefers_low_indices() {
    let compiled = compile(plan(
        "order",
        vec![
            activity("last", ActivityType::DirectToolUse, vec![("mid", None)]),
            activity("mid", ActivityType::DirectToolUse, vec![("first", None)]),
            activity("free", ActivityType::DirectToolUse, vec![]),
            activity("first", ActivityType::DirectToolUse, vec![]),
        ],
    ))
    .unwrap();
    assert_eq!(compiled.order, vec![2, 3, 1, 0]);
}

#[test]
fn graph_from_keeps_last_entry_of_a_duplicate_id() {
    let mut second = activity("A", ActivityType::DirectTaskExecution, vec![]);
    second.description = "second".to_string();
    let graph = Graph::from(plan(
        "dup",
        vec![
            activity("A", ActivityType::DirectToolUse, vec![]),
            activity("B", ActivityType::DirectToolUse, vec![("A", None)]),
            second,
        ],
    ));
    assert_eq!(graph.nodes.len(), 2);
    assert_eq!(graph.nodes[0].id, "A");
    assert_eq!(graph.nodes[1].id, "B");
    let NodeType::Activity(a) = &graph.nodes[0].node_type;
    assert_eq!(a.description, "second");
    assert_eq!(a.activity_type, ActivityType::DirectTaskExecution);
    assert_eq!(graph.edges.len(), 1);
}

#[test]
fn single_node_plan_runs_through_every_state() {
    let compiled = compile(plan("one", vec![activity("only", ActivityType::DirectToolUse, vec![])])).unwrap();
    let mut context = started(compiled, "what now?");
    assert_eq!(context.user_query, "what now?");
    assert_eq!(context.current_step_id, None);

    assert!(matches!(context.advance(), Action::Continue));
    assert_eq!(context.plan_state, PlanState::ExecutingStep);
    assert_eq!(context.current_step_id.as_deref(), Some("only"));

    match context.advance() {
        Action::UseTool { node_id, .. } => assert_eq!(node_id, "only"),
        other => panic!("unexpected action {:?}", other),
    }
    assert_eq!(context.plan_state, PlanState::ExecutingStep);

    assert!(context.node_completed("the answer".to_string()));
    assert_eq!(context.plan_state, PlanState::ProcessingAgentResponse);
    assert_eq!(outcome(&context, "only").as_deref(), Some("the answer"));
    assert_eq!(output_of(&context.graph, "only").as_deref(), Some("the answer"));

    assert!(matches!(context.advance(), Action::Continue));
    assert_eq!(context.plan_state, PlanState::DecidingNextStep);

    assert!(matches!(context.advance(), Action::Continue));
    assert_eq!(context.plan_state, PlanState::Completed);
    assert_eq!(context.final_outcome, "the answer");
    assert!(matches!(context.advance(), Action::Finished));
}

fn run_with(context: &mut PlanContext, answer: &dyn Fn(&str) -> Result<String, ExecutionError>) -> Vec<String> {
    let mut dispatched = Vec::new();
    for _ in 0..1000 {
        match context.advance() {
            Action::Continue => {}
            Action::Delegate { node_id, .. }
            | Action::UseTool { node_id, .. }
            | Action::RunTasks { node_id, .. } => {
                let result = answer(&node_id);
                dispatched.push(node_id);
                assert!(context.node_finished(result));
            }
            Action::Await => panic!("nothing is awaited in a direct run"),
            Action::Finished => return dispatched,
        }
    }
    panic!("the run did not finish");
}

#[test]
fn two_independent_nodes_both_run() {
    let compiled = compile(plan(
        "pair",
        vec![
            activity("A", ActivityType::DirectToolUse, vec![]),
            activity("B", ActivityType::DirectTaskExecution, vec![]),
        ],
    ))
    .unwrap();
    let mut context = started(compiled, "q");
    let dispatched = run_with(&mut context, &|id| Ok(format!("out of {}", id)));
    assert_eq!(dispatched, vec!["A".to_string(), "B".to_string()]);
    assert_eq!(context.plan_state, PlanState::Completed);
    assert_eq!(outcome(&context, "A").as_deref(), Some("out of A"));
    assert_eq!(outcome(&context, "B").as_deref(), Some("out of B"));
    assert_eq!(context.activities_outcome.len(), 2);
}

#[test]
fn two_independent_nodes_both_run_in_the_other_order() {
    let compiled = compile(plan(
        "pair",
        vec![
            activity("B", ActivityType::DirectTaskExecution, vec![]),
            activity("A", ActivityType::DirectToolUse, vec![]),
        ],
    ))
    .unwrap();
    let mut context = started(compiled, "q");
    let dispatched = run_with(&mut context, &|id| Ok(format!("out of {}", id)));
    assert_eq!(dispatched, vec!["B".to_string(), "A".to_string()]);
    assert_eq!(context.plan_state, PlanState::Completed);
    assert_eq!(outcome(&context, "A").as_deref(), Some("out of A"));
    assert_eq!(outcome(&context, "B").as_deref(), Some("out of B"));
}

#[test]
fn demo_plan_runs_a_then_b() {
    let compiled = compile(demo_plan()).unwrap();
    let mut context = started(compiled, "q");
    let dispatched = run_with(&mut context, &|id| {
        if id == "A" {
            Ok("hello".to_string())
        } else {
            Ok("b is done".to_string())
        }
    });
    assert_eq!(dispatched, vec!["A".to_string(), "B".to_string()]);
    assert_eq!(context.plan_state, PlanState::Completed);
    assert_eq!(outcome(&context, "A").as_deref(), Some("hello"));
    assert_eq!(outcome(&context, "B").as_deref(), Some("b is done"));
    assert_eq!(context.final_outcome, "b is done");
    assert_eq!(Some(context.final_outcome.clone()), outcome(&context, "B"));
}

#[test]
fn demo_plan_skips_b_when_condition_fails() {
    let compiled = compile(demo_plan()).unwrap();
    let mut context = started(compiled, "q");
    let dispatched = run_with(&mut context, &|_| Ok("goodbye".to_string()));
    assert_eq!(dispatched, vec!["A".to_string()]);
    assert_eq!(context.plan_state, PlanState::Completed);
    assert_eq!(context.activities_outcome.len(), 1);
    assert_eq!(outcome(&context, "A").as_deref(), Some("goodbye"));
    assert_eq!(outcome(&context, "B"), None);
    assert_eq!(output_of(&context.graph, "B"), None);
    assert_eq!(context.final_outcome, "");
}

#[test]
fn failing_delegation_fails_the_plan_and_keeps_outcomes() {
    let compiled = compile(plan(
        "delegating",
        vec![
            activity("sibling", ActivityType::DirectToolUse, vec![]),
            activity("remote", ActivityType::DelegationAgent, vec![]),
        ],
    ))
    .unwrap();
    let mut context = started(compiled, "q");
    assert!(matches!(context.advance(), Action::Continue));
    assert!(matches!(context.advance(), Action::UseTool { .. }));
    assert!(context.node_completed("fine".to_string()));
    assert!(matches!(context.advance(), Action::Continue));
    assert!(matches!(context.advance(), Action::Continue));
    assert_eq!(context.current_step_id.as_deref(), Some("remote"));
    match context.advance() {
        Action::Delegate { node_id, task_description, skill_hint } => {
            assert_eq!(node_id, "remote");
            assert_eq!(task_description, "do remote");
            assert_eq!(skill_hint, "");
        }
        other => panic!("unexpected action {:?}", other),
    }
    assert_eq!(context.plan_state, PlanState::AwaitingAgentResponse);
    assert!(matches!(context.advance(), Action::Await));
    assert!(context.node_failed(ExecutionError::RemoteAgentError("boom".to_string())));
    assert_eq!(
        context.plan_state,
        PlanState::Failed("activity 'remote' failed: remote agent error: boom".to_string())
    );
    assert_eq!(outcome(&context, "sibling").as_deref(), Some("fine"));
    assert_eq!(output_of(&context.graph, "sibling").as_deref(), Some("fine"));
    assert_eq!(outcome(&context, "remote"), None);
    assert!(matches!(context.advance(), Action::Finished));
    let result = context.execution_result("r1".to_string(), "c1".to_string()).unwrap();
    assert!(!result.success);
    assert_eq!(result.request_id, "r1");
    assert_eq!(result.conversation_id, "c1");
    assert_eq!(result.output, "activity 'remote' failed: remote agent error: boom");
}
