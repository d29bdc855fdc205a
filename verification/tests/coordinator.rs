use agent_workflow::aggregator::{aggregate, is_terminal};
use agent_workflow::compiler::compile;
use agent_workflow::context::{PlanContext, PlanContextOld, PlanState};
use agent_workflow::coordinator::{dispatch, Action};
use agent_workflow::error::{CompileError, ExecutionError};
use agent_workflow::graph::{find_id, Activity, Edge, Graph, Node, NodeType};
use agent_workflow::outcomes::Outcomes;
use agent_workflow::plan::{
    ActivityInput, ActivityType, AgentConfigInput, Dependency, TaskConfigInput, ToolConfigInput,
    WorkflowPlanInput,
};
use agent_workflow::resolver::{admissible, frontier, is_eligible, next_node};
use agent_workflow::topology::Links;

fn s(text: &str) -> String {
    text.to_string()
}

fn entry(id: &str, activity_type: ActivityType, deps: Vec<(&str, Option<&str>)>) -> ActivityInput {
    ActivityInput {
        activity_type,
        id: s(id),
        description: format!("describe {}", id),
        kind: s("step"),
        agent: None,
        tools: None,
        tasks: None,
        dependencies: deps
            .into_iter()
            .map(|(source, condition)| Dependency { source: s(source), condition: condition.map(s) })
            .collect(),
        expected_outcome: s("done"),
    }
}

fn tool(id: &str, deps: Vec<(&str, Option<&str>)>) -> ActivityInput {
    entry(id, ActivityType::DirectToolUse, deps)
}

fn plan_of(activities: Vec<ActivityInput>) -> WorkflowPlanInput {
    WorkflowPlanInput { plan_name: s("plan"), activities }
}

fn node(id: &str, output: Option<&str>) -> Node {
    Node {
        id: s(id),
        node_type: NodeType::Activity(Activity {
            activity_type: ActivityType::DirectToolUse,
            id: s(id),
            description: s("d"),
            kind: None,
            skill_to_use: None,
            assigned_agent_id_preference: None,
            agent_context: None,
            tool_to_use: None,
            tool_parameters: None,
            tasks: None,
            dependencies: vec![],
            expected_outcome: None,
            activity_output: output.map(s),
        }),
    }
}

fn edge(source: &str, target: &str, condition: Option<&str>) -> Edge {
    Edge { source: s(source), target: s(target), condition: condition.map(s) }
}

fn graph_of(nodes: Vec<Node>, edges: Vec<Edge>) -> Graph {
    Graph { plan_name: s("hand made"), nodes, edges }
}

fn running(activities: Vec<ActivityInput>) -> PlanContext {
    let compiled = compile(plan_of(activities)).unwrap();
    let mut context = PlanContext::new(compiled.graph, s("query"));
    assert_eq!(context.start(s("query")), Ok(()));
    context
}

fn output_at(context: &PlanContext, id: &str) -> Option<String> {
    let i = find_id(&context.graph.nodes, &s(id)).unwrap();
    context.graph.nodes[i].activity().activity_output.clone()
}

fn run_all(context: &mut PlanContext, answer: &dyn Fn(&str) -> Result<String, ExecutionError>) -> Vec<String> {
    let mut dispatched = Vec::new();
    for _ in 0..10_000 {
        match context.advance() {
            Action::Continue => {}
            Action::Delegate { node_id, .. }
            | Action::UseTool { node_id, .. }
            | Action::RunTasks { node_id, .. } => {
                if context.plan_state == PlanState::AwaitingAgentResponse {
                    assert!(matches!(context.advance(), Action::Await));
                }
                let result = answer(&node_id);
                dispatched.push(node_id);
                assert!(context.node_finished(result));
            }
            Action::Await => panic!("nothing is awaited here"),
            Action::Finished => return dispatched,
        }
    }
    panic!("the run did not finish");
}

#[test]
fn new_context_is_idle_and_empty() {
    let graph = graph_of(vec![node("A", None)], vec![]);
    let context = PlanContext::new(graph, s("q"));
    assert_eq!(context.plan_state, PlanState::Idle);
    assert_eq!(context.current_step_id, None);
    assert_eq!(context.activities_outcome.len(), 0);
    assert_eq!(context.final_outcome, "");
    assert_eq!(context.user_query, "q");
    assert!(context.visit_order.is_empty());
    assert!(context.resume_state.is_none());
    assert_eq!(context.graph.nodes.len(), 1);
    let old = PlanContextOld::new(graph_of(vec![node("A", None)], vec![]), s("q"));
    assert_eq!(old.plan_state, PlanState::Idle);
    assert_eq!(old.current_step_id, None);
    assert_eq!(old.results.len(), 0);
    assert_eq!(old.user_query, "q");
}

#[test]
fn idle_context_waits_for_start() {
    let mut context = PlanContext::new(graph_of(vec![node("A", None)], vec![]), s("q"));
    assert!(matches!(context.advance(), Action::Await));
    assert_eq!(context.plan_state, PlanState::Idle);
    assert!(!context.node_completed(s("early")));
    assert!(!context.pause());
    assert!(!context.resume());
    assert!(context.execution_result(s("r"), s("c")).is_none());
}

#[test]
fn start_keeps_the_query_and_fixes_the_order() {
    let graph = graph_of(
        vec![node("late", Some("stale")), node("early", Some("stale"))],
        vec![edge("early", "late", None)],
    );
    let mut context = PlanContext::new(graph, s("old query"));
    assert_eq!(context.start(s("new query")), Ok(()));
    assert_eq!(context.plan_state, PlanState::Initializing);
    assert_eq!(context.user_query, "new query");
    assert_eq!(context.visit_order, vec![1, 0]);
    assert_eq!(context.current_step_id, None);
    assert_eq!(output_at(&context, "late"), None);
    assert_eq!(output_at(&context, "early"), None);
    assert_eq!(context.activities_outcome.len(), 0);
}

#[test]
fn start_refuses_an_edge_without_node() {
    let graph = graph_of(vec![node("A", None)], vec![edge("ghost", "A", None)]);
    assert_eq!(graph.validate().err(), Some(CompileError::UnknownDependency));
    let mut context = PlanContext::new(graph, s("q"));
    assert_eq!(context.start(s("q2")), Err(CompileError::UnknownDependency));
    assert_eq!(context.plan_state, PlanState::Idle);
    assert_eq!(context.user_query, "q");
    let graph = graph_of(vec![node("A", None)], vec![edge("A", "ghost", None)]);
    assert_eq!(graph.validate().err(), Some(CompileError::UnknownDependency));
}

#[test]
fn start_refuses_duplicate_ids() {
    let graph = graph_of(vec![node("A", None), node("B", None), node("A", None)], vec![]);
    assert!(!graph.has_distinct_ids());
    assert_eq!(graph.validate().err(), Some(CompileError::DuplicateNodeId));
    let mut context = PlanContext::new(graph, s("q"));
    assert_eq!(context.start(s("q")), Err(CompileError::DuplicateNodeId));
    assert_eq!(context.plan_state, PlanState::Idle);
}

#[test]
fn start_refuses_a_cycle() {
    let graph = graph_of(
        vec![node("A", None), node("B", None), node("C", None)],
        vec![edge("A", "B", None), edge("B", "C", None), edge("C", "B", None)],
    );
    assert!(graph.has_distinct_ids());
    assert!(graph.topological_order().is_none());
    assert_eq!(graph.validate().err(), Some(CompileError::CycleDetected));
    let mut context = PlanContext::new(graph, s("q"));
    assert_eq!(context.start(s("q")), Err(CompileError::CycleDetected));
    assert_eq!(context.plan_state, PlanState::Idle);
}

#[test]
fn start_of_a_started_context_changes_nothing() {
    let mut context = running(vec![tool("A", vec![])]);
    assert!(matches!(context.advance(), Action::Continue));
    assert_eq!(context.start(s("again")), Ok(()));
    assert_eq!(context.plan_state, PlanState::ExecutingStep);
    assert_eq!(context.user_query, "query");
}

#[test]
fn validate_gives_the_canonical_order() {
    let graph = graph_of(
        vec![node("d", None), node("c", None), node("b", None), node("a", None)],
        vec![edge("a", "b", None), edge("a", "c", None), edge("b", "d", None), edge("c", "d", None)],
    );
    assert_eq!(graph.validate(), Ok(vec![3, 1, 2, 0]));
    assert_eq!(graph.topological_order(), Some(vec![3, 1, 2, 0]));
    let links = graph.links().unwrap();
    assert_eq!(links.node_count, 4);
    assert_eq!(links.sources, vec![3, 3, 2, 1]);
    assert_eq!(links.targets, vec![2, 1, 0, 0]);
    assert_eq!(graph.find_node(&s("b")), Some(2));
    assert_eq!(graph.find_node(&s("zz")), None);
}

#[test]
fn links_order_or_cycle() {
    let chain = Links { node_count: 3, sources: vec![2, 1], targets: vec![1, 0] };
    assert_eq!(chain.topological_order(), Some(vec![2, 1, 0]));
    let free = Links { node_count: 3, sources: vec![], targets: vec![] };
    assert_eq!(free.topological_order(), Some(vec![0, 1, 2]));
    let round = Links { node_count: 2, sources: vec![0, 1], targets: vec![1, 0] };
    assert_eq!(round.topological_order(), None);
    let selfish = Links { node_count: 1, sources: vec![0], targets: vec![0] };
    assert_eq!(selfish.topological_order(), None);
    let none = Links { node_count: 0, sources: vec![], targets: vec![] };
    assert_eq!(none.topological_order(), Some(vec![]));
    let doubled = Links { node_count: 2, sources: vec![1, 1], targets: vec![0, 0] };
    assert_eq!(doubled.topological_order(), Some(vec![1, 0]));
}

#[test]
fn empty_plan_fails_with_empty_frontier() {
    let mut context = running(vec![]);
    assert!(matches!(context.advance(), Action::Continue));
    assert_eq!(context.plan_state, PlanState::Failed(s("empty frontier: no activity is free to start")));
    assert!(matches!(context.advance(), Action::Finished));
    let result = context.execution_result(s("r"), s("c")).unwrap();
    assert!(!result.success);
    assert_eq!(result.output, "empty frontier: no activity is free to start");
}

#[test]
fn outcomes_are_written_once() {
    let mut outcomes = Outcomes::new();
    assert_eq!(outcomes.len(), 0);
    assert!(!outcomes.contains_key(&s("A")));
    assert_eq!(outcomes.get(&s("A")), None);
    assert!(outcomes.record(s("A"), s("first")));
    assert!(!outcomes.record(s("A"), s("second")));
    assert!(outcomes.record(s("B"), s("other")));
    assert_eq!(outcomes.len(), 2);
    assert_eq!(outcomes.get(&s("A")), Some(&s("first")));
    assert_eq!(outcomes.get(&s("B")), Some(&s("other")));
    assert!(outcomes.contains_key(&s("A")));
    assert!(!outcomes.contains_key(&s("C")));
}

#[test]
fn a_result_is_accepted_once() {
    let mut context = running(vec![tool("A", vec![])]);
    assert!(!context.node_completed(s("before a node is current")));
    assert!(matches!(context.advance(), Action::Continue));
    assert!(context.node_completed(s("first")));
    assert!(!context.node_completed(s("second")));
    assert!(!context.node_failed(ExecutionError::Timeout));
    assert_eq!(context.plan_state, PlanState::ProcessingAgentResponse);
    assert_eq!(context.activities_outcome.get(&s("A")), Some(&s("first")));
    assert_eq!(output_at(&context, "A"), Some(s("first")));
}

#[test]
fn a_delegation_awaits_the_agent() {
    let mut remote = entry("R", ActivityType::DelegationAgent, vec![]);
    remote.agent = Some(AgentConfigInput {
        skill_to_use: Some(s("research")),
        assigned_agent_id_preference: None,
        agent_context: None,
    });
    let mut context = running(vec![remote]);
    assert!(matches!(context.advance(), Action::Continue));
    assert!(!context.node_completed(s("not dispatched yet")));
    match context.advance() {
        Action::Delegate { node_id, task_description, skill_hint } => {
            assert_eq!(node_id, "R");
            assert_eq!(task_description, "describe R");
            assert_eq!(skill_hint, "research");
        }
        other => panic!("unexpected {:?}", other),
    }
    assert_eq!(context.plan_state, PlanState::AwaitingAgentResponse);
    assert!(matches!(context.advance(), Action::Await));
    assert!(context.node_completed(s("researched")));
    assert_eq!(context.plan_state, PlanState::ProcessingAgentResponse);
    assert!(matches!(context.advance(), Action::Continue));
    assert!(matches!(context.advance(), Action::Continue));
    assert_eq!(context.plan_state, PlanState::Completed);
    assert_eq!(context.final_outcome, "researched");
    assert_eq!(context.current_step_id, None);
    let result = context.execution_result(s("req"), s("conv")).unwrap();
    assert!(result.success);
    assert_eq!(result.request_id, "req");
    assert_eq!(result.conversation_id, "conv");
    assert_eq!(result.output, "researched");
}

#[test]
fn dispatch_hands_over_what_the_capability_needs() {
    let mut with_tool = tool("T", vec![]);
    with_tool.tools = Some(vec![ToolConfigInput {
        tool_to_use: Some(s("calculator")),
        tool_parameters: serde_json::Value::String(s("1+1")),
    }]);
    let mut with_tasks = entry("K", ActivityType::DirectTaskExecution, vec![]);
    with_tasks.tasks = Some(vec![
        TaskConfigInput { task_to_use: Some(s("first")), task_parameters: serde_json::Value::Bool(true) },
        TaskConfigInput { task_to_use: None, task_parameters: serde_json::Value::Null },
    ]);
    let compiled = compile(plan_of(vec![with_tool, with_tasks, tool("bare", vec![])])).unwrap();
    match dispatch(&compiled.graph.nodes[0]) {
        Action::UseTool { node_id, tool_to_use, tool_parameters } => {
            assert_eq!(node_id, "T");
            assert_eq!(tool_to_use, Some(s("calculator")));
            assert_eq!(tool_parameters, Some(serde_json::Value::String(s("1+1"))));
        }
        other => panic!("unexpected {:?}", other),
    }
    match dispatch(&compiled.graph.nodes[1]) {
        Action::RunTasks { node_id, tasks } => {
            assert_eq!(node_id, "K");
            let tasks = tasks.unwrap();
            assert_eq!(tasks.len(), 2);
            assert_eq!(tasks[0].task_to_use, Some(s("first")));
            assert_eq!(tasks[0].task_parameters, serde_json::Value::Bool(true));
            assert_eq!(tasks[1].task_to_use, None);
            assert_eq!(tasks[1].task_parameters, serde_json::Value::Null);
        }
        other => panic!("unexpected {:?}", other),
    }
    match dispatch(&compiled.graph.nodes[2]) {
        Action::UseTool { node_id, tool_to_use, tool_parameters } => {
            assert_eq!(node_id, "bare");
            assert_eq!(tool_to_use, None);
            assert_eq!(tool_parameters, None);
        }
        other => panic!("unexpected {:?}", other),
    }
}

#[test]
fn pause_and_resume_return_to_the_state_left() {
    let mut context = running(vec![entry("R", ActivityType::DelegationAgent, vec![])]);
    assert!(context.pause());
    assert_eq!(context.plan_state, PlanState::Paused);
    assert_eq!(context.resume_state, Some(PlanState::Initializing));
    assert!(!context.pause());
    assert!(matches!(context.advance(), Action::Await));
    assert_eq!(context.plan_state, PlanState::Paused);
    assert!(context.resume());
    assert_eq!(context.plan_state, PlanState::Initializing);
    assert!(context.resume_state.is_none());
    assert!(!context.resume());

    assert!(matches!(context.advance(), Action::Continue));
    assert!(matches!(context.advance(), Action::Delegate { .. }));
    assert!(context.pause());
    assert_eq!(context.current_step_id, Some(s("R")));
    assert!(!context.node_completed(s("while paused")));
    assert_eq!(context.activities_outcome.len(), 0);
    assert!(context.resume());
    assert_eq!(context.plan_state, PlanState::AwaitingAgentResponse);
    assert_eq!(context.current_step_id, Some(s("R")));
    assert!(context.node_completed(s("after the pause")));
    assert!(context.pause());
    assert!(context.resume());
    assert_eq!(context.plan_state, PlanState::ProcessingAgentResponse);
    assert!(matches!(context.advance(), Action::Continue));
    assert!(context.pause());
    assert!(context.resume());
    assert_eq!(context.plan_state, PlanState::DecidingNextStep);
    assert!(matches!(context.advance(), Action::Continue));
    assert_eq!(context.plan_state, PlanState::Completed);
    assert!(!context.pause());
    assert_eq!(context.final_outcome, "after the pause");
}

#[test]
fn cancel_fails_the_plan_and_keeps_outcomes() {
    let mut context = running(vec![tool("A", vec![]), tool("B", vec![("A", None)])]);
    assert!(matches!(context.advance(), Action::Continue));
    assert!(matches!(context.advance(), Action::UseTool { .. }));
    assert!(context.node_completed(s("a done")));
    assert!(context.cancel());
    assert_eq!(context.plan_state, PlanState::Failed(s("cancelled")));
    assert_eq!(context.activities_outcome.get(&s("A")), Some(&s("a done")));
    assert!(!context.cancel());
    assert!(matches!(context.advance(), Action::Finished));
    assert!(!context.node_completed(s("late")));
    assert!(!context.pause());
    let result = context.execution_result(s("r"), s("c")).unwrap();
    assert!(!result.success);
    assert_eq!(result.output, "cancelled");
}

#[test]
fn cancel_of_a_paused_or_idle_run() {
    let mut context = running(vec![tool("A", vec![])]);
    assert!(context.pause());
    assert!(context.cancel());
    assert_eq!(context.plan_state, PlanState::Failed(s("cancelled")));
    assert!(context.resume_state.is_none());
    assert!(!context.resume());
    let mut idle = PlanContext::new(graph_of(vec![node("A", None)], vec![]), s("q"));
    assert!(idle.cancel());
    assert_eq!(idle.plan_state, PlanState::Failed(s("cancelled")));
    assert_eq!(idle.start(s("q")), Ok(()));
    assert_eq!(idle.plan_state, PlanState::Failed(s("cancelled")));
}

#[test]
fn completed_run_is_final() {
    let mut context = running(vec![tool("A", vec![])]);
    run_all(&mut context, &|_| Ok(s("out")));
    assert_eq!(context.plan_state, PlanState::Completed);
    assert!(!context.cancel());
    assert!(!context.node_failed(ExecutionError::Timeout));
    assert_eq!(context.start(s("again")), Ok(()));
    assert_eq!(context.plan_state, PlanState::Completed);
    assert_eq!(context.final_outcome, "out");
}

#[test]
fn every_kind_of_failure_fails_the_plan_with_its_reason() {
    let cases = vec![
        (ExecutionError::RemoteAgentUnavailable, "activity 'A' failed: remote agent unavailable"),
        (ExecutionError::RemoteAgentError(s("503")), "activity 'A' failed: remote agent error: 503"),
        (ExecutionError::ToolExecutionError(s("bad input")), "activity 'A' failed: tool execution error: bad input"),
        (ExecutionError::TaskExecutionError(s("step 2")), "activity 'A' failed: task execution error: step 2"),
        (ExecutionError::Timeout, "activity 'A' failed: timeout"),
    ];
    for (error, reason) in cases {
        let mut context = running(vec![tool("A", vec![]), tool("B", vec![("A", None)])]);
        assert!(matches!(context.advance(), Action::Continue));
        assert!(context.node_finished(Err(error)));
        assert_eq!(context.plan_state, PlanState::Failed(s(reason)));
        assert_eq!(context.current_step_id, Some(s("A")));
        assert_eq!(context.activities_outcome.len(), 0);
    }
}

#[test]
fn diamond_with_conditions_takes_one_branch() {
    let activities = vec![
        tool("root", vec![]),
        tool("left", vec![("root", Some("go left"))]),
        tool("right", vec![("root", Some("go right"))]),
        tool("join-left", vec![("left", None)]),
        tool("join-both", vec![("left", None), ("right", None)]),
    ];
    let mut context = running(activities);
    let dispatched = run_all(&mut context, &|id| {
        if id == "root" {
            Ok(s("please go left now"))
        } else {
            Ok(format!("{} ran", id))
        }
    });
    assert_eq!(dispatched, vec![s("root"), s("left"), s("join-left")]);
    assert_eq!(context.plan_state, PlanState::Completed);
    assert_eq!(context.activities_outcome.len(), 3);
    assert_eq!(output_at(&context, "right"), None);
    assert_eq!(output_at(&context, "join-both"), None);
    assert_eq!(context.final_outcome, "join-left ran");
}

#[test]
fn last_terminal_in_visit_order_gives_the_final_outcome() {
    let activities = vec![
        tool("end-1", vec![("start", None)]),
        tool("start", vec![]),
        tool("end-2", vec![("start", None)]),
        tool("skipped", vec![("start", Some("never"))]),
    ];
    let mut context = running(activities);
    assert_eq!(context.visit_order, vec![1, 0, 2, 3]);
    let dispatched = run_all(&mut context, &|id| Ok(format!("{} output", id)));
    assert_eq!(dispatched, vec![s("start"), s("end-1"), s("end-2")]);
    assert_eq!(context.final_outcome, "end-2 output");
    assert_eq!(
        aggregate(&context.graph, &context.activities_outcome, &context.visit_order),
        "end-2 output"
    );
    assert!(is_terminal(&context.graph, 0));
    assert!(!is_terminal(&context.graph, 1));
    assert!(is_terminal(&context.graph, 2));
    assert!(is_terminal(&context.graph, 3));
    assert!(!is_terminal(&context.graph, 4));
}

#[test]
fn aggregate_without_executed_terminal_is_empty() {
    let graph = graph_of(vec![node("A", None), node("B", None)], vec![edge("A", "B", Some("x"))]);
    let mut outcomes = Outcomes::new();
    assert_eq!(aggregate(&graph, &outcomes, &vec![0, 1]), "");
    outcomes.record(s("A"), s("a"));
    assert_eq!(aggregate(&graph, &outcomes, &vec![0, 1]), "");
    outcomes.record(s("B"), s("b"));
    assert_eq!(aggregate(&graph, &outcomes, &vec![0, 1]), "b");
    assert_eq!(aggregate(&graph, &outcomes, &vec![]), "");
}

#[test]
fn frontier_follows_the_outcomes() {
    let graph = graph_of(
        vec![node("A", None), node("B", None), node("C", None), node("D", None)],
        vec![edge("A", "C", Some("yes")), edge("B", "C", None), edge("C", "D", None)],
    );
    let order = vec![0, 1, 2, 3];
    let mut outcomes = Outcomes::new();
    assert_eq!(frontier(&graph, &outcomes, &order), vec![0, 1]);
    assert_eq!(frontier(&graph, &outcomes, &vec![1, 0, 3, 2]), vec![1, 0]);
    assert_eq!(next_node(&graph, &outcomes, &order), Some(0));
    assert!(is_eligible(&graph, &outcomes, 0));
    assert!(!is_eligible(&graph, &outcomes, 2));
    assert!(!is_eligible(&graph, &outcomes, 9));
    outcomes.record(s("A"), s("oh yes"));
    assert_eq!(frontier(&graph, &outcomes, &order), vec![1]);
    outcomes.record(s("B"), s("b"));
    assert_eq!(frontier(&graph, &outcomes, &order), vec![2]);
    outcomes.record(s("C"), s("c"));
    assert_eq!(frontier(&graph, &outcomes, &order), vec![3]);
    outcomes.record(s("D"), s("d"));
    assert_eq!(frontier(&graph, &outcomes, &order), Vec::<usize>::new());
    assert_eq!(next_node(&graph, &outcomes, &order), None);
    assert_eq!(frontier(&graph, &Outcomes::new(), &vec![7, 0, 8]), vec![0]);
}

#[test]
fn frontier_holds_back_a_node_whose_condition_fails() {
    let graph = graph_of(
        vec![node("A", None), node("B", None), node("C", None)],
        vec![edge("A", "C", Some("yes")), edge("B", "C", None)],
    );
    let mut outcomes = Outcomes::new();
    outcomes.record(s("A"), s("no"));
    outcomes.record(s("B"), s("b"));
    assert_eq!(frontier(&graph, &outcomes, &vec![0, 1, 2]), Vec::<usize>::new());
}

#[test]
fn a_context_without_current_node_fails_when_it_is_to_execute() {
    let mut context = running(vec![tool("A", vec![])]);
    assert!(matches!(context.advance(), Action::Continue));
    context.current_step_id = None;
    assert!(matches!(context.advance(), Action::Continue));
    assert_eq!(context.plan_state, PlanState::Failed(s("internal: the current step names no node")));
    let mut context = running(vec![tool("A", vec![])]);
    assert!(matches!(context.advance(), Action::Continue));
    context.current_step_id = Some(s("nobody"));
    assert!(!context.node_completed(s("x")));
    assert!(matches!(context.advance(), Action::Continue));
    assert_eq!(context.plan_state, PlanState::Failed(s("internal: the current step names no node")));
}

#[test]
fn graph_outputs_can_be_set_and_cleared() {
    let mut graph = graph_of(vec![node("A", None), node("B", Some("old"))], vec![]);
    graph.set_output(0, Some(s("new")));
    assert_eq!(graph.nodes[0].activity().activity_output, Some(s("new")));
    assert_eq!(graph.nodes[1].activity().activity_output, Some(s("old")));
    graph.set_output(1, None);
    assert_eq!(graph.nodes[1].activity().activity_output, None);
    graph.clear_outputs();
    assert_eq!(graph.nodes[0].activity().activity_output, None);
    assert_eq!(graph.nodes.len(), 2);
}

#[test]
fn plan_states_know_their_kind() {
    let active = [
        PlanState::Initializing,
        PlanState::ExecutingStep,
        PlanState::AwaitingAgentResponse,
        PlanState::ProcessingAgentResponse,
        PlanState::DecidingNextStep,
    ];
    for state in active {
        assert!(state.is_active());
        assert!(!state.is_terminal());
    }
    for state in [PlanState::Idle, PlanState::Paused] {
        assert!(!state.is_active());
        assert!(!state.is_terminal());
    }
    for state in [PlanState::Completed, PlanState::Failed(s("x"))] {
        assert!(!state.is_active());
        assert!(state.is_terminal());
    }
}

#[test]
fn admissible_pulls_from_the_frontier_up_to_the_free_workers() {
    let graph = graph_of(
        vec![node("A", None), node("B", None), node("C", None), node("D", None)],
        vec![edge("A", "D", None)],
    );
    let order = vec![0, 1, 2, 3];
    let outcomes = Outcomes::new();
    assert_eq!(admissible(&graph, &outcomes, &order, &vec![], 8), vec![0, 1, 2]);
    assert_eq!(admissible(&graph, &outcomes, &order, &vec![], 3), vec![0, 1, 2]);
    assert_eq!(admissible(&graph, &outcomes, &order, &vec![], 2), vec![0, 1]);
    assert_eq!(admissible(&graph, &outcomes, &order, &vec![], 1), vec![0]);
    assert_eq!(admissible(&graph, &outcomes, &order, &vec![], 0), Vec::<usize>::new());
    assert_eq!(admissible(&graph, &outcomes, &order, &vec![1], 2), vec![0]);
    assert_eq!(admissible(&graph, &outcomes, &order, &vec![1], 3), vec![0, 2]);
    assert_eq!(admissible(&graph, &outcomes, &order, &vec![0, 1], 2), Vec::<usize>::new());
    assert_eq!(admissible(&graph, &outcomes, &order, &vec![0, 1, 2], 2), Vec::<usize>::new());
    assert_eq!(admissible(&graph, &outcomes, &order, &vec![0, 1, 2], 9), Vec::<usize>::new());
    assert_eq!(admissible(&graph, &outcomes, &vec![2, 1, 0, 3], &vec![1], 9), vec![2, 0]);
    let mut outcomes = Outcomes::new();
    outcomes.record(s("A"), s("a"));
    assert_eq!(admissible(&graph, &outcomes, &order, &vec![1], 9), vec![2, 3]);
}

fn pooled_run(
    activities: Vec<ActivityInput>,
    pool_size: usize,
    pick: &dyn Fn(&Vec<usize>) -> usize,
    answer: &dyn Fn(&str) -> Result<String, ExecutionError>,
) -> (PlanContext, Vec<String>, usize) {
    let mut context = running(activities);
    assert!(matches!(context.advance(), Action::Continue));
    let mut in_flight: Vec<usize> = Vec::new();
    let mut finished = Vec::new();
    let mut most_at_once = 0;
    for _ in 0..10_000 {
        if context.plan_state.is_terminal() {
            return (context, finished, most_at_once);
        }
        let more = admissible(
            &context.graph,
            &context.activities_outcome,
            &context.visit_order,
            &in_flight,
            pool_size,
        );
        in_flight.extend(more);
        most_at_once = most_at_once.max(in_flight.len());
        assert!(in_flight.len() <= pool_size);
        assert!(!in_flight.is_empty(), "a run that is under way has work");
        let node = in_flight.remove(pick(&in_flight));
        let id = context.graph.nodes[node].id.clone();
        assert!(context.merge(&id, answer(&id)));
        finished.push(id);
        if context.plan_state == PlanState::ProcessingAgentResponse {
            assert!(matches!(context.advance(), Action::Continue));
            assert!(matches!(context.advance(), Action::Continue));
        }
    }
    panic!("the run did not finish");
}

#[test]
fn pooled_nodes_finish_in_any_order() {
    let activities = || vec![tool("A", vec![]), entry("B", ActivityType::DelegationAgent, vec![])];
    let (first, order, at_once) = pooled_run(activities(), 2, &|_| 0, &|id| Ok(format!("{} out", id)));
    assert_eq!(order, vec![s("A"), s("B")]);
    assert_eq!(at_once, 2);
    let (second, order, _) =
        pooled_run(activities(), 2, &|running| running.len() - 1, &|id| Ok(format!("{} out", id)));
    assert_eq!(order, vec![s("B"), s("A")]);
    for context in [first, second] {
        assert_eq!(context.plan_state, PlanState::Completed);
        assert_eq!(context.activities_outcome.len(), 2);
        assert_eq!(context.activities_outcome.get(&s("A")), Some(&s("A out")));
        assert_eq!(context.activities_outcome.get(&s("B")), Some(&s("B out")));
        assert_eq!(output_at(&context, "A"), Some(s("A out")));
        assert_eq!(output_at(&context, "B"), Some(s("B out")));
        assert_eq!(context.final_outcome, "B out");
    }
}

#[test]
fn pooled_run_respects_dependencies_and_pool_size() {
    let activities = || {
        vec![
            tool("root", vec![]),
            tool("left", vec![("root", None)]),
            tool("right", vec![("root", None)]),
            tool("skipped", vec![("root", Some("never"))]),
            tool("join", vec![("left", None), ("right", Some("right"))]),
        ]
    };
    let (context, order, at_once) =
        pooled_run(activities(), 4, &|running| running.len() - 1, &|id| Ok(format!("{} out", id)));
    assert_eq!(order, vec![s("root"), s("right"), s("left"), s("join")]);
    assert_eq!(at_once, 2);
    assert_eq!(context.plan_state, PlanState::Completed);
    assert_eq!(context.final_outcome, "join out");
    assert_eq!(output_at(&context, "skipped"), None);
    let (context, order, at_once) = pooled_run(activities(), 1, &|_| 0, &|id| Ok(format!("{} out", id)));
    assert_eq!(order, vec![s("root"), s("left"), s("right"), s("join")]);
    assert_eq!(at_once, 1);
    assert_eq!(context.final_outcome, "join out");
}

#[test]
fn pooled_failure_fails_the_plan_and_later_completions_are_discarded() {
    let mut context = running(vec![tool("A", vec![]), tool("B", vec![]), tool("C", vec![("A", None)])]);
    assert!(matches!(context.advance(), Action::Continue));
    let in_flight = admissible(&context.graph, &context.activities_outcome, &context.visit_order, &vec![], 2);
    assert_eq!(in_flight, vec![0, 1]);
    assert!(!context.merge_completed(&s("C"), s("its source has not run")));
    assert!(!context.merge_completed(&s("nobody"), s("no such node")));
    assert!(context.merge_completed(&s("B"), s("b out")));
    assert_eq!(context.current_step_id, Some(s("B")));
    assert!(!context.merge_completed(&s("A"), s("not while the response is processed")));
    assert!(matches!(context.advance(), Action::Continue));
    assert!(matches!(context.advance(), Action::Continue));
    assert_eq!(context.plan_state, PlanState::ExecutingStep);
    assert!(!context.merge_completed(&s("B"), s("twice")));
    assert!(context.merge_failed(&s("A"), ExecutionError::Timeout));
    assert_eq!(context.plan_state, PlanState::Failed(s("activity 'A' failed: timeout")));
    assert_eq!(context.current_step_id, Some(s("A")));
    assert_eq!(context.activities_outcome.get(&s("B")), Some(&s("b out")));
    assert!(!context.merge_completed(&s("A"), s("late")));
    assert!(!context.merge(&s("C"), Ok(s("late"))));
    assert_eq!(context.activities_outcome.len(), 1);
}

#[test]
fn pooled_completion_after_cancel_is_discarded() {
    let mut context = running(vec![tool("A", vec![])]);
    assert!(matches!(context.advance(), Action::Continue));
    assert!(context.cancel());
    assert!(!context.merge_completed(&s("A"), s("late")));
    assert_eq!(context.activities_outcome.len(), 0);
    assert_eq!(context.plan_state, PlanState::Failed(s("cancelled")));
}

#[test]
fn merge_of_the_current_node_is_node_completed() {
    let mut by_merge = running(vec![tool("A", vec![]), tool("B", vec![("A", None)])]);
    let mut by_step = running(vec![tool("A", vec![]), tool("B", vec![("A", None)])]);
    assert!(matches!(by_merge.advance(), Action::Continue));
    assert!(matches!(by_step.advance(), Action::Continue));
    assert!(by_merge.merge_completed(&s("A"), s("out")));
    assert!(by_step.node_completed(s("out")));
    assert_eq!(by_merge.plan_state, by_step.plan_state);
    assert_eq!(by_merge.current_step_id, by_step.current_step_id);
    assert_eq!(by_merge.activities_outcome.get(&s("A")), by_step.activities_outcome.get(&s("A")));
    assert_eq!(output_at(&by_merge, "A"), output_at(&by_step, "A"));
}
