use std::sync::Arc;

use saasexpress::channels::{broadcast_event, deregister, get, names, register, save_last_event, Registry};
use saasexpress::document::{assemble, graph_spec, OperatorSpec};
use saasexpress::graph::{count_pending, post_graph_hook, runs_in_actor, Graph, GraphRunner, NodeInit, OperatorKind, RuntimeState};
use saasexpress::graph_registry::{apply_settings_to_all, apply_startup_event, get_pending, settings_to_graphs, GraphRegistry};
use saasexpress::json::{parse_json, Json};
use saasexpress::meta::{EdgeDestination, NodeMeta, Origin};
use saasexpress::named::NamedList;
use saasexpress::ports::Ports;
use saasexpress::reach::path_exists;
use saasexpress::status::{ControlEvent, ControlEventType, GraphStatus, OperatorState};
use saasexpress::widgets::{setup_shared_resource, SharedService, WidgetsSharedService};

/// A test operator: a number, and the fully qualified name of its node once
/// it is told its metadata.
#[derive(Debug, Clone, PartialEq)]
struct Op {
    id: u8,
    fqn: String,
}

impl NodeInit for Op {
    fn init(&mut self, meta: &NodeMeta) {
        self.fqn = meta.fqn();
    }
}

fn op(id: u8) -> Op {
    Op { id, fqn: String::new() }
}

fn event(name: &str, status: GraphStatus, kind: ControlEventType) -> ControlEvent {
    ControlEvent {
        graph_id: "ID".to_string(),
        graph_name: name.to_string(),
        graph_status: status,
        operator_names: Vec::new(),
        event_type: kind,
        reason: String::new(),
    }
}

#[test]
fn node_meta_names() {
    let m = NodeMeta::new("my-graph", "node-1", "Callout".to_string());
    assert_eq!(m.fqn(), "my-graph.node-1(Callout)");
    assert_eq!(m.base_env_vars_settings(&m), "MY_GRAPH_NODE_1_");
    let mut e = m.clone();
    e.engine = Some("v2".to_string());
    assert_eq!(e.fqn(), "my-graph.node-1(Callout.v2)");
    let d = EdgeDestination { to: "b".to_string(), role: "default".to_string() };
    assert_eq!(d.role, "default");
}

#[test]
fn origin_shares_its_value() {
    let o = Origin::new(5u8);
    let c = o.clone();
    assert_eq!(*c.get(), 5);
    let a = o.into_arc();
    assert_eq!(*Origin::from_arc(Arc::clone(&a)).get(), 5);
}

#[test]
fn channel_registry_round_trip() {
    let mut r: Registry<u32, ControlEvent> = Registry::new();
    register(&mut r, "a", 1);
    register(&mut r, "b", 2);
    register(&mut r, "a", 3);
    assert_eq!(get(&r, "a"), Some(&3));
    assert_eq!(names(&r), vec!["b".to_string(), "a".to_string()]);
    assert!(r.is_registered("b"));
    assert!(deregister(&mut r, "b"));
    assert!(!deregister(&mut r, "b"));
    assert_eq!(get(&r, "b"), None);
    let targets = broadcast_event(&mut r, event("g", GraphStatus::Active, ControlEventType::GraphReplaced));
    assert_eq!(targets, vec!["a".to_string()]);
    assert_eq!(r.last_events.get("g").map(|e| e.graph_status), Some(GraphStatus::Active));
    save_last_event(&mut r, "g", event("g", GraphStatus::Inactive, ControlEventType::GraphReplaced));
    assert_eq!(r.last_events.get("g").map(|e| e.graph_status), Some(GraphStatus::Inactive));
}

#[test]
fn graph_registry_add_get_delete() {
    let mut reg: GraphRegistry<u8> = GraphRegistry::new();
    reg.add_graph("one".to_string(), 1);
    reg.add_graph("two".to_string(), 2);
    assert!(reg.contains_graph("one"));
    assert_eq!(reg.get_graph_by_name("two"), Some(&2));
    assert_eq!(reg.graph_names(), vec!["one".to_string(), "two".to_string()]);
    assert_eq!(reg.get_graphs(), vec![&1, &2]);
    assert_eq!(reg.delete_graph("one"), Ok(1));
    assert_eq!(reg.delete_graph("one"), Err("Graph with name one does not exist".to_string()));
    reg.clear();
    assert!(!reg.contains_graph("two"));
}

#[test]
fn graph_name_reused_after_delete() {
    let mut reg: GraphRegistry<u8> = GraphRegistry::new();
    reg.add_graph("g".to_string(), 1);
    reg.add_graph("h".to_string(), 5);
    assert_eq!(reg.delete_graph("g"), Ok(1));
    assert!(!reg.contains_graph("g"));
    assert_eq!(reg.get_graph_by_name("g"), None);
    reg.add_graph("g".to_string(), 2);
    assert_eq!(reg.get_graph_by_name("g"), Some(&2));
    assert_eq!(reg.get_graph_by_name("h"), Some(&5));
}

#[test]
fn pending_graphs_and_startup_events() {
    let entries = vec![
        ("a".to_string(), Some(GraphStatus::Inactive)),
        ("b".to_string(), Some(GraphStatus::Active)),
        ("c".to_string(), None),
    ];
    let mut pending = get_pending(&entries);
    assert_eq!(pending, vec!["a".to_string(), "c".to_string()]);
    assert!(!apply_startup_event(&mut pending, &event("a", GraphStatus::Inactive, ControlEventType::GraphReplaced)));
    assert!(!apply_startup_event(&mut pending, &event("a", GraphStatus::Active, ControlEventType::OperatorUpdated)));
    assert_eq!(pending.len(), 2);
    assert!(!apply_startup_event(&mut pending, &event("a", GraphStatus::Active, ControlEventType::GraphReplaced)));
    assert_eq!(pending, vec!["c".to_string()]);
    assert!(apply_startup_event(&mut pending, &event("c", GraphStatus::Active, ControlEventType::GraphReplaced)));
}

#[test]
fn graph_nodes_edges_and_plan() {
    let mut g: Graph<Op, u8> = Graph::new("g".to_string());
    assert_eq!(g.id.chars().count(), 5);
    assert!(g.id.chars().all(|c| c.is_ascii_digit() || c.is_ascii_uppercase()));
    g.add_node("start", "Passthrough".to_string(), op(1));
    g.add_node("next", "Stub".to_string(), op(2));
    g.add_node("_end", "NOOP".to_string(), op(3));
    assert_eq!(g.mut_nodes.get("next"), Some(&Op { id: 2, fqn: "g.next(Stub)".to_string() }));
    assert_eq!(g.start_node, "start");
    assert_eq!(g.add_edge("start".to_string(), "next".to_string(), "worker".to_string()), Ok(()));
    assert_eq!(g.add_edge("start".to_string(), "next".to_string(), "worker".to_string()), Ok(()));
    assert_eq!(g.next_edges("start"), vec![("worker".to_string(), "next".to_string())]);
    assert_eq!(
        g.next_node_plan("start"),
        vec![("worker".to_string(), "next".to_string()), ("default".to_string(), "_end".to_string())]
    );
    assert_eq!(g.add_edge("start".to_string(), "next".to_string(), "default".to_string()), Ok(()));
    assert_eq!(g.next_node_plan("start").len(), 2);
    assert_eq!(g.node_fqn("next"), "g.next(Stub)");
    assert_eq!(g.node_fqn("missing"), "N/A");
}

/// A test runtime: a number and the state it reports.
#[derive(Debug, Clone, Copy, PartialEq)]
struct Rt {
    id: u8,
    state: OperatorState,
}

impl RuntimeState for Rt {
    fn state(&self) -> OperatorState {
        self.state
    }
}

fn runtimes(entries: &[(&str, u8, OperatorState)]) -> NamedList<Rt> {
    let mut nodes = NamedList::new();
    for (name, id, state) in entries {
        nodes.insert(name.to_string(), Rt { id: *id, state: *state });
    }
    nodes
}

#[test]
fn graph_runner_replacement_by_revision() {
    let mut g: Graph<Op, Rt> = Graph::new("g".to_string());
    g.add_node("s", "Stub".to_string(), op(1));
    let r1 = g.begin_replace();
    let r2 = g.begin_replace();
    assert_eq!((r1, r2), (1, 2));
    let stale = g.finish_replace(r1, runtimes(&[("s", 10, OperatorState::Ready)]));
    assert!(stale.is_none());
    assert_eq!(g.state, GraphStatus::Inactive);
    let ev = g
        .finish_replace(r2, runtimes(&[("s", 11, OperatorState::Pending), ("t", 13, OperatorState::Ready)]))
        .unwrap();
    assert_eq!(ev.reason, "Graph runner updated (rev.2) - INACTIVE");
    assert_eq!(ev.graph_status, GraphStatus::Inactive);
    assert_eq!(g.runner.state, GraphStatus::Inactive);
    let ev = g.finish_replace(r2, runtimes(&[("s", 12, OperatorState::Ready)])).unwrap();
    assert_eq!(ev.reason, "Graph runner updated (rev.2)");
    assert_eq!(g.state, GraphStatus::Active);
    assert_eq!(g.runner.start_node().map(|r| r.id), Some(12));
    let gs = vec![&g];
    let hooks = post_graph_hook(&gs);
    assert_eq!(hooks, vec![(&Op { id: 1, fqn: "g.s(Stub)".to_string() }, &Rt { id: 12, state: OperatorState::Ready })]);
    g.state = GraphStatus::Inactive;
    g.make_active_if_ready();
    assert_eq!(g.state, GraphStatus::Active);
    let ev = g.finish_replace(r2, runtimes(&[])).unwrap();
    assert_eq!(ev.graph_status, GraphStatus::Active);
    let _ = g.finish_replace(r2, runtimes(&[("a", 1, OperatorState::Ready), ("b", 2, OperatorState::Pending)]));
    g.state = GraphStatus::Active;
    g.make_active_if_ready();
    assert_eq!(g.state, GraphStatus::Inactive);
    assert_eq!(count_pending(&vec![OperatorState::Pending, OperatorState::Ready, OperatorState::Pending]), 2);
}

#[test]
fn graph_runner_basics() {
    let mut r: GraphRunner<u8> = GraphRunner::new("x".to_string());
    assert_eq!(r.state, GraphStatus::Inactive);
    assert!(r.start_node().is_none());
    let mut nodes = NamedList::new();
    nodes.insert("".to_string(), 4u8);
    r.replace_nodes(nodes);
    assert_eq!(r.start_node(), Some(&4));
    assert!(runs_in_actor(OperatorKind::Filter));
    assert!(!runs_in_actor(OperatorKind::Endpoint));
}

#[test]
fn graph_settings_per_node() {
    let mut g: Graph<Op, u8> = Graph::new("g1".to_string());
    g.add_node("a", "Stub".to_string(), op(1));
    g.add_node("b", "Stub".to_string(), op(2));
    let settings = parse_json(br#"{"g1": {"b": {"name": "Joe"}}, "g2": {"a": {}}}"#).unwrap();
    let targets = g.apply_settings(&settings);
    assert_eq!(targets.len(), 1);
    assert_eq!(targets[0].0, "b");
    assert_eq!(targets[0].1.get("name").and_then(|v| v.as_str()).map(|s| s.as_str()), Some("Joe"));
    let none = parse_json(br#"{"other": {}}"#).unwrap();
    assert!(g.apply_settings(&none).is_empty());
}

#[test]
fn graph_document_read_and_assembled() {
    let doc = parse_json(
        br#"{"name": "fan", "nodes": [
            {"id": "start", "action": "FanOut"},
            {"id": "w1", "action": "Passthrough", "config": {"x": 1}},
            {"id": "w2", "action": "Passthrough"}],
          "edges": [
            {"from": "start", "to": "w1"},
            {"from": "start", "to": "w2", "role": "second"},
            {"from": "start", "to": "w1"}]}"#,
    )
    .unwrap();
    let spec = graph_spec(&doc).unwrap();
    assert_eq!(spec.name, "fan");
    assert_eq!(spec.nodes.len(), 3);
    assert_eq!(spec.nodes[0].operator, OperatorSpec::FanOut);
    assert!(matches!(spec.nodes[2].config, Json::Null));
    assert_eq!(spec.edges[0].role, "default");
    assert_eq!(spec.edges[1].role, "second");
    let ops: Vec<(String, Op)> = vec![("FanOut".to_string(), op(0)), ("Passthrough".to_string(), op(1)), ("Passthrough".to_string(), op(2))];
    let g: Graph<Op, u8> = assemble(spec, ops).unwrap();
    assert_eq!(g.name, "fan");
    assert_eq!(g.start_node, "start");
    assert_eq!(g.mut_nodes.get("w2"), Some(&Op { id: 2, fqn: "fan.w2(Passthrough)".to_string() }));
    assert_eq!(
        g.next_edges("start"),
        vec![("default".to_string(), "w1".to_string()), ("second".to_string(), "w2".to_string())]
    );
    let bad = parse_json(br#"{"name": "x", "nodes": [{"id": "a", "action": "Unknown"}]}"#).unwrap();
    assert!(graph_spec(&bad).is_none());
    let bad_edges = parse_json(br#"{"name": "x", "nodes": [], "edges": null}"#).unwrap();
    assert!(graph_spec(&bad_edges).is_none());
    let no_edges = parse_json(br#"{"name": "x", "nodes": []}"#).unwrap();
    assert_eq!(graph_spec(&no_edges).unwrap().edges.len(), 0);
    assert_eq!(OperatorSpec::from_action("Settings"), Some(OperatorSpec::Settings));
    assert_eq!(OperatorSpec::from_action("settings"), None);
}

#[test]
fn widgets_are_distinct() {
    let mut w = WidgetsSharedService::new();
    w.add_widget("a".to_string());
    w.add_widget("b".to_string());
    w.add_widget("a".to_string());
    assert_eq!(w.get_widgets(), &vec!["a".to_string(), "b".to_string()]);
    assert_eq!(w.purpose(), "Global Space Shared Widgets with [\"a\", \"b\"]");
    w.start();
    w.stop();
    w.restart();
    let mut slot: Option<WidgetsSharedService> = None;
    setup_shared_resource(&mut slot, "rt".to_string());
    setup_shared_resource(&mut slot, "rt".to_string());
    assert_eq!(slot.as_ref().unwrap().get_widgets(), &vec!["rt".to_string()]);
    WidgetsSharedService::get_instance(&mut slot);
    assert_eq!(slot.as_ref().unwrap().get_widgets().len(), 1);
    WidgetsSharedService::drop_instance(&mut slot);
    assert!(slot.is_none());
    WidgetsSharedService::get_instance(&mut slot);
    assert!(slot.unwrap().get_widgets().is_empty());
}

#[test]
fn ports_are_named_after_nodes() {
    let mut p: Ports<u8> = Ports::new();
    let fed = p.new_port("start", (1u8, "noop"));
    assert_eq!(fed, "noop");
    assert_eq!(p.ports.get("start-ext"), Some(&1));
    p.new_port("start", (2u8, "again"));
    assert_eq!(p.ports.get("start-ext"), Some(&2));
    assert_eq!(p.ports.len(), 1);
}

#[test]
fn edges_refuse_unknown_nodes_and_cycles() {
    let mut g: Graph<Op, u8> = Graph::new("g".to_string());
    g.add_node("a", "Stub".to_string(), op(1));
    g.add_node("b", "Stub".to_string(), op(2));
    g.add_node("c", "Stub".to_string(), op(3));
    assert_eq!(g.add_edge("a".to_string(), "x".to_string(), "default".to_string()), Err("Both nodes must be in the Graph".to_string()));
    assert_eq!(g.add_edge("a".to_string(), "b".to_string(), "default".to_string()), Ok(()));
    assert_eq!(g.add_edge("b".to_string(), "c".to_string(), "default".to_string()), Ok(()));
    assert!(g.has_path(&"a".to_string(), &"c".to_string()));
    assert!(!g.has_path(&"c".to_string(), &"a".to_string()));
    assert!(g.has_path(&"c".to_string(), &"c".to_string()));
    assert_eq!(g.add_edge("c".to_string(), "a".to_string(), "back".to_string()), Err("Adding this edge would create a cycle".to_string()));
    assert_eq!(g.add_edge("b".to_string(), "b".to_string(), "self".to_string()), Err("Adding this edge would create a cycle".to_string()));
    assert!(g.next_edges("c").is_empty());
    assert_eq!(g.add_edge("a".to_string(), "c".to_string(), "skip".to_string()), Ok(()));
    let mut pairs = g.edge_pairs();
    pairs.sort();
    assert_eq!(pairs, vec![("a".to_string(), "b".to_string()), ("a".to_string(), "c".to_string()), ("b".to_string(), "c".to_string())]);
}

#[test]
fn reachability_over_links() {
    let links = vec![
        ("a".to_string(), "b".to_string()),
        ("c".to_string(), "d".to_string()),
        ("b".to_string(), "c".to_string()),
    ];
    assert!(path_exists(&links, &"a".to_string(), &"d".to_string()));
    assert!(!path_exists(&links, &"d".to_string(), &"a".to_string()));
    assert!(path_exists(&links, &"z".to_string(), &"z".to_string()));
    assert!(!path_exists(&vec![], &"a".to_string(), &"b".to_string()));
}

#[test]
fn graph_document_with_a_cycle_is_refused() {
    let doc = parse_json(
        br#"{"name": "loop", "nodes": [{"id": "a", "action": "Stub"}, {"id": "b", "action": "Stub"}],
            "edges": [{"from": "a", "to": "b"}, {"from": "b", "to": "a"}]}"#,
    )
    .unwrap();
    let spec = graph_spec(&doc).unwrap();
    let r: Result<Graph<Op, u8>, String> = assemble(spec, vec![("Stub".to_string(), op(1)), ("Stub".to_string(), op(2))]);
    assert_eq!(r.err(), Some("Adding this edge would create a cycle".to_string()));
    let doc = parse_json(br#"{"name": "x", "nodes": [{"id": "a", "action": "Stub"}], "edges": [{"from": "a", "to": "q"}]}"#).unwrap();
    let r: Result<Graph<Op, u8>, String> = assemble(graph_spec(&doc).unwrap(), vec![("Stub".to_string(), op(1))]);
    assert_eq!(r.err(), Some("Both nodes must be in the Graph".to_string()));
}

#[test]
fn graphs_deregistered_and_given_settings() {
    let mut reg: GraphRegistry<Graph<Op, Rt>> = GraphRegistry::new();
    let mut g1: Graph<Op, Rt> = Graph::new("g1".to_string());
    g1.add_node("a", "Stub".to_string(), op(1));
    g1.add_node("b", "Stub".to_string(), op(2));
    let mut g2: Graph<Op, Rt> = Graph::new("g2".to_string());
    g2.add_node("a", "Stub".to_string(), op(3));
    reg.add_graph("g1".to_string(), g1);
    reg.add_graph("g2".to_string(), g2);
    let settings = parse_json(br#"{"g1": {"b": {"name": "Joe"}}, "g2": {"a": {"x": 1}}}"#).unwrap();
    let all = apply_settings_to_all(&reg, &settings);
    assert_eq!(all.len(), 2);
    assert_eq!(all[0].0, "g1");
    assert_eq!(all[0].1.len(), 1);
    assert_eq!(all[0].1[0].0, "b");
    assert_eq!(all[1].0, "g2");
    assert_eq!(all[1].1[0].0, "a");
    type M = saasexpress::message::Message<u8, ()>;
    let msg: M = saasexpress::message::Message::JSON { message: parse_json(br#"{"name": "Joe"}"#).unwrap(), origin: Some(3) };
    let (applied, out) = settings_to_graphs(&reg, msg);
    assert_eq!(applied.len(), 2);
    assert!(applied.iter().all(|(_, t)| t.is_empty()));
    assert!(matches!(out, saasexpress::message::Message::JSON { origin: Some(3), .. }));
    let removed = Graph::deregister(&mut reg, "g1".to_string());
    assert_eq!(removed.map(|g| g.name), Some("g1".to_string()));
    assert!(Graph::deregister(&mut reg, "g1".to_string()).is_none());
    assert!(!reg.contains_graph("g1"));
    reg.add_graph("g1".to_string(), Graph::new("g1".to_string()));
    assert!(reg.contains_graph("g1"));
}

#[test]
fn node_metadata_names_operator() {
    let mut g: Graph<Op, Rt> = Graph::new("m".to_string());
    g.add_node("x", "ClaimCheck".to_string(), op(1));
    let meta = g.node_meta_map.get("x").unwrap();
    assert_eq!(meta.operator, "ClaimCheck");
    assert_eq!(meta.graph, "m");
    assert_eq!(meta.name, "x");
    assert!(meta.description.is_empty() && meta.tags.is_empty() && meta.properties.is_empty() && meta.logo.is_empty());
    let doc = parse_json(br#"{"name": "cc", "nodes": [{"id": "start", "action": "ClaimCheck"}]}"#).unwrap();
    let g2: Graph<Op, Rt> = assemble(graph_spec(&doc).unwrap(), vec![("ClaimCheck".to_string(), op(0))]).unwrap();
    assert_eq!(g2.node_meta_map.get("start").unwrap().operator, "ClaimCheck");
    assert!(g2.mut_nodes.contains_key("start"));
}

#[test]
fn yaml_graph_documents() {
    let text = "name: cc\nnodes:\n  - id: start\n    action: ClaimCheck\n  - id: next\n    action: Stub\nedges:\n  - from: start\n    to: next\n";
    let spec = saasexpress::document::graph_document(text).unwrap();
    assert_eq!(spec.name, "cc");
    assert_eq!(spec.nodes.len(), 2);
    assert_eq!(spec.nodes[0].operator, OperatorSpec::ClaimCheck);
    assert_eq!(spec.edges.len(), 1);
    assert!(saasexpress::document::graph_document("name: [unclosed").is_none());
    assert!(saasexpress::document::graph_document("nodes: []").is_none());
    let v = saasexpress::json::parse_yaml_text("a: 1\nb: [x, true]\n").unwrap();
    assert_eq!(v.get("a").and_then(|x| x.as_u64()), Some(1));
}

#[test]
fn pending_graphs_follow_runner_status() {
    let mut reg: GraphRegistry<Graph<Op, Rt>> = GraphRegistry::new();
    reg.add_graph("a".to_string(), Graph::new("a".to_string()));
    let mut b: Graph<Op, Rt> = Graph::new("b".to_string());
    let rev = b.begin_replace();
    let _ = b.finish_replace(rev, runtimes(&[("s", 1, OperatorState::Ready)]));
    reg.add_graph("b".to_string(), b);
    assert_eq!(saasexpress::graph_registry::pending_graphs(&reg), vec!["a".to_string()]);
    let _ = Graph::deregister(&mut reg, "a".to_string());
    assert!(saasexpress::graph_registry::pending_graphs(&reg).is_empty());
    reg.add_graph("a".to_string(), Graph::new("a".to_string()));
    assert_eq!(saasexpress::graph_registry::pending_graphs(&reg), vec!["a".to_string()]);
}
