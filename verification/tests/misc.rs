use saasexpress::ai_agent::{collect_tools, AIAgent, first_with_role, tool_setup_message, user_prompt_of};
use saasexpress::bus::{Broker, ControlEvent as BusEvent, SubscribeMessage};
use saasexpress::configs::{timer_tick, TimerConfig, TimerStart};
use saasexpress::graph::{actor_handler, middleware_handler, Graph, Handler, NodeInit, OperatorKind, ProcessorType};
use saasexpress::routing::{reply_channel, ReplyChannel};
use saasexpress::configs::AIToolSchema;
use saasexpress::meta::NodeMeta;
use saasexpress::json::{parse_json, print_json};
use saasexpress::message::Message;
use saasexpress::status::{GraphStatus, OperatorState};
use saasexpress::timestamp::{now, now_rfc3339, NaiveDateTimeExt};

type Msg = Message<u32, ()>;

/// A test operator: a number, and the fully qualified name of its node once
/// it is told its metadata.
#[derive(Debug, Clone, PartialEq)]
struct Op {
    id: u8,
    fqn: String,
}

impl NodeInit for Op {
    fn init(&mut self, meta: &NodeMeta) {
        self.fqn = meta.fqn();
    }
}

fn op(id: u8) -> Op {
    Op { id, fqn: String::new() }
}

#[test]
fn broker_delivers_to_topic_subscribers() {
    let mut b: Broker<&str> = Broker::new();
    b.subscribe("t".to_string(), "s1");
    b.subscribe("u".to_string(), "s2");
    b.subscribe("t".to_string(), "s3");
    let sends = b.publish("t", &vec![1, 2]);
    assert_eq!(sends.len(), 2);
    assert_eq!(*sends[0].0, "s1");
    assert_eq!(*sends[1].0, "s3");
    assert_eq!(sends[1].1.topic, "t");
    assert_eq!(sends[1].1.payload, vec![1, 2]);
    assert!(b.publish("none", &vec![]).is_empty());
    let m = SubscribeMessage::new("x".to_string(), vec![9]);
    assert_eq!(m.payload, vec![9]);
    let e = BusEvent { graph_name: "g".to_string(), operator_names: vec![], state: GraphStatus::Active };
    assert_eq!(e.clone().graph_name, "g");
}

#[test]
fn timer_modes_and_rounds() {
    let once = TimerConfig::from_config(&parse_json(br#"{"on_start": true, "interval_ms": 5}"#).unwrap());
    assert_eq!(once.start_mode(), TimerStart::Once);
    let slow = TimerConfig::from_config(&parse_json(br#"{}"#).unwrap());
    assert_eq!(slow.start_mode(), TimerStart::Every30Seconds);
    let on_msg = TimerConfig::from_config(&parse_json(br#"{"interval_ms": 5}"#).unwrap());
    assert_eq!(on_msg.start_mode(), TimerStart::OnMessage);
    assert_eq!(timer_tick(0, 2), (1, false));
    assert_eq!(timer_tick(1, 2), (2, true));
    assert_eq!(timer_tick(7, 0), (8, false));
}

#[test]
fn runtime_contexts_name_every_node() {
    let mut g: Graph<Op, u8> = Graph::new("g".to_string());
    g.add_node("a", "Stub".to_string(), op(1));
    g.add_node("b", "Timer".to_string(), op(2));
    let ctx = g.runtime_contexts();
    assert_eq!(ctx, vec![("a".to_string(), "g.a(Stub)".to_string()), ("b".to_string(), "g.b(Timer)".to_string())]);
    let p = ProcessorType::new_basic(3u8);
    assert!(matches!(p, ProcessorType::Basic { processor: 3 }));
}

#[test]
fn agent_requests_and_successors() {
    let req: Msg = Message::JSON { message: parse_json(br#"{"prompt": "Do something"}"#).unwrap(), origin: None };
    assert_eq!(user_prompt_of(&req).as_deref(), Some("Do something"));
    let raw: Msg = Message::Standard { message: br#"{"prompt": "x"}"#.to_vec(), origin: None };
    assert_eq!(user_prompt_of(&raw).as_deref(), Some("x"));
    let none: Msg = Message::JSON { message: parse_json(br#"{"q": 1}"#).unwrap(), origin: None };
    assert_eq!(user_prompt_of(&none), None);
    let roles = vec!["prompt".to_string(), "llm".to_string(), "default".to_string(), "llm".to_string()];
    assert_eq!(first_with_role(&roles, "llm"), Some(1));
    assert_eq!(first_with_role(&roles, "tool"), None);
    let next = vec![
        ("tool".to_string(), Some("search".to_string())),
        ("llm".to_string(), None),
        ("tool".to_string(), Some("buy".to_string())),
        ("tool".to_string(), Some("search".to_string())),
    ];
    let tools = collect_tools(&next).unwrap();
    assert_eq!(tools.len(), 2);
    assert_eq!(tools.get("search"), Some(&3));
    assert_eq!(tools.get("buy"), Some(&2));
    let bad = vec![("tool".to_string(), None)];
    assert!(collect_tools(&bad).is_none());
    let setup: Msg = tool_setup_message(Some(4));
    assert!(matches!(setup, Message::Standard { ref message, origin: Some(4) } if message == br#"{"tool":"setup"}"#));
}

#[test]
fn clock_readings() {
    let text = now_rfc3339();
    assert!(text.ends_with("+00:00"));
    assert!(text.len() >= 25);
    let bytes = text.as_bytes();
    assert_eq!((bytes[4], bytes[7], bytes[10], bytes[13], bytes[16]), (b'-', b'-', b'T', b':', b':'));
    assert!([0usize, 1, 2, 3, 5, 6, 8, 9, 11, 12, 14, 15, 17, 18].iter().all(|&i| bytes[i].is_ascii_digit()));
    let t = now();
    let again = t.to_rfc3339();
    assert_eq!(&again[..4], &text[..4]);
    assert_eq!(print_json(&parse_json(b"1").unwrap()), b"1".to_vec());
}

#[test]
fn endpoints_get_ports() {
    let mut g: Graph<Op, u8> = Graph::new("g".to_string());
    g.add_node("in", "Timer".to_string(), op(1));
    g.add_node("work", "Stub".to_string(), op(2));
    g.add_node("_end", "NOOP".to_string(), op(3));
    let targets = g.port_targets(&vec![OperatorKind::Endpoint, OperatorKind::Filter, OperatorKind::Endpoint]);
    assert_eq!(targets, vec!["in".to_string()]);
}

#[test]
fn agent_start_finds_tools() {
    let mut a = AIAgent::new("agent".to_string());
    a.add_next("tool".to_string(), Some("search".to_string()));
    a.add_next("llm".to_string(), None);
    a.add_next("default".to_string(), None);
    a.add_next("tool".to_string(), Some("buy".to_string()));
    assert!(a.start());
    assert_eq!(a.state, OperatorState::Ready);
    assert_eq!(a.tools.get("search"), Some(&0));
    assert_eq!(a.tools.get("buy"), Some(&3));
    assert_eq!(a.tools.len(), 2);
}

#[test]
fn agent_start_stops_at_a_successor_that_is_no_tool() {
    let mut a = AIAgent::new("agent".to_string());
    a.add_next("tool".to_string(), Some("search".to_string()));
    a.add_next("prompt".to_string(), None);
    a.add_next("tool".to_string(), None);
    a.add_next("tool".to_string(), Some("buy".to_string()));
    assert!(!a.start());
    assert_eq!(a.state, OperatorState::Pending);
    assert_eq!(a.tools.get("search"), Some(&0));
    assert_eq!(a.tools.get("buy"), None);
    assert_eq!(a.tools.len(), 1);
    assert_eq!(a.next.len(), 4);
}

#[test]
fn nodes_are_told_their_metadata() {
    let mut g: Graph<Op, u8> = Graph::new("flow".to_string());
    g.add_node("first", "Stub".to_string(), op(7));
    assert_eq!(g.mut_nodes.get("first"), Some(&Op { id: 7, fqn: "flow.first(Stub)".to_string() }));
    assert_eq!(g.start_node, "first");
}

#[test]
fn handlers_chosen_per_operator() {
    let m: Msg = Message::Standard { message: b"x".to_vec(), origin: None };
    let e: Msg = Message::Error { error: "bad".to_string(), origin: None };
    assert_eq!(actor_handler(&m, true, OperatorKind::Filter2), Handler::Async);
    assert_eq!(actor_handler(&m, false, OperatorKind::Filter2), Handler::Filter2);
    assert_eq!(actor_handler(&m, false, OperatorKind::Filter), Handler::Runtime);
    assert_eq!(middleware_handler(&e, OperatorKind::Filter2), None);
    assert_eq!(middleware_handler(&m, OperatorKind::Filter2), Some(Handler::Filter2));
    assert_eq!(middleware_handler(&m, OperatorKind::CanonicalModel), Some(Handler::Runtime));
    assert_eq!(reply_channel(true, true), Some(ReplyChannel::Queue));
    assert_eq!(reply_channel(false, true), Some(ReplyChannel::OneShot));
    assert_eq!(reply_channel(false, false), None);
    let tool = AIToolSchema { schema: None };
    let back: Msg = tool.invoke(Message::Standard { message: b"q".to_vec(), origin: Some(3) });
    assert!(matches!(back, Message::Standard { ref message, origin: Some(3) } if message == b"q"));
}
