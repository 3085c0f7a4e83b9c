use saasexpress::claim_check::{CheckFs, ClaimFiles, claim_check_plan, claim_path, clear_reply, filesystem_reference, get_reply, put_reply, CheckStorage, ClaimCheck, ClaimCheckInvalidError, ClaimCheckReference, ClaimStep};
use saasexpress::configs::{callout_graph_name, interval_done, AIToolSchema, ClaimCheckAction, ShellConfig, TimerConfig};
use saasexpress::json::{object, parse_json, print_json, string, Json};
use saasexpress::message::Message;
use saasexpress::operators::{buffer_to_json, canonical_model_handle, decode_lossy, json_to_buffer, merge_replies, passthrough_handle, settings_handle, stamp_message, template_handle, terminate_handle, timer_message, global_space_handle, Stub};
use std::cell::RefCell;
use saasexpress::meta::NodeMeta;

type Msg = Message<u32, ()>;

fn text_of(j: &Json, key: &str) -> Option<String> {
    j.get(key).and_then(|v| v.as_str()).cloned()
}

#[test]
fn buffer_to_json_stamps_objects() {
    let now = "2024-01-01T00:00:00+00:00".to_string();
    let m: Msg = Message::Standard { message: br#"{"name":"Joe"}"#.to_vec(), origin: Some(1) };
    match stamp_message(m, &now) {
        Some(Message::JSON { message, origin }) => {
            assert_eq!(origin, Some(1));
            assert_eq!(text_of(&message, "name").as_deref(), Some("Joe"));
            assert_eq!(text_of(&message, "_ts").as_deref(), Some(now.as_str()));
        },
        _ => panic!("expected a JSON message"),
    }
    let empty: Msg = Message::Standard { message: vec![], origin: None };
    match stamp_message(empty, &now) {
        Some(Message::JSON { message, .. }) => assert_eq!(text_of(&message, "_ts").as_deref(), Some(now.as_str())),
        _ => panic!("expected a JSON message"),
    }
    let not_object: Msg = Message::Standard { message: b"[1]".to_vec(), origin: None };
    assert!(stamp_message(not_object, &now).is_none());
    let bad_request: Msg = Message::ReqReply { message: b"{oops".to_vec(), origin: 5 };
    match stamp_message(bad_request, &now) {
        Some(Message::Error { error, origin }) => {
            assert_eq!(error, "Error serializing JSON");
            assert_eq!(origin, None);
        },
        _ => panic!("expected an error"),
    }
    let noop: Msg = Message::NoOp;
    assert!(matches!(stamp_message(noop, &now), Some(Message::Error { .. })));
    let live: Msg = Message::Standard { message: b"{}".to_vec(), origin: None };
    match buffer_to_json(live) {
        Some(Message::JSON { message, .. }) => assert!(text_of(&message, "_ts").is_some()),
        _ => panic!("expected a JSON message"),
    }
}

#[test]
fn json_to_buffer_prints() {
    let m: Msg = Message::JSON { message: parse_json(br#"{"a":1}"#).unwrap(), origin: Some(2) };
    match json_to_buffer(m) {
        Message::Standard { message, origin } => {
            assert_eq!(message, br#"{"a":1}"#.to_vec());
            assert_eq!(origin, Some(2));
        },
        _ => panic!("expected a standard message"),
    }
    let other: Msg = Message::NoOp;
    assert!(matches!(json_to_buffer(other), Message::Error { .. }));
}

#[test]
fn canonical_model_reports_validation() {
    let ok: Msg = Message::JSON { message: parse_json(br#"{"name":"Joe"}"#).unwrap(), origin: Some(3) };
    assert!(matches!(canonical_model_handle(ok, Ok(())), Message::JSON { origin: Some(3), .. }));
    let bad: Msg = Message::JSON { message: parse_json(br#"{"first":"Joe"}"#).unwrap(), origin: Some(3) };
    match canonical_model_handle(bad, Err("missing field `name`".to_string())) {
        Message::Error { error, origin } => {
            assert_eq!(error, "Canonical Model Validation Error - missing field `name`");
            assert_eq!(origin, Some(3));
        },
        _ => panic!("expected an error"),
    }
}

#[test]
fn fan_out_merges_replies() {
    let one: Vec<Msg> = vec![Message::JSON { message: string("only"), origin: None }];
    assert_eq!(merge_replies(one).as_str().map(|s| s.as_str()), Some("only"));
    let several: Vec<Msg> = vec![
        Message::Standard { message: b"hi".to_vec(), origin: None },
        Message::NoOp,
        Message::JSON { message: Json::Bool(true), origin: None },
    ];
    let merged = merge_replies(several);
    let items = merged.as_array().unwrap();
    assert_eq!(items.len(), 2);
    assert_eq!(text_of(&items[0], "text").as_deref(), Some("hi"));
    assert_eq!(items[1].as_bool(), Some(true));
    let none: Vec<Msg> = vec![];
    assert_eq!(merge_replies(none).as_array().map(|a| a.len()), Some(0));
    assert_eq!(decode_lossy(&[104, 0xff]), "h\u{fffd}");
}

#[test]
fn simple_operators() {
    let m: Msg = Message::Standard { message: vec![1, 2], origin: Some(4) };
    assert!(matches!(template_handle(m), Message::Standard { origin: Some(4), .. }));
    let j: Msg = Message::JSON { message: Json::Null, origin: Some(4) };
    match template_handle(j) {
        Message::Error { error, origin } => {
            assert_eq!(error, "Unexpected message type");
            assert_eq!(origin, None);
        },
        _ => panic!("expected an error"),
    }
    let g: Msg = Message::Exit { origin: None };
    assert!(matches!(global_space_handle(g), Message::Error { .. }));
    let t: Msg = Message::Standard { message: vec![], origin: None };
    assert!(matches!(terminate_handle(t), Message::NoOp));
    let p: Msg = Message::Exit { origin: Some(9) };
    assert!(matches!(passthrough_handle(p), Message::Exit { origin: Some(9) }));
    let timer: Msg = timer_message("started", Some(1));
    match timer {
        Message::JSON { message, origin } => {
            assert_eq!(print_json(&message), br#"{"timer":"started"}"#.to_vec());
            assert_eq!(origin, Some(1));
        },
        _ => panic!("expected a JSON message"),
    }
}

#[test]
fn stub_answers_with_its_data() {
    let config = parse_json(br#"{"name":"Joe"}"#).unwrap();
    let mut stub = Stub::from_config(&config);
    let m: Msg = Message::Standard { message: vec![], origin: Some(8) };
    match stub.handle(m) {
        Message::JSON { message, origin } => {
            assert_eq!(text_of(&message, "name").as_deref(), Some("Joe"));
            assert_eq!(origin, Some(8));
        },
        _ => panic!("expected a JSON message"),
    }
    stub.set_settings(parse_json(br#"{"name":"Ann"}"#).unwrap());
    let m: Msg = Message::NoOp;
    match stub.handle(m) {
        Message::JSON { message, origin } => {
            assert_eq!(text_of(&message, "name").as_deref(), Some("Ann"));
            assert_eq!(origin, None);
        },
        _ => panic!("expected a JSON message"),
    }
}

#[test]
fn settings_operator_passes_documents() {
    let m: Msg = Message::JSON { message: parse_json(br#"{"g":{}}"#).unwrap(), origin: Some(1) };
    let (apply, reply) = settings_handle(m);
    assert!(apply.unwrap().get("g").is_some());
    assert!(matches!(reply, Message::JSON { origin: Some(1), .. }));
    let s: Msg = Message::Standard { message: vec![], origin: Some(1) };
    let (apply, reply) = settings_handle(s);
    assert!(apply.is_none());
    assert!(matches!(reply, Message::Error { origin: None, .. }));
}

#[test]
fn operator_configurations() {
    let sh = ShellConfig::from_config(&parse_json(br#"{"args": ["-c", 3, "pwd"]}"#).unwrap());
    assert_eq!(sh.command, "bash");
    assert_eq!(sh.args, vec!["-c".to_string(), "pwd".to_string()]);
    let sh2 = ShellConfig::from_config(&parse_json(br#"{"command": "sh"}"#).unwrap());
    assert_eq!(sh2.command, "sh");
    assert!(sh2.args.is_empty());
    let t = TimerConfig::from_config(&parse_json(br#"{"interval_ms": 100, "iterations": 3}"#).unwrap());
    assert!(!t.on_start);
    assert_eq!(t.interval_ms, Some(100));
    assert_eq!(t.iterations, 3);
    assert!(t.starts_on_message());
    assert!(interval_done(3, 3));
    assert!(!interval_done(2, 3));
    assert!(!interval_done(5, 0));
    assert_eq!(callout_graph_name(&parse_json(br#"{"graph_name": "worker"}"#).unwrap()), "worker");
    assert_eq!(callout_graph_name(&Json::Null), "");
    assert_eq!(ClaimCheckAction::from_name("Get"), ClaimCheckAction::Get);
    assert_eq!(ClaimCheckAction::from_name("Clear"), ClaimCheckAction::Clear);
    assert_eq!(ClaimCheckAction::from_name("get"), ClaimCheckAction::Put);
    assert_eq!(ClaimCheckAction::from_config(&parse_json(br#"{"action": "Clear"}"#).unwrap()), ClaimCheckAction::Clear);
    let mut cc = ClaimCheck::from_config(&parse_json(br#"{"action": "Get"}"#).unwrap());
    assert_eq!(cc.action, ClaimCheckAction::Get);
    assert_eq!(cc.fqn, "");
    cc.init(&NodeMeta::new("g", "c", "ClaimCheck".to_string()));
    assert_eq!(cc.fqn, "g.c(ClaimCheck)");
    let tool = AIToolSchema::from_config(&parse_json(br#"{"schema": {"name": "search"}}"#).unwrap());
    assert_eq!(tool.name(), "search");
    assert!(tool.get_schema().is_ok());
    let none = AIToolSchema::from_config(&Json::Null);
    assert_eq!(none.name(), "Unknown");
    assert_eq!(none.get_schema().err(), Some("No schema found".to_string()));
}

struct MemoryStorage {
    items: RefCell<Vec<(String, Vec<u8>)>>,
}

impl CheckStorage for MemoryStorage {
    fn put(&self, message: Vec<u8>) -> ClaimCheckReference {
        let id = format!("id{}", self.items.borrow().len());
        self.items.borrow_mut().push((id.clone(), message));
        filesystem_reference(id)
    }
    fn get(&self, claim_id: &str) -> Result<Vec<u8>, ClaimCheckInvalidError> {
        self.items.borrow().iter().find(|(k, _)| k == claim_id).map(|(_, v)| v.clone()).ok_or(ClaimCheckInvalidError)
    }
    fn clear(&self, claim_id: &str) {
        self.items.borrow_mut().retain(|(k, _)| k != claim_id);
    }
}

#[test]
fn claim_check_put_get_clear() {
    assert_eq!(claim_path("abc"), "/tmp/claim_check_abc.bin");
    assert_eq!(ClaimCheckInvalidError.message(), "Claim check is either invalid or has expired.");
    let store = MemoryStorage { items: RefCell::new(Vec::new()) };
    let putter = ClaimCheck { action: ClaimCheckAction::Put, fqn: "g.c(ClaimCheck)".to_string() };
    let getter = ClaimCheck { action: ClaimCheckAction::Get, fqn: "g.c(ClaimCheck)".to_string() };
    let clearer = ClaimCheck { action: ClaimCheckAction::Clear, fqn: "g.c(ClaimCheck)".to_string() };
    let m: Msg = Message::Standard { message: b"payload".to_vec(), origin: Some(1) };
    let claim = match putter.handle(&store, m) {
        Message::JSON { message, origin } => {
            assert_eq!(origin, Some(1));
            assert_eq!(text_of(&message, "claim_type").as_deref(), Some("filesystem"));
            text_of(&message, "claim_value").unwrap()
        },
        _ => panic!("expected a claim"),
    };
    let req = object(vec![("claim_id".to_string(), string(&claim))]);
    let g: Msg = Message::JSON { message: req, origin: Some(2) };
    assert!(matches!(getter.handle(&store, g), Message::Standard { ref message, origin: Some(2) } if message == b"payload"));
    let req = object(vec![("claim_id".to_string(), string(&claim))]);
    let c: Msg = Message::JSON { message: req, origin: None };
    assert!(matches!(clearer.handle(&store, c), Message::Standard { ref message, .. } if message.is_empty()));
    let req = object(vec![("claim_id".to_string(), string(&claim))]);
    let g2: Msg = Message::JSON { message: req, origin: None };
    match getter.handle(&store, g2) {
        Message::Error { error, .. } => assert_eq!(error, "ClaimCheckInvalidError: [g.c(ClaimCheck)] Claim check is either invalid or has expired."),
        _ => panic!("expected an error"),
    }
    let no_id: Msg = Message::JSON { message: object(vec![]), origin: None };
    match getter.handle(&store, no_id) {
        Message::Error { error, .. } => assert_eq!(error, "ClaimCheckInvalidError: [g.c(ClaimCheck)] No claim id provided"),
        _ => panic!("expected an error"),
    }
    let std_get: Msg = Message::Standard { message: vec![], origin: None };
    match getter.handle(&store, std_get) {
        Message::Error { error, .. } => assert_eq!(error, "Can not use a Standard message for Getters"),
        _ => panic!("expected an error"),
    }
}

#[test]
fn claim_check_steps_and_replies() {
    let m: Msg = Message::JSON { message: parse_json(br#"{"a":1}"#).unwrap(), origin: Some(1) };
    match claim_check_plan(ClaimCheckAction::Put, "f", m) {
        ClaimStep::Put { data, origin } => {
            assert_eq!(data, br#"{"a":1}"#.to_vec());
            assert_eq!(origin, Some(1));
        },
        _ => panic!("expected a put"),
    }
    let r: Msg = put_reply(ClaimCheckReference { claim_type: "filesystem".to_string(), claim_value: "x".to_string() }, None);
    assert!(matches!(r, Message::JSON { .. }));
    let g: Msg = get_reply(None, "n", Some(1));
    assert!(matches!(g, Message::Error { origin: Some(1), .. }));
    let c: Msg = clear_reply(None);
    assert!(matches!(c, Message::Standard { .. }));
    let other: Msg = Message::NoOp;
    assert!(matches!(claim_check_plan(ClaimCheckAction::Put, "f", other), ClaimStep::Reply { message: Message::Error { .. } }));
}

#[test]
fn printed_json_reads_back_stamped() {
    let now = "2024-01-01T00:00:00+00:00".to_string();
    let doc: &[u8] = br#"{"a": 1, "b": [true, null, "x\n"], "c": {"d": -2, "e": "\u00e9"}}"#;
    let v = parse_json(doc).unwrap();
    let mut want = parse_json(doc).unwrap();
    want.insert("_ts".to_string(), string(&now));
    let m: Msg = Message::JSON { message: v, origin: Some(7) };
    let bytes = json_to_buffer(m);
    match stamp_message(bytes, &now) {
        Some(Message::JSON { message, origin }) => {
            assert_eq!(origin, Some(7));
            assert_eq!(text_of(&message, "_ts").as_deref(), Some(now.as_str()));
            assert_eq!(message.get("a").and_then(|x| x.as_u64()), Some(1));
            assert_eq!(print_json(&message), print_json(&want));
        },
        other => panic!("unexpected {:?}", other),
    }
}

#[test]
fn claim_check_node_named_when_added() {
    let mut g: saasexpress::graph::Graph<ClaimCheck, u8> = saasexpress::graph::Graph::new("cc".to_string());
    g.add_node("store", "ClaimCheck".to_string(), ClaimCheck::from_config(&Json::Null));
    let node = g.mut_nodes.get("store").unwrap();
    assert_eq!(node.fqn, "cc.store(ClaimCheck)");
    assert_eq!(node.action, ClaimCheckAction::Put);
}

struct MemoryFiles {
    files: RefCell<Vec<(String, Vec<u8>)>>,
}

impl ClaimFiles for MemoryFiles {
    fn write(&self, path: &str, data: &Vec<u8>) {
        self.files.borrow_mut().push((path.to_string(), data.clone()));
    }
    fn read(&self, path: &str) -> Option<Vec<u8>> {
        self.files.borrow().iter().rev().find(|(p, _)| p == path).map(|(_, d)| d.clone())
    }
    fn remove(&self, path: &str) -> bool {
        let before = self.files.borrow().len();
        self.files.borrow_mut().retain(|(p, _)| p != path);
        self.files.borrow().len() != before
    }
}

#[test]
fn file_store_claims() {
    let store = CheckFs { files: MemoryFiles { files: RefCell::new(Vec::new()) } };
    let node = ClaimCheck::from_config(&Json::Null);
    let m: Msg = Message::Standard { message: b"{}".to_vec(), origin: Some(4) };
    let reply = node.handle(&store, m);
    let id = match reply {
        Message::JSON { message, origin: Some(4) } => {
            assert_eq!(text_of(&message, "claim_type").as_deref(), Some("filesystem"));
            text_of(&message, "claim_value").unwrap()
        },
        other => panic!("unexpected {:?}", other),
    };
    assert_eq!(id.len(), 36);
    assert_eq!(id.chars().filter(|c| *c == '-').count(), 4);
    assert_eq!(store.files.files.borrow()[0].0, format!("/tmp/claim_check_{}.bin", id));
    assert_eq!(store.get(&id).ok(), Some(b"{}".to_vec()));
    store.clear(&id);
    assert!(store.get(&id).is_err());
}

#[test]
fn printed_json_reads_back_by_member() {
    let now = "2024-01-01T00:00:00+00:00".to_string();
    let mut fields = Vec::new();
    fields.push(("z".to_string(), Json::Number(saasexpress::json::JsonNumber::NegInt(5))));
    fields.push(("a".to_string(), string("first")));
    fields.push(("a".to_string(), string("second")));
    let v = object(fields);
    let m: Msg = Message::JSON { message: v, origin: Some(2) };
    match stamp_message(json_to_buffer(m), &now) {
        Some(Message::JSON { message, origin }) => {
            assert_eq!(origin, Some(2));
            assert_eq!(message.get("z").and_then(|x| x.as_u64()), Some(5));
            assert_eq!(text_of(&message, "a").as_deref(), Some("second"));
            assert_eq!(text_of(&message, "_ts").as_deref(), Some(now.as_str()));
        },
        other => panic!("unexpected {:?}", other),
    }
}

#[test]
fn file_store_clear_removes_the_file() {
    let store = CheckFs { files: MemoryFiles { files: RefCell::new(Vec::new()) } };
    let put = ClaimCheck::from_config(&Json::Null);
    let id = match put.handle(&store, Message::<u32, ()>::Standard { message: b"x".to_vec(), origin: None }) {
        Message::JSON { message, .. } => text_of(&message, "claim_value").unwrap(),
        other => panic!("unexpected {:?}", other),
    };
    let clear = ClaimCheck::from_config(&parse_json(br#"{"action": "Clear"}"#).unwrap());
    let req = parse_json(format!(r#"{{"claim_id": "{}"}}"#, id).as_bytes()).unwrap();
    let reply = clear.handle(&store, Message::<u32, ()>::JSON { message: req, origin: Some(8) });
    assert!(matches!(reply, Message::Standard { ref message, origin: Some(8) } if message.is_empty()));
    assert!(store.files.files.borrow().is_empty());
}
