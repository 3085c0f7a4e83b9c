use saasexpress::json::{parse_json, print_json, Json};
use saasexpress::message::Message;
use saasexpress::routing::{callout_attaches, callout_event_matters, callout_plan, callout_result, fan_out_start, latin1_text, reply_route, CalloutPlan, FanOutStart, ReplyRoute};
use saasexpress::configs::ShellConfig;
use saasexpress::shell::{session_key, SessionStep, ShellAction, ShellSessions, batch_message, command_text, exit_notice, lines_reply, output_line, output_message, shell_request, started_reply, stdin_text, stopped_reply, OutputLine, ShellRequest, ShellStream};
use saasexpress::status::{ControlEvent, ControlEventType, GraphStatus, OperatorState};
use saasexpress::graph::RuntimeState;
use saasexpress::routing::Callout;

type Msg = Message<u32, ()>;

#[test]
fn replies_follow_the_origin() {
    let m: Msg = Message::Standard { message: b"x".to_vec(), origin: Some(1) };
    match reply_route(m) {
        ReplyRoute::Send { origin, reply, keep_trace } => {
            assert_eq!(origin, 1);
            assert!(keep_trace);
            assert!(matches!(reply, Message::Standard { origin: None, .. }));
        },
        _ => panic!("expected a reply"),
    }
    let j: Msg = Message::JSON { message: Json::Null, origin: Some(2) };
    assert!(matches!(reply_route(j), ReplyRoute::Send { origin: 2, keep_trace: false, .. }));
    let e: Msg = Message::Error { error: "e".to_string(), origin: Some(3) };
    assert!(matches!(reply_route(e), ReplyRoute::Send { reply: Message::Error { origin: None, .. }, .. }));
    let h: Msg = Message::HTTP { message: vec![], status: 200, headers: vec![], origin: None };
    assert!(matches!(reply_route(h), ReplyRoute::NoOrigin));
    let n: Msg = Message::NoOp;
    assert!(matches!(reply_route(n), ReplyRoute::Nothing));
    let x: Msg = Message::Exit { origin: Some(1) };
    assert!(matches!(reply_route(x), ReplyRoute::Nothing));
    let s: Msg = Message::Split { message: vec![], origin: Some(1) };
    assert!(matches!(reply_route(s), ReplyRoute::Unsupported));
}

#[test]
fn fan_out_reads_requests() {
    let ok: Msg = Message::HTTP { message: br#"{"name":"joe"}"#.to_vec(), status: 200, headers: vec![], origin: Some(1) };
    match fan_out_start(ok) {
        FanOutStart::Distribute { payload, origin, answer, early } => {
            assert_eq!(payload.get("name").and_then(|v| v.as_str()).map(|s| s.as_str()), Some("joe"));
            assert_eq!(origin, 1);
            assert!(answer);
            assert!(early.is_none());
        },
        _ => panic!("expected a distribution"),
    }
    let failed: Msg = Message::HTTP { message: b"boom".to_vec(), status: 500, headers: vec![], origin: Some(1) };
    match fan_out_start(failed) {
        FanOutStart::Distribute { payload, answer, early, .. } => {
            assert_eq!(print_json(&payload), b"{}".to_vec());
            assert!(!answer);
            assert!(matches!(early, Some(Message::HTTP { status: 500, origin: None, .. })));
        },
        _ => panic!("expected a distribution"),
    }
    let empty: Msg = Message::HTTP { message: vec![], status: 204, headers: vec![], origin: Some(1) };
    assert!(matches!(fan_out_start(empty), FanOutStart::Distribute { answer: true, early: None, .. }));
    let bad: Msg = Message::HTTP { message: b"nope".to_vec(), status: 200, headers: vec![], origin: Some(1) };
    assert!(matches!(fan_out_start(bad), FanOutStart::Rejected));
    let no_origin: Msg = Message::JSON { message: Json::Null, origin: None };
    assert!(matches!(fan_out_start(no_origin), FanOutStart::Rejected));
    let json: Msg = Message::JSON { message: Json::Bool(true), origin: Some(4) };
    assert!(matches!(fan_out_start(json), FanOutStart::Distribute { payload: Json::Bool(true), origin: 4, .. }));
    assert_eq!(latin1_text(&[0x41, 0xe9]), "A\u{e9}");
}

#[test]
fn callouts_forward_and_pair() {
    let m: Msg = Message::Standard { message: b"req".to_vec(), origin: Some(5) };
    match callout_plan(m, GraphStatus::Inactive, "worker") {
        CalloutPlan::Inactive { error: Message::Error { error, origin } } => {
            assert_eq!(error, "Graph worker is inactive");
            assert_eq!(origin, Some(5));
        },
        _ => panic!("expected the inactive error"),
    }
    let m: Msg = Message::Standard { message: b"req".to_vec(), origin: Some(5) };
    match callout_plan(m, GraphStatus::Active, "worker") {
        CalloutPlan::Call { payload, request, origin, reply_channel_only } => {
            assert!(!reply_channel_only);
            assert_eq!(payload, b"req".to_vec());
            assert_eq!(request, b"req".to_vec());
            assert_eq!(origin, Some(5));
        },
        _ => panic!("expected a call"),
    }
    let r: Msg = Message::ReqReply { message: b"q".to_vec(), origin: 6 };
    assert!(matches!(callout_plan(r, GraphStatus::Active, "w"), CalloutPlan::Call { ref payload, origin: Some(6), reply_channel_only: true, .. } if payload.is_empty()));
    let n: Msg = Message::NoOp;
    assert!(matches!(callout_plan(n, GraphStatus::Active, "w"), CalloutPlan::Unsupported));
    let reply: Msg = Message::JSON { message: Json::Null, origin: None };
    match callout_result(b"req".to_vec(), reply, Some(5)) {
        Message::Tuple { message_1, message_2, origin } => {
            assert!(matches!(*message_1, Message::Standard { origin: None, .. }));
            assert!(matches!(*message_2, Message::JSON { .. }));
            assert_eq!(origin, Some(5));
        },
        _ => panic!("expected a pair"),
    }
    assert!(callout_attaches(Some(GraphStatus::Active)));
    assert!(!callout_attaches(Some(GraphStatus::Inactive)));
    assert!(!callout_attaches(None));
    let ev = ControlEvent {
        graph_id: "I".to_string(),
        graph_name: "worker".to_string(),
        graph_status: GraphStatus::Active,
        operator_names: vec![],
        event_type: ControlEventType::GraphReplaced,
        reason: String::new(),
    };
    assert!(callout_event_matters(&ev, "worker"));
    assert!(!callout_event_matters(&ev, "other"));
}

#[test]
fn shell_messages() {
    let out: Msg = output_message(ShellStream::Out, "hi");
    match out {
        Message::Standard { message, origin } => {
            let v = parse_json(&message).unwrap();
            assert_eq!(v.get("type").and_then(|t| t.as_str()).map(|s| s.as_str()), Some("out"));
            assert_eq!(v.get("line").and_then(|t| t.as_str()).map(|s| s.as_str()), Some("hi"));
            assert_eq!(origin, None);
        },
        _ => panic!("expected a standard message"),
    }
    let err: Msg = output_message(ShellStream::Error, "bad");
    assert!(matches!(err, Message::Standard { ref message, .. } if message == br#"{"line":"bad","type":"err"}"#));
    let exit: Msg = exit_notice();
    assert!(matches!(exit, Message::Standard { ref message, .. } if message == br#"{"type":"exit"}"#));
    assert_eq!(stdin_text("ls"), "ls\n");
    assert_eq!(command_text(b"pwd".to_vec()), Some("pwd".to_string()));
    assert_eq!(command_text(vec![0xc3]), None);
    let started: Msg = started_reply();
    assert!(matches!(started, Message::Standard { ref message, origin: None } if message == b"Started"));
    let stopped: Msg = stopped_reply();
    assert!(matches!(stopped, Message::Exit { origin: None }));
}

#[test]
fn shell_requests_and_output() {
    let req: Msg = Message::JSON { message: parse_json(br#"{"command":"pwd"}"#).unwrap(), origin: Some(1) };
    assert!(matches!(shell_request(&req), ShellRequest::Command { ref command } if command == b"pwd"));
    let bad: Msg = Message::JSON { message: parse_json(br#"{"cmd":"pwd"}"#).unwrap(), origin: None };
    assert!(matches!(shell_request(&bad), ShellRequest::Malformed));
    let exit: Msg = Message::Exit { origin: None };
    assert!(matches!(shell_request(&exit), ShellRequest::Stop));
    let other: Msg = Message::NoOp;
    assert!(matches!(shell_request(&other), ShellRequest::Unsupported));
    let line: Msg = Message::Standard { message: b"a line".to_vec(), origin: None };
    assert!(matches!(output_line(line), OutputLine::Line(ref l) if l == "a line"));
    let binary: Msg = Message::Standard { message: vec![0xff], origin: None };
    assert!(matches!(output_line(binary), OutputLine::NotText));
    let doc: Msg = Message::JSON { message: parse_json(br#"{"b":1}"#).unwrap(), origin: None };
    assert!(matches!(output_line(doc), OutputLine::Line(ref l) if l == r#"{"b":1}"#));
    let skipped: Msg = Message::NoOp;
    assert!(matches!(output_line(skipped), OutputLine::Skipped));
    let reply: Msg = lines_reply(vec!["x".to_string(), "y".to_string()]);
    assert!(matches!(reply, Message::JSON { ref message, origin: None } if print_json(message) == br#"["x","y"]"#));
    let batch: Option<Msg> = batch_message(&vec!["a".to_string(), "b".to_string(), "c".to_string()]);
    assert!(matches!(batch, Some(Message::Standard { ref message, .. }) if message == b"a\nb\nc"));
    let one: Option<Msg> = batch_message(&vec!["only".to_string()]);
    assert!(matches!(one, Some(Message::Standard { ref message, .. }) if message == b"only"));
    let none: Option<Msg> = batch_message(&vec![]);
    assert!(none.is_none());
}

#[test]
fn shell_sessions_reuse_or_start() {
    let config = ShellConfig::from_config(&parse_json(br#"{"command": "sh", "args": ["-i"]}"#).unwrap());
    let mut sessions: ShellSessions<u32> = ShellSessions::new();
    assert_eq!(session_key(None), "");
    assert_eq!(session_key(Some("s1".to_string())), "s1");
    let req: Msg = Message::JSON { message: parse_json(br#"{"command": "ls"}"#).unwrap(), origin: Some(1) };
    match sessions.handle_plan(&config, "s1", &req) {
        ShellAction::Command { step: SessionStep::Start { command, args, line } } => {
            assert_eq!(command, "sh");
            assert_eq!(args, vec!["-i".to_string()]);
            assert_eq!(line, "ls\n");
        },
        _ => panic!("expected a start"),
    }
    sessions.register("s1", 7);
    match sessions.handle_plan(&config, "s1", &req) {
        ShellAction::Command { step: SessionStep::Reuse { process, line } } => {
            assert_eq!(process, 7);
            assert_eq!(line, "ls\n");
        },
        _ => panic!("expected a reuse"),
    }
    assert!(!sessions.processes.contains_key("s1"));
    sessions.register("s1", 7);
    sessions.register("s2", 9);
    let exit: Msg = Message::Exit { origin: None };
    assert!(matches!(sessions.handle_plan(&config, "s2", &exit), ShellAction::Stop { process: Some(9) }));
    assert!(matches!(sessions.handle_plan(&config, "s2", &exit), ShellAction::Stop { process: None }));
    assert_eq!(sessions.processes.get("s1"), Some(&7));
}

#[test]
fn callout_runtime_state() {
    let c = Callout::new("worker".to_string());
    assert_eq!(c.state(), OperatorState::Pending);
    assert_eq!(c.new_runtime(None).state, OperatorState::Pending);
    assert_eq!(c.new_runtime(Some(GraphStatus::Inactive)).state, OperatorState::Pending);
    let r = c.new_runtime(Some(GraphStatus::Active));
    assert_eq!(r.state(), OperatorState::Ready);
    assert_eq!(r.graph_name, "worker");
}
