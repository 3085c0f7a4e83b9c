use saasexpress::ai_agent::{agent_reply, agent_start, agent_step, default_empty, message_to_json, message_value, prepare_llm_request, tool_result_value, tool_schemas, AgentAction, AgentEvent, AgentState};
use saasexpress::ai_model::{AiAgentModel, Choice, CompletionTokensDetails, Function, Message as ModelMessage, PromptTokensDetails, ToolCall, Usage};
use saasexpress::configs::AIToolSchema;
use saasexpress::json::{parse_json, print_json, string, Json};
use saasexpress::message::Message;

type Msg = Message<u32, ()>;
type Event = AgentEvent<u32, ()>;

fn usage() -> Usage {
    Usage {
        completion_tokens: 1,
        completion_tokens_details: CompletionTokensDetails { accepted_prediction_tokens: 0, audio_tokens: 0, reasoning_tokens: 0, rejected_prediction_tokens: 0 },
        prompt_tokens: 1,
        prompt_tokens_details: PromptTokensDetails { audio_tokens: 0, cached_tokens: 0 },
        total_tokens: 2,
    }
}

fn model(finish: &str, content: Option<&str>, calls: Vec<ToolCall>) -> AiAgentModel {
    AiAgentModel {
        choices: vec![Choice {
            finish_reason: finish.to_string(),
            index: 0,
            logprobs: None,
            message: ModelMessage {
                annotations: vec![],
                content: content.map(|c| c.to_string()),
                refusal: None,
                role: "assistant".to_string(),
                tool_calls: calls,
            },
        }],
        created: 1,
        id: "c1".to_string(),
        model: "gpt".to_string(),
        object: "chat.completion".to_string(),
        service_tier: "default".to_string(),
        system_fingerprint: "fp".to_string(),
        usage: usage(),
    }
}

fn call(id: &str, name: &str, args: &str) -> ToolCall {
    ToolCall { function: Function { arguments: args.to_string(), name: name.to_string() }, id: id.to_string(), call_type: "function".to_string() }
}

fn role(a: &AgentAction) -> Option<String> {
    match a {
        AgentAction::Call { role, .. } => Some(role.clone()),
        _ => None,
    }
}

#[test]
fn llm_request_layout() {
    let history = vec![parse_json(br#"{"role":"tool"}"#).unwrap()];
    let schemas = vec![parse_json(br#"{"name":"search"}"#).unwrap()];
    let req = prepare_llm_request("sys", &history, "hello", &schemas);
    assert_eq!(
        print_json(&req),
        br#"{"messages":[{"content":"sys","role":"system"},{"content":"hello","role":"user"},{"role":"tool"}],"model":"gpt-4.1","tool_choice":"auto","tools":[{"function":{"name":"search"},"type":"function"}]}"#.to_vec()
    );
}

#[test]
fn model_message_as_json() {
    let m = ModelMessage {
        annotations: vec![Json::Null],
        content: None,
        refusal: Some("no".to_string()),
        role: "assistant".to_string(),
        tool_calls: vec![call("t1", "search", "{}")],
    };
    assert_eq!(
        print_json(&message_to_json(&m)),
        br#"{"annotations":[null],"content":null,"refusal":"no","role":"assistant","tool_calls":[{"function":{"arguments":"{}","name":"search"},"id":"t1","type":"function"}]}"#.to_vec()
    );
}

#[test]
fn conversation_without_tools() {
    let (s, a) = agent_start();
    assert_eq!(role(&a).as_deref(), Some("prompt"));
    let prompt: Msg = Message::Standard { message: br#"{"content":"Be helpful"}"#.to_vec(), origin: None };
    let (s, a) = agent_step(s, Event::Reply(prompt), "Do something", &vec![]);
    match &a {
        AgentAction::Call { role, payload } => {
            assert_eq!(role, "llm");
            let msgs = payload.get("messages").and_then(|m| m.as_array()).unwrap();
            assert_eq!(msgs.len(), 2);
            assert_eq!(msgs[0].get("content").and_then(|c| c.as_str()).map(|s| s.as_str()), Some("Be helpful"));
            assert_eq!(msgs[1].get("content").and_then(|c| c.as_str()).map(|s| s.as_str()), Some("Do something"));
        },
        _ => panic!("expected a call of the model"),
    }
    let (s, a) = agent_step(s, Event::Model(model("stop", Some("done"), vec![])), "Do something", &vec![]);
    assert!(matches!(s, AgentState::Finished));
    match a {
        AgentAction::Respond { response } => {
            let reply: Msg = agent_reply(&response, Some(3));
            assert!(matches!(reply, Message::Standard { ref message, origin: Some(3) } if message == br#"{"response":"done"}"#));
        },
        _ => panic!("expected the response"),
    }
}

#[test]
fn conversation_with_tool_calls() {
    let schemas = vec![parse_json(br#"{"name":"search"}"#).unwrap()];
    let (s, _) = agent_start();
    let prompt: Msg = Message::JSON { message: parse_json(br#"{"content":"sys"}"#).unwrap(), origin: None };
    let (s, _) = agent_step(s, Event::Reply(prompt), "find", &schemas);
    let m = model("tool_calls", None, vec![call("c1", "search", r#"{"q":"shirts"}"#), call("c2", "search", "{}")]);
    let (s, a) = agent_step(s, Event::Model(m), "find", &schemas);
    match &a {
        AgentAction::CallTool { name, arguments } => {
            assert_eq!(name, "search");
            assert_eq!(arguments.get("q").and_then(|q| q.as_str()).map(|s| s.as_str()), Some("shirts"));
        },
        _ => panic!("expected a tool call"),
    }
    let r1: Msg = Message::JSON { message: parse_json(br#"{"response":"first"}"#).unwrap(), origin: None };
    let (s, a) = agent_step(s, Event::Reply(r1), "find", &schemas);
    assert!(matches!(a, AgentAction::CallTool { .. }));
    let r2: Msg = Message::Tuple {
        message_1: Box::new(Message::Standard { message: vec![], origin: None }),
        message_2: Box::new(Message::Standard { message: br#"{"response":"second"}"#.to_vec(), origin: None }),
        origin: None,
    };
    let (s, a) = agent_step(s, Event::Reply(r2), "find", &schemas);
    match &a {
        AgentAction::Call { role, payload } => {
            assert_eq!(role, "llm");
            let msgs = payload.get("messages").and_then(|m| m.as_array()).unwrap();
            assert_eq!(msgs.len(), 5);
            assert_eq!(msgs[3].get("tool_call_id").and_then(|c| c.as_str()).map(|s| s.as_str()), Some("c1"));
            assert_eq!(msgs[4].get("content").and_then(|c| c.as_str()).map(|s| s.as_str()), Some("second"));
        },
        _ => panic!("expected a call of the model"),
    }
    let (s, a) = agent_step(s, Event::Model(model("stop", None, vec![])), "find", &schemas);
    assert!(matches!(s, AgentState::Finished));
    assert!(matches!(a, AgentAction::Respond { ref response } if print_json(response) == br#"{"response":null}"#));
}

#[test]
fn conversation_stops_on_failures() {
    let (s, _) = agent_start();
    let (s, a) = agent_step(s, Event::Failed, "x", &vec![]);
    assert!(matches!(s, AgentState::Finished));
    assert!(matches!(a, AgentAction::Stop));
    let (s, a) = agent_step(s, Event::Reply(Message::NoOp), "x", &vec![]);
    assert!(matches!((s, a), (AgentState::Finished, AgentAction::Stop)));
    let (s, _) = agent_start();
    let no_content: Msg = Message::JSON { message: parse_json(br#"{"text":"x"}"#).unwrap(), origin: None };
    let (_, a) = agent_step(s, Event::Reply(no_content), "x", &vec![]);
    assert!(matches!(a, AgentAction::Stop));
    let (s, _) = agent_start();
    let p: Msg = Message::JSON { message: parse_json(br#"{"content":"sys"}"#).unwrap(), origin: None };
    let (s, _) = agent_step(s, Event::Reply(p), "x", &vec![]);
    let bad_args = model("tool_calls", None, vec![call("c1", "search", "{oops")]);
    let (_, a) = agent_step(s, Event::Model(bad_args), "x", &vec![]);
    assert!(matches!(a, AgentAction::Stop));
    let (s, _) = agent_start();
    let p: Msg = Message::JSON { message: parse_json(br#"{"content":"sys"}"#).unwrap(), origin: None };
    let (s, _) = agent_step(s, Event::Reply(p), "x", &vec![]);
    let no_calls = model("tool_calls", None, vec![]);
    let (_, a) = agent_step(s, Event::Model(no_calls), "x", &vec![]);
    assert!(matches!(a, AgentAction::Stop));
}

#[test]
fn reply_values_and_schemas() {
    let s: Msg = Message::Standard { message: b"[1]".to_vec(), origin: None };
    assert!(message_value(&s).unwrap().as_array().is_some());
    let bad: Msg = Message::Standard { message: b"[".to_vec(), origin: None };
    assert!(message_value(&bad).is_none());
    let t: Msg = Message::Tuple {
        message_1: Box::new(Message::NoOp),
        message_2: Box::new(Message::JSON { message: string("v"), origin: None }),
        origin: None,
    };
    assert_eq!(tool_result_value(&t).unwrap().as_str().map(|s| s.as_str()), Some("v"));
    let tools = vec![AIToolSchema::from_config(&parse_json(br#"{"schema":{"name":"a"}}"#).unwrap())];
    assert_eq!(tool_schemas(&tools).unwrap().len(), 1);
    let missing = vec![AIToolSchema { schema: None }];
    assert!(tool_schemas(&missing).is_none());
    assert_eq!(default_empty(), "");
}
