//! The AI agent's conversation: it asks the `prompt` operator for the system
//! prompt, then asks the `llm` operator for completions, calling the tools the
//! model requests and feeding their results back, until the model answers.
//! The conversation is a state machine: each step takes the agent's state and
//! what the last call produced, and yields the next state and the next call.
//! Making the calls (and reading the model's reply) is the caller's part.

use vstd::prelude::*;
use crate::ai_model;
use crate::ai_model::{AiAgentModel, Choice, ToolCall};
use crate::configs::AIToolSchema;
use crate::json::{Json, JsonView, jview, member, str_of, members_view, elements_view, json_parse, json_parse_text, json_print, object, array, parse_json, parse_json_text, print_json};
use crate::message::Message;
use crate::status::OperatorState;

verus! {

/// A string value, or null.
pub open spec fn opt_text_view(o: Option<String>) -> JsonView {
    match o {
        Some(s) => JsonView::Str(s@),
        None => JsonView::Null,
    }
}

/// A tool call as JSON.
pub open spec fn tool_call_view(t: ToolCall) -> JsonView {
    JsonView::Object(seq![
        ("function"@, JsonView::Object(seq![
            ("arguments"@, JsonView::Str(t.function.arguments@)),
            ("name"@, JsonView::Str(t.function.name@)),
        ])),
        ("id"@, JsonView::Str(t.id@)),
        ("type"@, JsonView::Str(t.call_type@)),
    ])
}

/// The assistant message of a completion as JSON, as it is kept in the
/// conversation history.
pub open spec fn model_message_view(m: ai_model::Message) -> JsonView {
    JsonView::Object(seq![
        ("annotations"@, JsonView::Array(elements_view(m.annotations@))),
        ("content"@, opt_text_view(m.content)),
        ("refusal"@, opt_text_view(m.refusal)),
        ("role"@, JsonView::Str(m.role@)),
        ("tool_calls"@, JsonView::Array(m.tool_calls@.map_values(|t: ToolCall| tool_call_view(t)))),
    ])
}

/// A chat message with a role and a text content.
pub open spec fn role_content(role: Seq<char>, content: Seq<char>) -> JsonView {
    JsonView::Object(seq![("role"@, JsonView::Str(role)), ("content"@, JsonView::Str(content))])
}

/// A tool offered to the model, described by its schema.
pub open spec fn tool_entry(schema: JsonView) -> JsonView {
    JsonView::Object(seq![("type"@, JsonView::Str("function"@)), ("function"@, schema)])
}

/// The request sent to the model: the system and user prompts followed by
/// the history, the model name, the tools and automatic tool choice.
pub open spec fn llm_request(system_prompt: Seq<char>, history: Seq<JsonView>, user_prompt: Seq<char>, schemas: Seq<JsonView>) -> JsonView {
    JsonView::Object(seq![
        ("messages"@, JsonView::Array(seq![role_content("system"@, system_prompt), role_content("user"@, user_prompt)] + history)),
        ("model"@, JsonView::Str("gpt-4.1"@)),
        ("tools"@, JsonView::Array(schemas.map_values(|s: JsonView| tool_entry(s)))),
        ("tool_choice"@, JsonView::Str("auto"@)),
    ])
}

/// The history entry that reports a tool call's result.
pub open spec fn tool_reply(id: Seq<char>, content: JsonView) -> JsonView {
    JsonView::Object(seq![("role"@, JsonView::Str("tool"@)), ("tool_call_id"@, JsonView::Str(id)), ("content"@, content)])
}

/// A tool call requested by the model: id, tool name and argument text.
pub open spec fn call_view(t: ToolCall) -> (Seq<char>, Seq<char>, Seq<char>) {
    (t.id@, t.function.name@, t.function.arguments@)
}

/// The value a reply message carries: a JSON message's document, or a
/// standard message's bytes read as JSON.
pub open spec fn payload_value<O, C>(m: Message<O, C>) -> Option<JsonView> {
    match m {
        Message::JSON { message, .. } => Some(jview(message)),
        Message::Standard { message, .. } => json_parse(message@),
        _ => None,
    }
}

/// The value a tool's reply carries: that of the reply, or, for a pair of
/// messages, that of the second.
pub open spec fn tool_value<O, C>(m: Message<O, C>) -> Option<JsonView> {
    match m {
        Message::Tuple { message_2, .. } => payload_value(*message_2),
        _ => payload_value(m),
    }
}

/// What the agent needs of a completion.
pub struct ChoiceView {
    pub finish_reason: Seq<char>,
    pub content: Option<String>,
    pub message: JsonView,
    pub calls: Seq<(Seq<char>, Seq<char>, Seq<char>)>,
}

/// The view of a completion.
pub open spec fn choice_view(c: Choice) -> ChoiceView {
    ChoiceView {
        finish_reason: c.finish_reason@,
        content: c.message.content,
        message: model_message_view(c.message),
        calls: c.message.tool_calls@.map_values(|t: ToolCall| call_view(t)),
    }
}

/// The state of a conversation.
pub enum AgentState {
    /// Waiting for the system prompt.
    AwaitingPrompt,
    /// Waiting for the model's completion.
    AwaitingModel { system_prompt: String, history: Vec<Json>, response: Json },
    /// Waiting for the result of tool call `next_call` of `message`.
    AwaitingTool { system_prompt: String, history: Vec<Json>, response: Json, message: ai_model::Message, next_call: usize },
    /// The conversation is over.
    Finished,
}

/// The view of a conversation's state.
pub enum AgentStateView {
    AwaitingPrompt,
    AwaitingModel { system_prompt: Seq<char>, history: Seq<JsonView>, response: JsonView },
    AwaitingTool {
        system_prompt: Seq<char>,
        history: Seq<JsonView>,
        response: JsonView,
        message: JsonView,
        calls: Seq<(Seq<char>, Seq<char>, Seq<char>)>,
        next_call: int,
    },
    Finished,
}

impl AgentState {
    pub open spec fn view(&self) -> AgentStateView {
        match *self {
            AgentState::AwaitingPrompt => AgentStateView::AwaitingPrompt,
            AgentState::AwaitingModel { system_prompt, history, response } => AgentStateView::AwaitingModel {
                system_prompt: system_prompt@,
                history: elements_view(history@),
                response: jview(response),
            },
            AgentState::AwaitingTool { system_prompt, history, response, message, next_call } => AgentStateView::AwaitingTool {
                system_prompt: system_prompt@,
                history: elements_view(history@),
                response: jview(response),
                message: model_message_view(message),
                calls: message.tool_calls@.map_values(|t: ToolCall| call_view(t)),
                next_call: next_call as int,
            },
            AgentState::Finished => AgentStateView::Finished,
        }
    }
}

/// What the last call of the conversation produced.
pub enum AgentEvent<O, C> {
    /// The prompt operator or a tool replied.
    Reply(Message<O, C>),
    /// The model replied with this completion.
    Model(AiAgentModel),
    /// The call could not be made or its reply could not be read.
    Failed,
}

/// The view of an event.
pub enum AgentInput {
    Reply { prompt_value: Option<JsonView>, tool_value: Option<JsonView> },
    Model { first: Option<ChoiceView> },
    Failed,
}

/// The view of an event: the values a reply carries, or the first completion
/// of the model's reply.
pub open spec fn agent_input<O, C>(e: AgentEvent<O, C>) -> AgentInput {
    match e {
        AgentEvent::Reply(m) => AgentInput::Reply { prompt_value: payload_value(m), tool_value: tool_value(m) },
        AgentEvent::Model(md) => AgentInput::Model {
            first: if md.choices@.len() > 0 { Some(choice_view(md.choices@[0])) } else { None },
        },
        AgentEvent::Failed => AgentInput::Failed,
    }
}

/// The next call of the conversation.
pub enum AgentAction {
    /// Send `payload` to the first operator with this role and wait.
    Call { role: String, payload: Json },
    /// Send `arguments` to the tool of this name and wait.
    CallTool { name: String, arguments: Json },
    /// Send the final `response` to the operator with the default role.
    Respond { response: Json },
    /// End the conversation without a response.
    Stop,
}

/// The view of an action.
pub enum ActionView {
    Call { role: Seq<char>, payload: JsonView },
    CallTool { name: Seq<char>, arguments: JsonView },
    Respond { response: JsonView },
    Stop,
}

impl AgentAction {
    pub open spec fn view(&self) -> ActionView {
        match *self {
            AgentAction::Call { role, payload } => ActionView::Call { role: role@, payload: jview(payload) },
            AgentAction::CallTool { name, arguments } => ActionView::CallTool { name: name@, arguments: jview(arguments) },
            AgentAction::Respond { response } => ActionView::Respond { response: jview(response) },
            AgentAction::Stop => ActionView::Stop,
        }
    }
}

/// Calls tool `k` of the state's list, whose arguments must be JSON text.
pub open spec fn call_tool(s: AgentStateView) -> (AgentStateView, ActionView) {
    match s {
        AgentStateView::AwaitingTool { calls, next_call, .. } => match json_parse_text(calls[next_call].2) {
            Some(a) => (s, ActionView::CallTool { name: calls[next_call].1, arguments: a }),
            None => (AgentStateView::Finished, ActionView::Stop),
        },
        _ => (AgentStateView::Finished, ActionView::Stop),
    }
}

/// The history after a round of tool calls: the model's message, then one
/// tool reply per call, each with `content`.
pub open spec fn extended_history(history: Seq<JsonView>, message: JsonView, calls: Seq<(Seq<char>, Seq<char>, Seq<char>)>, content: JsonView) -> Seq<JsonView> {
    history.push(message) + calls.map_values(|c: (Seq<char>, Seq<char>, Seq<char>)| tool_reply(c.0, content))
}

/// After the tool calls: the `response` member of the last tool result is
/// reported for every call and the model is asked again.
pub open spec fn after_tools(system_prompt: Seq<char>, history: Seq<JsonView>, response: JsonView, message: JsonView, calls: Seq<(Seq<char>, Seq<char>, Seq<char>)>, user: Seq<char>, schemas: Seq<JsonView>) -> (AgentStateView, ActionView) {
    match member(response, "response"@) {
        Some(content) => {
            let h = extended_history(history, message, calls, content);
            (
                AgentStateView::AwaitingModel { system_prompt, history: h, response },
                ActionView::Call { role: "llm"@, payload: llm_request(system_prompt, h, user, schemas) },
            )
        },
        None => (AgentStateView::Finished, ActionView::Stop),
    }
}

/// The final response: the model's text, or null.
pub open spec fn final_response(content: Option<String>) -> JsonView {
    JsonView::Object(seq![("response"@, opt_text_view(content))])
}

/// One step of the conversation, for user prompt `user` and tool schemas
/// `schemas`.
pub open spec fn agent_next(s: AgentStateView, input: AgentInput, user: Seq<char>, schemas: Seq<JsonView>) -> (AgentStateView, ActionView) {
    match s {
        AgentStateView::AwaitingPrompt => match input {
            AgentInput::Reply { prompt_value: Some(v), .. } => match str_of(member(v, "content"@)) {
                Some(sp) => (
                    AgentStateView::AwaitingModel { system_prompt: sp, history: Seq::empty(), response: JsonView::Object(Seq::empty()) },
                    ActionView::Call { role: "llm"@, payload: llm_request(sp, Seq::empty(), user, schemas) },
                ),
                None => (AgentStateView::Finished, ActionView::Stop),
            },
            _ => (AgentStateView::Finished, ActionView::Stop),
        },
        AgentStateView::AwaitingModel { system_prompt, history, response } => match input {
            AgentInput::Model { first: Some(c) } => if c.finish_reason == "tool_calls"@ {
                if c.calls.len() == 0 {
                    after_tools(system_prompt, history, response, c.message, c.calls, user, schemas)
                } else {
                    call_tool(AgentStateView::AwaitingTool { system_prompt, history, response, message: c.message, calls: c.calls, next_call: 0 })
                }
            } else {
                (AgentStateView::Finished, ActionView::Respond { response: final_response(c.content) })
            },
            _ => (AgentStateView::Finished, ActionView::Stop),
        },
        AgentStateView::AwaitingTool { system_prompt, history, response, message, calls, next_call } => match input {
            AgentInput::Reply { tool_value: Some(v), .. } => if next_call + 1 < calls.len() {
                call_tool(AgentStateView::AwaitingTool { system_prompt, history, response: v, message, calls, next_call: next_call + 1 })
            } else {
                after_tools(system_prompt, history, v, message, calls, user, schemas)
            },
            _ => (AgentStateView::Finished, ActionView::Stop),
        },
        AgentStateView::Finished => (AgentStateView::Finished, ActionView::Stop),
    }
}

/// Whether the state is one the steps produce: a pending tool call lies
/// within the message's calls.
pub open spec fn state_ok(s: AgentState) -> bool {
    match s {
        AgentState::AwaitingTool { message, next_call, .. } => next_call < message.tool_calls@.len(),
        _ => true,
    }
}

fn text(s: &str) -> (res: String)
    ensures
        res@ == s@,
{
    String::from_str(s)
}

fn object2(k1: &str, v1: Json, k2: &str, v2: Json) -> (res: Json)
    ensures
        jview(res) == JsonView::Object(seq![(k1@, jview(v1)), (k2@, jview(v2))]),
{
    let mut f: Vec<(String, Json)> = Vec::new();
    f.push((text(k1), v1));
    f.push((text(k2), v2));
    let res = object(f);
    assert(members_view(f@) =~= seq![(k1@, jview(v1)), (k2@, jview(v2))]);
    res
}

fn opt_text_json(o: &Option<String>) -> (res: Json)
    ensures
        jview(res) == opt_text_view(*o),
{
    match o {
        Some(s) => Json::Str(s.clone()),
        None => Json::Null,
    }
}

fn tool_call_json(t: &ToolCall) -> (res: Json)
    ensures
        jview(res) == tool_call_view(*t),
{
    let func = object2("arguments", Json::Str(t.function.arguments.clone()), "name", Json::Str(t.function.name.clone()));
    let mut f: Vec<(String, Json)> = Vec::new();
    f.push((text("function"), func));
    f.push((text("id"), Json::Str(t.id.clone())));
    f.push((text("type"), Json::Str(t.call_type.clone())));
    let res = object(f);
    assert(members_view(f@) =~= seq![
        ("function"@, jview(func)),
        ("id"@, JsonView::Str(t.id@)),
        ("type"@, JsonView::Str(t.call_type@)),
    ]);
    res
}

/// A copy of a list of documents.
pub fn clone_values(v: &Vec<Json>) -> (res: Vec<Json>)
    ensures
        elements_view(res@) == elements_view(v@),
{
    let mut out: Vec<Json> = Vec::new();
    let mut i: usize = 0;
    while i < v.len()
        invariant
            i <= v.len(),
            out@.len() == i,
            forall|j: int| 0 <= j < i ==> jview(#[trigger] out@[j]) == jview(v@[j]),
        decreases v.len() - i,
    {
        out.push(v[i].deep_clone());
        i = i + 1;
    }
    assert(elements_view(out@) =~= elements_view(v@));
    out
}

/// The assistant message as JSON (the form kept in the history).
pub fn message_to_json(m: &ai_model::Message) -> (res: Json)
    ensures
        jview(res) == model_message_view(*m),
{
    let annotations = array(clone_values(&m.annotations));
    let mut calls: Vec<Json> = Vec::new();
    let mut i: usize = 0;
    while i < m.tool_calls.len()
        invariant
            i <= m.tool_calls.len(),
            calls@.len() == i,
            forall|j: int| 0 <= j < i ==> jview(#[trigger] calls@[j]) == tool_call_view(m.tool_calls@[j]),
        decreases m.tool_calls.len() - i,
    {
        calls.push(tool_call_json(&m.tool_calls[i]));
        i = i + 1;
    }
    assert(elements_view(calls@) =~= m.tool_calls@.map_values(|t: ToolCall| tool_call_view(t)));
    let calls_json = array(calls);
    let content = opt_text_json(&m.content);
    let refusal = opt_text_json(&m.refusal);
    let mut f: Vec<(String, Json)> = Vec::new();
    f.push((text("annotations"), annotations));
    f.push((text("content"), content));
    f.push((text("refusal"), refusal));
    f.push((text("role"), Json::Str(m.role.clone())));
    f.push((text("tool_calls"), calls_json));
    let res = object(f);
    assert(members_view(f@) =~= seq![
        ("annotations"@, jview(annotations)),
        ("content"@, jview(content)),
        ("refusal"@, jview(refusal)),
        ("role"@, JsonView::Str(m.role@)),
        ("tool_calls"@, jview(calls_json)),
    ]);
    res
}

/// The request to the model (see `llm_request`).
pub fn prepare_llm_request(system_prompt: &str, history: &Vec<Json>, user_prompt: &str, tool_schemas: &Vec<Json>) -> (res: Json)
    ensures
        jview(res) == llm_request(system_prompt@, elements_view(history@), user_prompt@, elements_view(tool_schemas@)),
{
    let mut tools: Vec<Json> = Vec::new();
    let mut i: usize = 0;
    while i < tool_schemas.len()
        invariant
            i <= tool_schemas.len(),
            tools@.len() == i,
            forall|j: int| 0 <= j < i ==> jview(#[trigger] tools@[j]) == tool_entry(jview(tool_schemas@[j])),
        decreases tool_schemas.len() - i,
    {
        tools.push(object2("type", Json::Str(text("function")), "function", tool_schemas[i].deep_clone()));
        i = i + 1;
    }
    assert(elements_view(tools@) =~= elements_view(tool_schemas@).map_values(|s: JsonView| tool_entry(s)));
    let sys = object2("role", Json::Str(text("system")), "content", Json::Str(text(system_prompt)));
    let usr = object2("role", Json::Str(text("user")), "content", Json::Str(text(user_prompt)));
    let mut messages: Vec<Json> = Vec::new();
    messages.push(sys);
    messages.push(usr);
    let mut k: usize = 0;
    while k < history.len()
        invariant
            k <= history.len(),
            messages@.len() == k + 2,
            jview(messages@[0]) == role_content("system"@, system_prompt@),
            jview(messages@[1]) == role_content("user"@, user_prompt@),
            forall|j: int| 0 <= j < k ==> jview(#[trigger] messages@[j + 2]) == jview(history@[j]),
        decreases history.len() - k,
    {
        messages.push(history[k].deep_clone());
        k = k + 1;
    }
    assert(elements_view(messages@) =~= seq![role_content("system"@, system_prompt@), role_content("user"@, user_prompt@)] + elements_view(history@)) by {
        let a = elements_view(messages@);
        let b = seq![role_content("system"@, system_prompt@), role_content("user"@, user_prompt@)] + elements_view(history@);
        assert forall|j: int| 0 <= j < a.len() implies a[j] == b[j] by {
            if j >= 2 {
                assert(jview(messages@[(j - 2) + 2]) == jview(history@[j - 2]));
            }
        }
    }
    let msgs = array(messages);
    let tools_json = array(tools);
    let mut f: Vec<(String, Json)> = Vec::new();
    f.push((text("messages"), msgs));
    f.push((text("model"), Json::Str(text("gpt-4.1"))));
    f.push((text("tools"), tools_json));
    f.push((text("tool_choice"), Json::Str(text("auto"))));
    let res = object(f);
    assert(members_view(f@) =~= seq![
        ("messages"@, jview(msgs)),
        ("model"@, JsonView::Str("gpt-4.1"@)),
        ("tools"@, jview(tools_json)),
        ("tool_choice"@, JsonView::Str("auto"@)),
    ]);
    res
}

/// The tool calls of a message.
pub open spec fn calls_of(m: ai_model::Message) -> Seq<(Seq<char>, Seq<char>, Seq<char>)> {
    m.tool_calls@.map_values(|t: ToolCall| call_view(t))
}

/// The value a reply message carries (see `payload_value`).
pub fn message_value<O, C>(m: &Message<O, C>) -> (res: Option<Json>)
    ensures
        match res {
            Some(v) => payload_value(*m) == Some(jview(v)),
            None => payload_value(*m) is None,
        },
{
    match m {
        Message::JSON { message, .. } => Some(message.deep_clone()),
        Message::Standard { message, .. } => parse_json(message.as_slice()),
        _ => None,
    }
}

/// The value a tool's reply carries (see `tool_value`).
pub fn tool_result_value<O, C>(m: &Message<O, C>) -> (res: Option<Json>)
    ensures
        match res {
            Some(v) => tool_value(*m) == Some(jview(v)),
            None => tool_value(*m) is None,
        },
{
    match m {
        Message::Tuple { message_2, .. } => message_value(&**message_2),
        _ => message_value(m),
    }
}

fn tool_reply_json(id: &String, content: &Json) -> (res: Json)
    ensures
        jview(res) == tool_reply(id@, jview(*content)),
{
    let mut f: Vec<(String, Json)> = Vec::new();
    f.push((text("role"), Json::Str(text("tool"))));
    f.push((text("tool_call_id"), Json::Str(id.clone())));
    f.push((text("content"), content.deep_clone()));
    let res = object(f);
    assert(members_view(f@) =~= seq![
        ("role"@, JsonView::Str("tool"@)),
        ("tool_call_id"@, JsonView::Str(id@)),
        ("content"@, jview(*content)),
    ]);
    res
}

fn finished() -> (res: (AgentState, AgentAction))
    ensures
        res.0.view() == AgentStateView::Finished,
        res.1.view() == ActionView::Stop,
        state_ok(res.0),
{
    (AgentState::Finished, AgentAction::Stop)
}

fn call_tool_step(system_prompt: String, history: Vec<Json>, response: Json, message: ai_model::Message, next_call: usize) -> (res: (AgentState, AgentAction))
    requires
        next_call < message.tool_calls@.len(),
    ensures
        state_ok(res.0),
        res.0.view() == call_tool(AgentStateView::AwaitingTool {
            system_prompt: system_prompt@,
            history: elements_view(history@),
            response: jview(response),
            message: model_message_view(message),
            calls: calls_of(message),
            next_call: next_call as int,
        }).0,
        res.1.view() == call_tool(AgentStateView::AwaitingTool {
            system_prompt: system_prompt@,
            history: elements_view(history@),
            response: jview(response),
            message: model_message_view(message),
            calls: calls_of(message),
            next_call: next_call as int,
        }).1,
{
    let ghost calls = calls_of(message);
    assert(calls[next_call as int] == call_view(message.tool_calls@[next_call as int]));
    match parse_json_text(message.tool_calls[next_call].function.arguments.as_str()) {
        Some(a) => {
            let name = message.tool_calls[next_call].function.name.clone();
            (AgentState::AwaitingTool { system_prompt, history, response, message, next_call }, AgentAction::CallTool { name, arguments: a })
        },
        None => finished(),
    }
}

fn after_tools_step(system_prompt: String, history: Vec<Json>, response: Json, message: ai_model::Message, user_prompt: &str, tool_schemas: &Vec<Json>) -> (res: (AgentState, AgentAction))
    ensures
        state_ok(res.0),
        res.0.view() == after_tools(system_prompt@, elements_view(history@), jview(response), model_message_view(message), calls_of(message), user_prompt@, elements_view(tool_schemas@)).0,
        res.1.view() == after_tools(system_prompt@, elements_view(history@), jview(response), model_message_view(message), calls_of(message), user_prompt@, elements_view(tool_schemas@)).1,
{
    let content = match response.get("response") {
        Some(c) => c.deep_clone(),
        None => {
            return finished();
        },
    };
    let ghost h0 = elements_view(history@);
    let ghost n0 = history@.len();
    let mut h = history;
    let mj = message_to_json(&message);
    h.push(mj);
    let mut i: usize = 0;
    while i < message.tool_calls.len()
        invariant
            i <= message.tool_calls.len(),
            h@.len() == n0 + 1 + i,
            forall|j: int| 0 <= j < n0 ==> jview(#[trigger] h@[j]) == h0[j],
            jview(h@[n0 as int]) == model_message_view(message),
            forall|j: int| 0 <= j < i ==> jview(#[trigger] h@[n0 + 1 + j]) == tool_reply(message.tool_calls@[j].id@, jview(content)),
            h0 == elements_view(history@),
            n0 == history@.len(),
        decreases message.tool_calls.len() - i,
    {
        let r = tool_reply_json(&message.tool_calls[i].id, &content);
        h.push(r);
        i = i + 1;
    }
    let ghost c = jview(content);
    assert(elements_view(h@) =~= extended_history(h0, model_message_view(message), calls_of(message), c)) by {
        let a = elements_view(h@);
        let b = extended_history(h0, model_message_view(message), calls_of(message), c);
        assert(a.len() == b.len());
        assert forall|j: int| 0 <= j < a.len() implies a[j] == b[j] by {
            if j < n0 {
            } else if j == n0 {
            } else {
                let k = j - n0 - 1;
                assert(jview(h@[n0 + 1 + k]) == tool_reply(message.tool_calls@[k].id@, c));
                assert(calls_of(message)[k] == call_view(message.tool_calls@[k]));
            }
        }
    }
    let payload = prepare_llm_request(system_prompt.as_str(), &h, user_prompt, tool_schemas);
    (AgentState::AwaitingModel { system_prompt, history: h, response }, AgentAction::Call { role: text("llm"), payload })
}

/// The first step of a conversation: ask the `prompt` operator, with an
/// empty object, for the system prompt.
pub fn agent_start() -> (res: (AgentState, AgentAction))
    ensures
        state_ok(res.0),
        res.0.view() == AgentStateView::AwaitingPrompt,
        res.1.view() == (ActionView::Call { role: "prompt"@, payload: JsonView::Object(Seq::empty()) }),
{
    let empty: Vec<(String, Json)> = Vec::new();
    assert(members_view(empty@) =~= Seq::<(Seq<char>, JsonView)>::empty());
    (AgentState::AwaitingPrompt, AgentAction::Call { role: text("prompt"), payload: object(empty) })
}

/// One step of the conversation (see `agent_next`), for user prompt
/// `user_prompt` and the schemas of the agent's tools.
pub fn agent_step<O, C>(state: AgentState, event: AgentEvent<O, C>, user_prompt: &str, tool_schemas: &Vec<Json>) -> (res: (AgentState, AgentAction))
    requires
        state_ok(state),
    ensures
        state_ok(res.0),
        res.0.view() == agent_next(state.view(), agent_input(event), user_prompt@, elements_view(tool_schemas@)).0,
        res.1.view() == agent_next(state.view(), agent_input(event), user_prompt@, elements_view(tool_schemas@)).1,
{
    match state {
        AgentState::AwaitingPrompt => match event {
            AgentEvent::Reply(m) => match message_value(&m) {
                Some(v) => match v.get("content") {
                    Some(c) => match c.as_str() {
                        Some(sp) => {
                            let sp = sp.clone();
                            let history: Vec<Json> = Vec::new();
                            assert(elements_view(history@) =~= Seq::<JsonView>::empty());
                            let payload = prepare_llm_request(sp.as_str(), &history, user_prompt, tool_schemas);
                            let empty: Vec<(String, Json)> = Vec::new();
                            assert(members_view(empty@) =~= Seq::<(Seq<char>, JsonView)>::empty());
                            (
                                AgentState::AwaitingModel { system_prompt: sp, history, response: object(empty) },
                                AgentAction::Call { role: text("llm"), payload },
                            )
                        },
                        None => finished(),
                    },
                    None => finished(),
                },
                None => finished(),
            },
            _ => finished(),
        },
        AgentState::AwaitingModel { system_prompt, history, response } => match event {
            AgentEvent::Model(md) => {
                let mut choices = md.choices;
                if choices.len() == 0 {
                    return finished();
                }
                let c = choices.remove(0);
                let tc = text("tool_calls");
                if c.finish_reason == tc {
                    if c.message.tool_calls.len() == 0 {
                        after_tools_step(system_prompt, history, response, c.message, user_prompt, tool_schemas)
                    } else {
                        call_tool_step(system_prompt, history, response, c.message, 0)
                    }
                } else {
                    let content = opt_text_json(&c.message.content);
                    let mut f: Vec<(String, Json)> = Vec::new();
                    f.push((text("response"), content));
                    assert(members_view(f@) =~= seq![("response"@, opt_text_view(c.message.content))]);
                    (AgentState::Finished, AgentAction::Respond { response: object(f) })
                }
            },
            _ => finished(),
        },
        AgentState::AwaitingTool { system_prompt, history, response, message, next_call } => match event {
            AgentEvent::Reply(m) => match tool_result_value(&m) {
                Some(v) => {
                    if message.tool_calls.len() > 0 && next_call < message.tool_calls.len() - 1 {
                        call_tool_step(system_prompt, history, v, message, next_call + 1)
                    } else {
                        after_tools_step(system_prompt, history, v, message, user_prompt, tool_schemas)
                    }
                },
                None => finished(),
            },
            _ => finished(),
        },
        AgentState::Finished => finished(),
    }
}

/// The agent's final reply: the response printed as JSON, with the origin of
/// the request.
pub fn agent_reply<O, C>(response: &Json, origin: Option<O>) -> (res: Message<O, C>)
    ensures
        res matches Message::Standard { message, origin: o } && message@ == json_print(jview(*response)) && o == origin,
{
    Message::Standard { message: print_json(response), origin }
}

/// The schemas of the agent's tools, in order; `None` when a tool has none.
pub fn tool_schemas(tools: &Vec<AIToolSchema>) -> (res: Option<Vec<Json>>)
    ensures
        match res {
            Some(v) => v@.len() == tools@.len()
                && forall|i: int| 0 <= i < tools@.len() ==> (#[trigger] tools@[i]).schema is Some
                    && jview(v@[i]) == jview(tools@[i].schema->0),
            None => exists|i: int| 0 <= i < tools@.len() && (#[trigger] tools@[i]).schema is None,
        },
{
    let mut out: Vec<Json> = Vec::new();
    let mut i: usize = 0;
    while i < tools.len()
        invariant
            i <= tools.len(),
            out@.len() == i,
            forall|j: int| 0 <= j < i ==> (#[trigger] tools@[j]).schema is Some && jview(out@[j]) == jview(tools@[j].schema->0),
        decreases tools.len() - i,
    {
        match tools[i].get_schema() {
            Ok(s) => out.push(s),
            Err(_) => {
                assert(tools@[i as int].schema is None);
                return None;
            },
        }
        i = i + 1;
    }
    Some(out)
}

/// The empty name, the default of an unnamed configuration.
pub fn default_empty() -> (res: String)
    ensures
        res@ == Seq::<char>::empty(),
{
    String::new()
}

/// A finished conversation stays finished and calls nothing more, and a
/// failed call ends any conversation.
pub proof fn conversation_ends(s: AgentStateView, input: AgentInput, user: Seq<char>, schemas: Seq<JsonView>)
    ensures
        agent_next(AgentStateView::Finished, input, user, schemas) == (AgentStateView::Finished, ActionView::Stop),
        agent_next(s, AgentInput::Failed, user, schemas) == (AgentStateView::Finished, ActionView::Stop),
{
}

/// The user's prompt in a request to the agent: the `prompt` text of its
/// value (see `payload_value`).
pub open spec fn prompt_of<O, C>(m: Message<O, C>) -> Option<Seq<char>> {
    match payload_value(m) {
        Some(v) => str_of(member(v, "prompt"@)),
        None => None,
    }
}

/// The user's prompt in a request (`None` when the request has none: the
/// agent does not start then).
pub fn user_prompt_of<O, C>(msg: &Message<O, C>) -> (res: Option<String>)
    ensures
        match res {
            Some(p) => prompt_of(*msg) == Some(p@),
            None => prompt_of(*msg) is None,
        },
{
    match message_value(msg) {
        Some(v) => match v.get("prompt") {
            Some(p) => match p.as_str() {
                Some(s) => Some(s.clone()),
                None => None,
            },
            None => None,
        },
        None => None,
    }
}

/// The position of the first successor with this role.
pub fn first_with_role(roles: &Vec<String>, role: &str) -> (res: Option<usize>)
    ensures
        match res {
            Some(i) => i < roles@.len() && roles@[i as int]@ == role@
                && forall|j: int| 0 <= j < i ==> roles@[j]@ != role@,
            None => forall|j: int| 0 <= j < roles@.len() ==> roles@[j]@ != role@,
        },
{
    let r = String::from_str(role);
    let mut i: usize = 0;
    while i < roles.len()
        invariant
            i <= roles@.len(),
            r@ == role@,
            forall|j: int| 0 <= j < i ==> roles@[j]@ != role@,
        decreases roles@.len() - i,
    {
        if roles[i] == r {
            return Some(i);
        }
        i = i + 1;
    }
    None
}

/// A successor with role `tool` that is not a tool.
pub open spec fn bad_tool(e: (String, Option<String>)) -> bool {
    e.0@ == "tool"@ && e.1 is None
}

/// No successor before position `n` is a bad tool.
pub open spec fn no_bad_tool_before(next: Seq<(String, Option<String>)>, n: int) -> bool {
    forall|j: int| 0 <= j < n ==> !#[trigger] bad_tool(next[j])
}

/// The position of the last successor before `n` that is the tool named `k`.
pub open spec fn last_tool_at(next: Seq<(String, Option<String>)>, n: int, k: Seq<char>) -> Option<int>
    decreases n,
{
    if n <= 0 {
        None
    } else if next[n - 1].0@ == "tool"@ && next[n - 1].1 is Some && next[n - 1].1->0@ == k {
        Some(n - 1)
    } else {
        last_tool_at(next, n - 1, k)
    }
}

/// The tool table `after` is the table `before` with the tools of the first
/// `n` successors added, each by its name (a later tool of the same name
/// replaces an earlier one), mapped to its position.
pub open spec fn tools_read(
    before: crate::named::NamedList<usize>,
    after: crate::named::NamedList<usize>,
    next: Seq<(String, Option<String>)>,
    n: int,
) -> bool {
    forall|k: Seq<char>|
        #[trigger] after.lookup(k) == match last_tool_at(next, n, k) {
            Some(j) => Some(j as usize),
            None => before.lookup(k),
        }
}

/// Adds to `tools` the tools among the successors, in order, each by its
/// tool name; stops at the first successor with role `tool` that is not a
/// tool, keeping the tools added before it, and then returns `false`.
pub fn add_tools(tools: &mut crate::named::NamedList<usize>, next: &Vec<(String, Option<String>)>) -> (ok: bool)
    requires
        old(tools).wf(),
    ensures
        final(tools).wf(),
        ok == no_bad_tool_before(next@, next@.len() as int),
        ok ==> tools_read(*old(tools), *final(tools), next@, next@.len() as int),
        !ok ==> exists|b: int|
            0 <= b < next@.len() && #[trigger] bad_tool(next@[b]) && no_bad_tool_before(next@, b)
                && tools_read(*old(tools), *final(tools), next@, b),
{
    let ghost before = *tools;
    let tool = String::from_str("tool");
    let mut i: usize = 0;
    while i < next.len()
        invariant
            i <= next@.len(),
            tool@ == "tool"@,
            before == *old(tools),
            tools.wf(),
            no_bad_tool_before(next@, i as int),
            tools_read(before, *tools, next@, i as int),
        decreases next@.len() - i,
    {
        if next[i].0 == tool {
            match &next[i].1 {
                Some(name) => {
                    let ghost mid = *tools;
                    let _ = tools.insert(name.clone(), i);
                    assert forall|k: Seq<char>| #[trigger] tools.lookup(k) == match last_tool_at(next@, i + 1, k) {
                        Some(j) => Some(j as usize),
                        None => before.lookup(k),
                    } by {
                        assert(mid.lookup(k) == match last_tool_at(next@, i as int, k) {
                            Some(j) => Some(j as usize),
                            None => before.lookup(k),
                        });
                    }
                },
                None => {
                    assert(bad_tool(next@[i as int]));
                    assert(0 <= i < next@.len() && bad_tool(next@[i as int]) && no_bad_tool_before(next@, i as int)
                        && tools_read(before, *tools, next@, i as int));
                    return false;
                },
            }
        } else {
            assert forall|k: Seq<char>| #[trigger] tools.lookup(k) == match last_tool_at(next@, i + 1, k) {
                Some(j) => Some(j as usize),
                None => before.lookup(k),
            } by {
                assert(last_tool_at(next@, i + 1, k) == last_tool_at(next@, i as int, k));
            }
        }
        i = i + 1;
    }
    true
}

/// The tools of an agent, from its successors (role, and the tool's name
/// when the successor is a tool): each successor with role `tool`, by its
/// tool name (a later one of the same name replaces an earlier one).
/// `None` when a successor with role `tool` is not a tool.
pub fn collect_tools(next: &Vec<(String, Option<String>)>) -> (res: Option<crate::named::NamedList<usize>>)
    ensures
        match res {
            Some(t) => t.wf() && no_bad_tool_before(next@, next@.len() as int)
                && forall|k: Seq<char>| #[trigger] t.lookup(k) == match last_tool_at(next@, next@.len() as int, k) {
                    Some(j) => Some(j as usize),
                    None => None,
                },
            None => !no_bad_tool_before(next@, next@.len() as int),
        },
{
    let mut tools: crate::named::NamedList<usize> = crate::named::NamedList::new();
    let ghost empty = tools;
    if add_tools(&mut tools, next) {
        assert forall|k: Seq<char>| #[trigger] tools.lookup(k) == match last_tool_at(next@, next@.len() as int, k) {
            Some(j) => Some(j as usize),
            None => None,
        } by {
            assert(!empty.has(k));
        }
        Some(tools)
    } else {
        None
    }
}

/// An AI agent's setup: its name, its successors (role, and the tool's name
/// when the successor is a tool), its tools (tool name to the position of
/// the successor that serves it) and its state.
#[derive(Debug)]
pub struct AIAgent {
    pub name: String,
    pub state: OperatorState,
    pub tools: crate::named::NamedList<usize>,
    pub next: Vec<(String, Option<String>)>,
}

impl AIAgent {
    /// Well-formedness: the tool table has no name twice.
    pub open spec fn wf(&self) -> bool {
        self.tools.wf()
    }

    /// A pending agent with no successors and no tools.
    pub fn new(name: String) -> (res: Self)
        ensures
            res.wf(),
            res.name == name,
            res.state == OperatorState::Pending,
            res.tools.pairs() == Seq::<(Seq<char>, usize)>::empty(),
            res.next@ == Seq::<(String, Option<String>)>::empty(),
    {
        AIAgent { name, state: OperatorState::Pending, tools: crate::named::NamedList::new(), next: Vec::new() }
    }

    /// Adds a successor (its role, and its tool name when it is a tool).
    pub fn add_next(&mut self, role: String, tool: Option<String>)
        ensures
            final(self).next@ == old(self).next@.push((role, tool)),
            final(self).name == old(self).name,
            final(self).state == old(self).state,
            final(self).tools == old(self).tools,
    {
        self.next.push((role, tool));
    }

    /// Finalizes the agent: adds each successor with role `tool` to the tool
    /// table, by its tool name, and makes the agent ready. When such a
    /// successor is not a tool it returns `false`: the agent stays in its
    /// state, with the tools before that successor added.
    pub fn start(&mut self) -> (res: bool)
        requires
            old(self).wf(),
        ensures
            final(self).wf(),
            final(self).name == old(self).name,
            final(self).next == old(self).next,
            res == no_bad_tool_before(old(self).next@, old(self).next@.len() as int),
            res ==> final(self).state == OperatorState::Ready
                && tools_read(old(self).tools, final(self).tools, old(self).next@, old(self).next@.len() as int),
            !res ==> final(self).state == old(self).state
                && exists|b: int|
                    0 <= b < old(self).next@.len() && #[trigger] bad_tool(old(self).next@[b])
                        && no_bad_tool_before(old(self).next@, b)
                        && tools_read(old(self).tools, final(self).tools, old(self).next@, b),
    {
        let ok = add_tools(&mut self.tools, &self.next);
        if ok {
            self.state = OperatorState::Ready;
        }
        ok
    }
}

/// The message that readies a successor of the agent: `{"tool": "setup"}`.
pub fn tool_setup_message<O, C>(origin: Option<O>) -> (res: Message<O, C>)
    ensures
        res matches Message::Standard { message, origin: o }
            && message@ == json_print(JsonView::Object(seq![("tool"@, JsonView::Str("setup"@))]))
            && o == origin,
{
    let mut f: Vec<(String, Json)> = Vec::new();
    f.push((text("tool"), Json::Str(text("setup"))));
    let doc = object(f);
    assert(members_view(f@) =~= seq![("tool"@, JsonView::Str("setup"@))]);
    Message::Standard { message: print_json(&doc), origin }
}

/// The conversation history a state holds (none before the system prompt
/// is known and after the end).
pub open spec fn history_of(s: AgentStateView) -> Option<Seq<JsonView>> {
    match s {
        AgentStateView::AwaitingModel { history, .. } => Some(history),
        AgentStateView::AwaitingTool { history, .. } => Some(history),
        _ => None,
    }
}

/// The history only grows: every step keeps the whole history it had as the
/// start of the new one, so no round of tool calls is forgotten. A round of
/// tool calls adds the model's message and then one entry per call, and the
/// model is then asked with the system and user prompts followed by the
/// whole new history.
pub proof fn history_accumulates(s: AgentStateView, input: AgentInput, user: Seq<char>, schemas: Seq<JsonView>)
    ensures
        ({
            let next = agent_next(s, input, user, schemas);
            match (history_of(s), history_of(next.0)) {
                (Some(h), Some(h2)) => {
                    &&& h.len() <= h2.len()
                    &&& h2.subrange(0, h.len() as int) == h
                    &&& h2.len() > h.len() ==> (s matches AgentStateView::AwaitingModel { .. } || s matches AgentStateView::AwaitingTool { .. })
                        && h2[h.len() as int] == match s {
                            AgentStateView::AwaitingTool { message, .. } => message,
                            AgentStateView::AwaitingModel { .. } => match input {
                                AgentInput::Model { first: Some(c) } => c.message,
                                _ => h2[h.len() as int],
                            },
                            _ => h2[h.len() as int],
                        }
                },
                _ => true,
            }
        }),
        ({
            let next = agent_next(s, input, user, schemas);
            match (next.0, next.1) {
                (AgentStateView::AwaitingModel { system_prompt, history, .. }, ActionView::Call { role, payload }) =>
                    role == "llm"@ && member(payload, "messages"@) == Some(JsonView::Array(
                        seq![role_content("system"@, system_prompt), role_content("user"@, user)] + history)),
                _ => true,
            }
        }),
        match s {
            AgentStateView::AwaitingTool { history: h, calls, .. } => match agent_next(s, input, user, schemas).0 {
                AgentStateView::AwaitingModel { history: h2, response: r2, .. } => {
                    &&& h2.len() == h.len() + 1 + calls.len()
                    &&& forall|k: int| 0 <= k < calls.len() ==> {
                        &&& member(#[trigger] h2[h.len() + 1 + k], "role"@) == Some(JsonView::Str("tool"@))
                        &&& member(h2[h.len() + 1 + k], "tool_call_id"@) == Some(JsonView::Str(calls[k].0))
                        &&& member(h2[h.len() + 1 + k], "content"@) == member(r2, "response"@)
                    }
                },
                _ => true,
            },
            _ => true,
        },
{
    let next = agent_next(s, input, user, schemas);
    match s {
        AgentStateView::AwaitingModel { system_prompt, history, response } => {
            match input {
                AgentInput::Model { first: Some(c) } => {
                    if c.finish_reason == "tool_calls"@ && c.calls.len() == 0 {
                        match member(response, "response"@) {
                            Some(content) => {
                                let h2 = extended_history(history, c.message, c.calls, content);
                                assert(h2.subrange(0, history.len() as int) =~= history);
                                assert(h2[history.len() as int] == c.message);
                            },
                            None => {},
                        }
                    }
                },
                _ => {},
            }
        },
        AgentStateView::AwaitingTool { system_prompt, history, response, message, calls, next_call } => {
            match input {
                AgentInput::Reply { tool_value: Some(v), .. } => {
                    if !(next_call + 1 < calls.len()) {
                        match member(v, "response"@) {
                            Some(content) => {
                                let h2 = extended_history(history, message, calls, content);
                                assert(h2.subrange(0, history.len() as int) =~= history);
                                assert(h2[history.len() as int] == message);
                                assert forall|k: int| 0 <= k < calls.len() implies {
                                    &&& member(#[trigger] h2[history.len() + 1 + k], "role"@) == Some(JsonView::Str("tool"@))
                                    &&& member(h2[history.len() + 1 + k], "tool_call_id"@) == Some(JsonView::Str(calls[k].0))
                                    &&& member(h2[history.len() + 1 + k], "content"@) == Some(content)
                                } by {
                                    assert(h2[history.len() + 1 + k] == tool_reply(calls[k].0, content));
                                    tool_reply_members(calls[k].0, content);
                                }
                            },
                            None => {},
                        }
                    }
                },
                _ => {},
            }
            assert(history.subrange(0, history.len() as int) =~= history);
        },
        _ => {},
    }
    match history_of(s) {
        Some(h) => { assert(h.subrange(0, h.len() as int) =~= h); },
        None => {},
    }
    match (next.0, next.1) {
        (AgentStateView::AwaitingModel { system_prompt, history, .. }, ActionView::Call { role, payload }) => {
            llm_request_messages(system_prompt, history, user, schemas);
        },
        _ => {},
    }
}

/// A tool reply names its role and the call it answers.
pub proof fn tool_reply_members(id: Seq<char>, content: JsonView)
    ensures
        member(tool_reply(id, content), "role"@) == Some(JsonView::Str("tool"@)),
        member(tool_reply(id, content), "tool_call_id"@) == Some(JsonView::Str(id)),
        member(tool_reply(id, content), "content"@) == Some(content),
{
    let names = crate::json::names_of(tool_reply(id, content)->Object_0);
    assert(names[0] == "role"@);
    assert(names[1] == "tool_call_id"@);
    assert(names[2] == "content"@);
    reveal_strlit("role");
    reveal_strlit("tool_call_id");
    reveal_strlit("content");
    assert("role"@.len() != "tool_call_id"@.len());
    assert("role"@.len() != "content"@.len());
    assert("tool_call_id"@.len() != "content"@.len());
    crate::json::lemma_first_index(names, "role"@);
    crate::json::lemma_first_index(names, "tool_call_id"@);
    crate::json::lemma_first_index(names, "content"@);
}

/// The messages of a request to the model: the system and user prompts,
/// then the history.
pub proof fn llm_request_messages(system_prompt: Seq<char>, history: Seq<JsonView>, user: Seq<char>, schemas: Seq<JsonView>)
    ensures
        member(llm_request(system_prompt, history, user, schemas), "messages"@) == Some(JsonView::Array(
            seq![role_content("system"@, system_prompt), role_content("user"@, user)] + history)),
{
    let fs = llm_request(system_prompt, history, user, schemas)->Object_0;
    let names = crate::json::names_of(fs);
    assert(names[0] == "messages"@);
    crate::json::lemma_first_index(names, "messages"@);
}

} // verus!
