//! Where messages go at the edges of a graph: how a finished message answers
//! its origin, how a fan-out reads the request it distributes, and how a
//! callout forwards a request to another graph and pairs it with the reply.
//! The channels themselves live in the opaque origins (`O`); using them is
//! the caller's part.

use vstd::prelude::*;
use crate::json::{Json, JsonView, jview, json_parse_text, members_view, object, parse_json_text};
use crate::message::{Message, origin_of, without_origin};
use crate::status::GraphStatus;
use crate::graph::RuntimeState;
use crate::text::push_char;

verus! {

/// How a finished message answers its origin.
pub enum ReplyRoute<O, C> {
    /// Send `reply` on the origin's reply channel: through its queue when it
    /// has one, otherwise through its one-shot channel; `keep_trace` asks that
    /// a one-shot reply carry the origin's trace span and scratch data.
    Send { origin: O, reply: Message<O, C>, keep_trace: bool },
    /// The message has no origin to answer.
    NoOrigin,
    /// Nothing is sent for this message (a no-op or an exit).
    Nothing,
    /// This kind of message is not sent back.
    Unsupported,
}

/// The channel of an origin that a reply goes out on.
#[derive(Clone, Copy, Debug, PartialEq, Eq, Structural)]
pub enum ReplyChannel {
    /// The origin's queue.
    Queue,
    /// The origin's one-shot channel.
    OneShot,
}

/// The channel a reply takes, given which channels its origin has: the
/// queue when there is one, otherwise the one-shot channel. `None` when the
/// origin has neither (there is no channel to answer on).
pub fn reply_channel(has_queue: bool, has_one_shot: bool) -> (res: Option<ReplyChannel>)
    ensures
        res == if has_queue {
            Some(ReplyChannel::Queue)
        } else if has_one_shot {
            Some(ReplyChannel::OneShot)
        } else {
            None::<ReplyChannel>
        },
{
    if has_queue {
        Some(ReplyChannel::Queue)
    } else if has_one_shot {
        Some(ReplyChannel::OneShot)
    } else {
        None
    }
}

/// The route of a finished message: standard, JSON, HTTP, error and tuple
/// messages are sent back without their origin (a standard message keeps the
/// trace of a one-shot origin); no-ops and exits send nothing.
pub open spec fn reply_route_of<O, C>(msg: Message<O, C>) -> ReplyRoute<O, C> {
    match msg {
        Message::HTTP { message, status, headers, origin } => match origin {
            Some(o) => ReplyRoute::Send { origin: o, reply: Message::HTTP { message, status, headers, origin: None }, keep_trace: false },
            None => ReplyRoute::NoOrigin,
        },
        Message::Standard { message, origin } => match origin {
            Some(o) => ReplyRoute::Send { origin: o, reply: Message::Standard { message, origin: None }, keep_trace: true },
            None => ReplyRoute::NoOrigin,
        },
        Message::JSON { message, origin } => match origin {
            Some(o) => ReplyRoute::Send { origin: o, reply: Message::JSON { message, origin: None }, keep_trace: false },
            None => ReplyRoute::NoOrigin,
        },
        Message::Tuple { message_1, message_2, origin } => match origin {
            Some(o) => ReplyRoute::Send { origin: o, reply: Message::Tuple { message_1, message_2, origin: None }, keep_trace: false },
            None => ReplyRoute::NoOrigin,
        },
        Message::Error { error, origin } => match origin {
            Some(o) => ReplyRoute::Send { origin: o, reply: Message::Error { error, origin: None }, keep_trace: false },
            None => ReplyRoute::NoOrigin,
        },
        Message::NoOp => ReplyRoute::Nothing,
        Message::Exit { .. } => ReplyRoute::Nothing,
        _ => ReplyRoute::Unsupported,
    }
}

/// How the end of a graph answers a finished message (see `reply_route_of`).
pub fn reply_route<O, C>(msg: Message<O, C>) -> (res: ReplyRoute<O, C>)
    ensures
        res == reply_route_of(msg),
{
    match msg {
        Message::HTTP { message, status, headers, origin } => match origin {
            Some(o) => ReplyRoute::Send { origin: o, reply: Message::HTTP { message, status, headers, origin: None }, keep_trace: false },
            None => ReplyRoute::NoOrigin,
        },
        Message::Standard { message, origin } => match origin {
            Some(o) => ReplyRoute::Send { origin: o, reply: Message::Standard { message, origin: None }, keep_trace: true },
            None => ReplyRoute::NoOrigin,
        },
        Message::JSON { message, origin } => match origin {
            Some(o) => ReplyRoute::Send { origin: o, reply: Message::JSON { message, origin: None }, keep_trace: false },
            None => ReplyRoute::NoOrigin,
        },
        Message::Tuple { message_1, message_2, origin } => match origin {
            Some(o) => ReplyRoute::Send { origin: o, reply: Message::Tuple { message_1, message_2, origin: None }, keep_trace: false },
            None => ReplyRoute::NoOrigin,
        },
        Message::Error { error, origin } => match origin {
            Some(o) => ReplyRoute::Send { origin: o, reply: Message::Error { error, origin: None }, keep_trace: false },
            None => ReplyRoute::NoOrigin,
        },
        Message::NoOp => ReplyRoute::Nothing,
        Message::Exit { .. } => ReplyRoute::Nothing,
        _ => ReplyRoute::Unsupported,
    }
}

/// Bytes read one character per byte (`b as char`).
pub open spec fn latin1(bytes: Seq<u8>) -> Seq<char> {
    bytes.map_values(|b: u8| b as char)
}

/// The text of bytes read one character per byte.
pub fn latin1_text(bytes: &[u8]) -> (res: String)
    ensures
        res@ == latin1(bytes@),
{
    let mut s = String::new();
    let mut i: usize = 0;
    while i < bytes.len()
        invariant
            i <= bytes.len(),
            s@ == latin1(bytes@.take(i as int)),
        decreases bytes.len() - i,
    {
        let b: u8 = bytes[i];
        push_char(&mut s, b as char);
        assert(latin1(bytes@.take(i + 1)) =~= latin1(bytes@.take(i as int)).push(b as char));
        i = i + 1;
    }
    assert(bytes@.take(bytes@.len() as int) =~= bytes@);
    s
}

/// How a fan-out starts on a request.
pub enum FanOutStart<O, C> {
    /// Send `payload` to every branch. When `answer` holds, the merged
    /// replies answer the origin; `early` is a reply sent back at once.
    Distribute { payload: Json, origin: O, answer: bool, early: Option<Message<O, C>> },
    /// The request cannot be fanned out: it has no origin, its body is not
    /// JSON, or it is neither an HTTP nor a JSON message.
    Rejected,
}

/// The view of a fan-out's start.
pub enum FanOutStartView<O, C> {
    Distribute { payload: JsonView, origin: O, answer: bool, early: Option<Message<O, C>> },
    Rejected,
}

impl<O, C> FanOutStart<O, C> {
    pub open spec fn view(&self) -> FanOutStartView<O, C> {
        match *self {
            FanOutStart::Distribute { payload, origin, answer, early } => FanOutStartView::Distribute { payload: jview(payload), origin, answer, early },
            FanOutStart::Rejected => FanOutStartView::Rejected,
        }
    }
}

/// How a fan-out starts: an HTTP error reply (status above 299) is passed
/// back at once and an empty object is distributed with no answer expected;
/// an HTTP 204 distributes an empty object; another HTTP reply distributes
/// its body, read one character per byte, as JSON; a JSON request
/// distributes its document.
pub open spec fn fan_out_start_of<O, C>(msg: Message<O, C>) -> FanOutStartView<O, C> {
    match msg {
        Message::HTTP { message, status, headers, origin: Some(o) } => if status > 299 {
            FanOutStartView::Distribute {
                payload: JsonView::Object(Seq::empty()),
                origin: o,
                answer: false,
                early: Some(Message::HTTP { message, status, headers, origin: None }),
            }
        } else if status == 204 {
            FanOutStartView::Distribute { payload: JsonView::Object(Seq::empty()), origin: o, answer: true, early: None }
        } else {
            match json_parse_text(latin1(message@)) {
                Some(v) => FanOutStartView::Distribute { payload: v, origin: o, answer: true, early: None },
                None => FanOutStartView::Rejected,
            }
        },
        Message::JSON { message, origin: Some(o) } => FanOutStartView::Distribute { payload: jview(message), origin: o, answer: true, early: None },
        _ => FanOutStartView::Rejected,
    }
}

fn empty_object() -> (res: Json)
    ensures
        jview(res) == JsonView::Object(Seq::empty()),
{
    let f: Vec<(String, Json)> = Vec::new();
    assert(members_view(f@) =~= Seq::<(Seq<char>, JsonView)>::empty());
    object(f)
}

/// How a fan-out starts on `msg` (see `fan_out_start_of`).
pub fn fan_out_start<O, C>(msg: Message<O, C>) -> (res: FanOutStart<O, C>)
    ensures
        res.view() == fan_out_start_of(msg),
{
    match msg {
        Message::HTTP { message, status, headers, origin } => match origin {
            Some(o) => {
                if status > 299 {
                    FanOutStart::Distribute {
                        payload: empty_object(),
                        origin: o,
                        answer: false,
                        early: Some(Message::HTTP { message, status, headers, origin: None }),
                    }
                } else if status == 204 {
                    FanOutStart::Distribute { payload: empty_object(), origin: o, answer: true, early: None }
                } else {
                    let text = latin1_text(message.as_slice());
                    match parse_json_text(text.as_str()) {
                        Some(v) => FanOutStart::Distribute { payload: v, origin: o, answer: true, early: None },
                        None => FanOutStart::Rejected,
                    }
                }
            },
            None => FanOutStart::Rejected,
        },
        Message::JSON { message, origin } => match origin {
            Some(o) => FanOutStart::Distribute { payload: message, origin: o, answer: true, early: None },
            None => FanOutStart::Rejected,
        },
        _ => FanOutStart::Rejected,
    }
}

/// What a callout does with a request.
pub enum CalloutPlan<O, C> {
    /// The called graph is inactive: `error` goes to the next node instead.
    Inactive { error: Message<O, C> },
    /// Call the graph with `payload` as a standard message; its reply is
    /// paired with `request` (see `callout_result`) and answers `origin`.
    /// When `reply_channel_only` holds, the answer carries a fresh origin
    /// with only `origin`'s reply channel (no session or scratch data).
    Call { payload: Vec<u8>, request: Vec<u8>, origin: Option<O>, reply_channel_only: bool },
    /// Neither a standard message nor a request awaiting a reply.
    Unsupported,
}

/// The error text for a call to an inactive graph.
pub open spec fn inactive_text(name: Seq<char>) -> Seq<char> {
    "Graph "@ + name + " is inactive"@
}

/// What a callout to the graph `runner_name`, whose runner is in state
/// `runner_state`, does with `msg`: an inactive graph is not called and an
/// error, with the request's origin, goes on instead; a standard message is
/// forwarded as is, and the answer keeps its origin; a request awaiting a
/// reply calls the graph with no body, and the answer carries a fresh origin
/// with only the request's reply channel.
pub fn callout_plan<O, C>(msg: Message<O, C>, runner_state: GraphStatus, runner_name: &str) -> (res: CalloutPlan<O, C>)
    ensures
        runner_state == GraphStatus::Inactive ==> (res matches CalloutPlan::Inactive { error: Message::Error { error: text, origin: o } }
            && text@ == inactive_text(runner_name@) && o == origin_of(msg)),
        runner_state != GraphStatus::Inactive ==> match msg {
            Message::Standard { message, origin } => res matches CalloutPlan::Call { payload, request, origin: o, reply_channel_only }
                && payload@ == message@ && request@ == message@ && o == origin && !reply_channel_only,
            Message::ReqReply { message, origin } => res matches CalloutPlan::Call { payload, request, origin: o, reply_channel_only }
                && payload@.len() == 0 && request@ == message@ && o == Some(origin) && reply_channel_only,
            _ => res is Unsupported,
        },
{
    if runner_state == GraphStatus::Inactive {
        let mut m = msg;
        let origin = m.take_origin();
        let mut text = String::from_str("Graph ");
        text.append(runner_name);
        text.append(" is inactive");
        return CalloutPlan::Inactive { error: Message::Error { error: text, origin } };
    }
    match msg {
        Message::Standard { message, origin } => {
            let payload = message.clone();
            CalloutPlan::Call { payload, request: message, origin, reply_channel_only: false }
        },
        Message::ReqReply { message, origin } => CalloutPlan::Call { payload: Vec::new(), request: message, origin: Some(origin), reply_channel_only: true },
        _ => CalloutPlan::Unsupported,
    }
}

/// The callout's answer: the request, as a standard message without origin,
/// paired with the called graph's reply, carrying the request's origin.
pub fn callout_result<O, C>(request: Vec<u8>, response: Message<O, C>, origin: Option<O>) -> (res: Message<O, C>)
    ensures
        res matches Message::Tuple { message_1, message_2, origin: o }
            && *message_1 == (Message::<O, C>::Standard { message: request, origin: None })
            && *message_2 == response
            && o == origin,
{
    Message::Tuple {
        message_1: Box::new(Message::Standard { message: request, origin: None }),
        message_2: Box::new(response),
        origin,
    }
}

/// Whether a callout gets a runtime attached to the called graph: only when
/// that graph exists (`runner_state` is its runner's state) and is active;
/// otherwise the callout keeps its current runtime.
pub fn callout_attaches(runner_state: Option<GraphStatus>) -> (res: bool)
    ensures
        res == (runner_state == Some(GraphStatus::Active)),
{
    match runner_state {
        Some(GraphStatus::Active) => true,
        _ => false,
    }
}

/// A callout node: the graph it calls, and its state (pending until it has
/// a runtime attached to the called graph while that graph is active).
#[derive(Debug)]
pub struct Callout {
    pub graph_name: String,
    pub state: crate::status::OperatorState,
}

impl Callout {
    /// A callout to `graph_name`, pending.
    pub fn new(graph_name: String) -> (res: Self)
        ensures
            res.graph_name == graph_name,
            res.state == crate::status::OperatorState::Pending,
    {
        Callout { graph_name, state: crate::status::OperatorState::Pending }
    }

    /// The callout's runtime for a replacement of its graph's runner, given
    /// the state of the called graph's runner (`None` when that graph is not
    /// registered): attached, and ready, when the called graph is active
    /// (see `callout_attaches`); otherwise a copy of this one.
    pub fn new_runtime(&self, runner_state: Option<GraphStatus>) -> (res: Callout)
        ensures
            res.graph_name == self.graph_name,
            res.state == if runner_state == Some(GraphStatus::Active) {
                crate::status::OperatorState::Ready
            } else {
                self.state
            },
    {
        let state = if callout_attaches(runner_state) { crate::status::OperatorState::Ready } else { self.state };
        Callout { graph_name: self.graph_name.clone(), state }
    }
}

impl crate::graph::RuntimeState for Callout {
    /// A callout reports its own state.
    open spec fn reports(&self, state: crate::status::OperatorState) -> bool {
        state == self.state
    }

    fn state(&self) -> (res: crate::status::OperatorState) {
        self.state
    }
}

impl crate::graph::NodeInit for Callout {
    /// Added to a graph, a callout is pending and keeps the graph it calls.
    open spec fn inits(self, meta: crate::meta::NodeMeta, after: Self) -> bool {
        after.graph_name == self.graph_name && after.state == crate::status::OperatorState::Pending
    }

    fn init(&mut self, meta: &crate::meta::NodeMeta) {
        self.state = crate::status::OperatorState::Pending;
    }
}

/// For callouts, which report their own state, the status a runner
/// replacement gives (`status_reported`) is exact: inactive exactly when one
/// of the callouts is pending.
pub proof fn callout_status_exact(nodes: crate::named::NamedList<Callout>, status: GraphStatus)
    requires
        crate::graph::status_reported(nodes, status),
    ensures
        status == GraphStatus::Inactive <==> exists|i: int|
            0 <= i < nodes.pairs().len() && (#[trigger] nodes.pairs()[i]).1.state == crate::status::OperatorState::Pending,
{
    if status == GraphStatus::Active {
        assert forall|i: int| 0 <= i < nodes.pairs().len() implies (#[trigger] nodes.pairs()[i]).1.state != crate::status::OperatorState::Pending by {
            assert(nodes.pairs()[i].1.reports(crate::status::OperatorState::Ready));
        }
    }
}

/// Whether a control event concerns the graph a callout calls, in which case
/// the callout's own graph replaces its runtimes.
pub fn callout_event_matters(event: &crate::status::ControlEvent, callout_graph: &str) -> (res: bool)
    ensures
        res == (event.graph_name@ == callout_graph@),
{
    let g = String::from_str(callout_graph);
    event.graph_name == g
}

/// A reply is sent on the channels of the message's own origin, and itself
/// carries no origin.
pub proof fn replies_carry_no_origin<O, C>(msg: Message<O, C>)
    ensures
        match reply_route_of(msg) {
            ReplyRoute::Send { origin, reply, .. } => crate::message::origin_field(msg) == Some(origin)
                && crate::message::origin_field(reply) is None,
            _ => true,
        },
{
}

/// Every standard, JSON, HTTP, tuple or error message that carries an
/// origin is sent back to that origin, as the same message without origin;
/// one without an origin cannot be answered. Only a standard reply keeps the
/// origin's trace.
pub proof fn answerable_messages_are_sent<O, C>(msg: Message<O, C>)
    requires
        msg is Standard || msg is JSON || msg is HTTP || msg is Tuple || msg is Error,
    ensures
        crate::message::origin_field(msg) matches Some(o) ==> reply_route_of(msg) == (ReplyRoute::Send {
            origin: o,
            reply: crate::message::origin_cleared(msg),
            keep_trace: msg is Standard,
        }),
        crate::message::origin_field(msg) is None ==> reply_route_of(msg) is NoOrigin,
{
}

/// Nothing is sent for a no-op or an exit.
pub proof fn no_reply_for_noop_or_exit<O, C>(msg: Message<O, C>)
    requires
        msg is NoOp || msg is Exit,
    ensures
        reply_route_of(msg) is Nothing,
{
}

} // verus!
