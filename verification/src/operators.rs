//! The message transformations of the graph operators.

use vstd::prelude::*;
use crate::json::{Json, JsonView, jview, json_parse, json_print, reads_back, read_back_depth, printable, reads_back_as, put_member, members_view, elements_view, object, array, parse_json, print_json};
use crate::message::{Message, origin_of, without_origin, with_origin_spec};
use crate::timestamp::now_rfc3339;

verus! {

/// The error text of a message an operator does not handle.
pub open spec fn unexpected_text() -> Seq<char> {
    "Unexpected message type"@
}

/// Whether `m` is the JSON message `v` with origin `o`.
pub open spec fn is_json_message<O, C>(m: Message<O, C>, v: JsonView, o: Option<O>) -> bool {
    match m {
        Message::JSON { message, origin } => jview(message) == v && origin == o,
        _ => false,
    }
}

/// Whether `m` is the error `text` with origin `o`.
pub open spec fn is_error_message<O, C>(m: Message<O, C>, text: Seq<char>, o: Option<O>) -> bool {
    match m {
        Message::Error { error, origin } => error@ == text && origin == o,
        _ => false,
    }
}

/// Whether `m` carries the bytes `b` as a standard message with origin `o`.
pub open spec fn is_standard_message<O, C>(m: Message<O, C>, b: Seq<u8>, o: Option<O>) -> bool {
    match m {
        Message::Standard { message, origin } => message@ == b && origin == o,
        _ => false,
    }
}

/// The error message for a message an operator does not handle.
pub fn unexpected<O, C>(origin: Option<O>) -> (res: Message<O, C>)
    ensures
        is_error_message(res, unexpected_text(), origin),
{
    Message::Error { error: String::from_str("Unexpected message type"), origin }
}

/// An object document with the member `_ts` set to `now`.
pub open spec fn stamped(v: JsonView, now: Seq<char>) -> JsonView {
    match v {
        JsonView::Object(fs) => JsonView::Object(put_member(fs, "_ts"@, JsonView::Str(now))),
        other => other,
    }
}

/// The empty object.
pub open spec fn empty_object() -> JsonView {
    JsonView::Object(Seq::empty())
}

/// An object document stamped with `_ts` = `now`, as a JSON message.
pub fn to_json<O, C>(data: Json, origin: Option<O>, now: &String) -> (res: Message<O, C>)
    requires
        jview(data) is Object,
    ensures
        is_json_message(res, stamped(jview(data), now@), origin),
{
    let mut data = data;
    data.insert(String::from_str("_ts"), Json::Str(now.clone()));
    Message::JSON { message: data, origin }
}

/// What the buffer-to-JSON operator gives for a message read as bytes
/// (`origin` is the origin of the resulting message), given the time `now`:
/// empty bytes stand for the empty object; bytes that are not a JSON object
/// give `None` (the operator fails there).
pub open spec fn bytes_to_json_result<O, C>(res: Option<Message<O, C>>, bytes: Seq<u8>, empty_ok: bool, origin: Option<O>, now: Seq<char>) -> bool {
    if empty_ok && bytes.len() == 0 {
        res matches Some(m) && is_json_message(m, stamped(empty_object(), now), origin)
    } else {
        match json_parse(bytes) {
            Some(v) => if v is Object {
                res matches Some(m) && is_json_message(m, stamped(v, now), origin)
            } else {
                res is None
            },
            None => res is None,
        }
    }
}

/// The outcome of the buffer-to-JSON operator on `msg` at time `now`; `None`
/// where the operator fails (bytes that are not a JSON object, except that
/// an unparsable request is answered with an error).
pub open spec fn buffer_to_json_result<O, C>(msg: Message<O, C>, now: Seq<char>, res: Option<Message<O, C>>) -> bool {
    match msg {
        Message::ReqReply { message, origin } => if message@.len() != 0 && json_parse(message@) is None {
            res matches Some(m) && is_error_message(m, "Error serializing JSON"@, None)
        } else {
            bytes_to_json_result(res, message@, true, Some(origin), now)
        },
        Message::Standard { message, origin } => bytes_to_json_result(res, message@, true, origin, now),
        Message::HTTP { message, origin, .. } => bytes_to_json_result(res, message@, false, origin, now),
        Message::JSON { .. } => res == Some(msg),
        Message::Error { error, origin } => res matches Some(m) && is_error_message(m, error@, origin),
        Message::Exit { origin } => res == Some(Message::<O, C>::Exit { origin }),
        _ => res matches Some(m) && is_error_message(m, unexpected_text(), None),
    }
}

/// A request, standard or HTTP message whose (non-empty) bytes parse to a
/// JSON object becomes that object stamped with `_ts` = `now`, as a JSON
/// message with the message's origin; for a request or a standard message,
/// empty bytes stand for the empty object. A request whose non-empty bytes
/// are not JSON is answered with the error "Error serializing JSON". JSON,
/// error and exit messages pass unchanged.
pub proof fn requests_become_stamped_objects<O, C>(msg: Message<O, C>, now: Seq<char>, res: Option<Message<O, C>>, v: JsonView)
    requires
        buffer_to_json_result(msg, now, res),
    ensures
        ({
            let bytes = match msg {
                Message::ReqReply { message, .. } => message@,
                Message::Standard { message, .. } => message@,
                Message::HTTP { message, .. } => message@,
                _ => Seq::empty(),
            };
            let origin = match msg {
                Message::ReqReply { origin, .. } => Some(origin),
                Message::Standard { origin, .. } => origin,
                Message::HTTP { origin, .. } => origin,
                _ => None,
            };
            &&& (msg is ReqReply || msg is Standard || msg is HTTP) && bytes.len() > 0 && json_parse(bytes) == Some(v) && v is Object
                ==> (res matches Some(m) && is_json_message(m, stamped(v, now), origin))
            &&& (msg is ReqReply || msg is Standard) && bytes.len() == 0
                ==> (res matches Some(m) && is_json_message(m, stamped(empty_object(), now), origin))
            &&& msg is ReqReply && bytes.len() > 0 && json_parse(bytes) is None
                ==> (res matches Some(m) && is_error_message(m, "Error serializing JSON"@, None))
        }),
        msg is JSON || msg is Exit ==> res == Some(msg),
        msg matches Message::Error { error, origin } ==> (res matches Some(m) && is_error_message(m, error@, origin)),
{
}

/// Turns bytes into a stamped JSON message (see `bytes_to_json_result`).
fn bytes_to_json<O, C>(bytes: Vec<u8>, empty_ok: bool, origin: Option<O>, now: &String) -> (res: Option<Message<O, C>>)
    ensures
        bytes_to_json_result(res, bytes@, empty_ok, origin, now@),
{
    if empty_ok && bytes.len() == 0 {
        let empty = object(Vec::new());
        assert(members_view(Seq::<(String, Json)>::empty()) =~= Seq::<(Seq<char>, JsonView)>::empty());
        return Some(to_json(empty, origin, now));
    }
    match parse_json(bytes.as_slice()) {
        Some(v) => if v.is_object() {
            Some(to_json(v, origin, now))
        } else {
            None
        },
        None => None,
    }
}

/// The buffer-to-JSON operator at time `now`: requests, standard and HTTP
/// messages holding a JSON object become that object stamped with `_ts`
/// (empty bytes count as `{}` for requests and standard messages); JSON,
/// error and exit messages pass unchanged; an unparsable request becomes the
/// error "Error serializing JSON"; other messages become the error
/// "Unexpected message type". `None` where the operator fails: standard or
/// HTTP bytes that are not JSON, and JSON that is not an object.
pub fn stamp_message<O, C>(msg: Message<O, C>, now: &String) -> (res: Option<Message<O, C>>)
    ensures
        buffer_to_json_result(msg, now@, res),
{
    match msg {
        Message::ReqReply { message, origin } => {
            if message.len() != 0 {
                match parse_json(message.as_slice()) {
                    None => {
                        return Some(Message::Error { error: String::from_str("Error serializing JSON"), origin: None });
                    },
                    Some(_) => {},
                }
            }
            bytes_to_json(message, true, Some(origin), now)
        },
        Message::Standard { message, origin } => bytes_to_json(message, true, origin, now),
        Message::HTTP { message, origin, .. } => bytes_to_json(message, false, origin, now),
        Message::JSON { message, origin } => Some(Message::JSON { message, origin }),
        Message::Error { error, origin } => Some(Message::Error { error, origin }),
        Message::Exit { origin } => Some(Message::Exit { origin }),
        _ => Some(unexpected(None)),
    }
}

/// The buffer-to-JSON operator at the current time (see `stamp_message`).
pub fn buffer_to_json<O, C>(msg: Message<O, C>) -> (res: Option<Message<O, C>>)
    ensures
        exists|now: Seq<char>| buffer_to_json_result(msg, now, res),
{
    let now = now_rfc3339();
    stamp_message(msg, &now)
}

/// The JSON-to-buffer operator: a JSON message becomes the standard message
/// of its printed bytes, errors pass unchanged, other messages become the
/// error "Unexpected message type".
pub fn json_to_buffer<O, C>(msg: Message<O, C>) -> (res: Message<O, C>)
    ensures
        match msg {
            Message::JSON { message, origin } => is_standard_message(res, json_print(jview(message)), origin),
            Message::Error { error, origin } => is_error_message(res, error@, origin),
            _ => is_error_message(res, unexpected_text(), None),
        },
        match msg {
            Message::JSON { message, origin } => jview(message) is Object && reads_back(jview(message), read_back_depth())
                ==> forall|now: Seq<char>, r: Option<Message<O, C>>|
                    #[trigger] buffer_to_json_result(res, now, r) ==> (r matches Some(m)
                        && is_json_message(m, stamped(jview(message), now), origin)),
            _ => true,
        },
        match msg {
            Message::JSON { message, origin } => jview(message) is Object && printable(jview(message), read_back_depth())
                ==> forall|now: Seq<char>, r: Option<Message<O, C>>|
                    #[trigger] buffer_to_json_result(res, now, r) ==> (r matches Some(m)
                        && exists|w: JsonView| reads_back_as(jview(message), w, read_back_depth())
                            && #[trigger] is_json_message(m, stamped(w, now), origin)),
            _ => true,
        },
{
    match msg {
        Message::JSON { message, origin } => Message::Standard { message: print_json(&message), origin },
        Message::Error { error, origin } => Message::Error { error, origin },
        _ => unexpected(None),
    }
}

/// The error text of a failed canonical-model validation.
pub open spec fn validation_error_text(e: Seq<char>) -> Seq<char> {
    "Canonical Model Validation Error - "@ + e
}

/// The canonical-model operator, given the outcome of validating the JSON
/// document (`validation`, the description of the failure on error): the
/// origin is taken from the message; a valid JSON message is returned with
/// its origin; an invalid one becomes the error "Canonical Model Validation
/// Error - DESCRIPTION"; any other message becomes "Unexpected message type".
/// Both errors carry the origin.
pub fn canonical_model_handle<O, C>(msg: Message<O, C>, validation: Result<(), String>) -> (res: Message<O, C>)
    ensures
        ({
            let origin = origin_of(msg);
            let bare = without_origin(msg);
            match bare {
                Message::JSON { .. } => match validation {
                    Ok(_) => res == with_origin_spec(bare, origin),
                    Err(e) => is_error_message(res, validation_error_text(e@), origin),
                },
                _ => is_error_message(res, unexpected_text(), origin),
            }
        }),
{
    let mut msg = msg;
    let origin = msg.take_origin();
    match msg {
        Message::JSON { .. } => match validation {
            Ok(_) => msg.with_origin(origin),
            Err(e) => {
                let mut text = String::from_str("Canonical Model Validation Error - ");
                text.append(e.as_str());
                Message::Error { error: text, origin }
            },
        },
        _ => unexpected(origin),
    }
}

/// What `String::from_utf8_lossy` decodes these bytes to.
pub uninterp spec fn utf8_lossy(bytes: Seq<u8>) -> Seq<char>;

/// Decodes bytes as UTF-8, replacing invalid sequences
/// (`String::from_utf8_lossy`); the result is named `utf8_lossy`.
#[verifier::external_body]
pub fn decode_lossy(bytes: &[u8]) -> (res: String)
    ensures
        res@ == utf8_lossy(bytes@),
{
    String::from_utf8_lossy(bytes).into_owned()
}

/// The document a fan-out branch contributes for its reply: bytes become
/// `{"text": ...}`, a JSON reply itself; other replies contribute nothing.
pub open spec fn branch_value<O, C>(m: Message<O, C>) -> Option<JsonView> {
    match m {
        Message::ReqReply { message, .. } => Some(JsonView::Object(seq![("text"@, JsonView::Str(utf8_lossy(message@)))])),
        Message::Standard { message, .. } => Some(JsonView::Object(seq![("text"@, JsonView::Str(utf8_lossy(message@)))])),
        Message::JSON { message, .. } => Some(jview(message)),
        _ => None,
    }
}

/// The contributions of the replies, in order.
pub open spec fn branch_values<O, C>(replies: Seq<Message<O, C>>) -> Seq<JsonView>
    decreases replies.len(),
{
    if replies.len() == 0 {
        Seq::empty()
    } else {
        let rest = branch_values(replies.drop_last());
        match branch_value(replies.last()) {
            Some(v) => rest.push(v),
            None => rest,
        }
    }
}

/// The merged answer of a fan-out: the only contribution when there is
/// exactly one, otherwise the array of all contributions.
pub open spec fn merged_answer(values: Seq<JsonView>) -> JsonView {
    if values.len() == 1 {
        values[0]
    } else {
        JsonView::Array(values)
    }
}

/// Merges the replies of a fan-out's branches (see `merged_answer`).
pub fn merge_replies<O, C>(replies: Vec<Message<O, C>>) -> (res: Json)
    ensures
        jview(res) == merged_answer(branch_values(replies@)),
{
    let ghost all = replies@;
    let _n = replies.len();
    let mut merged: Vec<Json> = Vec::new();
    let mut rest = replies;
    let mut i: usize = 0;
    let mut replies_rev: Vec<Message<O, C>> = Vec::new();
    while rest.len() > 0
        invariant
            rest@.len() + replies_rev@.len() == all.len(),
            forall|j: int| 0 <= j < rest@.len() ==> #[trigger] rest@[j] == all[j],
            forall|j: int| 0 <= j < replies_rev@.len() ==> #[trigger] replies_rev@[j] == all[all.len() - 1 - j],
        decreases rest@.len(),
    {
        let m = rest.pop().unwrap();
        replies_rev.push(m);
    }
    while replies_rev.len() > 0
        invariant
            i <= all.len(),
            all.len() <= usize::MAX,
            replies_rev@.len() == all.len() - i,
            forall|j: int| 0 <= j < replies_rev@.len() ==> #[trigger] replies_rev@[j] == all[all.len() - 1 - j],
            elements_view(merged@) == branch_values(all.take(i as int)),
        decreases replies_rev@.len(),
    {
        let m = replies_rev.pop().unwrap();
        assert(m == all[i as int]);
        assert(all.take(i + 1).drop_last() == all.take(i as int));
        let ghost before = merged@;
        match m {
            Message::ReqReply { message, .. } => {
                let mut fields: Vec<(String, Json)> = Vec::new();
                fields.push((String::from_str("text"), Json::Str(decode_lossy(message.as_slice()))));
                let o = object(fields);
                assert(members_view(fields@) =~= seq![("text"@, JsonView::Str(utf8_lossy(message@)))]);
                merged.push(o);
            },
            Message::Standard { message, .. } => {
                let mut fields: Vec<(String, Json)> = Vec::new();
                fields.push((String::from_str("text"), Json::Str(decode_lossy(message.as_slice()))));
                let o = object(fields);
                assert(members_view(fields@) =~= seq![("text"@, JsonView::Str(utf8_lossy(message@)))]);
                merged.push(o);
            },
            Message::JSON { message, .. } => {
                merged.push(message);
            },
            _ => {},
        }
        assert(elements_view(merged@) =~= branch_values(all.take(i + 1)));
        i = i + 1;
    }
    assert(all.take(all.len() as int) == all);
    if merged.len() == 1 {
        let v = merged.pop().unwrap();
        v
    } else {
        array(merged)
    }
}

/// The template operator passes standard messages on unchanged and answers
/// anything else with an error without origin.
pub fn template_handle<O, C>(msg: Message<O, C>) -> (res: Message<O, C>)
    ensures
        match msg {
            Message::Standard { message, origin } => res == (Message::<O, C>::Standard { message, origin }),
            _ => is_error_message(res, unexpected_text(), None),
        },
{
    match msg {
        Message::Standard { message, origin } => Message::Standard { message, origin },
        _ => unexpected(None),
    }
}

/// The global-space operator handles messages as the template operator does.
pub fn global_space_handle<O, C>(msg: Message<O, C>) -> (res: Message<O, C>)
    ensures
        match msg {
            Message::Standard { message, origin } => res == (Message::<O, C>::Standard { message, origin }),
            _ => is_error_message(res, unexpected_text(), None),
        },
{
    template_handle(msg)
}

/// The terminate operator ends every message: nothing is passed on.
pub fn terminate_handle<O, C>(msg: Message<O, C>) -> (res: Message<O, C>)
    ensures
        res is NoOp,
{
    Message::NoOp
}

/// The passthrough operator passes every message on unchanged.
pub fn passthrough_handle<O, C>(msg: Message<O, C>) -> (res: Message<O, C>)
    ensures
        res == msg,
{
    msg
}

/// The document a timer sends: `{"timer": state}`.
pub open spec fn timer_document(state: Seq<char>) -> JsonView {
    JsonView::Object(seq![("timer"@, JsonView::Str(state))])
}

/// The timer's message for `state` ("started" or "triggered"), with the
/// given origin.
pub fn timer_message<O, C>(state: &str, origin: Option<O>) -> (res: Message<O, C>)
    ensures
        is_json_message(res, timer_document(state@), origin),
{
    let mut f: Vec<(String, Json)> = Vec::new();
    f.push((String::from_str("timer"), Json::Str(String::from_str(state))));
    assert(members_view(f@) =~= seq![("timer"@, JsonView::Str(state@))]);
    Message::JSON { message: object(f), origin }
}

/// A stub operator: it answers every message with its data.
#[derive(Debug)]
pub struct Stub {
    pub data: Json,
}

impl Stub {
    /// A stub answering with its node's configuration.
    pub fn from_config(config: &Json) -> (res: Self)
        ensures
            jview(res.data) == jview(*config),
    {
        Stub { data: config.deep_clone() }
    }

    /// Replaces the data with the settings received.
    pub fn set_settings(&mut self, settings: Json)
        ensures
            final(self).data == settings,
    {
        self.data = settings;
    }

    /// The data, as a JSON message with the origin of `msg`.
    pub fn handle<O, C>(&self, msg: Message<O, C>) -> (res: Message<O, C>)
        ensures
            is_json_message(res, jview(self.data), origin_of(msg)),
    {
        let mut m = msg;
        let origin = m.take_origin();
        Message::JSON { message: self.data.deep_clone(), origin }
    }
}

/// What the settings operator does with a message: a JSON document is the
/// settings to apply to every graph and is passed on unchanged; anything else
/// is answered with an error without origin.
pub fn settings_handle<O, C>(msg: Message<O, C>) -> (res: (Option<Json>, Message<O, C>))
    ensures
        match msg {
            Message::JSON { message, origin } => res.0 matches Some(s) && jview(s) == jview(message)
                && is_json_message(res.1, jview(message), origin),
            _ => res.0 is None && is_error_message(res.1, unexpected_text(), None),
        },
{
    match msg {
        Message::JSON { message, origin } => {
            let s = message.deep_clone();
            (Some(s), Message::JSON { message, origin })
        },
        _ => (None, unexpected(None)),
    }
}

} // verus!
