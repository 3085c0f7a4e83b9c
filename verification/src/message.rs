//! Messages that flow between operators. The origin of a message (its reply
//! channels, session, trace span and scratch data) is opaque here (`O`), as
//! is the payload of control-plane messages (`C`).

use vstd::prelude::*;
use crate::json::{Json, JsonView, jview, put_member, members_view, object};

verus! {

/// A message between operators.
#[derive(Debug)]
pub enum Message<O, C> {
    /// A buffer to be split.
    Split { message: Vec<u8>, origin: Option<O> },
    /// The end of a stream.
    Exit { origin: Option<O> },
    /// Raw bytes.
    Standard { message: Vec<u8>, origin: Option<O> },
    /// An HTTP exchange.
    HTTP { message: Vec<u8>, status: u16, headers: Vec<(String, String)>, origin: Option<O> },
    /// A JSON document.
    JSON { message: Json, origin: Option<O> },
    /// A request whose origin waits for the reply.
    ReqReply { message: Vec<u8>, origin: O },
    /// Two messages, e.g. a request and the reply of a called graph.
    Tuple { message_1: Box<Message<O, C>>, message_2: Box<Message<O, C>>, origin: Option<O> },
    /// A control-plane command.
    Control { command: C, origin: Option<O> },
    /// A failure, with its description.
    Error { error: String, origin: Option<O> },
    /// Nothing to pass on.
    NoOp,
}

/// The origin a message carries where `take_origin` finds it: on standard,
/// JSON and HTTP messages, and on the first message of a tuple.
pub open spec fn origin_of<O, C>(m: Message<O, C>) -> Option<O>
    decreases m,
{
    match m {
        Message::Standard { origin, .. } => origin,
        Message::JSON { origin, .. } => origin,
        Message::HTTP { origin, .. } => origin,
        Message::Tuple { message_1, .. } => origin_of(*message_1),
        _ => None,
    }
}

/// The message with the origin found by `origin_of` removed.
pub open spec fn without_origin<O, C>(m: Message<O, C>) -> Message<O, C>
    decreases m,
{
    match m {
        Message::Standard { message, .. } => Message::Standard { message, origin: None },
        Message::JSON { message, .. } => Message::JSON { message, origin: None },
        Message::HTTP { message, status, headers, .. } => Message::HTTP { message, status, headers, origin: None },
        Message::Tuple { message_1, message_2, origin } => Message::Tuple {
            message_1: Box::new(without_origin(*message_1)),
            message_2,
            origin,
        },
        _ => m,
    }
}

/// The message with its own origin set to `o` (standard, JSON and HTTP
/// messages only).
pub open spec fn with_origin_spec<O, C>(m: Message<O, C>, o: Option<O>) -> Message<O, C> {
    match m {
        Message::Standard { message, .. } => Message::Standard { message, origin: o },
        Message::JSON { message, .. } => Message::JSON { message, origin: o },
        Message::HTTP { message, status, headers, .. } => Message::HTTP { message, status, headers, origin: o },
        _ => m,
    }
}

impl<O, C> Message<O, C> {
    /// Sets the origin of a standard, JSON or HTTP message; other messages are
    /// returned unchanged.
    pub fn with_origin(self, new_origin: Option<O>) -> (res: Self)
        ensures
            res == with_origin_spec(self, new_origin),
    {
        match self {
            Message::Standard { message, .. } => Message::Standard { message, origin: new_origin },
            Message::JSON { message, .. } => Message::JSON { message, origin: new_origin },
            Message::HTTP { message, status, headers, .. } => Message::HTTP { message, status, headers, origin: new_origin },
            other => other,
        }
    }

    /// Takes the origin out of the message (see `origin_of`).
    pub fn take_origin(&mut self) -> (res: Option<O>)
        ensures
            res == origin_of(*old(self)),
            *final(self) == without_origin(*old(self)),
        decreases *old(self),
    {
        match self {
            Message::Standard { origin, .. } => origin.take(),
            Message::JSON { origin, .. } => origin.take(),
            Message::HTTP { origin, .. } => origin.take(),
            Message::Tuple { message_1, .. } => message_1.take_origin(),
            _ => None,
        }
    }

    /// The origin of the message (see `origin_of`).
    pub fn get_origin(&self) -> (res: Option<&O>)
        ensures
            match res {
                Some(o) => origin_of(*self) == Some(*o),
                None => origin_of(*self) is None,
            },
        decreases *self,
    {
        match self {
            Message::Standard { origin, .. } => origin.as_ref(),
            Message::JSON { origin, .. } => origin.as_ref(),
            Message::HTTP { origin, .. } => origin.as_ref(),
            Message::Tuple { message_1, .. } => message_1.get_origin(),
            _ => None,
        }
    }

    /// Whether this is an error message.
    pub fn is_error(&self) -> (res: bool)
        ensures
            res == (*self is Error),
    {
        match self {
            Message::Error { .. } => true,
            _ => false,
        }
    }
}

/// The scratch data after `temp_push`: a null scratch becomes the object
/// holding `data` under `key`; in an object, `key` is set to `data`; any
/// other value is left unchanged.
pub open spec fn pushed_scratch(temp: JsonView, key: Seq<char>, data: JsonView) -> JsonView {
    match temp {
        JsonView::Null => JsonView::Object(seq![(key, data)]),
        JsonView::Object(fs) => JsonView::Object(put_member(fs, key, data)),
        other => other,
    }
}

/// Records `data` under `key` in a message's scratch data (see
/// `pushed_scratch`).
pub fn temp_push(temp: &mut Json, key: String, data: Json)
    ensures
        jview(*final(temp)) == pushed_scratch(jview(*old(temp)), key@, jview(data)),
{
    let is_null = match temp {
        Json::Null => true,
        _ => false,
    };
    if is_null {
        let empty: Vec<(String, Json)> = Vec::new();
        assert(members_view(empty@) =~= Seq::<(Seq<char>, JsonView)>::empty());
        *temp = object(empty);
        assert(put_member(Seq::<(Seq<char>, JsonView)>::empty(), key@, jview(data)) =~= seq![(key@, jview(data))]);
    }
    temp.insert(key, data);
}

/// The origin a message holds itself (for a tuple, the tuple's own).
pub open spec fn origin_field<O, C>(m: Message<O, C>) -> Option<O> {
    match m {
        Message::Split { origin, .. } => origin,
        Message::Exit { origin } => origin,
        Message::Standard { origin, .. } => origin,
        Message::HTTP { origin, .. } => origin,
        Message::JSON { origin, .. } => origin,
        Message::ReqReply { origin, .. } => Some(origin),
        Message::Tuple { origin, .. } => origin,
        Message::Control { origin, .. } => origin,
        Message::Error { origin, .. } => origin,
        Message::NoOp => None,
    }
}

/// The message with its own origin field set to none (a request awaiting a
/// reply, which always has one, and a no-op are left as they are).
pub open spec fn origin_cleared<O, C>(m: Message<O, C>) -> Message<O, C> {
    match m {
        Message::Split { message, .. } => Message::Split { message, origin: None },
        Message::Exit { .. } => Message::Exit { origin: None },
        Message::Standard { message, .. } => Message::Standard { message, origin: None },
        Message::HTTP { message, status, headers, .. } => Message::HTTP { message, status, headers, origin: None },
        Message::JSON { message, .. } => Message::JSON { message, origin: None },
        Message::Tuple { message_1, message_2, .. } => Message::Tuple { message_1, message_2, origin: None },
        Message::Control { command, .. } => Message::Control { command, origin: None },
        Message::Error { error, .. } => Message::Error { error, origin: None },
        other => other,
    }
}

/// Taking the origin of a standard, JSON or HTTP message gives back the
/// origin last set on it, and leaves the message as if set to none.
pub proof fn take_after_with_origin<O, C>(m: Message<O, C>, o: Option<O>)
    requires
        m is Standard || m is JSON || m is HTTP,
    ensures
        origin_of(with_origin_spec(m, o)) == o,
        without_origin(with_origin_spec(m, o)) == with_origin_spec(m, None),
{
}

/// Recording scratch data and reading it back gives the data recorded,
/// whenever the scratch is null or an object.
pub proof fn temp_push_then_member(temp: JsonView, key: Seq<char>, data: JsonView)
    requires
        temp is Null || temp is Object,
    ensures
        crate::json::member(pushed_scratch(temp, key, data), key) == Some(data),
{
    match temp {
        JsonView::Object(fs) => {
            crate::json::put_then_member(fs, key, data, key);
        },
        _ => {
            assert(seq![(key, data)] =~= put_member(Seq::empty(), key, data));
            crate::json::put_then_member(Seq::empty(), key, data, key);
        },
    }
}

} // verus!
