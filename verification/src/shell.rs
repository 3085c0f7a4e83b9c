//! The shell operator's messages: what it reports of a process's output and
//! exit, what it writes to the process's input, how it reads a request, and
//! how it gathers output into a reply. Running the process is the caller's
//! part.

use vstd::prelude::*;
use crate::json::{Json, JsonView, jview, member, str_of, json_print, json_print_text, members_view, elements_view, object, array, print_json, print_json_text};
use crate::message::Message;
use crate::named::NamedList;
use crate::configs::ShellConfig;
use crate::text::{push_char, text_bytes, utf8_bytes, utf8_text, decode_utf8, is_ascii_text, ascii_codes};

verus! {

/// The output stream a line came from.
#[derive(Clone, Copy, Debug, PartialEq, Eq, Structural)]
pub enum ShellStream {
    Out,
    Error,
}

/// The name of a stream in output records.
pub open spec fn stream_name(s: ShellStream) -> Seq<char> {
    match s {
        ShellStream::Out => "out"@,
        ShellStream::Error => "err"@,
    }
}

/// The record of one output line.
pub open spec fn line_record(stream: ShellStream, line: Seq<char>) -> JsonView {
    JsonView::Object(seq![("type"@, JsonView::Str(stream_name(stream))), ("line"@, JsonView::Str(line))])
}

/// The record announcing the process's exit.
pub open spec fn exit_record() -> JsonView {
    JsonView::Object(seq![("type"@, JsonView::Str("exit"@))])
}

/// The message reporting a line of the process's output: its record printed
/// as JSON.
pub fn output_message<O, C>(stream: ShellStream, line: &str) -> (res: Message<O, C>)
    ensures
        res matches Message::Standard { message, origin } && message@ == json_print(line_record(stream, line@)) && origin is None,
{
    let name = match stream {
        ShellStream::Out => String::from_str("out"),
        ShellStream::Error => String::from_str("err"),
    };
    let mut f: Vec<(String, Json)> = Vec::new();
    f.push((String::from_str("type"), Json::Str(name)));
    f.push((String::from_str("line"), Json::Str(String::from_str(line))));
    let rec = object(f);
    assert(members_view(f@) =~= seq![("type"@, JsonView::Str(stream_name(stream))), ("line"@, JsonView::Str(line@))]);
    Message::Standard { message: print_json(&rec), origin: None }
}

/// The message reporting that the process exited.
pub fn exit_notice<O, C>() -> (res: Message<O, C>)
    ensures
        res matches Message::Standard { message, origin } && message@ == json_print(exit_record()) && origin is None,
{
    let mut f: Vec<(String, Json)> = Vec::new();
    f.push((String::from_str("type"), Json::Str(String::from_str("exit"))));
    let rec = object(f);
    assert(members_view(f@) =~= seq![("type"@, JsonView::Str("exit"@))]);
    Message::Standard { message: print_json(&rec), origin: None }
}

/// The text written to the process's input for a command: the command and a
/// line feed.
pub fn stdin_text(command: &str) -> (res: String)
    ensures
        res@ == command@.push('\n'),
{
    let mut s = String::from_str(command);
    push_char(&mut s, '\n');
    s
}

/// A command to pass on to the process: its bytes as text (`None` when they
/// are not UTF-8).
pub fn command_text(command: Vec<u8>) -> (res: Option<String>)
    ensures
        match res {
            Some(t) => utf8_text(command@) == Some(t@),
            None => utf8_text(command@) is None,
        },
{
    decode_utf8(command)
}

/// What the shell operator is asked to do.
pub enum ShellRequest {
    /// Stop the session's process; the reply is an exit.
    Stop,
    /// Pass this command to the session's process, starting it if needed;
    /// the reply is "Started".
    Command { command: Vec<u8> },
    /// A JSON request without a `command` text.
    Malformed,
    /// Neither an exit nor a JSON request.
    Unsupported,
}

/// Reads a request: an exit stops the process; a JSON request passes its
/// `command` text, as bytes, to the process.
pub fn shell_request<O, C>(msg: &Message<O, C>) -> (res: ShellRequest)
    ensures
        match *msg {
            Message::Exit { .. } => res is Stop,
            Message::JSON { message, .. } => match str_of(member(jview(message), "command"@)) {
                Some(t) => res matches ShellRequest::Command { command } && command@ == utf8_bytes(t),
                None => res is Malformed,
            },
            _ => res is Unsupported,
        },
{
    match msg {
        Message::Exit { .. } => ShellRequest::Stop,
        Message::JSON { message, .. } => match message.get("command") {
            Some(c) => match c.as_str() {
                Some(t) => ShellRequest::Command { command: text_bytes(t.clone()) },
                None => ShellRequest::Malformed,
            },
            None => ShellRequest::Malformed,
        },
        _ => ShellRequest::Unsupported,
    }
}

/// The reply to a command: "Started".
pub fn started_reply<O, C>() -> (res: Message<O, C>)
    ensures
        res matches Message::Standard { message, origin } && message@ == seq![83u8, 116u8, 97u8, 114u8, 116u8, 101u8, 100u8] && origin is None,
{
    let s = String::from_str("Started");
    proof {
        reveal_strlit("Started");
        assert(is_ascii_text(s@));
        assert(ascii_codes(s@) =~= seq![83u8, 116u8, 97u8, 114u8, 116u8, 101u8, 100u8]);
    }
    Message::Standard { message: text_bytes(s), origin: None }
}

/// The reply to a stop request: an exit without origin.
pub fn stopped_reply<O, C>() -> (res: Message<O, C>)
    ensures
        res matches Message::Exit { origin } && origin is None,
{
    Message::Exit { origin: None }
}

/// The line an output message contributes to the gathered output: the text
/// of a standard message (`None` when it is not UTF-8), or the printed JSON
/// of a JSON message; other messages contribute nothing.
pub enum OutputLine {
    Line(String),
    NotText,
    Skipped,
}

/// The line an output message contributes (see `OutputLine`).
pub fn output_line<O, C>(msg: Message<O, C>) -> (res: OutputLine)
    ensures
        match msg {
            Message::Standard { message, .. } => match utf8_text(message@) {
                Some(t) => res matches OutputLine::Line(l) && l@ == t,
                None => res is NotText,
            },
            Message::JSON { message, .. } => res matches OutputLine::Line(l) && l@ == json_print_text(jview(message)),
            _ => res is Skipped,
        },
{
    match msg {
        Message::Standard { message, .. } => match decode_utf8(message) {
            Some(t) => OutputLine::Line(t),
            None => OutputLine::NotText,
        },
        Message::JSON { message, .. } => OutputLine::Line(print_json_text(&message)),
        _ => OutputLine::Skipped,
    }
}

/// The gathered output as a reply: the array of the lines.
pub fn lines_reply<O, C>(lines: Vec<String>) -> (res: Message<O, C>)
    ensures
        res matches Message::JSON { message, origin }
            && jview(message) == JsonView::Array(lines@.map_values(|l: String| JsonView::Str(l@)))
            && origin is None,
{
    let mut items: Vec<Json> = Vec::new();
    let mut i: usize = 0;
    while i < lines.len()
        invariant
            i <= lines.len(),
            items@.len() == i,
            forall|j: int| 0 <= j < i ==> jview(#[trigger] items@[j]) == JsonView::Str(lines@[j]@),
        decreases lines.len() - i,
    {
        items.push(Json::Str(lines[i].clone()));
        i = i + 1;
    }
    assert(elements_view(items@) =~= lines@.map_values(|l: String| JsonView::Str(l@)));
    Message::JSON { message: array(items), origin: None }
}

/// Lines joined by line feeds.
pub open spec fn joined_lines(lines: Seq<Seq<char>>) -> Seq<char>
    decreases lines.len(),
{
    if lines.len() == 0 {
        Seq::empty()
    } else if lines.len() == 1 {
        lines[0]
    } else {
        joined_lines(lines.drop_last()).push('\n') + lines.last()
    }
}

/// A batch of buffered lines as one message (the lines joined by line
/// feeds); nothing for an empty buffer.
pub fn batch_message<O, C>(buffer: &Vec<String>) -> (res: Option<Message<O, C>>)
    ensures
        buffer@.len() == 0 ==> res is None,
        buffer@.len() > 0 ==> (res matches Some(Message::Standard { message, origin })
            && message@ == utf8_bytes(joined_lines(buffer@.map_values(|l: String| l@))) && origin is None),
{
    if buffer.len() == 0 {
        return None;
    }
    let ghost lines = buffer@.map_values(|l: String| l@);
    let mut s = buffer[0].clone();
    let mut i: usize = 1;
    assert(lines.take(1) =~= seq![lines[0]]);
    while i < buffer.len()
        invariant
            1 <= i <= buffer.len(),
            lines == buffer@.map_values(|l: String| l@),
            s@ == joined_lines(lines.take(i as int)),
        decreases buffer.len() - i,
    {
        push_char(&mut s, '\n');
        s.append(buffer[i].as_str());
        assert(lines.take(i + 1).drop_last() =~= lines.take(i as int));
        i = i + 1;
    }
    assert(lines.take(buffer@.len() as int) =~= lines);
    Some(Message::Standard { message: text_bytes(s), origin: None })
}

/// The session a message belongs to: its origin's session, or the empty
/// session when it has none.
pub fn session_key(session: Option<String>) -> (res: String)
    ensures
        res@ == match session {
            Some(s) => s@,
            None => Seq::<char>::empty(),
        },
{
    match session {
        Some(s) => s,
        None => String::new(),
    }
}

/// The texts of a list of strings.
pub open spec fn texts(v: Seq<String>) -> Seq<Seq<char>> {
    v.map_values(|s: String| s@)
}

fn copy_texts(v: &Vec<String>) -> (res: Vec<String>)
    ensures
        texts(res@) == texts(v@),
{
    let mut out: Vec<String> = Vec::new();
    let mut i: usize = 0;
    while i < v.len()
        invariant
            i <= v@.len(),
            texts(out@) == texts(v@.take(i as int)),
        decreases v@.len() - i,
    {
        let ghost prev = out@;
        let c = v[i].clone();
        out.push(c);
        assert(v@.take(i + 1) =~= v@.take(i as int).push(v@[i as int]));
        assert(texts(out@) =~= texts(prev).push(v@[i as int]@));
        assert(texts(v@.take(i + 1)) =~= texts(v@.take(i as int)).push(v@[i as int]@));
        i = i + 1;
    }
    assert(v@.take(v@.len() as int) =~= v@);
    out
}

/// What the shell operator does with a command in a session.
pub enum SessionStep<P> {
    /// Write `line` to the input of the session's own process.
    Reuse { process: P, line: String },
    /// Start a process running `command` with `args`, then write `line` to
    /// its input.
    Start { command: String, args: Vec<String>, line: String },
}

/// The shell processes of the sessions, by session id (`P` is a running
/// process, opaque here).
pub struct ShellSessions<P> {
    pub processes: NamedList<P>,
}

/// Sessions `after` are `before` with the process of `session` taken out.
pub open spec fn takes_session<P>(before: ShellSessions<P>, after: ShellSessions<P>, session: Seq<char>) -> bool {
    forall|k: Seq<char>|
        #[trigger] after.processes.lookup(k) == if k == session {
            None
        } else {
            before.processes.lookup(k)
        }
}

/// Sessions `after` are `before` with `process` registered under `session`.
pub open spec fn registers_session<P>(before: ShellSessions<P>, after: ShellSessions<P>, session: Seq<char>, process: P) -> bool {
    forall|k: Seq<char>|
        #[trigger] after.processes.lookup(k) == if k == session {
            Some(process)
        } else {
            before.processes.lookup(k)
        }
}

impl<P> ShellSessions<P> {
    /// Well-formedness: a session has one process.
    pub open spec fn wf(&self) -> bool {
        self.processes.wf()
    }

    /// No session has a process.
    pub fn new() -> (res: Self)
        ensures
            res.wf(),
            forall|k: Seq<char>| #[trigger] res.processes.lookup(k) is None,
    {
        ShellSessions { processes: NamedList::new() }
    }

    /// The step for `command` in `session` (the configured shell is
    /// `config`): the session's own process is taken out of the table and
    /// reused; a session without one gets a new process running the
    /// configured command and arguments. Either way the command and a line
    /// feed are written to the process's input. Register the process
    /// afterwards (`register`).
    pub fn command_step(&mut self, session: &str, config: &ShellConfig, command: &str) -> (res: SessionStep<P>)
        requires
            old(self).wf(),
        ensures
            final(self).wf(),
            takes_session(*old(self), *final(self), session@),
            match old(self).processes.lookup(session@) {
                Some(p) => res matches SessionStep::Reuse { process, line } && process == p && line@ == command@.push('\n'),
                None => res matches SessionStep::Start { command: c, args, line } && c@ == config.command@
                    && texts(args@) == texts(config.args@) && line@ == command@.push('\n'),
            },
    {
        let line = stdin_text(command);
        match self.processes.remove(session) {
            Some(p) => SessionStep::Reuse { process: p, line },
            None => SessionStep::Start { command: config.command.clone(), args: copy_texts(&config.args), line },
        }
    }

    /// Registers the process that serves `session`.
    pub fn register(&mut self, session: &str, process: P)
        requires
            old(self).wf(),
        ensures
            final(self).wf(),
            registers_session(*old(self), *final(self), session@, process),
    {
        let _ = self.processes.insert(String::from_str(session), process);
    }

    /// Takes the process of `session` out of the table, to be stopped
    /// (`None` when the session has none).
    pub fn stop_session(&mut self, session: &str) -> (res: Option<P>)
        requires
            old(self).wf(),
        ensures
            final(self).wf(),
            res == old(self).processes.lookup(session@),
            takes_session(*old(self), *final(self), session@),
    {
        self.processes.remove(session)
    }
}

/// What the shell operator does with a request in a session.
pub enum ShellAction<P> {
    /// Stop the session's process, if it has one; the reply is
    /// `stopped_reply`.
    Stop { process: Option<P> },
    /// Carry out the step, register the process under the session
    /// (`ShellSessions::register`); the reply is `started_reply`.
    Command { step: SessionStep<P> },
}

impl<P> ShellSessions<P> {
    /// What the shell operator (configured with `config`) does with `msg`
    /// in `session` (see `session_key`): an exit stops the session's
    /// process; a JSON request's `command` goes to the session's process
    /// (see `command_step`). Other requests are not accepted.
    pub fn handle_plan<O, C>(&mut self, config: &ShellConfig, session: &str, msg: &Message<O, C>) -> (res: ShellAction<P>)
        requires
            old(self).wf(),
            match *msg {
                Message::Exit { .. } => true,
                Message::JSON { message, .. } => str_of(member(jview(message), "command"@)) is Some,
                _ => false,
            },
        ensures
            final(self).wf(),
            takes_session(*old(self), *final(self), session@),
            match *msg {
                Message::Exit { .. } => res matches ShellAction::Stop { process } && process == old(self).processes.lookup(session@),
                Message::JSON { message, .. } => res matches ShellAction::Command { step } && {
                    let command = str_of(member(jview(message), "command"@))->0;
                    match old(self).processes.lookup(session@) {
                        Some(p) => step matches SessionStep::Reuse { process, line } && process == p && line@ == command.push('\n'),
                        None => step matches SessionStep::Start { command: c, args, line } && c@ == config.command@
                            && texts(args@) == texts(config.args@) && line@ == command.push('\n'),
                    }
                },
                _ => false,
            },
    {
        match msg {
            Message::Exit { .. } => ShellAction::Stop { process: self.stop_session(session) },
            Message::JSON { message, .. } => {
                let c = message.get("command").unwrap().as_str().unwrap();
                ShellAction::Command { step: self.command_step(session, config, c.as_str()) }
            },
            _ => {
                proof { assert(false); }
                ShellAction::Stop { process: None }
            },
        }
    }
}

/// A command leaves the session with the process that served it
/// registered under it: its own process when it had one (the table is then
/// as before), the started one otherwise; every other session keeps its
/// process.
pub proof fn command_keeps_sessions<P>(s0: ShellSessions<P>, s1: ShellSessions<P>, s2: ShellSessions<P>, session: Seq<char>, process: P)
    requires
        takes_session(s0, s1, session),
        registers_session(s1, s2, session, process),
        s0.processes.lookup(session) is Some ==> process == s0.processes.lookup(session)->0,
    ensures
        s2.processes.lookup(session) == Some(process),
        forall|k: Seq<char>| k != session ==> #[trigger] s2.processes.lookup(k) == s0.processes.lookup(k),
        s0.processes.lookup(session) is Some ==> forall|k: Seq<char>| #[trigger] s2.processes.lookup(k) == s0.processes.lookup(k),
{
    assert forall|k: Seq<char>| k != session implies #[trigger] s2.processes.lookup(k) == s0.processes.lookup(k) by {
        assert(s1.processes.lookup(k) == s0.processes.lookup(k));
    }
}

} // verus!
