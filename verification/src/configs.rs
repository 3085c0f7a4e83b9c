//! Operator configurations read from a node's `config` document.

use vstd::prelude::*;
use crate::json::{Json, JsonView, jview, member, str_of, u64_of, bool_of, array_of};
use crate::message::Message;

verus! {

/// The strings among a list of values, in order (others are skipped).
pub open spec fn strings_in(items: Seq<JsonView>) -> Seq<Seq<char>>
    decreases items.len(),
{
    if items.len() == 0 {
        Seq::empty()
    } else {
        let rest = strings_in(items.drop_last());
        match items.last() {
            JsonView::Str(s) => rest.push(s),
            _ => rest,
        }
    }
}

/// The configuration of a shell node: the command to run and its arguments.
#[derive(Debug)]
pub struct ShellConfig {
    pub command: String,
    pub args: Vec<String>,
}

impl ShellConfig {
    /// Reads `command` (default `bash`) and the string entries of `args`
    /// (default none).
    pub fn from_config(config: &Json) -> (res: Self)
        ensures
            res.command@ == match str_of(member(jview(*config), "command"@)) {
                Some(c) => c,
                None => "bash"@,
            },
            res.args@.map_values(|s: String| s@) == match array_of(member(jview(*config), "args"@)) {
                Some(items) => strings_in(items),
                None => Seq::empty(),
            },
    {
        let command = match config.get("command") {
            Some(v) => match v.as_str() {
                Some(s) => s.clone(),
                None => String::from_str("bash"),
            },
            None => String::from_str("bash"),
        };
        let mut args: Vec<String> = Vec::new();
        match config.get("args") {
            Some(v) => match v.as_array() {
                Some(items) => {
                    let mut i: usize = 0;
                    while i < items.len()
                        invariant
                            i <= items.len(),
                            args@.map_values(|s: String| s@) == strings_in(crate::json::elements_view(items@).take(i as int)),
                        decreases items.len() - i,
                    {
                        let ghost ev = crate::json::elements_view(items@);
                        assert(ev.take(i + 1).drop_last() == ev.take(i as int));
                        let ghost before = args@;
                        match items[i].as_str() {
                            Some(s) => {
                                args.push(s.clone());
                                assert(args@.map_values(|s: String| s@) =~= before.map_values(|s: String| s@).push(s@));
                            },
                            None => {},
                        }
                        i = i + 1;
                    }
                    assert(crate::json::elements_view(items@).take(items@.len() as int) == crate::json::elements_view(items@));
                },
                None => {
                    assert(args@.map_values(|s: String| s@) =~= Seq::<Seq<char>>::empty());
                },
            },
            None => {
                assert(args@.map_values(|s: String| s@) =~= Seq::<Seq<char>>::empty());
            },
        }
        ShellConfig { command, args }
    }
}

/// The configuration of a timer node.
#[derive(Debug, Clone, Copy)]
pub struct TimerConfig {
    /// Trigger once when the graph starts.
    pub on_start: bool,
    /// Period of the repeated trigger, in milliseconds.
    pub interval_ms: Option<u64>,
    /// Number of repetitions (0: unbounded).
    pub iterations: u16,
}

impl TimerConfig {
    /// Reads `on_start` (default false), `interval_ms` (none by default) and
    /// `iterations` (default 0, kept modulo 2^16 as the original cast does).
    pub fn from_config(config: &Json) -> (res: Self)
        ensures
            res.on_start == match bool_of(member(jview(*config), "on_start"@)) {
                Some(b) => b,
                None => false,
            },
            res.interval_ms == u64_of(member(jview(*config), "interval_ms"@)),
            res.iterations == match u64_of(member(jview(*config), "iterations"@)) {
                Some(n) => n as u16,
                None => 0u16,
            },
    {
        let iterations = match config.get("iterations") {
            Some(v) => match v.as_u64() {
                Some(n) => n as u16,
                None => 0,
            },
            None => 0,
        };
        let interval_ms = match config.get("interval_ms") {
            Some(v) => v.as_u64(),
            None => None,
        };
        let on_start = match config.get("on_start") {
            Some(v) => match v.as_bool() {
                Some(b) => b,
                None => false,
            },
            None => false,
        };
        TimerConfig { on_start, interval_ms, iterations }
    }

    /// Whether the handling of a message starts the repeated trigger (the
    /// timer is not triggered on start and has a period).
    pub fn starts_on_message(&self) -> (res: bool)
        ensures
            res == (!self.on_start && self.interval_ms is Some),
    {
        !self.on_start && self.interval_ms.is_some()
    }
}

/// How a timer starts.
#[derive(Debug, Clone, Copy, PartialEq, Eq, Structural)]
pub enum TimerStart {
    /// Sends "started" once when the graph starts.
    Once,
    /// Sends "started" every 30 seconds from the start on.
    Every30Seconds,
    /// Waits for a message, then sends "triggered" every period.
    OnMessage,
}

impl TimerConfig {
    /// How the timer starts: once when so configured, otherwise every 30
    /// seconds when it has no period, otherwise on a message.
    pub fn start_mode(&self) -> (res: TimerStart)
        ensures
            res == if self.on_start {
                TimerStart::Once
            } else if self.interval_ms is None {
                TimerStart::Every30Seconds
            } else {
                TimerStart::OnMessage
            },
    {
        if self.on_start {
            TimerStart::Once
        } else if self.interval_ms.is_none() {
            TimerStart::Every30Seconds
        } else {
            TimerStart::OnMessage
        }
    }
}

/// One round of a repeated trigger: the rounds counted so far, and whether
/// the trigger stops after this one.
pub fn timer_tick(counter: u16, iterations: u16) -> (res: (u16, bool))
    requires
        counter < u16::MAX,
    ensures
        res.0 == counter + 1,
        res.1 == (iterations != 0 && counter + 1 >= iterations),
{
    let next = counter + 1;
    (next, interval_done(next, iterations))
}

/// Whether a repeated trigger stops after `counter` rounds.
pub fn interval_done(counter: u16, iterations: u16) -> (res: bool)
    ensures
        res == (iterations != 0 && counter >= iterations),
{
    iterations != 0 && counter >= iterations
}

/// The graph a callout node calls: the `graph_name` entry, or the empty name.
pub fn callout_graph_name(config: &Json) -> (res: String)
    ensures
        res@ == match str_of(member(jview(*config), "graph_name"@)) {
            Some(n) => n,
            None => Seq::empty(),
        },
{
    match config.get("graph_name") {
        Some(v) => match v.as_str() {
            Some(s) => s.clone(),
            None => String::new(),
        },
        None => String::new(),
    }
}

/// What a claim-check node does with a message.
#[derive(Debug, Clone, Copy, PartialEq, Eq, Structural)]
pub enum ClaimCheckAction {
    Put,
    Get,
    Clear,
}

/// The action named by a text: `Get` and `Clear` by their names, `Put`
/// for anything else.
pub open spec fn action_named(s: Seq<char>) -> ClaimCheckAction {
    if s == "Get"@ {
        ClaimCheckAction::Get
    } else if s == "Clear"@ {
        ClaimCheckAction::Clear
    } else {
        ClaimCheckAction::Put
    }
}

impl ClaimCheckAction {
    /// The action named by a text (see `action_named`).
    pub fn from_name(value: &str) -> (res: Self)
        ensures
            res == action_named(value@),
    {
        proof {
            reveal_strlit("Put");
            reveal_strlit("Get");
            reveal_strlit("Clear");
            assert("Put"@[0] != "Get"@[0]);
            assert("Put"@.len() != "Clear"@.len());
        }
        let v = String::from_str(value);
        if v == String::from_str("Put") {
            ClaimCheckAction::Put
        } else if v == String::from_str("Get") {
            ClaimCheckAction::Get
        } else if v == String::from_str("Clear") {
            ClaimCheckAction::Clear
        } else {
            ClaimCheckAction::Put
        }
    }

    /// The action of a claim-check node's configuration: its `action` entry,
    /// `Put` when absent.
    pub fn from_config(config: &Json) -> (res: Self)
        ensures
            res == match str_of(member(jview(*config), "action"@)) {
                Some(s) => action_named(s),
                None => ClaimCheckAction::Put,
            },
    {
        match config.get("action") {
            Some(v) => match v.as_str() {
                Some(s) => ClaimCheckAction::from_name(s.as_str()),
                None => ClaimCheckAction::Put,
            },
            None => ClaimCheckAction::Put,
        }
    }
}

/// An AI tool's schema, as configured.
#[derive(Debug)]
pub struct AIToolSchema {
    pub schema: Option<Json>,
}

impl AIToolSchema {
    /// Reads the `schema` entry of a tool node's configuration.
    pub fn from_config(config: &Json) -> (res: Self)
        ensures
            match res.schema {
                Some(s) => member(jview(*config), "schema"@) == Some(jview(s)),
                None => member(jview(*config), "schema"@) is None,
            },
    {
        match config.get("schema") {
            Some(s) => AIToolSchema { schema: Some(s.deep_clone()) },
            None => AIToolSchema { schema: None },
        }
    }

    /// The tool's name: the schema's `name` entry, `Unknown` without one.
    pub fn name(&self) -> (res: String)
        ensures
            res@ == match self.schema {
                Some(s) => match str_of(member(jview(s), "name"@)) {
                    Some(n) => n,
                    None => "Unknown"@,
                },
                None => "Unknown"@,
            },
    {
        match &self.schema {
            Some(s) => match s.get("name") {
                Some(n) => match n.as_str() {
                    Some(t) => t.clone(),
                    None => String::from_str("Unknown"),
                },
                None => String::from_str("Unknown"),
            },
            None => String::from_str("Unknown"),
        }
    }

    /// Invokes the tool on a message: the tool answers with the message
    /// itself.
    pub fn invoke<O, C>(&self, msg: Message<O, C>) -> (res: Message<O, C>)
        ensures
            res == msg,
    {
        msg
    }

    /// The schema, or the error "No schema found".
    pub fn get_schema(&self) -> (res: Result<Json, String>)
        ensures
            match self.schema {
                Some(s) => res matches Ok(r) && jview(r) == jview(s),
                None => res matches Err(e) && e@ == "No schema found"@,
            },
    {
        match &self.schema {
            Some(s) => Ok(s.deep_clone()),
            None => Err(String::from_str("No schema found")),
        }
    }
}

} // verus!
