//! Graph documents: reading a graph's name, nodes and edges from its
//! document, and assembling the graph from them.

use vstd::prelude::*;
use crate::graph::{Graph, NodeInit, edge_view, graph_link, missing_nodes_text, cycle_text, add_edge_keeps_acyclic, no_edges_no_cycle};
use crate::reach::{flat_link, reaches, acyclic};
use crate::json::{Json, JsonView, jview, member, str_of, array_of, elements_view, parse_yaml_text, yaml_parse_text};
use crate::named::NamedList;

verus! {

/// The operator a node runs, by its action name.
#[derive(Clone, Copy, Debug, PartialEq, Eq, Structural)]
pub enum OperatorSpec {
    BufferToJSON,
    JSONToBuffer,
    Passthrough,
    Terminate,
    FanOut,
    Shell,
    Callout,
    Stub,
    Timer,
    ClaimCheck,
    GlobalSpace,
    Settings,
    CanonicalModelSample,
    AITool,
    AIAgent,
}

/// The operator of an action name, if it is one.
pub open spec fn action_spec(name: Seq<char>) -> Option<OperatorSpec> {
    if name == "BufferToJSON"@ { Some(OperatorSpec::BufferToJSON) }
    else if name == "JSONToBuffer"@ { Some(OperatorSpec::JSONToBuffer) }
    else if name == "Passthrough"@ { Some(OperatorSpec::Passthrough) }
    else if name == "Terminate"@ { Some(OperatorSpec::Terminate) }
    else if name == "FanOut"@ { Some(OperatorSpec::FanOut) }
    else if name == "Shell"@ { Some(OperatorSpec::Shell) }
    else if name == "Callout"@ { Some(OperatorSpec::Callout) }
    else if name == "Stub"@ { Some(OperatorSpec::Stub) }
    else if name == "Timer"@ { Some(OperatorSpec::Timer) }
    else if name == "ClaimCheck"@ { Some(OperatorSpec::ClaimCheck) }
    else if name == "GlobalSpace"@ { Some(OperatorSpec::GlobalSpace) }
    else if name == "Settings"@ { Some(OperatorSpec::Settings) }
    else if name == "CanonicalModelSample"@ { Some(OperatorSpec::CanonicalModelSample) }
    else if name == "AITool"@ { Some(OperatorSpec::AITool) }
    else if name == "AIAgent"@ { Some(OperatorSpec::AIAgent) }
    else { None }
}

/// The name of an operator, as actions write it.
pub open spec fn operator_name(op: OperatorSpec) -> Seq<char> {
    match op {
        OperatorSpec::BufferToJSON => "BufferToJSON"@,
        OperatorSpec::JSONToBuffer => "JSONToBuffer"@,
        OperatorSpec::Passthrough => "Passthrough"@,
        OperatorSpec::Terminate => "Terminate"@,
        OperatorSpec::FanOut => "FanOut"@,
        OperatorSpec::Shell => "Shell"@,
        OperatorSpec::Callout => "Callout"@,
        OperatorSpec::Stub => "Stub"@,
        OperatorSpec::Timer => "Timer"@,
        OperatorSpec::ClaimCheck => "ClaimCheck"@,
        OperatorSpec::GlobalSpace => "GlobalSpace"@,
        OperatorSpec::Settings => "Settings"@,
        OperatorSpec::CanonicalModelSample => "CanonicalModelSample"@,
        OperatorSpec::AITool => "AITool"@,
        OperatorSpec::AIAgent => "AIAgent"@,
    }
}

/// Distinct action names stand for distinct operators: an action name is
/// found again from its operator.
pub proof fn action_spec_injective(a: Seq<char>, b: Seq<char>)
    ensures
        action_spec(a) is Some && action_spec(a) == action_spec(b) ==> a == b,
        action_spec(a) matches Some(op) ==> operator_name(op) == a,
{
}

/// Each operator's own name is the action that names it.
pub proof fn action_names_operator(op: OperatorSpec)
    ensures
        action_spec(operator_name(op)) == Some(op),
{
    reveal_strlit("BufferToJSON");
    reveal_strlit("JSONToBuffer");
    reveal_strlit("Passthrough");
    reveal_strlit("Terminate");
    reveal_strlit("FanOut");
    reveal_strlit("Shell");
    reveal_strlit("Callout");
    reveal_strlit("Stub");
    reveal_strlit("Timer");
    reveal_strlit("ClaimCheck");
    reveal_strlit("GlobalSpace");
    reveal_strlit("Settings");
    reveal_strlit("CanonicalModelSample");
    reveal_strlit("AITool");
    reveal_strlit("AIAgent");
    match op {
        OperatorSpec::BufferToJSON => {

        },
        OperatorSpec::JSONToBuffer => {
            assert("JSONToBuffer"@[0] != "BufferToJSON"@[0]);
        },
        OperatorSpec::Passthrough => {
            assert("Passthrough"@.len() != "BufferToJSON"@.len());
            assert("Passthrough"@.len() != "JSONToBuffer"@.len());
        },
        OperatorSpec::Terminate => {
            assert("Terminate"@.len() != "BufferToJSON"@.len());
            assert("Terminate"@.len() != "JSONToBuffer"@.len());
            assert("Terminate"@.len() != "Passthrough"@.len());
        },
        OperatorSpec::FanOut => {
            assert("FanOut"@.len() != "BufferToJSON"@.len());
            assert("FanOut"@.len() != "JSONToBuffer"@.len());
            assert("FanOut"@.len() != "Passthrough"@.len());
            assert("FanOut"@.len() != "Terminate"@.len());
        },
        OperatorSpec::Shell => {
            assert("Shell"@.len() != "BufferToJSON"@.len());
            assert("Shell"@.len() != "JSONToBuffer"@.len());
            assert("Shell"@.len() != "Passthrough"@.len());
            assert("Shell"@.len() != "Terminate"@.len());
            assert("Shell"@.len() != "FanOut"@.len());
        },
        OperatorSpec::Callout => {
            assert("Callout"@.len() != "BufferToJSON"@.len());
            assert("Callout"@.len() != "JSONToBuffer"@.len());
            assert("Callout"@.len() != "Passthrough"@.len());
            assert("Callout"@.len() != "Terminate"@.len());
            assert("Callout"@.len() != "FanOut"@.len());
            assert("Callout"@.len() != "Shell"@.len());
        },
        OperatorSpec::Stub => {
            assert("Stub"@.len() != "BufferToJSON"@.len());
            assert("Stub"@.len() != "JSONToBuffer"@.len());
            assert("Stub"@.len() != "Passthrough"@.len());
            assert("Stub"@.len() != "Terminate"@.len());
            assert("Stub"@.len() != "FanOut"@.len());
            assert("Stub"@.len() != "Shell"@.len());
            assert("Stub"@.len() != "Callout"@.len());
        },
        OperatorSpec::Timer => {
            assert("Timer"@.len() != "BufferToJSON"@.len());
            assert("Timer"@.len() != "JSONToBuffer"@.len());
            assert("Timer"@.len() != "Passthrough"@.len());
            assert("Timer"@.len() != "Terminate"@.len());
            assert("Timer"@.len() != "FanOut"@.len());
            assert("Timer"@[0] != "Shell"@[0]);
            assert("Timer"@.len() != "Callout"@.len());
            assert("Timer"@.len() != "Stub"@.len());
        },
        OperatorSpec::ClaimCheck => {
            assert("ClaimCheck"@.len() != "BufferToJSON"@.len());
            assert("ClaimCheck"@.len() != "JSONToBuffer"@.len());
            assert("ClaimCheck"@.len() != "Passthrough"@.len());
            assert("ClaimCheck"@.len() != "Terminate"@.len());
            assert("ClaimCheck"@.len() != "FanOut"@.len());
            assert("ClaimCheck"@.len() != "Shell"@.len());
            assert("ClaimCheck"@.len() != "Callout"@.len());
            assert("ClaimCheck"@.len() != "Stub"@.len());
            assert("ClaimCheck"@.len() != "Timer"@.len());
        },
        OperatorSpec::GlobalSpace => {
            assert("GlobalSpace"@.len() != "BufferToJSON"@.len());
            assert("GlobalSpace"@.len() != "JSONToBuffer"@.len());
            assert("GlobalSpace"@[0] != "Passthrough"@[0]);
            assert("GlobalSpace"@.len() != "Terminate"@.len());
            assert("GlobalSpace"@.len() != "FanOut"@.len());
            assert("GlobalSpace"@.len() != "Shell"@.len());
            assert("GlobalSpace"@.len() != "Callout"@.len());
            assert("GlobalSpace"@.len() != "Stub"@.len());
            assert("GlobalSpace"@.len() != "Timer"@.len());
            assert("GlobalSpace"@.len() != "ClaimCheck"@.len());
        },
        OperatorSpec::Settings => {
            assert("Settings"@.len() != "BufferToJSON"@.len());
            assert("Settings"@.len() != "JSONToBuffer"@.len());
            assert("Settings"@.len() != "Passthrough"@.len());
            assert("Settings"@.len() != "Terminate"@.len());
            assert("Settings"@.len() != "FanOut"@.len());
            assert("Settings"@.len() != "Shell"@.len());
            assert("Settings"@.len() != "Callout"@.len());
            assert("Settings"@.len() != "Stub"@.len());
            assert("Settings"@.len() != "Timer"@.len());
            assert("Settings"@.len() != "ClaimCheck"@.len());
            assert("Settings"@.len() != "GlobalSpace"@.len());
        },
        OperatorSpec::CanonicalModelSample => {
            assert("CanonicalModelSample"@.len() != "BufferToJSON"@.len());
            assert("CanonicalModelSample"@.len() != "JSONToBuffer"@.len());
            assert("CanonicalModelSample"@.len() != "Passthrough"@.len());
            assert("CanonicalModelSample"@.len() != "Terminate"@.len());
            assert("CanonicalModelSample"@.len() != "FanOut"@.len());
            assert("CanonicalModelSample"@.len() != "Shell"@.len());
            assert("CanonicalModelSample"@.len() != "Callout"@.len());
            assert("CanonicalModelSample"@.len() != "Stub"@.len());
            assert("CanonicalModelSample"@.len() != "Timer"@.len());
            assert("CanonicalModelSample"@.len() != "ClaimCheck"@.len());
            assert("CanonicalModelSample"@.len() != "GlobalSpace"@.len());
            assert("CanonicalModelSample"@.len() != "Settings"@.len());
        },
        OperatorSpec::AITool => {
            assert("AITool"@.len() != "BufferToJSON"@.len());
            assert("AITool"@.len() != "JSONToBuffer"@.len());
            assert("AITool"@.len() != "Passthrough"@.len());
            assert("AITool"@.len() != "Terminate"@.len());
            assert("AITool"@[0] != "FanOut"@[0]);
            assert("AITool"@.len() != "Shell"@.len());
            assert("AITool"@.len() != "Callout"@.len());
            assert("AITool"@.len() != "Stub"@.len());
            assert("AITool"@.len() != "Timer"@.len());
            assert("AITool"@.len() != "ClaimCheck"@.len());
            assert("AITool"@.len() != "GlobalSpace"@.len());
            assert("AITool"@.len() != "Settings"@.len());
            assert("AITool"@.len() != "CanonicalModelSample"@.len());
        },
        OperatorSpec::AIAgent => {
            assert("AIAgent"@.len() != "BufferToJSON"@.len());
            assert("AIAgent"@.len() != "JSONToBuffer"@.len());
            assert("AIAgent"@.len() != "Passthrough"@.len());
            assert("AIAgent"@.len() != "Terminate"@.len());
            assert("AIAgent"@.len() != "FanOut"@.len());
            assert("AIAgent"@.len() != "Shell"@.len());
            assert("AIAgent"@[0] != "Callout"@[0]);
            assert("AIAgent"@.len() != "Stub"@.len());
            assert("AIAgent"@.len() != "Timer"@.len());
            assert("AIAgent"@.len() != "ClaimCheck"@.len());
            assert("AIAgent"@.len() != "GlobalSpace"@.len());
            assert("AIAgent"@.len() != "Settings"@.len());
            assert("AIAgent"@.len() != "CanonicalModelSample"@.len());
            assert("AIAgent"@.len() != "AITool"@.len());
        },
    }
}

impl OperatorSpec {
    /// The operator of an action name (`None` for an unknown operator).
    pub fn from_action(name: &str) -> (res: Option<OperatorSpec>)
        ensures
            res == action_spec(name@),
    {
        let n = String::from_str(name);
        if n == String::from_str("BufferToJSON") { Some(OperatorSpec::BufferToJSON) }
        else if n == String::from_str("JSONToBuffer") { Some(OperatorSpec::JSONToBuffer) }
        else if n == String::from_str("Passthrough") { Some(OperatorSpec::Passthrough) }
        else if n == String::from_str("Terminate") { Some(OperatorSpec::Terminate) }
        else if n == String::from_str("FanOut") { Some(OperatorSpec::FanOut) }
        else if n == String::from_str("Shell") { Some(OperatorSpec::Shell) }
        else if n == String::from_str("Callout") { Some(OperatorSpec::Callout) }
        else if n == String::from_str("Stub") { Some(OperatorSpec::Stub) }
        else if n == String::from_str("Timer") { Some(OperatorSpec::Timer) }
        else if n == String::from_str("ClaimCheck") { Some(OperatorSpec::ClaimCheck) }
        else if n == String::from_str("GlobalSpace") { Some(OperatorSpec::GlobalSpace) }
        else if n == String::from_str("Settings") { Some(OperatorSpec::Settings) }
        else if n == String::from_str("CanonicalModelSample") { Some(OperatorSpec::CanonicalModelSample) }
        else if n == String::from_str("AITool") { Some(OperatorSpec::AITool) }
        else if n == String::from_str("AIAgent") { Some(OperatorSpec::AIAgent) }
        else { None }
    }
}

/// A node of a graph document: its id, operator and configuration.
#[derive(Debug)]
pub struct NodeSpec {
    pub id: String,
    pub operator: OperatorSpec,
    pub config: Json,
}

/// An edge of a graph document.
#[derive(Debug)]
pub struct EdgeSpec {
    pub from: String,
    pub to: String,
    pub role: String,
}

/// A graph document.
#[derive(Debug)]
pub struct GraphSpec {
    pub name: String,
    pub nodes: Vec<NodeSpec>,
    pub edges: Vec<EdgeSpec>,
}

/// A node entry: its `id` and `action` texts, the action a known operator,
/// and its `config` (null when absent).
pub open spec fn node_entry(n: JsonView) -> Option<(Seq<char>, OperatorSpec, JsonView)> {
    match (str_of(member(n, "id"@)), str_of(member(n, "action"@))) {
        (Some(id), Some(a)) => match action_spec(a) {
            Some(op) => Some((id, op, match member(n, "config"@) {
                Some(c) => c,
                None => JsonView::Null,
            })),
            None => None,
        },
        _ => None,
    }
}

/// An edge entry: its `from` and `to` texts and its `role` (`default` when
/// it is not a text).
pub open spec fn edge_entry(e: JsonView) -> Option<(Seq<char>, Seq<char>, Seq<char>)> {
    match (str_of(member(e, "from"@)), str_of(member(e, "to"@))) {
        (Some(f), Some(t)) => Some((f, t, match str_of(member(e, "role"@)) {
            Some(r) => r,
            None => "default"@,
        })),
        _ => None,
    }
}

/// The view of a node.
pub open spec fn node_view(n: NodeSpec) -> (Seq<char>, OperatorSpec, JsonView) {
    (n.id@, n.operator, jview(n.config))
}

/// The view of an edge.
pub open spec fn edge_spec_view(e: EdgeSpec) -> (Seq<char>, Seq<char>, Seq<char>) {
    (e.from@, e.to@, e.role@)
}

/// Whether a document is a readable graph: a `name` text, a `nodes` array
/// of readable nodes, and, when there is an `edges` entry, an array of
/// readable edges.
pub open spec fn readable_graph(doc: JsonView) -> bool {
    &&& str_of(member(doc, "name"@)) is Some
    &&& array_of(member(doc, "nodes"@)) is Some
    &&& forall|i: int| 0 <= i < array_of(member(doc, "nodes"@))->0.len() ==> #[trigger] node_entry(array_of(member(doc, "nodes"@))->0[i]) is Some
    &&& member(doc, "edges"@) is Some ==> {
        &&& array_of(member(doc, "edges"@)) is Some
        &&& forall|i: int| 0 <= i < array_of(member(doc, "edges"@))->0.len() ==> #[trigger] edge_entry(array_of(member(doc, "edges"@))->0[i]) is Some
    }
}

fn read_node(n: &Json) -> (res: Option<NodeSpec>)
    ensures
        match res {
            Some(s) => node_entry(jview(*n)) == Some(node_view(s)),
            None => node_entry(jview(*n)) is None,
        },
{
    let id = match n.get("id") {
        Some(v) => match v.as_str() {
            Some(s) => s.clone(),
            None => return None,
        },
        None => return None,
    };
    let op = match n.get("action") {
        Some(v) => match v.as_str() {
            Some(s) => match OperatorSpec::from_action(s.as_str()) {
                Some(op) => op,
                None => return None,
            },
            None => return None,
        },
        None => return None,
    };
    let config = match n.get("config") {
        Some(c) => c.deep_clone(),
        None => Json::Null,
    };
    Some(NodeSpec { id, operator: op, config })
}

fn read_edge(e: &Json) -> (res: Option<EdgeSpec>)
    ensures
        match res {
            Some(s) => edge_entry(jview(*e)) == Some(edge_spec_view(s)),
            None => edge_entry(jview(*e)) is None,
        },
{
    let from = match e.get("from") {
        Some(v) => match v.as_str() {
            Some(s) => s.clone(),
            None => return None,
        },
        None => return None,
    };
    let to = match e.get("to") {
        Some(v) => match v.as_str() {
            Some(s) => s.clone(),
            None => return None,
        },
        None => return None,
    };
    let role = match e.get("role") {
        Some(v) => match v.as_str() {
            Some(s) => s.clone(),
            None => String::from_str("default"),
        },
        None => String::from_str("default"),
    };
    Some(EdgeSpec { from, to, role })
}

/// Whether `g` is the graph document `doc` describes: its name, its nodes
/// and its edges (none when the document has no `edges`).
pub open spec fn graph_read(doc: JsonView, g: GraphSpec) -> bool {
    &&& Some(g.name@) == str_of(member(doc, "name"@))
    &&& g.nodes@.map_values(|n: NodeSpec| node_view(n)) == array_of(member(doc, "nodes"@))->0.map_values(|n: JsonView| node_entry(n)->0)
    &&& g.edges@.map_values(|e: EdgeSpec| edge_spec_view(e)) == match array_of(member(doc, "edges"@)) {
        Some(es) => es.map_values(|e: JsonView| edge_entry(e)->0),
        None => Seq::empty(),
    }
}

/// Reads a graph document (see `readable_graph`); `None` when it is not
/// readable.
pub fn graph_spec(doc: &Json) -> (res: Option<GraphSpec>)
    ensures
        res is Some <==> readable_graph(jview(*doc)),
        match res {
            Some(g) => graph_read(jview(*doc), g),
            None => true,
        },
{
    let name = match doc.get("name") {
        Some(v) => match v.as_str() {
            Some(s) => s.clone(),
            None => return None,
        },
        None => return None,
    };
    let list = match doc.get("nodes") {
        Some(v) => match v.as_array() {
            Some(a) => a,
            None => return None,
        },
        None => return None,
    };
    let ghost nv = elements_view(list@);
    let mut nodes: Vec<NodeSpec> = Vec::new();
    let mut i: usize = 0;
    while i < list.len()
        invariant
            i <= list.len(),
            nv == elements_view(list@),
            array_of(member(jview(*doc), "nodes"@)) == Some(nv),
            nodes@.len() == i,
            forall|j: int| 0 <= j < i ==> node_entry(nv[j]) == Some(node_view(#[trigger] nodes@[j])),
        decreases list.len() - i,
    {
        match read_node(&list[i]) {
            Some(n) => nodes.push(n),
            None => {
                assert(node_entry(nv[i as int]) is None);
                return None;
            },
        }
        i = i + 1;
    }
    assert(nodes@.map_values(|n: NodeSpec| node_view(n)) =~= nv.map_values(|n: JsonView| node_entry(n)->0));
    assert forall|j: int| 0 <= j < nv.len() implies #[trigger] node_entry(nv[j]) is Some by {
        assert(node_entry(nv[j]) == Some(node_view(nodes@[j])));
    }
    let mut edges: Vec<EdgeSpec> = Vec::new();
    match doc.get("edges") {
        Some(v) => {
            let elist = match v.as_array() {
                Some(a) => a,
                None => return None,
            };
            let ghost ev = elements_view(elist@);
            let mut k: usize = 0;
            while k < elist.len()
                invariant
                    k <= elist.len(),
                    ev == elements_view(elist@),
                    array_of(member(jview(*doc), "edges"@)) == Some(ev),
                    edges@.len() == k,
                    forall|j: int| 0 <= j < k ==> edge_entry(ev[j]) == Some(edge_spec_view(#[trigger] edges@[j])),
                decreases elist.len() - k,
            {
                match read_edge(&elist[k]) {
                    Some(e) => edges.push(e),
                    None => {
                        assert(edge_entry(ev[k as int]) is None);
                        return None;
                    },
                }
                k = k + 1;
            }
            assert(edges@.map_values(|e: EdgeSpec| edge_spec_view(e)) =~= ev.map_values(|e: JsonView| edge_entry(e)->0));
            assert forall|j: int| 0 <= j < ev.len() implies #[trigger] edge_entry(ev[j]) is Some by {
                assert(edge_entry(ev[j]) == Some(edge_spec_view(edges@[j])));
            }
        },
        None => {
            assert(edges@.map_values(|e: EdgeSpec| edge_spec_view(e)) =~= Seq::<(Seq<char>, Seq<char>, Seq<char>)>::empty());
        },
    }
    Some(GraphSpec { name, nodes, edges })
}

/// Reads a graph document written in YAML (parsed by `parse_yaml_text`);
/// `None` when the text is not YAML with a JSON form, or the document is
/// not readable (see `graph_spec`).
pub fn graph_document(text: &str) -> (res: Option<GraphSpec>)
    ensures
        match yaml_parse_text(text@) {
            Some(v) => (res is Some <==> readable_graph(v)) && (res matches Some(g) ==> graph_read(v, g)),
            None => res is None,
        },
{
    match parse_yaml_text(text) {
        Some(doc) => graph_spec(&doc),
        None => None,
    }
}

/// The value last given for name `k` in parallel sequences of names and
/// values.
pub open spec fn last_for<T>(ids: Seq<Seq<char>>, vals: Seq<T>, k: Seq<char>) -> Option<T>
    decreases ids.len(),
{
    if ids.len() == 0 || vals.len() == 0 {
        None
    } else if ids.last() == k {
        Some(vals[ids.len() - 1])
    } else {
        last_for(ids.drop_last(), vals.take(ids.len() - 1), k)
    }
}

/// The edges leaving `from` after adding `edges` (from, to, role) in order
/// to a graph without edges: each new (role, to) pair once, in order.
pub open spec fn edges_added(edges: Seq<(Seq<char>, Seq<char>, Seq<char>)>, from: Seq<char>) -> Seq<(Seq<char>, Seq<char>)>
    decreases edges.len(),
{
    if edges.len() == 0 {
        Seq::empty()
    } else {
        let prev = edges_added(edges.drop_last(), from);
        let e = edges.last();
        if e.0 == from && !prev.contains((e.2, e.1)) {
            prev.push((e.2, e.1))
        } else {
            prev
        }
    }
}

/// The ids of a document's nodes.
pub open spec fn node_ids(spec: GraphSpec) -> Seq<Seq<char>> {
    spec.nodes@.map_values(|n: NodeSpec| n.id@)
}

proof fn lemma_last_for_take<T>(ids: Seq<Seq<char>>, vals: Seq<T>, i: int, k: Seq<char>)
    requires
        0 <= i < ids.len(),
        ids.len() == vals.len(),
    ensures
        last_for(ids.take(i + 1), vals.take(i + 1), k) == if ids[i] == k {
            Some(vals[i])
        } else {
            last_for(ids.take(i), vals.take(i), k)
        },
{
    assert(ids.take(i + 1).drop_last() =~= ids.take(i));
    assert(vals.take(i + 1).take(i) =~= vals.take(i));
}

/// The (from, to) pairs of edges.
pub open spec fn edge_pairs_of(edges: Seq<(Seq<char>, Seq<char>, Seq<char>)>) -> Seq<(Seq<char>, Seq<char>)> {
    edges.map_values(|e: (Seq<char>, Seq<char>, Seq<char>)| (e.0, e.1))
}

/// The error of the first edge that cannot be added, in order, to a graph
/// with nodes `ids`: an edge between nodes not both in the graph, or one
/// whose target already reaches its source along the edges before it.
pub open spec fn first_rejection(ids: Seq<Seq<char>>, edges: Seq<(Seq<char>, Seq<char>, Seq<char>)>) -> Option<Seq<char>>
    decreases edges.len(),
{
    if edges.len() == 0 {
        None
    } else {
        match first_rejection(ids, edges.drop_last()) {
            Some(m) => Some(m),
            None => {
                let e = edges.last();
                if !(ids.contains(e.0) && ids.contains(e.1)) {
                    Some(missing_nodes_text())
                } else if reaches(flat_link(edge_pairs_of(edges.drop_last())), e.1, e.0) {
                    Some(cycle_text())
                } else {
                    None
                }
            }
        }
    }
}

proof fn lemma_rejection_stays(ids: Seq<Seq<char>>, edges: Seq<(Seq<char>, Seq<char>, Seq<char>)>, k: int)
    requires
        0 <= k <= edges.len(),
        first_rejection(ids, edges.take(k)) is Some,
    ensures
        first_rejection(ids, edges) == first_rejection(ids, edges.take(k)),
    decreases edges.len() - k,
{
    if k < edges.len() {
        assert(edges.take(k + 1).drop_last() =~= edges.take(k));
        lemma_rejection_stays(ids, edges, k + 1);
    } else {
        assert(edges.take(k) =~= edges);
    }
}

proof fn lemma_links_of_added<N, R>(g: Graph<N, R>, edges: Seq<(Seq<char>, Seq<char>, Seq<char>)>)
    requires
        forall|f: Seq<char>| #[trigger] g.children(f) == edges_added(edges, f),
    ensures
        graph_link(g) == flat_link(edge_pairs_of(edges)),
{
    assert forall|x: Seq<char>, y: Seq<char>| #[trigger] graph_link(g)(x, y) == flat_link(edge_pairs_of(edges))(x, y) by {
        edges_listed_once(edges, x);
        if graph_link(g)(x, y) {
            let r = choose|r: Seq<char>| #[trigger] g.children(x).contains((r, y));
            assert(edges_added(edges, x).contains((r, y)));
            let i = choose|i: int| 0 <= i < edges.len() && #[trigger] edges[i] == (x, y, r);
            assert(edge_pairs_of(edges)[i] == (x, y));
        }
        if flat_link(edge_pairs_of(edges))(x, y) {
            let i = choose|i: int| 0 <= i < edge_pairs_of(edges).len() && edge_pairs_of(edges)[i] == (x, y);
            let r = edges[i].2;
            assert(edges[i] == (x, y, r));
            assert(edges_added(edges, x).contains((r, y)));
            assert(g.children(x).contains((r, y)));
        }
    }
    assert(graph_link(g) =~= flat_link(edge_pairs_of(edges)));
}

/// Whether node metadata is that of node `id` of graph `graph`, running
/// the operator named `operator`.
pub open spec fn meta_of_node(meta: crate::meta::NodeMeta, graph: Seq<char>, id: Seq<char>, operator: Seq<char>) -> bool {
    &&& meta.graph@ == graph
    &&& meta.name@ == id
    &&& meta.operator@ == operator
}

/// Assembles a graph from its document: the nodes in order, node `i`
/// running `operators[i]` (an operator name and the operator), then the
/// edges in order. The first node is the start node; a node id given twice
/// keeps the last operator; an edge given twice is kept once. Fails with the
/// error of the first edge that cannot be added (see `first_rejection`).
pub fn assemble<N: NodeInit, R>(spec: GraphSpec, operators: Vec<(String, N)>) -> (res: Result<Graph<N, R>, String>)
    requires
        operators@.len() == spec.nodes@.len(),
    ensures
        match first_rejection(node_ids(spec), spec.edges@.map_values(|e: EdgeSpec| edge_spec_view(e))) {
            Some(m) => res matches Err(e) && e@ == m,
            None => res matches Ok(g) && {
                &&& g.wf()
                &&& g.name@ == spec.name@
                &&& g.revision == 0
                &&& g.state == crate::status::GraphStatus::Inactive
                &&& g.start_node@ == if spec.nodes@.len() > 0 { spec.nodes@[0].id@ } else { Seq::<char>::empty() }
                &&& forall|k: Seq<char>| #[trigger] g.mut_nodes.has(k) == node_ids(spec).contains(k)
                &&& forall|k: Seq<char>| node_ids(spec).contains(k) ==>
                    last_for(node_ids(spec), operators@.map_values(|p: (String, N)| p.1), k)->0.inits(
                        g.node_meta_map.lookup(k)->0, #[trigger] g.mut_nodes.lookup(k)->0)
                &&& forall|k: Seq<char>| #[trigger] g.node_meta_map.has(k) == node_ids(spec).contains(k)
                &&& forall|k: Seq<char>| node_ids(spec).contains(k) ==> meta_of_node(
                    #[trigger] g.node_meta_map.lookup(k)->0, spec.name@, k,
                    last_for(node_ids(spec), operators@.map_values(|p: (String, N)| p.0@), k)->0)
                &&& forall|k: Seq<char>| #[trigger] g.children(k) == edges_added(spec.edges@.map_values(|e: EdgeSpec| edge_spec_view(e)), k)
                &&& acyclic(graph_link(g))
            },
        },
{
    let ghost ids = node_ids(spec);
    let ghost ops = operators@.map_values(|p: (String, N)| p.1);
    let ghost op_names = operators@.map_values(|p: (String, N)| p.0@);
    let ghost pairs = operators@;
    let ghost ev = spec.edges@.map_values(|e: EdgeSpec| edge_spec_view(e));
    let ghost name_view = spec.name@;
    let GraphSpec { name, nodes, edges } = spec;
    let mut g: Graph<N, R> = Graph::new(name);
    let mut ops_rev: Vec<(String, N)> = Vec::new();
    let mut rest = operators;
    while rest.len() > 0
        invariant
            rest@.len() + ops_rev@.len() == ops.len(),
            pairs.len() == ops.len(),
            forall|j: int| 0 <= j < rest@.len() ==> #[trigger] rest@[j] == pairs[j],
            forall|j: int| 0 <= j < ops_rev@.len() ==> #[trigger] ops_rev@[j] == pairs[ops.len() - 1 - j],
        decreases rest@.len(),
    {
        let p = rest.pop().unwrap();
        ops_rev.push(p);
    }
    let mut i: usize = 0;
    while i < nodes.len()
        invariant
            i <= nodes.len(),
            nodes@.len() == ops.len(),
            ids == nodes@.map_values(|n: NodeSpec| n.id@),
            ops_rev@.len() == ops.len() - i,
            pairs.len() == ops.len(),
            ops == pairs.map_values(|p: (String, N)| p.1),
            op_names == pairs.map_values(|p: (String, N)| p.0@),
            forall|j: int| 0 <= j < ops_rev@.len() ==> #[trigger] ops_rev@[j] == pairs[ops.len() - 1 - j],
            g.wf(),
            g.revision == 0,
            g.state == crate::status::GraphStatus::Inactive,
            g.edges.pairs().len() == 0,
            g.name@ == name_view,
            g.start_node@ == if i > 0 { ids[0] } else { Seq::<char>::empty() },
            i > 0 ==> g.mut_nodes.pairs().len() > 0,
            i == 0 ==> g.mut_nodes.pairs().len() == 0,
            forall|k: Seq<char>| #[trigger] g.mut_nodes.has(k) == ids.take(i as int).contains(k),
            forall|k: Seq<char>| ids.take(i as int).contains(k) ==>
                last_for(ids.take(i as int), ops.take(i as int), k)->0.inits(
                    g.node_meta_map.lookup(k)->0, #[trigger] g.mut_nodes.lookup(k)->0),
            forall|k: Seq<char>| #[trigger] g.node_meta_map.has(k) == ids.take(i as int).contains(k),
            forall|k: Seq<char>| ids.take(i as int).contains(k) ==> meta_of_node(
                #[trigger] g.node_meta_map.lookup(k)->0, name_view, k, last_for(ids.take(i as int), op_names.take(i as int), k)->0),
        decreases nodes.len() - i,
    {
        let (op_name, op) = ops_rev.pop().unwrap();
        let ghost before = g;
        assert(op == ops[i as int]);
        assert(op_name@ == op_names[i as int]);
        g.add_node(nodes[i].id.as_str(), op_name, op);
        proof {
            assert(ids[i as int] == nodes@[i as int].id@);
            assert(ids.take(i + 1) =~= ids.take(i as int).push(ids[i as int]));
            assert forall|k: Seq<char>| #[trigger] g.mut_nodes.has(k) == ids.take(i + 1).contains(k) by {
                if k != ids[i as int] {
                    assert(g.mut_nodes.lookup(k) == before.mut_nodes.lookup(k));
                    assert(before.mut_nodes.has(k) == before.mut_nodes.lookup(k) is Some);
                    if ids.take(i + 1).contains(k) {
                        let w = choose|w: int| 0 <= w < ids.take(i + 1).len() && #[trigger] ids.take(i + 1)[w] == k;
                        assert(ids.take(i as int)[w] == k);
                    }
                } else {
                    assert(ids.take(i + 1)[i as int] == k);
                }
            }
            assert forall|k: Seq<char>| ids.take(i + 1).contains(k) implies
                last_for(ids.take(i + 1), ops.take(i + 1), k)->0.inits(
                    g.node_meta_map.lookup(k)->0, #[trigger] g.mut_nodes.lookup(k)->0) by {
                lemma_last_for_take(ids, ops, i as int, k);
                if k != ids[i as int] {
                    assert(g.mut_nodes.lookup(k) == before.mut_nodes.lookup(k));
                    assert(g.node_meta_map.lookup(k) == before.node_meta_map.lookup(k));
                    let w = choose|w: int| 0 <= w < ids.take(i + 1).len() && #[trigger] ids.take(i + 1)[w] == k;
                    assert(ids.take(i as int)[w] == k);
                    assert(ids.take(i as int).contains(k));
                }
            }
            assert forall|k: Seq<char>| #[trigger] g.node_meta_map.has(k) == ids.take(i + 1).contains(k) by {
                assert(ids.take(i + 1) =~= ids.take(i as int).push(ids[i as int]));
                if k != ids[i as int] {
                    assert(g.node_meta_map.lookup(k) == before.node_meta_map.lookup(k));
                    if ids.take(i + 1).contains(k) {
                        let w = choose|w: int| 0 <= w < ids.take(i + 1).len() && #[trigger] ids.take(i + 1)[w] == k;
                        assert(ids.take(i as int)[w] == k);
                    }
                }
            }
            assert forall|k: Seq<char>| ids.take(i + 1).contains(k) implies meta_of_node(
                #[trigger] g.node_meta_map.lookup(k)->0, name_view, k, last_for(ids.take(i + 1), op_names.take(i + 1), k)->0) by {
                lemma_last_for_take(ids, op_names, i as int, k);
                if k != ids[i as int] {
                    assert(g.node_meta_map.lookup(k) == before.node_meta_map.lookup(k));
                    let w = choose|w: int| 0 <= w < ids.take(i + 1).len() && #[trigger] ids.take(i + 1)[w] == k;
                    assert(ids.take(i as int)[w] == k);
                    assert(ids.take(i as int).contains(k));
                }
            }
            assert(g.mut_nodes.lookup(ids[i as int]) is Some);
            assert(g.mut_nodes.names_view().contains(ids[i as int]));
        }
        i = i + 1;
    }
    assert(ids.take(ids.len() as int) =~= ids);
    assert(ops.take(ops.len() as int) =~= ops);
    assert(op_names.take(op_names.len() as int) =~= op_names);
    proof {
        assert forall|x: Seq<char>| #[trigger] g.children(x).len() == 0 by {
            if g.edges.has(x) {
                assert(g.edges.names_view().contains(x));
            }
        }
        no_edges_no_cycle(g);
    }
    let ghost nodes_after = g.mut_nodes;
    let ghost meta_after = g.node_meta_map;
    let ghost start_after = g.start_node;
    let mut k: usize = 0;
    while k < edges.len()
        invariant
            k <= edges.len(),
            ev == edges@.map_values(|e: EdgeSpec| edge_spec_view(e)),
            g.wf(),
            g.revision == 0,
            g.state == crate::status::GraphStatus::Inactive,
            g.name@ == name_view,
            g.mut_nodes == nodes_after,
            g.node_meta_map == meta_after,
            g.start_node == start_after,
            forall|x: Seq<char>| #[trigger] g.mut_nodes.has(x) == ids.contains(x),
            forall|f: Seq<char>| #[trigger] g.children(f) == edges_added(ev.take(k as int), f),
            first_rejection(ids, ev.take(k as int)) is None,
            acyclic(graph_link(g)),
            ids == node_ids(spec),
            ev == spec.edges@.map_values(|e: EdgeSpec| edge_spec_view(e)),
        decreases edges.len() - k,
    {
        let ghost before = g;
        let e = &edges[k];
        proof {
            assert(ev.take(k + 1).drop_last() =~= ev.take(k as int));
            assert(ev.take(k + 1).last() == ev[k as int]);
            assert(ev[k as int] == (e.from@, e.to@, e.role@));
            lemma_links_of_added(before, ev.take(k as int));
        }
        match g.add_edge(e.from.clone(), e.to.clone(), e.role.clone()) {
            Ok(()) => {
                proof {
                    add_edge_keeps_acyclic(before, g, e.from@, e.to@, e.role@);
                    assert(first_rejection(ids, ev.take(k + 1)) is None);
                    assert forall|f: Seq<char>| #[trigger] g.children(f) == edges_added(ev.take(k + 1), f) by {
                        assert(before.children(f) == edges_added(ev.take(k as int), f));
                    }
                }
            },
            Err(msg) => {
                proof {
                    assert(first_rejection(ids, ev.take(k + 1)) == Some(msg@));
                    lemma_rejection_stays(ids, ev, k + 1);
                }
                return Err(msg);
            },
        }
        k = k + 1;
    }
    assert(ev.take(ev.len() as int) =~= ev);
    Ok(g)
}

/// A node's edges list an edge (role, to) exactly when the document has an
/// edge from that node to `to` with that role; none is listed twice.
pub proof fn edges_listed_once(edges: Seq<(Seq<char>, Seq<char>, Seq<char>)>, from: Seq<char>)
    ensures
        edges_added(edges, from).no_duplicates(),
        forall|role: Seq<char>, to: Seq<char>| #[trigger] edges_added(edges, from).contains((role, to))
            <==> exists|i: int| 0 <= i < edges.len() && #[trigger] edges[i] == (from, to, role),
    decreases edges.len(),
{
    if edges.len() > 0 {
        let init = edges.drop_last();
        edges_listed_once(init, from);
        let prev = edges_added(init, from);
        let e = edges.last();
        let cur = edges_added(edges, from);
        if e.0 == from && !prev.contains((e.2, e.1)) {
            assert(cur == prev.push((e.2, e.1)));
            assert forall|a: int, b: int| 0 <= a < cur.len() && 0 <= b < cur.len() && a != b implies cur[a] != cur[b] by {
                if a == prev.len() {
                    assert(cur[b] == prev[b]);
                    assert(prev.contains(prev[b]));
                } else if b == prev.len() {
                    assert(cur[a] == prev[a]);
                    assert(prev.contains(prev[a]));
                }
            }
        }
        assert forall|role: Seq<char>, to: Seq<char>| #[trigger] cur.contains((role, to))
            <==> exists|i: int| 0 <= i < edges.len() && #[trigger] edges[i] == (from, to, role) by {
            if cur.contains((role, to)) {
                if prev.contains((role, to)) {
                    let i = choose|i: int| 0 <= i < init.len() && #[trigger] init[i] == (from, to, role);
                    assert(edges[i] == init[i]);
                } else {
                    let k = choose|k: int| 0 <= k < cur.len() && cur[k] == (role, to);
                    assert(k == prev.len());
                    assert(edges[edges.len() - 1] == e);
                }
            }
            if exists|i: int| 0 <= i < edges.len() && #[trigger] edges[i] == (from, to, role) {
                let i = choose|i: int| 0 <= i < edges.len() && #[trigger] edges[i] == (from, to, role);
                if i < edges.len() - 1 {
                    assert(init[i] == edges[i]);
                    assert(prev.contains((role, to)));
                    let k = choose|k: int| 0 <= k < prev.len() && prev[k] == (role, to);
                    if e.0 == from && !prev.contains((e.2, e.1)) {
                        assert(cur[k] == (role, to));
                    }
                } else {
                    assert(e == (from, to, role));
                    if !prev.contains((role, to)) {
                        assert(cur[prev.len() as int] == (role, to));
                    }
                }
            }
        }
    }
}

/// Giving an edge a second time right after the first changes nothing.
pub proof fn edge_given_twice(edges: Seq<(Seq<char>, Seq<char>, Seq<char>)>, e: (Seq<char>, Seq<char>, Seq<char>), from: Seq<char>)
    ensures
        edges_added(edges.push(e).push(e), from) == edges_added(edges.push(e), from),
{
    let once = edges.push(e);
    let twice = once.push(e);
    assert(twice.drop_last() =~= once);
    assert(once.drop_last() =~= edges);
    let prev = edges_added(edges, from);
    if e.0 == from && !prev.contains((e.2, e.1)) {
        assert(edges_added(once, from)[prev.len() as int] == (e.2, e.1));
    }
}

} // verus!
