//! Graph topology and lifecycle: nodes and their metadata, role-labelled
//! edges, the start node, readiness, and the revisioned replacement of the
//! graph's runner. Operators and their runtimes are opaque values here
//! (`N` and `R`); creating them and sending messages is the caller's part.

use std::sync::Arc;
use vstd::prelude::*;
use crate::meta::NodeMeta;
use crate::message::Message;
use crate::named::NamedList;
use crate::random::{generate_random_id, is_alphanumeric};
use crate::status::{ControlEvent, ControlEventType, GraphStatus, OperatorState};
use crate::text::{decimal, decimal_string, to_uppercase, upper_case};
use crate::json::{Json, JsonView, jview, member};
use crate::reach::{Link, flat_link, pair_view, reaches, path_exists, acyclic, is_path, linked_at, extra_link_keeps_acyclic};

verus! {

/// An operator that is told, when its node is added to a graph, the
/// metadata of that node. What an operator does with it is its own matter:
/// `inits` names, for each operator, the states it may be in after `init`
/// with given metadata; an operator that does not describe them keeps the
/// default, which admits any state.
pub trait NodeInit: Sized {
    /// Whether `after` is a state of this operator after `init` with `meta`.
    open spec fn inits(self, meta: NodeMeta, after: Self) -> bool {
        true
    }

    /// Takes note of the metadata of the operator's node.
    fn init(&mut self, meta: &NodeMeta)
        ensures
            old(self).inits(*meta, *final(self));
}

/// How an operator processes messages.
#[derive(Clone, Copy, Debug, PartialEq, Eq, Structural)]
pub enum OperatorKind {
    /// Receives messages from the outside world and passes them on.
    Endpoint,
    /// Processes messages and passes them on.
    Filter,
    /// A filter whose handling is a pure message transformation.
    Filter2,
    /// Validates messages against a canonical model.
    CanonicalModel,
    /// An AI agent.
    AIAgent,
    /// A tool an AI agent can call.
    AITool,
}

/// Whether a node of this kind runs behind its own actor (filters and
/// canonical models do; the other kinds are wrapped directly).
pub open spec fn actor_kind(kind: OperatorKind) -> bool {
    kind == OperatorKind::Filter2 || kind == OperatorKind::Filter || kind == OperatorKind::CanonicalModel
}

/// Whether a node of this kind runs behind its own actor.
pub fn runs_in_actor(kind: OperatorKind) -> (res: bool)
    ensures
        res == actor_kind(kind),
{
    match kind {
        OperatorKind::Filter2 | OperatorKind::Filter | OperatorKind::CanonicalModel => true,
        _ => false,
    }
}

/// A runtime that tells whether it is ready. What it reports is its own
/// matter: `reports` names, for each runtime, the states it may report; a
/// runtime that does not describe them keeps the default, which admits
/// either state.
pub trait RuntimeState {
    /// Whether this runtime may report `state`.
    open spec fn reports(&self, state: OperatorState) -> bool {
        true
    }

    /// The runtime's state.
    fn state(&self) -> (res: OperatorState)
        ensures
            self.reports(res);
}

/// Whether `status` is what the runtimes report: inactive only when one of
/// them reports that it is pending, active only when every one reports that
/// it is ready.
pub open spec fn status_reported<R: RuntimeState>(nodes: NamedList<R>, status: GraphStatus) -> bool {
    &&& status == GraphStatus::Inactive ==> exists|i: int|
        0 <= i < nodes.pairs().len() && (#[trigger] nodes.pairs()[i]).1.reports(OperatorState::Pending)
    &&& status == GraphStatus::Active ==> forall|i: int|
        0 <= i < nodes.pairs().len() ==> (#[trigger] nodes.pairs()[i]).1.reports(OperatorState::Ready)
}

/// Asks each runtime for its state: `true` as soon as one is pending.
fn any_pending<R: RuntimeState>(nodes: &NamedList<R>) -> (res: bool)
    ensures
        status_reported(*nodes, if res { GraphStatus::Inactive } else { GraphStatus::Active }),
{
    let mut i: usize = 0;
    while i < nodes.len()
        invariant
            i <= nodes.pairs().len(),
            forall|j: int| 0 <= j < i ==> (#[trigger] nodes.pairs()[j]).1.reports(OperatorState::Ready),
        decreases nodes.pairs().len() - i,
    {
        let st = nodes.value_at(i).state();
        if st == OperatorState::Pending {
            assert(nodes.pairs()[i as int].1.reports(OperatorState::Pending));
            return true;
        }
        i = i + 1;
    }
    false
}

/// Which handler deals with a message that an operator receives.
#[derive(Clone, Copy, Debug, PartialEq, Eq, Structural)]
pub enum Handler {
    /// The runtime's asynchronous handle.
    Async,
    /// The message transformation of a Filter2 operator.
    Filter2,
    /// The runtime's own `handle`.
    Runtime,
}

/// The handler an operator's actor gives a message (control messages are
/// not sent to actors): the runtime's asynchronous handle when it has one,
/// otherwise the transformation of a Filter2 operator, otherwise the
/// runtime's own `handle`.
pub fn actor_handler<O, C>(msg: &Message<O, C>, has_async: bool, kind: OperatorKind) -> (res: Handler)
    requires
        !(msg is Control),
    ensures
        res == if has_async {
            Handler::Async
        } else if kind == OperatorKind::Filter2 {
            Handler::Filter2
        } else {
            Handler::Runtime
        },
{
    if has_async {
        Handler::Async
    } else {
        match kind {
            OperatorKind::Filter2 => Handler::Filter2,
            _ => Handler::Runtime,
        }
    }
}

/// What an operator's wrapper does with a message: an error is passed on
/// unchanged, with no further processing (`None`); any other message goes
/// to the transformation of a Filter2 operator, otherwise to the runtime's
/// own `handle`.
pub fn middleware_handler<O, C>(msg: &Message<O, C>, kind: OperatorKind) -> (res: Option<Handler>)
    ensures
        res == if msg is Error {
            None::<Handler>
        } else if kind == OperatorKind::Filter2 {
            Some(Handler::Filter2)
        } else {
            Some(Handler::Runtime)
        },
{
    match msg {
        Message::Error { .. } => None,
        _ => match kind {
            OperatorKind::Filter2 => Some(Handler::Filter2),
            _ => Some(Handler::Runtime),
        },
    }
}

/// The role of an edge when none is given.
pub open spec fn default_role() -> Seq<char> {
    "default"@
}

/// The name of the node that ends every path when a node has no default edge.
pub open spec fn end_node() -> Seq<char> {
    "_end"@
}

/// The role `"default"`.
pub fn default_role_name() -> (res: String)
    ensures
        res@ == default_role(),
{
    String::from_str("default")
}

/// Number of pending states.
pub open spec fn pending_count(states: Seq<OperatorState>) -> nat
    decreases states.len(),
{
    if states.len() == 0 {
        0
    } else {
        pending_count(states.drop_last()) + if states.last() == OperatorState::Pending { 1nat } else { 0nat }
    }
}

/// Counts the pending states.
pub fn count_pending(states: &Vec<OperatorState>) -> (res: usize)
    ensures
        res == pending_count(states@),
{
    let mut n: usize = 0;
    let mut i: usize = 0;
    while i < states.len()
        invariant
            i <= states.len(),
            n == pending_count(states@.take(i as int)),
            n <= i,
        decreases states.len() - i,
    {
        assert(states@.take(i + 1).drop_last() == states@.take(i as int));
        if states[i] == OperatorState::Pending {
            n = n + 1;
        }
        i = i + 1;
    }
    assert(states@.take(states@.len() as int) == states@);
    n
}

/// The executable form of a graph: named runtimes and the node messages
/// enter by.
pub struct GraphRunner<R> {
    pub name: String,
    pub state: GraphStatus,
    pub start_node: String,
    pub nodes: NamedList<R>,
}

impl<R> GraphRunner<R> {
    /// An inactive runner with no runtimes.
    pub fn new(name: String) -> (res: Self)
        ensures
            res.name == name,
            res.state == GraphStatus::Inactive,
            res.start_node@ == Seq::<char>::empty(),
            res.nodes.wf(),
            res.nodes.pairs() == Seq::<(Seq<char>, R)>::empty(),
    {
        GraphRunner { name, state: GraphStatus::Inactive, start_node: String::new(), nodes: NamedList::new() }
    }

    /// The runtime of the start node, where `call` delivers messages; `None`
    /// when the start node has no runtime.
    pub fn start_node(&self) -> (res: Option<&R>)
        requires
            self.nodes.wf(),
        ensures
            match res {
                Some(r) => self.nodes.lookup(self.start_node@) == Some(*r),
                None => self.nodes.lookup(self.start_node@) is None,
            },
    {
        self.nodes.get(self.start_node.as_str())
    }

    /// Replaces every runtime.
    pub fn replace_nodes(&mut self, nodes: NamedList<R>)
        ensures
            final(self).nodes == nodes,
            final(self).name == old(self).name,
            final(self).state == old(self).state,
            final(self).start_node == old(self).start_node,
    {
        self.nodes = nodes;
    }
}

/// The edges leaving one node, as (role, target) pairs.
pub open spec fn edge_view(v: Vec<(String, String)>) -> Seq<(Seq<char>, Seq<char>)> {
    v@.map_values(|e: (String, String)| (e.0@, e.1@))
}

/// The text of a control event's reason after runner replacement number `rev`.
pub open spec fn replaced_reason(rev: nat, status: GraphStatus) -> Seq<char> {
    let base = "Graph runner updated (rev."@ + decimal(rev) + ")"@;
    if status == GraphStatus::Inactive {
        base + " - INACTIVE"@
    } else {
        base
    }
}

/// The settings a node of graph `graph` receives: the member named after the
/// node in the member named after the graph.
pub open spec fn node_settings(settings: JsonView, graph: Seq<char>, node: Seq<char>) -> Option<JsonView> {
    match member(settings, graph) {
        Some(g) => member(g, node),
        None => None,
    }
}

/// The nodes, in order, that receive settings, with the settings each
/// receives.
pub open spec fn settings_targets(nodes: Seq<Seq<char>>, settings: JsonView, graph: Seq<char>) -> Seq<(Seq<char>, JsonView)>
    decreases nodes.len(),
{
    if nodes.len() == 0 {
        Seq::empty()
    } else {
        let rest = settings_targets(nodes.drop_last(), settings, graph);
        match node_settings(settings, graph, nodes.last()) {
            Some(v) => rest.push((nodes.last(), v)),
            None => rest,
        }
    }
}

/// Whether every node's settings, where there are some, are an object.
pub open spec fn settings_are_objects(nodes: Seq<Seq<char>>, settings: JsonView, graph: Seq<char>) -> bool {
    forall|i: int| 0 <= i < nodes.len() ==> match #[trigger] node_settings(settings, graph, nodes[i]) {
        Some(v) => v is Object,
        None => true,
    }
}

proof fn lemma_no_targets(nodes: Seq<Seq<char>>, settings: JsonView, graph: Seq<char>)
    requires
        member(settings, graph) is None,
    ensures
        settings_targets(nodes, settings, graph) == Seq::<(Seq<char>, JsonView)>::empty(),
    decreases nodes.len(),
{
    if nodes.len() > 0 {
        lemma_no_targets(nodes.drop_last(), settings, graph);
    }
}

/// The error text of an edge whose nodes are not both in the graph.
pub open spec fn missing_nodes_text() -> Seq<char> {
    "Both nodes must be in the Graph"@
}

/// The error text of an edge that would close a cycle.
pub open spec fn cycle_text() -> Seq<char> {
    "Adding this edge would create a cycle"@
}

/// Whether `new` is `old` with the edge (`role`, `to`) added to the edges
/// leaving `from` (once), and nothing else changed.
pub open spec fn edge_inserted<N, R>(old: Graph<N, R>, new: Graph<N, R>, from: Seq<char>, to: Seq<char>, role: Seq<char>) -> bool {
    &&& new.children(from) == if old.children(from).contains((role, to)) {
        old.children(from)
    } else {
        old.children(from).push((role, to))
    }
    &&& forall|k: Seq<char>| k != from ==> #[trigger] new.children(k) == old.children(k)
    &&& new.mut_nodes == old.mut_nodes
    &&& new.node_meta_map == old.node_meta_map
    &&& new.runner == old.runner
    &&& new.start_node == old.start_node
    &&& new.name == old.name
    &&& new.id == old.id
    &&& new.state == old.state
    &&& new.revision == old.revision
}

/// A graph: its nodes (opaque operators `N`), their metadata, role-labelled
/// edges, start node, status, and the current runner (opaque runtimes `R`).
pub struct Graph<N, R> {
    pub revision: u64,
    pub id: String,
    pub name: String,
    pub state: GraphStatus,
    pub start_node: String,
    pub mut_nodes: NamedList<N>,
    pub runner: Arc<GraphRunner<R>>,
    pub node_meta_map: NamedList<NodeMeta>,
    pub edges: NamedList<Vec<(String, String)>>,
}

impl<N, R> Graph<N, R> {
    /// Well-formedness: the tables have unique names, each node's edges are
    /// distinct, and the runner's runtimes have unique names.
    pub open spec fn wf(&self) -> bool {
        &&& self.mut_nodes.wf()
        &&& self.node_meta_map.wf()
        &&& self.edges.wf()
        &&& self.runner.nodes.wf()
        &&& forall|k: Seq<char>| #[trigger] self.edges.has(k) ==> edge_view(self.edges.lookup(k)->0).no_duplicates()
    }

    /// The edges leaving a node (none when it has no entry).
    pub open spec fn children(&self, id: Seq<char>) -> Seq<(Seq<char>, Seq<char>)> {
        match self.edges.lookup(id) {
            Some(v) => edge_view(v),
            None => Seq::empty(),
        }
    }

    /// A new, inactive graph with no nodes, identified by five random upper-cased
    /// alphanumeric characters.
    pub fn new(name: String) -> (res: Self)
        ensures
            res.wf(),
            res.revision == 0,
            res.name == name,
            res.state == GraphStatus::Inactive,
            res.start_node@ == Seq::<char>::empty(),
            res.mut_nodes.pairs().len() == 0,
            res.node_meta_map.pairs().len() == 0,
            res.edges.pairs().len() == 0,
            res.runner.name == name,
            res.runner.state == GraphStatus::Inactive,
            res.runner.nodes.pairs().len() == 0,
            exists|r: Seq<char>|
                r.len() == 5 && (forall|i: int| 0 <= i < 5 ==> is_alphanumeric(#[trigger] r[i]))
                    && res.id@ == upper_case(r),
    {
        let raw = generate_random_id(5);
        let id = to_uppercase(raw.as_str());
        let g = Graph {
            revision: 0,
            id,
            name: name.clone(),
            state: GraphStatus::Inactive,
            start_node: String::new(),
            mut_nodes: NamedList::new(),
            runner: Arc::new(GraphRunner::new(name)),
            node_meta_map: NamedList::new(),
            edges: NamedList::new(),
        };
        assert(g.id@ == upper_case(raw@));
        g
    }

    /// Adds node `id` running `node`, an operator named `operator_name`; the
    /// first node added becomes the start node. The node's metadata is
    /// made (graph name, node id, operator name), the operator is told it
    /// once (`NodeInit::init`) and stored, and the metadata is recorded.
    pub fn add_node(&mut self, id: &str, operator_name: String, node: N)
        where N: NodeInit,
        requires
            old(self).wf(),
        ensures
            final(self).wf(),
            final(self).start_node@ == if old(self).mut_nodes.pairs().len() == 0 {
                id@
            } else {
                old(self).start_node@
            },
            final(self).mut_nodes.lookup(id@) matches Some(n)
                && node.inits(final(self).node_meta_map.lookup(id@)->0, n),
            forall|k: Seq<char>|
                k != id@ ==> #[trigger] final(self).mut_nodes.lookup(k) == old(self).mut_nodes.lookup(k),
            final(self).node_meta_map.has(id@),
            final(self).node_meta_map.lookup(id@)->0.graph@ == old(self).name@,
            final(self).node_meta_map.lookup(id@)->0.name@ == id@,
            final(self).node_meta_map.lookup(id@)->0.operator@ == operator_name@,
            final(self).node_meta_map.lookup(id@)->0.engine is None,
            final(self).node_meta_map.lookup(id@)->0.description@ == Seq::<char>::empty(),
            final(self).node_meta_map.lookup(id@)->0.tags@.len() == 0,
            final(self).node_meta_map.lookup(id@)->0.properties@.len() == 0,
            final(self).node_meta_map.lookup(id@)->0.logo@.len() == 0,
            forall|k: Seq<char>|
                k != id@ ==> #[trigger] final(self).node_meta_map.lookup(k) == old(self).node_meta_map.lookup(k),
            final(self).edges == old(self).edges,
            final(self).runner == old(self).runner,
            final(self).name == old(self).name,
            final(self).id == old(self).id,
            final(self).revision == old(self).revision,
            final(self).state == old(self).state,
    {
        if self.mut_nodes.len() == 0 {
            self.start_node = String::from_str(id);
        }
        let meta = NodeMeta::new(self.name.as_str(), id, operator_name);
        let ghost m = meta;
        let mut node = node;
        let ghost before = node;
        node.init(&meta);
        let ghost after = node;
        let _ = self.node_meta_map.insert(String::from_str(id), meta);
        let _ = self.mut_nodes.insert(String::from_str(id), node);
        assert(self.node_meta_map.lookup(id@) == Some(m));
        assert(self.mut_nodes.lookup(id@) == Some(after));
        assert(before.inits(m, after));
    }

    /// The edges leaving node `id`, as (role, target) pairs.
    pub fn next_edges(&self, id: &str) -> (res: Vec<(String, String)>)
        requires
            self.wf(),
        ensures
            edge_view(res) == self.children(id@),
    {
        match self.edges.get(id) {
            Some(v) => clone_edges(v),
            None => {
                let res: Vec<(String, String)> = Vec::new();
                assert(edge_view(res) =~= Seq::<(Seq<char>, Seq<char>)>::empty());
                res
            },
        }
    }

    /// Records an edge from `from` to `to` with `role`; an edge already
    /// present is not duplicated.
    fn insert_edge(&mut self, from: String, to: String, role: String)
        requires
            old(self).wf(),
        ensures
            final(self).wf(),
            final(self).children(from@) == if old(self).children(from@).contains((role@, to@)) {
                old(self).children(from@)
            } else {
                old(self).children(from@).push((role@, to@))
            },
            forall|k: Seq<char>| k != from@ ==> #[trigger] final(self).children(k) == old(self).children(k),
            forall|k: Seq<char>| k != from@ ==> #[trigger] final(self).edges.lookup(k) == old(self).edges.lookup(k),
            final(self).mut_nodes == old(self).mut_nodes,
            final(self).node_meta_map == old(self).node_meta_map,
            final(self).runner == old(self).runner,
            final(self).start_node == old(self).start_node,
            final(self).name == old(self).name,
            final(self).state == old(self).state,
            final(self).revision == old(self).revision,
            final(self).id == old(self).id,
    {
        let mut list = match self.edges.remove(from.as_str()) {
            Some(v) => v,
            None => {
                let v: Vec<(String, String)> = Vec::new();
                assert(edge_view(v) =~= Seq::<(Seq<char>, Seq<char>)>::empty());
                v
            },
        };
        let ghost before = edge_view(list);
        assert(before == old(self).children(from@));
        assert(before.no_duplicates());
        if !contains_edge(&list, &role, &to) {
            list.push((role, to));
            proof {
                assert(edge_view(list) =~= before.push((role@, to@)));
                assert(edge_view(list).no_duplicates()) by {
                    let s = edge_view(list);
                    assert forall|a: int, b: int| 0 <= a < s.len() && 0 <= b < s.len() && a != b implies s[a] != s[b] by {
                        if a == s.len() - 1 {
                            assert(s[b] == before[b]);
                        } else if b == s.len() - 1 {
                            assert(s[a] == before[a]);
                        }
                    }
                }
            }
        }
        let ghost after = edge_view(list);
        let _ = self.edges.insert(from, list);
        assert forall|k: Seq<char>| #[trigger] self.edges.has(k) implies edge_view(self.edges.lookup(k)->0).no_duplicates() by {
            if k != from@ {
                assert(self.edges.lookup(k) == old(self).edges.lookup(k));
                assert(old(self).edges.has(k));
            }
        }
        assert forall|k: Seq<char>| k != from@ implies #[trigger] self.children(k) == old(self).children(k) by {
            assert(self.edges.lookup(k) == old(self).edges.lookup(k));
        }
    }

    /// The runtimes to create for the successors of node `id`, as (role, node)
    /// pairs: one per edge leaving `id`, followed by `("default", "_end")`
    /// when no edge has the default role and the graph has an `_end` node.
    /// Every edge of `id` must lead to a node of the graph.
    pub fn next_node_plan(&self, id: &str) -> (res: Vec<(String, String)>)
        requires
            self.wf(),
            forall|i: int| 0 <= i < self.children(id@).len() ==> self.mut_nodes.has(#[trigger] self.children(id@)[i].1),
        ensures
            edge_view(res) == if !has_role(self.children(id@), default_role()) && self.mut_nodes.has(end_node()) {
                self.children(id@).push((default_role(), end_node()))
            } else {
                self.children(id@)
            },
    {
        let mut plan = self.next_edges(id);
        let ghost children = edge_view(plan);
        let default = default_role_name();
        let has_default = any_role(&plan, &default);
        if !has_default && self.mut_nodes.contains_key("_end") {
            plan.push((default, String::from_str("_end")));
            assert(edge_view(plan) =~= children.push((default_role(), end_node())));
        }
        plan
    }

    /// Marks the graph active when no runtime of its runner is pending, and
    /// inactive otherwise, asking each runtime for its state.
    pub fn make_active_if_ready(&mut self)
        where R: RuntimeState,
        ensures
            status_reported(old(self).runner.nodes, final(self).state),
            final(self).runner == old(self).runner,
            final(self).mut_nodes == old(self).mut_nodes,
            final(self).node_meta_map == old(self).node_meta_map,
            final(self).edges == old(self).edges,
            final(self).start_node == old(self).start_node,
            final(self).name == old(self).name,
            final(self).revision == old(self).revision,
            final(self).id == old(self).id,
    {
        if any_pending(&self.runner.nodes) {
            self.state = GraphStatus::Inactive;
        } else {
            self.state = GraphStatus::Active;
        }
    }

    /// Starts a replacement of the runner: the revision is incremented and the
    /// new revision returned. The replacement is completed by `finish_replace`
    /// with runtimes built for this revision.
    pub fn begin_replace(&mut self) -> (rev: u64)
        requires
            old(self).revision < u64::MAX,
        ensures
            rev == old(self).revision + 1,
            final(self).revision == rev,
            final(self).state == old(self).state,
            final(self).runner == old(self).runner,
            final(self).mut_nodes == old(self).mut_nodes,
            final(self).node_meta_map == old(self).node_meta_map,
            final(self).edges == old(self).edges,
            final(self).start_node == old(self).start_node,
            final(self).name == old(self).name,
            final(self).id == old(self).id,
    {
        self.revision = self.revision + 1;
        self.revision
    }

    /// Completes the replacement of revision `rev` with the runtimes `nodes`.
    /// A replacement older than the graph's revision is dropped: nothing
    /// changes and no event is produced. Otherwise the graph becomes active
    /// exactly when no runtime reports that it is pending (each is asked),
    /// the runner is replaced by one with these runtimes, the graph's start
    /// node and that status, and the event announcing the replacement is
    /// returned.
    pub fn finish_replace(&mut self, rev: u64, nodes: NamedList<R>) -> (event: Option<ControlEvent>)
        where R: RuntimeState,
        requires
            old(self).wf(),
            nodes.wf(),
        ensures
            final(self).wf(),
            rev < old(self).revision ==> event is None && *final(self) == *old(self),
            rev >= old(self).revision ==> {
                let status = final(self).state;
                &&& status_reported(nodes, status)
                &&& final(self).runner.state == status
                &&& final(self).runner.nodes == nodes
                &&& final(self).runner.name == old(self).name
                &&& final(self).runner.start_node == old(self).start_node
                &&& final(self).revision == old(self).revision
                &&& final(self).mut_nodes == old(self).mut_nodes
                &&& final(self).node_meta_map == old(self).node_meta_map
                &&& final(self).edges == old(self).edges
                &&& final(self).start_node == old(self).start_node
                &&& final(self).name == old(self).name
                &&& final(self).id == old(self).id
                &&& event is Some
                &&& event->0.graph_id == old(self).id
                &&& event->0.graph_name == old(self).name
                &&& event->0.graph_status == status
                &&& event->0.event_type == ControlEventType::GraphReplaced
                &&& event->0.operator_names@.len() == 0
                &&& event->0.reason@ == replaced_reason(rev as nat, status)
            },
    {
        if rev < self.revision {
            return None;
        }
        let status = if any_pending(&nodes) { GraphStatus::Inactive } else { GraphStatus::Active };
        let mut reason = String::from_str("Graph runner updated (rev.");
        let num = decimal_string(rev);
        reason.append(num.as_str());
        reason.append(")");
        if status == GraphStatus::Inactive {
            reason.append(" - INACTIVE");
        }
        self.state = status;
        self.runner = Arc::new(GraphRunner {
            name: self.name.clone(),
            state: status,
            start_node: self.start_node.clone(),
            nodes,
        });
        Some(ControlEvent {
            graph_id: self.id.clone(),
            graph_name: self.name.clone(),
            graph_status: status,
            operator_names: Vec::new(),
            event_type: ControlEventType::GraphReplaced,
            reason,
        })
    }

    /// The settings to send to the graph's nodes: for each node (in order)
    /// that has an entry under the graph's name in `settings`, that entry.
    /// Each such entry must be an object.
    pub fn apply_settings(&self, settings: &Json) -> (res: Vec<(String, Json)>)
        requires
            settings_are_objects(self.mut_nodes.names_view(), jview(*settings), self.name@),
        ensures
            res@.map_values(|p: (String, Json)| (p.0@, jview(p.1))) == settings_targets(self.mut_nodes.names_view(), jview(*settings), self.name@),
    {
        let ghost names = self.mut_nodes.names_view();
        let mut out: Vec<(String, Json)> = Vec::new();
        let g = match settings.get(self.name.as_str()) {
            Some(g) => g,
            None => {
                proof {
                    assert forall|k: int| 0 <= k <= names.len() implies settings_targets(names.take(k), jview(*settings), self.name@) == Seq::<(Seq<char>, JsonView)>::empty() by {
                        lemma_no_targets(names.take(k), jview(*settings), self.name@);
                    }
                    assert(names.take(names.len() as int) =~= names);
                    assert(out@.map_values(|p: (String, Json)| (p.0@, jview(p.1))) =~= Seq::<(Seq<char>, JsonView)>::empty());
                }
                return out;
            },
        };
        let mut i: usize = 0;
        while i < self.mut_nodes.len()
            invariant
                i <= self.mut_nodes.pairs().len(),
                names == self.mut_nodes.names_view(),
                names.len() == self.mut_nodes.pairs().len(),
                member(jview(*settings), self.name@) == Some(jview(*g)),
                out@.map_values(|p: (String, Json)| (p.0@, jview(p.1))) == settings_targets(names.take(i as int), jview(*settings), self.name@),
            decreases self.mut_nodes.pairs().len() - i,
        {
            let id = self.mut_nodes.name_at(i);
            assert(names[i as int] == id@);
            assert(names.take(i + 1).drop_last() =~= names.take(i as int));
            assert(names.take(i + 1).last() == id@);
            match g.get(id.as_str()) {
                Some(v) => {
                    let ghost before = out@;
                    out.push((id.clone(), v.deep_clone()));
                    assert(out@.map_values(|p: (String, Json)| (p.0@, jview(p.1))) =~= before.map_values(|p: (String, Json)| (p.0@, jview(p.1))).push((id@, jview(*v))));
                },
                None => {},
            }
            i = i + 1;
        }
        assert(names.take(names.len() as int) =~= names);
        out
    }

    /// The operator of the start node and the runtime it is started with,
    /// when both exist (the start hook sends the start command to it).
    pub fn post_start_targets(&self) -> (res: Option<(&N, &R)>)
        requires
            self.wf(),
        ensures
            match res {
                Some((n, r)) => self.mut_nodes.lookup(self.start_node@) == Some(*n)
                    && self.runner.nodes.lookup(self.runner.start_node@) == Some(*r),
                None => self.mut_nodes.lookup(self.start_node@) is None
                    || self.runner.nodes.lookup(self.runner.start_node@) is None,
            },
    {
        match self.mut_nodes.get(self.start_node.as_str()) {
            None => None,
            Some(n) => match self.runner.start_node() {
                None => None,
                Some(r) => Some((n, r)),
            },
        }
    }

    /// The fully qualified name of node `id`, or `"N/A"` when it has no
    /// metadata.
    pub fn node_fqn(&self, id: &str) -> (res: String)
        requires
            self.wf(),
        ensures
            res@ == match self.node_meta_map.lookup(id@) {
                Some(m) => crate::meta::fqn_text(m.graph@, m.name@, m.operator@, m.engine_view()),
                None => "N/A"@,
            },
    {
        match self.node_meta_map.get(id) {
            Some(m) => m.fqn(),
            None => String::from_str("N/A"),
        }
    }
}

/// Whether some edge has this role.
pub open spec fn has_role(edges: Seq<(Seq<char>, Seq<char>)>, role: Seq<char>) -> bool {
    exists|i: int| 0 <= i < edges.len() && #[trigger] edges[i].0 == role
}

/// Whether some edge of the list has role `role`.
pub fn any_role(edges: &Vec<(String, String)>, role: &String) -> (res: bool)
    ensures
        res == has_role(edge_view(*edges), role@),
{
    let mut i: usize = 0;
    while i < edges.len()
        invariant
            i <= edges.len(),
            forall|j: int| 0 <= j < i ==> edge_view(*edges)[j].0 != role@,
        decreases edges.len() - i,
    {
        if edges[i].0 == *role {
            assert(edge_view(*edges)[i as int].0 == role@);
            return true;
        }
        i = i + 1;
    }
    false
}

/// Whether the list holds the edge (`role`, `to`).
pub fn contains_edge(edges: &Vec<(String, String)>, role: &String, to: &String) -> (res: bool)
    ensures
        res == edge_view(*edges).contains((role@, to@)),
{
    let mut i: usize = 0;
    while i < edges.len()
        invariant
            i <= edges.len(),
            forall|j: int| 0 <= j < i ==> edge_view(*edges)[j] != (role@, to@),
        decreases edges.len() - i,
    {
        if edges[i].0 == *role && edges[i].1 == *to {
            assert(edge_view(*edges)[i as int] == (role@, to@));
            return true;
        }
        i = i + 1;
    }
    false
}

/// A copy of an edge list.
pub fn clone_edges(v: &Vec<(String, String)>) -> (res: Vec<(String, String)>)
    ensures
        edge_view(res) == edge_view(*v),
{
    let mut res: Vec<(String, String)> = Vec::new();
    let mut i: usize = 0;
    while i < v.len()
        invariant
            i <= v.len(),
            res@.len() == i,
            forall|j: int| 0 <= j < i ==> #[trigger] res@[j].0@ == v@[j].0@ && res@[j].1@ == v@[j].1@,
        decreases v.len() - i,
    {
        res.push((v[i].0.clone(), v[i].1.clone()));
        i = i + 1;
    }
    assert(edge_view(res) =~= edge_view(*v));
    res
}

/// The start node's operator and runtime of a graph, when both exist.
pub open spec fn start_pair<N, R>(g: Graph<N, R>) -> Option<(N, R)> {
    match (g.mut_nodes.lookup(g.start_node@), g.runner.nodes.lookup(g.runner.start_node@)) {
        (Some(n), Some(r)) => Some((n, r)),
        _ => None,
    }
}

/// The start pairs of graphs, in order, for the graphs that have one.
pub open spec fn start_pairs<N, R>(gs: Seq<Graph<N, R>>) -> Seq<(N, R)>
    decreases gs.len(),
{
    if gs.len() == 0 {
        Seq::empty()
    } else {
        let rest = start_pairs(gs.drop_last());
        match start_pair(gs.last()) {
            Some(p) => rest.push(p),
            None => rest,
        }
    }
}

/// After all graphs have started: for each graph, in order, the start
/// node's operator and the runtime it is started with (graphs missing
/// either are skipped). The start command goes to each.
pub fn post_graph_hook<'a, N, R>(graphs: &Vec<&'a Graph<N, R>>) -> (res: Vec<(&'a N, &'a R)>)
    requires
        forall|i: int| 0 <= i < graphs@.len() ==> (#[trigger] graphs@[i]).wf(),
    ensures
        res@.map_values(|p: (&N, &R)| (*p.0, *p.1)) == start_pairs(graphs@.map_values(|g: &Graph<N, R>| *g)),
{
    let ghost gs = graphs@.map_values(|g: &Graph<N, R>| *g);
    let mut out: Vec<(&'a N, &'a R)> = Vec::new();
    let mut i: usize = 0;
    while i < graphs.len()
        invariant
            i <= graphs@.len(),
            gs == graphs@.map_values(|g: &Graph<N, R>| *g),
            forall|j: int| 0 <= j < graphs@.len() ==> (#[trigger] graphs@[j]).wf(),
            out@.map_values(|p: (&N, &R)| (*p.0, *p.1)) == start_pairs(gs.take(i as int)),
        decreases graphs@.len() - i,
    {
        let g: &'a Graph<N, R> = graphs[i];
        assert(gs.take(i + 1).drop_last() =~= gs.take(i as int));
        assert(gs.take(i + 1).last() == *g);
        match g.post_start_targets() {
            Some(p) => {
                let ghost before = out@;
                out.push(p);
                assert(out@.map_values(|p: (&N, &R)| (*p.0, *p.1)) =~= before.map_values(|p: (&N, &R)| (*p.0, *p.1)).push((*p.0, *p.1)));
            },
            None => {},
        }
        i = i + 1;
    }
    assert(gs.take(gs.len() as int) =~= gs);
    out
}

impl<N, R> Graph<N, R> {
    /// The runtimes to build for a replacement: each node (in order) with
    /// the fully qualified name its runtime is given.
    pub fn runtime_contexts(&self) -> (res: Vec<(String, String)>)
        requires
            self.wf(),
        ensures
            res@.len() == self.mut_nodes.pairs().len(),
            forall|i: int| 0 <= i < res@.len() ==> (#[trigger] res@[i]).0@ == self.mut_nodes.names_view()[i]
                && res@[i].1@ == match self.node_meta_map.lookup(self.mut_nodes.names_view()[i]) {
                    Some(m) => crate::meta::fqn_text(m.graph@, m.name@, m.operator@, m.engine_view()),
                    None => "N/A"@,
                },
    {
        let mut out: Vec<(String, String)> = Vec::new();
        let mut i: usize = 0;
        while i < self.mut_nodes.len()
            invariant
                i <= self.mut_nodes.pairs().len(),
                self.wf(),
                out@.len() == i,
                forall|j: int| 0 <= j < i ==> (#[trigger] out@[j]).0@ == self.mut_nodes.names_view()[j]
                    && out@[j].1@ == match self.node_meta_map.lookup(self.mut_nodes.names_view()[j]) {
                        Some(m) => crate::meta::fqn_text(m.graph@, m.name@, m.operator@, m.engine_view()),
                        None => "N/A"@,
                    },
            decreases self.mut_nodes.pairs().len() - i,
        {
            let id = self.mut_nodes.name_at(i);
            let fqn = self.node_fqn(id.as_str());
            out.push((id.clone(), fqn));
            i = i + 1;
        }
        out
    }
}

/// How a graph processes requests: with its basic processor (opaque `P`).
#[derive(Debug)]
pub enum ProcessorType<P> {
    Basic { processor: P },
}

impl<P> ProcessorType<P> {
    /// The basic processing of a graph.
    pub fn new_basic(processor: P) -> (res: Self)
        ensures
            res == (ProcessorType::Basic { processor }),
    {
        ProcessorType::Basic { processor }
    }
}

/// The graph's links: `x` links to `y` when an edge leaves `x` for `y`.
pub open spec fn graph_link<N, R>(g: Graph<N, R>) -> Link {
    |x: Seq<char>, y: Seq<char>| exists|r: Seq<char>| #[trigger] g.children(x).contains((r, y))
}

impl<N, R> Graph<N, R> {
    /// Every edge of the graph as (from, to).
    pub fn edge_pairs(&self) -> (res: Vec<(String, String)>)
        requires
            self.wf(),
        ensures
            forall|x: Seq<char>, y: Seq<char>| #[trigger] pair_view(res@).contains((x, y))
                <==> exists|r: Seq<char>| #[trigger] self.children(x).contains((r, y)),
    {
        let ghost ps = self.edges.pairs();
        let ghost names = self.edges.names_view();
        let mut out: Vec<(String, String)> = Vec::new();
        let mut i: usize = 0;
        while i < self.edges.len()
            invariant
                i <= ps.len(),
                ps == self.edges.pairs(),
                names == self.edges.names_view(),
                self.wf(),
                forall|x: Seq<char>, y: Seq<char>| #[trigger] pair_view(out@).contains((x, y))
                    <==> exists|a: int, r: Seq<char>| 0 <= a < i && ps[a].0 == x && #[trigger] edge_view(ps[a].1).contains((r, y)),
            decreases ps.len() - i,
        {
            let name = self.edges.name_at(i);
            let list = self.edges.value_at(i);
            let ghost before = pair_view(out@);
            let mut j: usize = 0;
            while j < list.len()
                invariant
                    j <= list@.len(),
                    i < ps.len(),
                    ps == self.edges.pairs(),
                    name@ == ps[i as int].0,
                    *list == ps[i as int].1,
                    before.len() <= pair_view(out@).len(),
                    forall|m: int| 0 <= m < before.len() ==> pair_view(out@)[m] == before[m],
                    pair_view(out@).len() == before.len() + j,
                    forall|m: int| 0 <= m < j ==> pair_view(out@)[before.len() + m] == (name@, edge_view(*list)[m].1),
                decreases list@.len() - j,
            {
                let ghost prev = out@;
                out.push((name.clone(), list[j].1.clone()));
                assert(pair_view(out@) =~= pair_view(prev).push((name@, edge_view(*list)[j as int].1)));
                j = j + 1;
            }
            proof {
                let now = pair_view(out@);
                assert forall|x: Seq<char>, y: Seq<char>| #[trigger] now.contains((x, y))
                    <==> exists|a: int, r: Seq<char>| 0 <= a < i + 1 && ps[a].0 == x && #[trigger] edge_view(ps[a].1).contains((r, y)) by {
                    if now.contains((x, y)) {
                        let m = choose|m: int| 0 <= m < now.len() && now[m] == (x, y);
                        if m < before.len() {
                            assert(before[m] == (x, y));
                            assert(before.contains((x, y)));
                        } else {
                            let t = m - before.len();
                            assert(now[before.len() + t] == (name@, edge_view(*list)[t].1));
                            let r = edge_view(*list)[t].0;
                            assert(edge_view(ps[i as int].1)[t] == (r, y));
                            assert(edge_view(ps[i as int].1).contains((r, y)));
                        }
                    }
                    if exists|a: int, r: Seq<char>| 0 <= a < i + 1 && ps[a].0 == x && #[trigger] edge_view(ps[a].1).contains((r, y)) {
                        let (a, r) = choose|a: int, r: Seq<char>| 0 <= a < i + 1 && ps[a].0 == x && #[trigger] edge_view(ps[a].1).contains((r, y));
                        if a < i {
                            assert(before.contains((x, y)));
                            let m = choose|m: int| 0 <= m < before.len() && before[m] == (x, y);
                            assert(now[m] == (x, y));
                        } else {
                            let t = choose|t: int| 0 <= t < edge_view(ps[a].1).len() && edge_view(ps[a].1)[t] == (r, y);
                            assert(now[before.len() + t] == (x, y));
                        }
                    }
                }
            }
            i = i + 1;
        }
        proof {
            assert forall|x: Seq<char>, y: Seq<char>| #[trigger] pair_view(out@).contains((x, y))
                <==> exists|r: Seq<char>| #[trigger] self.children(x).contains((r, y)) by {
                if pair_view(out@).contains((x, y)) {
                    let (a, r) = choose|a: int, r: Seq<char>| 0 <= a < ps.len() && ps[a].0 == x && #[trigger] edge_view(ps[a].1).contains((r, y));
                    self.edges.lemma_lookup_at(a);
                    assert(self.children(x).contains((r, y)));
                }
                if exists|r: Seq<char>| #[trigger] self.children(x).contains((r, y)) {
                    let r = choose|r: Seq<char>| #[trigger] self.children(x).contains((r, y));
                    assert(self.edges.has(x));
                    let a = names.index_of(x);
                    assert(names[a] == x);
                    self.edges.lemma_lookup_at(a);
                    assert(ps[a].0 == x);
                    assert(edge_view(ps[a].1).contains((r, y)));
                }
            }
        }
        out
    }

    /// Whether node `from` reaches node `to` along the graph's edges.
    pub fn has_path(&self, from: &String, to: &String) -> (res: bool)
        requires
            self.wf(),
        ensures
            res == reaches(graph_link(*self), from@, to@),
    {
        let pairs = self.edge_pairs();
        let res = path_exists(&pairs, from, to);
        proof {
            assert(graph_link(*self) =~= flat_link(pair_view(pairs@)));
        }
        res
    }
}

impl<N, R> Graph<N, R> {
    /// Adds a directed edge from `from` to `to` with `role` (an edge already
    /// present is not duplicated). Returns an error, and changes nothing,
    /// when either node is not in the graph ("Both nodes must be in the
    /// Graph") or when the edge would create a cycle, that is when `to`
    /// already reaches `from` ("Adding this edge would create a cycle").
    pub fn add_edge(&mut self, from: String, to: String, role: String) -> (res: Result<(), String>)
        requires
            old(self).wf(),
        ensures
            final(self).wf(),
            !(old(self).mut_nodes.has(from@) && old(self).mut_nodes.has(to@)) ==> (res matches Err(e)
                && e@ == missing_nodes_text() && *final(self) == *old(self)),
            old(self).mut_nodes.has(from@) && old(self).mut_nodes.has(to@) && reaches(graph_link(*old(self)), to@, from@)
                ==> (res matches Err(e) && e@ == cycle_text() && *final(self) == *old(self)),
            old(self).mut_nodes.has(from@) && old(self).mut_nodes.has(to@) && !reaches(graph_link(*old(self)), to@, from@)
                ==> (res is Ok && edge_inserted(*old(self), *final(self), from@, to@, role@)),
    {
        if !(self.mut_nodes.contains_key(from.as_str()) && self.mut_nodes.contains_key(to.as_str())) {
            return Err(String::from_str("Both nodes must be in the Graph"));
        }
        if self.has_path(&to, &from) {
            return Err(String::from_str("Adding this edge would create a cycle"));
        }
        self.insert_edge(from, to, role);
        Ok(())
    }
}

/// Adding an edge never closes a cycle: when `add_edge` succeeds on a graph
/// without cycles, the graph is still without cycles.
pub proof fn add_edge_keeps_acyclic<N, R>(old: Graph<N, R>, new: Graph<N, R>, from: Seq<char>, to: Seq<char>, role: Seq<char>)
    requires
        acyclic(graph_link(old)),
        !reaches(graph_link(old), to, from),
        edge_inserted(old, new, from, to, role),
    ensures
        acyclic(graph_link(new)),
{
    let oc = old.children(from);
    let nc = new.children(from);
    let e = (role, to);
    assert forall|x: Seq<char>, y: Seq<char>| #[trigger] graph_link(new)(x, y)
        == (graph_link(old)(x, y) || (x == from && y == to)) by {
        if x == from {
            if graph_link(new)(x, y) {
                let r = choose|r: Seq<char>| #[trigger] new.children(x).contains((r, y));
                if !oc.contains(e) && (r, y) != e {
                    let i = choose|i: int| 0 <= i < nc.len() && nc[i] == (r, y);
                    assert(nc == oc.push(e));
                    assert(i < oc.len());
                    assert(oc[i] == (r, y));
                    assert(old.children(x).contains((r, y)));
                }
            }
            if graph_link(old)(x, y) {
                let r = choose|r: Seq<char>| #[trigger] old.children(x).contains((r, y));
                if !oc.contains(e) {
                    let i = choose|i: int| 0 <= i < oc.len() && oc[i] == (r, y);
                    assert(nc[i] == (r, y));
                }
                assert(new.children(x).contains((r, y)));
            }
            if y == to {
                if !oc.contains(e) {
                    assert(nc[oc.len() as int] == e);
                }
                assert(new.children(x).contains((role, to)));
            }
        } else {
            assert(new.children(x) == old.children(x));
        }
    }
    extra_link_keeps_acyclic(graph_link(old), graph_link(new), from, to);
}

/// A graph without edges has no cycle.
pub proof fn no_edges_no_cycle<N, R>(g: Graph<N, R>)
    requires
        forall|x: Seq<char>| #[trigger] g.children(x).len() == 0,
    ensures
        acyclic(graph_link(g)),
{
    assert forall|p: Seq<Seq<char>>| #[trigger] is_path(graph_link(g), p) && p.len() >= 2 implies p[0] != p.last() by {
        assert(linked_at(graph_link(g), p, 0));
        let r = choose|r: Seq<char>| #[trigger] g.children(p[0]).contains((r, p[1]));
        assert(g.children(p[0]).len() == 0);
    }
}

impl<N, R> Graph<N, R> {
    /// The nodes that get an external port: the endpoint nodes other than
    /// `_end`, in order; `kinds[i]` is the kind of node `i`.
    pub fn port_targets(&self, kinds: &Vec<OperatorKind>) -> (res: Vec<String>)
        requires
            self.wf(),
            kinds@.len() == self.mut_nodes.pairs().len(),
        ensures
            res@.map_values(|s: String| s@) == port_nodes(self.mut_nodes.names_view(), kinds@),
    {
        let ghost names = self.mut_nodes.names_view();
        let mut out: Vec<String> = Vec::new();
        let end = String::from_str("_end");
        let mut i: usize = 0;
        while i < kinds.len()
            invariant
                i <= kinds@.len(),
                kinds@.len() == names.len(),
                names == self.mut_nodes.names_view(),
                names.len() == self.mut_nodes.pairs().len(),
                end@ == end_node(),
                out@.map_values(|s: String| s@) == port_nodes(names.take(i as int), kinds@.take(i as int)),
            decreases kinds@.len() - i,
        {
            let id = self.mut_nodes.name_at(i);
            assert(names.take(i + 1).drop_last() =~= names.take(i as int));
            assert(kinds@.take(i + 1).drop_last() =~= kinds@.take(i as int));
            assert(names.take(i + 1).last() == id@);
            assert(kinds@.take(i + 1).last() == kinds@[i as int]);
            if kinds[i] == OperatorKind::Endpoint && *id != end {
                let ghost before = out@;
                out.push(id.clone());
                assert(out@.map_values(|s: String| s@) =~= before.map_values(|s: String| s@).push(id@));
            }
            i = i + 1;
        }
        assert(names.take(names.len() as int) =~= names);
        assert(kinds@.take(kinds@.len() as int) =~= kinds@);
        out
    }
}

/// The nodes of `names` that get a port, given each node's kind.
pub open spec fn port_nodes(names: Seq<Seq<char>>, kinds: Seq<OperatorKind>) -> Seq<Seq<char>>
    decreases names.len(),
{
    if names.len() == 0 || kinds.len() == 0 {
        Seq::empty()
    } else {
        let rest = port_nodes(names.drop_last(), kinds.drop_last());
        if kinds.last() == OperatorKind::Endpoint && names.last() != end_node() {
            rest.push(names.last())
        } else {
            rest
        }
    }
}

} // verus!
