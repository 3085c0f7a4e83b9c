//! The registry of graphs by name, and the start-up bookkeeping that waits
//! for every registered graph to become active.

use vstd::prelude::*;
use crate::named::NamedList;
use crate::status::{ControlEvent, ControlEventType, GraphStatus};
use crate::graph::{Graph, settings_targets, settings_are_objects};
use crate::json::{Json, JsonView, jview};

verus! {

/// Graphs indexed by their unique names.
pub struct GraphRegistry<G> {
    pub graphs: NamedList<G>,
}

/// The error text of a deletion of an unknown graph.
pub open spec fn missing_graph_text(name: Seq<char>) -> Seq<char> {
    "Graph with name "@ + name + " does not exist"@
}

/// Registry `after` is `before` with `graph` registered under `name`.
pub open spec fn registers<G>(before: GraphRegistry<G>, after: GraphRegistry<G>, name: Seq<char>, graph: G) -> bool {
    forall|k: Seq<char>|
        #[trigger] after.graphs.lookup(k) == if k == name {
            Some(graph)
        } else {
            before.graphs.lookup(k)
        }
}

/// Registry `after` is `before` without a graph under `name`.
pub open spec fn unregisters<G>(before: GraphRegistry<G>, after: GraphRegistry<G>, name: Seq<char>) -> bool {
    forall|k: Seq<char>|
        #[trigger] after.graphs.lookup(k) == if k == name {
            None
        } else {
            before.graphs.lookup(k)
        }
}

/// Deleting a graph frees its name: afterwards no graph is registered under
/// it, so a graph of that name can be registered again (what `add_graph`
/// requires), and that graph is then the one found under the name, while
/// every other name keeps its graph.
pub proof fn delete_then_add<G>(r0: GraphRegistry<G>, r1: GraphRegistry<G>, r2: GraphRegistry<G>, name: Seq<char>, graph: G)
    requires
        r0.wf(),
        r1.wf(),
        unregisters(r0, r1, name),
        registers(r1, r2, name, graph),
    ensures
        !r1.graphs.has(name),
        r2.graphs.lookup(name) == Some(graph),
        forall|k: Seq<char>| k != name ==> #[trigger] r2.graphs.lookup(k) == r0.graphs.lookup(k),
{
    assert(r1.graphs.lookup(name) is None);
    assert(r2.graphs.lookup(name) == Some(graph));
}

impl<G> GraphRegistry<G> {
    /// Well-formedness: graph names are unique.
    pub open spec fn wf(&self) -> bool {
        self.graphs.wf()
    }

    /// An empty registry.
    pub fn new() -> (res: Self)
        ensures
            res.wf(),
            res.graphs.pairs() == Seq::<(Seq<char>, G)>::empty(),
    {
        GraphRegistry { graphs: NamedList::new() }
    }

    /// Whether a graph of that name is registered.
    pub fn contains_graph(&self, name: &str) -> (res: bool)
        requires
            self.wf(),
        ensures
            res == self.graphs.has(name@),
    {
        self.graphs.contains_key(name)
    }

    /// Registers a graph under a name that no registered graph has (a second
    /// graph of the same name is refused by the caller).
    pub fn add_graph(&mut self, name: String, graph: G)
        requires
            old(self).wf(),
            !old(self).graphs.has(name@),
        ensures
            final(self).wf(),
            final(self).graphs.pairs() == old(self).graphs.pairs().push((name@, graph)),
            registers(*old(self), *final(self), name@, graph),
    {
        let _ = self.graphs.insert(name, graph);
    }

    /// Removes and returns the graph registered under `name`; an unknown name
    /// gives the error "Graph with name NAME does not exist".
    pub fn delete_graph(&mut self, name: &str) -> (res: Result<G, String>)
        requires
            old(self).wf(),
        ensures
            final(self).wf(),
            match res {
                Ok(g) => old(self).graphs.lookup(name@) == Some(g),
                Err(e) => !old(self).graphs.has(name@) && e@ == missing_graph_text(name@)
                    && final(self).graphs.pairs() == old(self).graphs.pairs(),
            },
            unregisters(*old(self), *final(self), name@),
    {
        match self.graphs.remove(name) {
            Some(g) => Ok(g),
            None => {
                let mut msg = String::from_str("Graph with name ");
                msg.append(name);
                msg.append(" does not exist");
                Err(msg)
            },
        }
    }

    /// The graph registered under `name`.
    pub fn get_graph_by_name(&self, name: &str) -> (res: Option<&G>)
        requires
            self.wf(),
        ensures
            match res {
                Some(g) => self.graphs.lookup(name@) == Some(*g),
                None => self.graphs.lookup(name@) is None,
            },
    {
        self.graphs.get(name)
    }

    /// The registered graphs, in registration order.
    pub fn get_graphs(&self) -> (res: Vec<&G>)
        requires
            self.wf(),
        ensures
            res@.len() == self.graphs.pairs().len(),
            forall|i: int| 0 <= i < res@.len() ==> *#[trigger] res@[i] == self.graphs.pairs()[i].1,
    {
        let mut res: Vec<&G> = Vec::new();
        let mut i: usize = 0;
        while i < self.graphs.len()
            invariant
                i <= self.graphs.pairs().len(),
                res@.len() == i,
                forall|j: int| 0 <= j < i ==> *#[trigger] res@[j] == self.graphs.pairs()[j].1,
            decreases self.graphs.pairs().len() - i,
        {
            res.push(self.graphs.value_at(i));
            i = i + 1;
        }
        res
    }

    /// The names of the registered graphs, in registration order.
    pub fn graph_names(&self) -> (res: Vec<String>)
        requires
            self.wf(),
        ensures
            res@.map_values(|s: String| s@) == self.graphs.names_view(),
    {
        self.graphs.names()
    }

    /// Removes every graph.
    pub fn clear(&mut self)
        ensures
            final(self).wf(),
            final(self).graphs.pairs() == Seq::<(Seq<char>, G)>::empty(),
    {
        self.graphs.clear();
    }
}

/// A graph is still pending unless it is known to be active: a graph that
/// could not be read counts as pending.
pub open spec fn is_pending(status: Option<GraphStatus>) -> bool {
    status != Some(GraphStatus::Active)
}

/// The names of the entries that are pending, in order.
pub open spec fn pending_names(entries: Seq<(Seq<char>, Option<GraphStatus>)>) -> Seq<Seq<char>>
    decreases entries.len(),
{
    if entries.len() == 0 {
        Seq::empty()
    } else {
        let rest = pending_names(entries.drop_last());
        if is_pending(entries.last().1) {
            rest.push(entries.last().0)
        } else {
            rest
        }
    }
}

/// The graphs that are not active yet, given each registered graph's name and
/// its runner status (`None` when the graph could not be read).
pub fn get_pending(entries: &Vec<(String, Option<GraphStatus>)>) -> (res: Vec<String>)
    ensures
        res@.map_values(|s: String| s@) == pending_names(
            entries@.map_values(|e: (String, Option<GraphStatus>)| (e.0@, e.1)),
        ),
{
    let ghost model = entries@.map_values(|e: (String, Option<GraphStatus>)| (e.0@, e.1));
    let mut res: Vec<String> = Vec::new();
    let mut i: usize = 0;
    while i < entries.len()
        invariant
            i <= entries.len(),
            model == entries@.map_values(|e: (String, Option<GraphStatus>)| (e.0@, e.1)),
            res@.map_values(|s: String| s@) == pending_names(model.take(i as int)),
        decreases entries.len() - i,
    {
        assert(model.take(i + 1).drop_last() == model.take(i as int));
        let ghost before = res@;
        if entries[i].1 != Some(GraphStatus::Active) {
            res.push(entries[i].0.clone());
            assert(res@.map_values(|s: String| s@) =~= before.map_values(|s: String| s@).push(model[i as int].0));
        }
        i = i + 1;
    }
    assert(model.take(entries@.len() as int) == model);
    res
}

/// `s` without its first occurrence of `x` (unchanged when `x` is absent).
pub open spec fn remove_first(s: Seq<Seq<char>>, x: Seq<char>) -> Seq<Seq<char>> {
    if s.contains(x) {
        s.remove(s.index_of_first(x)->0)
    } else {
        s
    }
}

/// Whether an event reports that a graph's runner was replaced and the graph
/// is active.
pub open spec fn reports_active(event: ControlEvent) -> bool {
    event.event_type == ControlEventType::GraphReplaced && event.graph_status == GraphStatus::Active
}

/// One step of the start-up wait: an event reporting that a pending graph
/// became active removes (its first occurrence) from the pending list.
/// Returns whether nothing is pending any more.
pub fn apply_startup_event(pending: &mut Vec<String>, event: &ControlEvent) -> (done: bool)
    ensures
        final(pending)@.map_values(|s: String| s@) == if reports_active(*event) {
            remove_first(old(pending)@.map_values(|s: String| s@), event.graph_name@)
        } else {
            old(pending)@.map_values(|s: String| s@)
        },
        done == (final(pending)@.len() == 0),
{
    let ghost old_names = pending@.map_values(|s: String| s@);
    if event.event_type == ControlEventType::GraphReplaced && event.graph_status == GraphStatus::Active {
        let mut i: usize = 0;
        while i < pending.len()
            invariant
                i <= pending.len(),
                pending@.map_values(|s: String| s@) == old_names,
                reports_active(*event),
                old_names == old(pending)@.map_values(|s: String| s@),
                forall|j: int| 0 <= j < i ==> old_names[j] != event.graph_name@,
            decreases pending.len() - i,
        {
            if pending[i] == event.graph_name {
                proof {
                    assert(old_names[i as int] == event.graph_name@);
                    assert(old_names.contains(event.graph_name@));
                    old_names.index_of_first_ensures(event.graph_name@);
                    let f = old_names.index_of_first(event.graph_name@)->0;
                    assert(f == i);
                }
                let ghost before = pending@;
                pending.remove(i);
                assert(pending@.map_values(|s: String| s@) =~= old_names.remove(i as int));
                assert(reports_active(*event));
                assert(remove_first(old_names, event.graph_name@) == old_names.remove(i as int));
                return pending.len() == 0;
            }
            assert(old_names[i as int] != event.graph_name@);
            i = i + 1;
        }
        assert(!old_names.contains(event.graph_name@));
    }
    pending.len() == 0
}

/// A name is pending exactly when some entry of that name is not known to
/// be active.
pub proof fn pending_iff_not_active(entries: Seq<(Seq<char>, Option<GraphStatus>)>, n: Seq<char>)
    ensures
        pending_names(entries).contains(n)
            <==> exists|i: int| 0 <= i < entries.len() && (#[trigger] entries[i]).0 == n && is_pending(entries[i].1),
    decreases entries.len(),
{
    if entries.len() > 0 {
        let init = entries.drop_last();
        pending_iff_not_active(init, n);
        let rest = pending_names(init);
        if pending_names(entries).contains(n) {
            if is_pending(entries.last().1) && rest.push(entries.last().0)[rest.len() as int] == n && !rest.contains(n) {
                assert(entries[entries.len() - 1].0 == n);
            } else if rest.contains(n) {
                let i = choose|i: int| 0 <= i < init.len() && (#[trigger] init[i]).0 == n && is_pending(init[i].1);
                assert(entries[i] == init[i]);
            } else {
                let j = choose|j: int| 0 <= j < pending_names(entries).len() && pending_names(entries)[j] == n;
                assert(is_pending(entries.last().1));
                assert(j == rest.len());
                assert(entries[entries.len() - 1].0 == n);
            }
        }
        if exists|i: int| 0 <= i < entries.len() && (#[trigger] entries[i]).0 == n && is_pending(entries[i].1) {
            let i = choose|i: int| 0 <= i < entries.len() && (#[trigger] entries[i]).0 == n && is_pending(entries[i].1);
            if i < entries.len() - 1 {
                assert(init[i] == entries[i]);
                assert(rest.contains(n));
                if is_pending(entries.last().1) {
                    let k = choose|k: int| 0 <= k < rest.len() && rest[k] == n;
                    assert(rest.push(entries.last().0)[k] == n);
                }
            } else {
                assert(rest.push(entries.last().0)[rest.len() as int] == n);
            }
        }
    }
}

/// A graph reported active is no longer pending, the other pending graphs
/// stay pending, and no graph is listed twice.
pub proof fn active_graph_leaves_pending(pending: Seq<Seq<char>>, x: Seq<char>)
    requires
        pending.no_duplicates(),
    ensures
        !remove_first(pending, x).contains(x),
        remove_first(pending, x).no_duplicates(),
        forall|y: Seq<char>| y != x ==> (#[trigger] remove_first(pending, x).contains(y) == pending.contains(y)),
        pending.contains(x) ==> remove_first(pending, x).len() == pending.len() - 1,
{
    if pending.contains(x) {
        pending.index_of_first_ensures(x);
        let i = pending.index_of_first(x)->0;
        let r = pending.remove(i);
        assert(r.len() == pending.len() - 1);
        assert forall|k: int| 0 <= k < r.len() implies #[trigger] r[k] == if k < i { pending[k] } else { pending[k + 1] } by {}
        assert(!r.contains(x)) by {
            if r.contains(x) {
                let k = choose|k: int| 0 <= k < r.len() && r[k] == x;
                if k < i {
                    assert(pending[k] == x);
                } else {
                    assert(pending[k + 1] == x);
                    assert(pending[i] == x);
                }
            }
        }
        assert forall|a: int, b: int| 0 <= a < r.len() && 0 <= b < r.len() && a != b implies r[a] != r[b] by {
            let a2 = if a < i { a } else { a + 1 };
            let b2 = if b < i { b } else { b + 1 };
            assert(r[a] == pending[a2]);
            assert(r[b] == pending[b2]);
        }
        assert forall|y: Seq<char>| y != x implies (#[trigger] r.contains(y) == pending.contains(y)) by {
            if pending.contains(y) {
                let k = choose|k: int| 0 <= k < pending.len() && pending[k] == y;
                assert(k != i);
                if k < i {
                    assert(r[k] == y);
                } else {
                    assert(r[k - 1] == y);
                }
            }
            if r.contains(y) {
                let k = choose|k: int| 0 <= k < r.len() && r[k] == y;
                if k < i {
                    assert(pending[k] == y);
                } else {
                    assert(pending[k + 1] == y);
                }
            }
        }
    }
}

/// The pending list after the graphs `names` reported active, in order.
pub open spec fn after_reports(pending: Seq<Seq<char>>, names: Seq<Seq<char>>) -> Seq<Seq<char>>
    decreases names.len(),
{
    if names.len() == 0 {
        pending
    } else {
        remove_first(after_reports(pending, names.drop_last()), names.last())
    }
}

proof fn lemma_after_reports(pending: Seq<Seq<char>>, names: Seq<Seq<char>>)
    requires
        pending.no_duplicates(),
    ensures
        after_reports(pending, names).no_duplicates(),
        forall|y: Seq<char>| #[trigger] after_reports(pending, names).contains(y) == (pending.contains(y) && !names.contains(y)),
    decreases names.len(),
{
    if names.len() > 0 {
        let init = names.drop_last();
        let x = names.last();
        lemma_after_reports(pending, init);
        let before = after_reports(pending, init);
        active_graph_leaves_pending(before, x);
        assert forall|y: Seq<char>| #[trigger] after_reports(pending, names).contains(y) == (pending.contains(y) && !names.contains(y)) by {
            if names.contains(y) && y != x {
                let k = choose|k: int| 0 <= k < names.len() && names[k] == y;
                assert(init[k] == y);
            }
            if init.contains(y) {
                let k = choose|k: int| 0 <= k < init.len() && init[k] == y;
                assert(names[k] == y);
            }
            if y == x {
                assert(names[names.len() - 1] == x);
            }
        }
    }
}

/// The start-up wait ends once every pending graph has reported that it is
/// active, whatever the order of the reports and whatever other reports
/// come between.
pub proof fn all_reports_end_the_wait(pending: Seq<Seq<char>>, names: Seq<Seq<char>>)
    requires
        pending.no_duplicates(),
        forall|x: Seq<char>| #[trigger] pending.contains(x) ==> names.contains(x),
    ensures
        after_reports(pending, names).len() == 0,
{
    lemma_after_reports(pending, names);
    let rest = after_reports(pending, names);
    if rest.len() > 0 {
        assert(rest.contains(rest[0]));
    }
}

/// The settings entries of one graph, as name and value.
pub open spec fn targets_view(v: Seq<(String, Json)>) -> Seq<(Seq<char>, JsonView)> {
    v.map_values(|p: (String, Json)| (p.0@, jview(p.1)))
}

/// Applies settings to every registered graph (see `Graph::apply_settings`):
/// for each graph, in registration order, its name and the settings to send
/// to its nodes.
pub fn apply_settings_to_all<N, R>(registry: &GraphRegistry<Graph<N, R>>, settings: &Json) -> (res: Vec<(String, Vec<(String, Json)>)>)
    requires
        forall|i: int| 0 <= i < registry.graphs.pairs().len() ==> {
            let g = #[trigger] registry.graphs.pairs()[i].1;
            settings_are_objects(g.mut_nodes.names_view(), jview(*settings), g.name@)
        },
    ensures
        res@.len() == registry.graphs.pairs().len(),
        forall|i: int| 0 <= i < res@.len() ==> {
            let g = registry.graphs.pairs()[i].1;
            &&& (#[trigger] res@[i]).0@ == registry.graphs.pairs()[i].0
            &&& targets_view(res@[i].1@) == settings_targets(g.mut_nodes.names_view(), jview(*settings), g.name@)
        },
{
    let mut out: Vec<(String, Vec<(String, Json)>)> = Vec::new();
    let mut i: usize = 0;
    while i < registry.graphs.len()
        invariant
            i <= registry.graphs.pairs().len(),
            out@.len() == i,
            forall|j: int| 0 <= j < registry.graphs.pairs().len() ==> {
                let g = #[trigger] registry.graphs.pairs()[j].1;
                settings_are_objects(g.mut_nodes.names_view(), jview(*settings), g.name@)
            },
            forall|j: int| 0 <= j < i ==> {
                let g = registry.graphs.pairs()[j].1;
                &&& (#[trigger] out@[j]).0@ == registry.graphs.pairs()[j].0
                &&& targets_view(out@[j].1@) == settings_targets(g.mut_nodes.names_view(), jview(*settings), g.name@)
            },
        decreases registry.graphs.pairs().len() - i,
    {
        let g = registry.graphs.value_at(i);
        let name = registry.graphs.name_at(i);
        let ghost gi = registry.graphs.pairs()[i as int];
        assert(settings_are_objects(gi.1.mut_nodes.names_view(), jview(*settings), gi.1.name@));
        let targets = g.apply_settings(settings);
        assert(targets_view(targets@) =~= targets@.map_values(|p: (String, Json)| (p.0@, jview(p.1))));
        out.push((name.clone(), targets));
        i = i + 1;
    }
    out
}

/// The settings operator with the registry at hand: a JSON document is
/// applied to every registered graph (see `apply_settings_to_all`) and
/// passed on unchanged with its origin; anything else is answered with the
/// error "Unexpected message type" and applied nowhere.
pub fn settings_to_graphs<N, R, O, C>(registry: &GraphRegistry<Graph<N, R>>, msg: crate::message::Message<O, C>)
    -> (res: (Vec<(String, Vec<(String, Json)>)>, crate::message::Message<O, C>))
    requires
        match msg {
            crate::message::Message::JSON { message, .. } => forall|i: int| 0 <= i < registry.graphs.pairs().len() ==> {
                let g = #[trigger] registry.graphs.pairs()[i].1;
                settings_are_objects(g.mut_nodes.names_view(), jview(message), g.name@)
            },
            _ => true,
        },
    ensures
        match msg {
            crate::message::Message::JSON { message, origin } => {
                &&& crate::operators::is_json_message(res.1, jview(message), origin)
                &&& res.0@.len() == registry.graphs.pairs().len()
                &&& forall|i: int| 0 <= i < res.0@.len() ==> {
                    let g = registry.graphs.pairs()[i].1;
                    &&& (#[trigger] res.0@[i]).0@ == registry.graphs.pairs()[i].0
                    &&& targets_view(res.0@[i].1@) == settings_targets(g.mut_nodes.names_view(), jview(message), g.name@)
                }
            },
            _ => res.0@.len() == 0 && crate::operators::is_error_message(res.1, crate::operators::unexpected_text(), None),
        },
{
    match msg {
        crate::message::Message::JSON { message, origin } => {
            let applied = apply_settings_to_all(registry, &message);
            (applied, crate::message::Message::JSON { message, origin })
        },
        _ => (Vec::new(), crate::operators::unexpected(None)),
    }
}

impl<N, R> Graph<N, R> {
    /// Removes the graph named `graph_name` from the registry and returns
    /// it; an unknown name changes nothing (`None`). Afterwards the name is
    /// free to be registered again (see `delete_then_add`).
    pub fn deregister(registry: &mut GraphRegistry<Graph<N, R>>, graph_name: String) -> (res: Option<Graph<N, R>>)
        requires
            old(registry).wf(),
        ensures
            final(registry).wf(),
            res == old(registry).graphs.lookup(graph_name@),
            unregisters(*old(registry), *final(registry), graph_name@),
            !final(registry).graphs.has(graph_name@),
    {
        let res = match registry.delete_graph(graph_name.as_str()) {
            Ok(g) => Some(g),
            Err(_) => None,
        };
        assert(registry.graphs.lookup(graph_name@) is None);
        res
    }
}

/// Each registered graph's name and its runner's status, in registration
/// order (what `get_pending` reads).
pub open spec fn registry_entries<N, R>(registry: GraphRegistry<Graph<N, R>>) -> Seq<(Seq<char>, Option<GraphStatus>)> {
    registry.graphs.pairs().map_values(|p: (Seq<char>, Graph<N, R>)| (p.0, Some(p.1.runner.state)))
}

/// The registered graphs whose runner is not active yet, in order.
pub fn pending_graphs<N, R>(registry: &GraphRegistry<Graph<N, R>>) -> (res: Vec<String>)
    ensures
        res@.map_values(|s: String| s@) == pending_names(registry_entries(*registry)),
{
    let mut entries: Vec<(String, Option<GraphStatus>)> = Vec::new();
    let ghost model = registry_entries(*registry);
    let mut i: usize = 0;
    while i < registry.graphs.len()
        invariant
            i <= registry.graphs.pairs().len(),
            model == registry_entries(*registry),
            entries@.map_values(|e: (String, Option<GraphStatus>)| (e.0@, e.1)) == model.take(i as int),
        decreases registry.graphs.pairs().len() - i,
    {
        let name = registry.graphs.name_at(i);
        let g = registry.graphs.value_at(i);
        let ghost before = entries@;
        entries.push((name.clone(), Some(g.runner.state)));
        assert(entries@.map_values(|e: (String, Option<GraphStatus>)| (e.0@, e.1))
            =~= before.map_values(|e: (String, Option<GraphStatus>)| (e.0@, e.1)).push(model[i as int]));
        assert(model.take(i + 1) =~= model.take(i as int).push(model[i as int]));
        i = i + 1;
    }
    assert(model.take(model.len() as int) =~= model);
    get_pending(&entries)
}

/// Removing a graph and building it again: once deregistered, the name is
/// neither registered nor pending, so a graph of that name can be
/// registered again; that graph is then the one found under the name, and
/// the name is pending exactly until its runner is active. Every other name
/// keeps its graph.
pub proof fn deregister_then_rebuild<N, R>(
    r0: GraphRegistry<Graph<N, R>>,
    r1: GraphRegistry<Graph<N, R>>,
    r2: GraphRegistry<Graph<N, R>>,
    name: Seq<char>,
    graph: Graph<N, R>,
)
    requires
        r0.wf(),
        r1.wf(),
        r2.wf(),
        unregisters(r0, r1, name),
        registers(r1, r2, name, graph),
    ensures
        !r1.graphs.has(name),
        !pending_names(registry_entries(r1)).contains(name),
        r2.graphs.lookup(name) == Some(graph),
        pending_names(registry_entries(r2)).contains(name) <==> graph.runner.state != GraphStatus::Active,
        forall|k: Seq<char>| k != name ==> #[trigger] r2.graphs.lookup(k) == r0.graphs.lookup(k),
{
    delete_then_add(r0, r1, r2, name, graph);
    let es = registry_entries(r1);
    pending_iff_not_active(es, name);
    if pending_names(es).contains(name) {
        let i = choose|i: int| 0 <= i < es.len() && (#[trigger] es[i]).0 == name && is_pending(es[i].1);
        assert(r1.graphs.pairs()[i].0 == name);
        assert(r1.graphs.names_view()[i] == name);
        assert(r1.graphs.has(name));
    }
    let fs = registry_entries(r2);
    pending_iff_not_active(fs, name);
    assert(r2.graphs.has(name));
    let j = r2.graphs.names_view().index_of(name);
    assert(r2.graphs.pairs()[j].1 == graph);
    assert(fs[j].0 == name && fs[j].1 == Some(graph.runner.state));
    if pending_names(fs).contains(name) {
        let i = choose|i: int| 0 <= i < fs.len() && (#[trigger] fs[i]).0 == name && is_pending(fs[i].1);
        r2.graphs.lemma_lookup_at(i);
        assert(r2.graphs.pairs()[i].0 == name);
    }
}

} // verus!
