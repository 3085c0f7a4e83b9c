//! Node metadata, edge destinations and shared message origins.

use std::sync::Arc;
use vstd::prelude::*;
use crate::text::{upper_case, replaced, to_uppercase, replace_char};

verus! {

/// Descriptive data of one node of a graph.
#[derive(Debug, Clone)]
pub struct NodeMeta {
    pub graph: String,
    pub name: String,
    pub operator: String,
    pub engine: Option<String>,
    pub description: String,
    pub tags: Vec<String>,
    pub properties: Vec<String>,
    pub logo: Vec<u8>,
}

/// Fully qualified name of a node: `graph.name(operator)`, or
/// `graph.name(operator.engine)` when the node has an engine.
pub open spec fn fqn_text(graph: Seq<char>, name: Seq<char>, operator: Seq<char>, engine: Option<Seq<char>>) -> Seq<char> {
    let engine_part = match engine {
        Some(e) => seq!['.'] + e,
        None => Seq::<char>::empty(),
    };
    graph + seq!['.'] + name + seq!['('] + operator + engine_part + seq![')']
}

/// Prefix of the environment variables that configure a node:
/// `graph_name_` with `-` turned into `_`, upper-cased.
pub open spec fn env_prefix_text(graph: Seq<char>, name: Seq<char>) -> Seq<char> {
    upper_case(replaced(graph + seq!['_'] + name + seq!['_'], '-', '_'))
}

/// Appends the characters of `t` to `s`.
pub fn append_string(s: &mut String, t: &String)
    ensures
        final(s)@ == old(s)@ + t@,
{
    s.append(t.as_str());
}

impl NodeMeta {
    /// Metadata for node `name` of `graph` running `operator`, with no engine,
    /// description, tags, properties or logo.
    pub fn new(graph: &str, name: &str, operator: String) -> (res: Self)
        ensures
            res.graph@ == graph@,
            res.name@ == name@,
            res.operator@ == operator@,
            res.engine is None,
            res.description@ == Seq::<char>::empty(),
            res.tags@.len() == 0,
            res.properties@.len() == 0,
            res.logo@.len() == 0,
    {
        NodeMeta {
            graph: String::from_str(graph),
            name: String::from_str(name),
            operator,
            engine: None,
            description: String::new(),
            tags: Vec::new(),
            properties: Vec::new(),
            logo: Vec::new(),
        }
    }

    /// The engine's characters, when there is one.
    pub open spec fn engine_view(&self) -> Option<Seq<char>> {
        match self.engine {
            Some(e) => Some(e@),
            None => None,
        }
    }

    /// Fully qualified name, e.g. `graph.node(Operator)`.
    pub fn fqn(&self) -> (res: String)
        ensures
            res@ == fqn_text(self.graph@, self.name@, self.operator@, self.engine_view()),
    {
        let mut s = String::new();
        append_string(&mut s, &self.graph);
        crate::text::push_char(&mut s, '.');
        append_string(&mut s, &self.name);
        crate::text::push_char(&mut s, '(');
        append_string(&mut s, &self.operator);
        match &self.engine {
            Some(e) => {
                crate::text::push_char(&mut s, '.');
                append_string(&mut s, e);
            },
            None => {},
        }
        crate::text::push_char(&mut s, ')');
        s
    }

    /// Prefix of the environment variables of `node_meta`, e.g. `GRAPH_NODE_`.
    pub fn base_env_vars_settings(&self, node_meta: &NodeMeta) -> (res: String)
        ensures
            res@ == env_prefix_text(node_meta.graph@, node_meta.name@),
    {
        let mut s = String::new();
        append_string(&mut s, &node_meta.graph);
        crate::text::push_char(&mut s, '_');
        append_string(&mut s, &node_meta.name);
        crate::text::push_char(&mut s, '_');
        assert(s@ =~= node_meta.graph@ + seq!['_'] + node_meta.name@ + seq!['_']);
        let r = replace_char(s.as_str(), '-', '_');
        to_uppercase(r.as_str())
    }
}

/// Where an edge leads: the target node and the role of the edge.
#[derive(Debug)]
pub struct EdgeDestination {
    pub to: String,
    pub role: String,
}

/// Another handle to the same shared value (`Arc::clone`).
#[verifier::external_body]
pub fn arc_share<T>(a: &Arc<T>) -> (res: Arc<T>)
    ensures
        res == *a,
{
    Arc::clone(a)
}

/// A value shared between the holders of a message's origin.
#[derive(Debug)]
pub struct Origin<T> {
    pub inner: Arc<T>,
}

impl<T> Origin<T> {
    /// Shares `inner` as a new origin.
    pub fn new(inner: T) -> (res: Self)
        ensures
            *res.inner == inner,
    {
        Origin { inner: Arc::new(inner) }
    }

    /// The shared value.
    pub fn get(&self) -> (res: &T)
        ensures
            *res == *self.inner,
    {
        &*self.inner
    }

    /// An origin over an already shared value.
    pub fn from_arc(inner: Arc<T>) -> (res: Self)
        ensures
            res.inner == inner,
    {
        Origin { inner }
    }

    /// The shared value's handle.
    pub fn into_arc(self) -> (res: Arc<T>)
        ensures
            res == self.inner,
    {
        self.inner
    }
}

impl<T> Clone for Origin<T> {
    fn clone(&self) -> (res: Self)
        ensures
            res.inner == self.inner,
    {
        Origin { inner: arc_share(&self.inner) }
    }
}

} // verus!
