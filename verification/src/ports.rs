//! The external ports of a graph: one per endpoint node, named after the
//! node.

use vstd::prelude::*;
use crate::named::NamedList;

verus! {

/// The ports of a graph (opaque values `P`), by name.
#[derive(Debug)]
pub struct Ports<P> {
    pub ports: NamedList<P>,
}

/// The name of node `id`'s port: the id followed by `-ext`.
pub open spec fn port_name(id: Seq<char>) -> Seq<char> {
    id + "-ext"@
}

impl<P> Ports<P> {
    /// No ports.
    pub fn new() -> (res: Self)
        ensures
            res.ports.wf(),
            res.ports.pairs().len() == 0,
    {
        Ports { ports: NamedList::new() }
    }

    /// Registers the port `created.0` of node `id` under `port_name(id)`,
    /// replacing a port of that name, and hands back the node that feeds it
    /// (`created.1`).
    pub fn new_port<N>(&mut self, id: &str, created: (P, N)) -> (res: N)
        requires
            old(self).ports.wf(),
        ensures
            final(self).ports.wf(),
            final(self).ports.lookup(port_name(id@)) == Some(created.0),
            forall|k: Seq<char>| k != port_name(id@) ==> #[trigger] final(self).ports.lookup(k) == old(self).ports.lookup(k),
            res == created.1,
    {
        let mut name = String::from_str(id);
        name.append("-ext");
        let (port, node) = created;
        let _ = self.ports.insert(name, port);
        node
    }
}

} // verus!
