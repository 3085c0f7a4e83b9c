//! The registry of named control channels and of the last event seen per
//! graph. Channels are held as opaque values; sending on them is the
//! caller's business.

use vstd::prelude::*;
use crate::named::NamedList;
use crate::status::ControlEvent;

verus! {

/// Named channels and the last event saved under each name.
pub struct Registry<C, E> {
    pub channels: NamedList<C>,
    pub last_events: NamedList<E>,
}

impl<C, E> Registry<C, E> {
    /// Well-formedness: names are unique in both tables.
    pub open spec fn wf(&self) -> bool {
        self.channels.wf() && self.last_events.wf()
    }

    /// An empty registry.
    pub fn new() -> (res: Self)
        ensures
            res.wf(),
            forall|k: Seq<char>| #[trigger] res.channels.lookup(k) is None,
            forall|k: Seq<char>| #[trigger] res.last_events.lookup(k) is None,
    {
        Registry { channels: NamedList::new(), last_events: NamedList::new() }
    }

    /// Stores `sender` under `name`, replacing any channel of that name.
    pub fn register(&mut self, name: &str, sender: C)
        requires
            old(self).wf(),
        ensures
            final(self).wf(),
            final(self).last_events == old(self).last_events,
            !old(self).channels.has(name@) ==> final(self).channels.pairs()
                == old(self).channels.pairs().push((name@, sender)),
            forall|k: Seq<char>|
                #[trigger] final(self).channels.lookup(k) == if k == name@ {
                    Some(sender)
                } else {
                    old(self).channels.lookup(k)
                },
    {
        let _ = self.channels.insert(String::from_str(name), sender);
    }

    /// Removes the channel stored under `name`.
    pub fn deregister(&mut self, name: &str)
        requires
            old(self).wf(),
        ensures
            final(self).wf(),
            final(self).last_events == old(self).last_events,
            forall|k: Seq<char>|
                #[trigger] final(self).channels.lookup(k) == if k == name@ {
                    None
                } else {
                    old(self).channels.lookup(k)
                },
    {
        let _ = self.channels.remove(name);
    }

    /// Whether a channel is stored under `name`.
    pub fn is_registered(&self, name: &str) -> (res: bool)
        requires
            self.wf(),
        ensures
            res == self.channels.has(name@),
    {
        self.channels.contains_key(name)
    }

    /// The channel stored under `name`.
    pub fn get(&self, name: &str) -> (res: Option<&C>)
        requires
            self.wf(),
        ensures
            match res {
                Some(c) => self.channels.lookup(name@) == Some(*c),
                None => self.channels.lookup(name@) is None,
            },
    {
        self.channels.get(name)
    }
}

/// Registers `sender` under `name`; a channel already registered under that
/// name is removed first, so the name ends up last in the listing.
pub fn register<C, E>(registry: &mut Registry<C, E>, name: &str, sender: C)
    requires
        old(registry).wf(),
    ensures
        final(registry).wf(),
        final(registry).last_events == old(registry).last_events,
        final(registry).channels.names_view().last() == name@,
        forall|k: Seq<char>|
            #[trigger] final(registry).channels.lookup(k) == if k == name@ {
                Some(sender)
            } else {
                old(registry).channels.lookup(k)
            },
{
    if registry.is_registered(name) {
        registry.deregister(name);
        assert(registry.channels.lookup(name@) is None);
    }
    assert(!registry.channels.has(name@));
    let ghost before = registry.channels.pairs();
    registry.register(name, sender);
    assert(registry.channels.pairs() == before.push((name@, sender)));
    assert(registry.channels.names_view().last() == registry.channels.pairs().last().0);
}

/// Removes the channel registered under `name`; returns whether there was one
/// (an unknown name is reported, not removed).
pub fn deregister<C, E>(registry: &mut Registry<C, E>, name: &str) -> (removed: bool)
    requires
        old(registry).wf(),
    ensures
        final(registry).wf(),
        removed == old(registry).channels.has(name@),
        final(registry).last_events == old(registry).last_events,
        !removed ==> final(registry).channels == old(registry).channels,
        forall|k: Seq<char>|
            #[trigger] final(registry).channels.lookup(k) == if k == name@ {
                None
            } else {
                old(registry).channels.lookup(k)
            },
{
    if !registry.is_registered(name) {
        return false;
    }
    registry.deregister(name);
    true
}

/// The channel registered under `name`.
pub fn get<'a, C, E>(registry: &'a Registry<C, E>, name: &str) -> (res: Option<&'a C>)
    requires
        registry.wf(),
    ensures
        match res {
            Some(c) => registry.channels.lookup(name@) == Some(*c),
            None => registry.channels.lookup(name@) is None,
        },
{
    registry.get(name)
}

/// Saves `event` as the last event seen under `name`.
pub fn save_last_event<C, E>(registry: &mut Registry<C, E>, name: &str, event: E)
    requires
        old(registry).wf(),
    ensures
        final(registry).wf(),
        final(registry).channels == old(registry).channels,
        forall|k: Seq<char>|
            #[trigger] final(registry).last_events.lookup(k) == if k == name@ {
                Some(event)
            } else {
                old(registry).last_events.lookup(k)
            },
{
    let _ = registry.last_events.insert(String::from_str(name), event);
}

/// The names of all registered channels.
pub fn names<C, E>(registry: &Registry<C, E>) -> (res: Vec<String>)
    requires
        registry.wf(),
    ensures
        res@.map_values(|s: String| s@) == registry.channels.names_view(),
{
    registry.channels.names()
}

/// Prepares a broadcast of `event`: saves it as the last event of its graph
/// and returns the names of the channels it must be sent to (all of them).
pub fn broadcast_event<C>(registry: &mut Registry<C, ControlEvent>, event: ControlEvent) -> (targets: Vec<String>)
    requires
        old(registry).wf(),
    ensures
        final(registry).wf(),
        final(registry).channels == old(registry).channels,
        targets@.map_values(|s: String| s@) == old(registry).channels.names_view(),
        forall|k: Seq<char>|
            #[trigger] final(registry).last_events.lookup(k) == if k == event.graph_name@ {
                Some(event)
            } else {
                old(registry).last_events.lookup(k)
            },
{
    let all_channels = names(registry);
    let key = event.graph_name.clone();
    save_last_event(registry, key.as_str(), event);
    all_channels
}

} // verus!
