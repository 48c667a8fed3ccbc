//! The resolvers that a browser has in flight.
//!
//! A browser starts one native resolver for every instance that the daemon
//! reports, and keeps it until its callback has fired. The set below owns
//! the resolvers' wrappers, keyed by the native handle, so that dropping an
//! entry frees the native resolver.

use std::collections::HashMap;
use vstd::prelude::*;

verus! {

/// Holds parameters for `avahi_service_resolver_new`.
#[derive(Debug, PartialEq, Eq)]
pub struct ManagedAvahiServiceResolverParams {
    pub interface: i32,
    pub protocol: i32,
    pub name: String,
    pub kind: String,
    pub domain: String,
    pub aprotocol: i32,
    pub flags: u32,
}

/// What a [`ManagedAvahiServiceResolverParams`] holds.
pub struct ManagedAvahiServiceResolverParamsView {
    pub interface: i32,
    pub protocol: i32,
    pub name: Seq<char>,
    pub kind: Seq<char>,
    pub domain: Seq<char>,
    pub aprotocol: i32,
    pub flags: u32,
}

impl View for ManagedAvahiServiceResolverParams {
    type V = ManagedAvahiServiceResolverParamsView;

    open spec fn view(&self) -> ManagedAvahiServiceResolverParamsView {
        ManagedAvahiServiceResolverParamsView {
            interface: self.interface,
            protocol: self.protocol,
            name: self.name@,
            kind: self.kind@,
            domain: self.domain@,
            aprotocol: self.aprotocol,
            flags: self.flags,
        }
    }
}

/// The resolvers in flight, each under its native handle.
#[derive(Debug)]
pub struct ServiceResolverSet<R> {
    resolvers: HashMap<usize, R>,
}

impl<R> View for ServiceResolverSet<R> {
    type V = Map<usize, R>;

    closed spec fn view(&self) -> Map<usize, R> {
        self.resolvers@
    }
}

impl<R> Default for ServiceResolverSet<R> {
    fn default() -> (set: Self)
        ensures
            set@ == Map::<usize, R>::empty(),
    {
        Self { resolvers: HashMap::new() }
    }
}

impl<R> ServiceResolverSet<R> {
    /// Keeps `resolver` under its native handle `raw`. A resolver kept under
    /// the same handle before is dropped.
    pub fn insert(&mut self, raw: usize, resolver: R)
        ensures
            final(self)@ == old(self)@.insert(raw, resolver),
    {
        self.resolvers.insert(raw, resolver);
    }

    /// Drops the resolver with the native handle `raw`, if it is in the set.
    pub fn remove_raw(&mut self, raw: usize)
        ensures
            final(self)@ == old(self)@.remove(raw),
            !final(self)@.contains_key(raw),
    {
        self.resolvers.remove(&raw);
    }

    /// Whether a resolver with the native handle `raw` is in flight.
    pub fn contains_raw(&self, raw: usize) -> (found: bool)
        ensures
            found == self@.contains_key(raw),
    {
        self.resolvers.contains_key(&raw)
    }

    /// The number of resolvers in flight.
    pub fn len(&self) -> (n: usize)
        ensures
            n == self@.len(),
            self@.dom().finite(),
    {
        self.resolvers.len()
    }

    /// Whether no resolver is in flight.
    pub fn is_empty(&self) -> (empty: bool)
        ensures
            empty == (self@.len() == 0),
    {
        self.resolvers.len() == 0
    }
}

/// What happens to a browser's resolvers.
pub enum ResolverEvent {
    /// The daemon reported a new instance, and a resolver with this native
    /// handle was started for it.
    Started(usize),
    /// The callback of the resolver with this native handle fired, with
    /// success or with failure.
    Finished(usize),
}

/// The handles of the resolvers in flight after `events`, starting with none.
pub open spec fn in_flight(events: Seq<ResolverEvent>) -> Set<usize>
    decreases events.len(),
{
    if events.len() == 0 {
        Set::empty()
    } else {
        match events.last() {
            ResolverEvent::Started(raw) => in_flight(events.drop_last()).insert(raw),
            ResolverEvent::Finished(raw) => in_flight(events.drop_last()).remove(raw),
        }
    }
}

/// The number of instances that were reported in `events` and whose
/// resolver's callback has not fired yet.
pub open spec fn unresolved(events: Seq<ResolverEvent>) -> int
    decreases events.len(),
{
    if events.len() == 0 {
        0
    } else {
        match events.last() {
            ResolverEvent::Started(_) => unresolved(events.drop_last()) + 1,
            ResolverEvent::Finished(_) => unresolved(events.drop_last()) - 1,
        }
    }
}

/// Every callback in `events` is that of a resolver that was in flight when
/// it fired: the native library calls back only resolvers that it holds.
pub open spec fn callbacks_match(events: Seq<ResolverEvent>) -> bool
    decreases events.len(),
{
    if events.len() == 0 {
        true
    } else {
        &&& callbacks_match(events.drop_last())
        &&& events.last() matches ResolverEvent::Finished(raw) ==> in_flight(
            events.drop_last(),
        ).contains(raw)
    }
}

/// The set of resolvers is bounded by the resolutions that are under way:
/// at every moment the number of resolvers in flight is at most the number
/// of reported instances whose resolver's callback has not fired yet, and a
/// resolver whose callback has just fired is no longer in the set.
pub proof fn lemma_resolvers_bounded(events: Seq<ResolverEvent>)
    requires
        callbacks_match(events),
    ensures
        in_flight(events).finite(),
        in_flight(events).len() <= unresolved(events),
        events.len() > 0 ==> (events.last() matches ResolverEvent::Finished(raw) ==> !in_flight(
            events,
        ).contains(raw)),
    decreases events.len(),
{
    if events.len() > 0 {
        let earlier = events.drop_last();
        lemma_resolvers_bounded(earlier);
        match events.last() {
            ResolverEvent::Started(raw) => {
                vstd::set::axiom_set_insert_len(in_flight(earlier), raw);
            },
            ResolverEvent::Finished(raw) => {
                vstd::set::axiom_set_remove_len(in_flight(earlier), raw);
            },
        }
    }
}

/// The set of resolvers follows the events: where it holds the resolvers in
/// flight after `events`, keeping a started resolver gives those after the
/// start, and dropping a finished one gives those after its callback.
pub proof fn lemma_set_follows_events<R>(
    resolvers: Map<usize, R>,
    events: Seq<ResolverEvent>,
    raw: usize,
    resolver: R,
)
    requires
        resolvers.dom() == in_flight(events),
    ensures
        resolvers.insert(raw, resolver).dom() == in_flight(
            events.push(ResolverEvent::Started(raw)),
        ),
        resolvers.remove(raw).dom() == in_flight(events.push(ResolverEvent::Finished(raw))),
{
    let started = events.push(ResolverEvent::Started(raw));
    let finished = events.push(ResolverEvent::Finished(raw));
    assert(started.drop_last() =~= events);
    assert(finished.drop_last() =~= events);
    assert(resolvers.insert(raw, resolver).dom() =~= resolvers.dom().insert(raw));
    assert(resolvers.remove(raw).dom() =~= resolvers.dom().remove(raw));
}

} // verus!
