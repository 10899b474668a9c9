//! Callbacks that fire on keys, each gated by guards over the session state.

use vstd::prelude::*;
use crate::key::Key;

verus! {

/// A condition over the session state. It reads the state and never
/// changes it.
pub trait Predicate {
    /// The session state that the condition is about.
    type State;

    /// Whether the condition holds of `state`. An implementor that does not
    /// state it leaves the condition unspecified.
    open spec fn holds(&self, state: &Self::State) -> bool {
        arbitrary()
    }

    /// Tests the condition on `state`.
    fn check(&self, state: &Self::State) -> (r: bool)
        ensures
            r == self.holds(state),
    ;
}

/// A reaction to a key. It has the session state to itself while it runs.
pub trait Callback {
    /// The session state that the reaction works on.
    type State;

    /// The state that the reaction makes of `state`. An implementor that
    /// does not state it leaves the effect unspecified.
    open spec fn effect(&self, state: Self::State) -> Self::State {
        arbitrary()
    }

    /// Carries the reaction out on `state`.
    fn call(&self, state: &mut Self::State)
        ensures
            *final(state) == self.effect(*old(state)),
    ;
}

/// Decides whether an event has occurred: the pressed key must be the
/// guard's key, and the guard's predicate, if it has one, must hold.
pub struct Guard<P> {
    key: Key,
    predicate: Option<P>,
}

impl<P: Predicate> Guard<P> {
    /// The key that the guard waits for.
    pub closed spec fn key(&self) -> Key {
        self.key
    }

    /// The predicate that the guard asks, if any.
    pub closed spec fn predicate(&self) -> Option<P> {
        self.predicate
    }

    /// Whether the guard lets `key` through in `state`: the key is exactly
    /// the guard's, and the predicate is absent or holds.
    pub open spec fn matches(&self, key: Key, state: &P::State) -> bool {
        key == self.key() && match self.predicate() {
            Some(p) => p.holds(state),
            None => true,
        }
    }

    /// A guard for `key` with an optional predicate.
    pub fn new(key: Key, predicate: Option<P>) -> (g: Self)
        ensures
            g.key() == key,
            g.predicate() == predicate,
    {
        Guard { key, predicate }
    }

    /// Tests whether the event has occurred.
    pub fn test(&self, key: Key, caller: &P::State) -> (r: bool)
        ensures
            r == self.matches(key, caller),
    {
        if key != self.key {
            return false;
        }
        match &self.predicate {
            Some(p) => p.check(caller),
            None => true,
        }
    }
}

/// A callback together with the guards that can trigger it.
pub struct Event<P, C> {
    guards: Vec<Guard<P>>,
    callback: C,
}

impl<P: Predicate, C: Callback<State = P::State>> Event<P, C> {
    /// The guards of the event, in order.
    pub closed spec fn guards(&self) -> Seq<Guard<P>> {
        self.guards@
    }

    /// The callback of the event.
    pub closed spec fn callback(&self) -> C {
        self.callback
    }

    /// An event with the given guards and callback.
    pub fn new(guards: Vec<Guard<P>>, callback: C) -> (e: Self)
        ensures
            e.guards() == guards@,
            e.callback() == callback,
    {
        Event { guards, callback }
    }
}

/// The state after the guards `guards[from..]` were asked in order, the
/// callback run once for each that matched the state it found.
pub open spec fn fired<P: Predicate, C: Callback<State = P::State>>(
    guards: Seq<Guard<P>>,
    callback: C,
    key: Key,
    state: P::State,
    from: int,
) -> P::State
    decreases guards.len() - from,
{
    if from < 0 || from >= guards.len() {
        state
    } else {
        let next = if guards[from].matches(key, &state) {
            callback.effect(state)
        } else {
            state
        };
        fired(guards, callback, key, next, from + 1)
    }
}

/// The state after the events `events[from..]` were gone through in order.
pub open spec fn dispatched<P: Predicate, C: Callback<State = P::State>>(
    events: Seq<Event<P, C>>,
    key: Key,
    state: P::State,
    from: int,
) -> P::State
    decreases events.len() - from,
{
    if from < 0 || from >= events.len() {
        state
    } else {
        dispatched(
            events,
            key,
            fired(events[from].guards(), events[from].callback(), key, state, 0),
            from + 1,
        )
    }
}

/// A registry of events.
pub struct KeyHandler<P, C> {
    events: Vec<Event<P, C>>,
}

impl<P: Predicate, C: Callback<State = P::State>> KeyHandler<P, C> {
    /// The registered events, in the order of their registration.
    pub closed spec fn events(&self) -> Seq<Event<P, C>> {
        self.events@
    }

    /// A registry without events.
    pub fn new() -> (h: Self)
        ensures
            h.events() == Seq::<Event<P, C>>::empty(),
    {
        KeyHandler { events: Vec::new() }
    }

    /// Registers an event with a single guard.
    pub fn add_event_single_guard(&mut self, guard: Guard<P>, callback: C)
        ensures
            final(self).events().len() == old(self).events().len() + 1,
            final(self).events().drop_last() == old(self).events(),
            final(self).events().last().guards() == seq![guard],
            final(self).events().last().callback() == callback,
    {
        let mut guards: Vec<Guard<P>> = Vec::new();
        guards.push(guard);
        assert(guards@ =~= seq![guard]);
        self.add_event_multiple_guards(guards, callback);
    }

    /// Registers an event with several guards.
    pub fn add_event_multiple_guards(&mut self, guards: Vec<Guard<P>>, callback: C)
        ensures
            final(self).events().len() == old(self).events().len() + 1,
            final(self).events().drop_last() == old(self).events(),
            final(self).events().last().guards() == guards@,
            final(self).events().last().callback() == callback,
    {
        self.events.push(Event::new(guards, callback));
        assert(self.events@.drop_last() =~= old(self).events@);
    }

    /// Processes a key: the events are gone through in the order of their
    /// registration and the guards of each in their order; the callback of
    /// an event runs once for every guard of it that matches, so several
    /// matching guards run it several times.
    pub fn on_change(key: Key, caller: &mut P::State, handler: &Self)
        ensures
            *final(caller) == dispatched(handler.events(), key, *old(caller), 0),
    {
        let ghost start = *caller;
        let mut i: usize = 0;
        while i < handler.events.len()
            invariant
                i <= handler.events@.len(),
                dispatched(handler.events@, key, start, 0) == dispatched(
                    handler.events@,
                    key,
                    *caller,
                    i as int,
                ),
            decreases handler.events@.len() - i,
        {
            let event = &handler.events[i];
            let ghost before = *caller;
            let mut j: usize = 0;
            while j < event.guards.len()
                invariant
                    j <= event.guards@.len(),
                    fired(event.guards@, event.callback, key, before, 0) == fired(
                        event.guards@,
                        event.callback,
                        key,
                        *caller,
                        j as int,
                    ),
                decreases event.guards@.len() - j,
            {
                if event.guards[j].test(key, caller) {
                    event.callback.call(caller);
                }
                j += 1;
            }
            i += 1;
        }
    }
}

} // verus!
