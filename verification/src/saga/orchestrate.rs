//! The saga orchestrator: reacts to events by emitting follow-up or
//! compensating commands, but only while started.

use vstd::prelude::*;
use vstd::std_specs::cmp::PartialEqSpec;

verus! {

/// An event a saga can react to; events are compared by value.
pub trait Event: Sized + PartialEq {

}

/// A command a saga emits.
pub trait Command: Sized {

}

/// Converts one event into exactly one command.
pub trait EventHandler<E: Event>: Sized {
    /// The command type produced.
    type Command: Command;

    /// What `handle` promises of the command it produces for the given
    /// event; an implementation that keeps this default promises nothing.
    open spec fn handle_post(&self, event: E, command: Self::Command) -> bool {
        true
    }

    /// Produces the command that reacts to the event.
    fn handle(&self, event: E) -> (command: Self::Command)
        ensures
            self.handle_post(event, command),
    ;
}

/// Lifecycle state of a saga.
#[derive(Debug, Default, Clone, Copy, PartialEq, Eq, Structural)]
pub enum SagaState {
    #[default]
    Created,
    Started,
    Cancelled,
    Finalized,
}

/// Owns a mapping from event value to an event-handler capability, and a
/// lifecycle state that gates dispatch.
pub struct Saga<E, H> {
    state: SagaState,
    handlers: Vec<(E, H)>,
}

impl<E: Event, H: EventHandler<E>> Saga<E, H> {
    /// The saga's lifecycle state.
    pub closed spec fn spec_state(&self) -> SagaState {
        self.state
    }

    /// The registered event/handler pairs, in registration order.
    pub closed spec fn spec_entries(&self) -> Seq<(E, H)> {
        self.handlers@
    }

    /// Whether some registered event equals the given one, by the event
    /// type's own equality.
    pub open spec fn spec_has_handler(&self, event: E) -> bool {
        exists|i: int|
            0 <= i < self.spec_entries().len() && (#[trigger] self.spec_entries()[i].0).eq_spec(
                &event,
            )
    }

    /// Whether entry `i` is the last registration whose event equals the
    /// given one — the one that wins dispatch.
    pub open spec fn spec_latest_match(&self, event: E, i: int) -> bool {
        &&& 0 <= i < self.spec_entries().len()
        &&& self.spec_entries()[i].0.eq_spec(&event)
        &&& forall|j: int|
            i < j < self.spec_entries().len() ==> !(#[trigger] self.spec_entries()[j].0).eq_spec(
                &event,
            )
    }

    /// The saga's lifecycle state.
    pub fn state(&self) -> (r: SagaState)
        ensures
            r == self.spec_state(),
    {
        self.state
    }

    /// Creates a saga in the `Created` state with no handlers.
    pub fn new() -> (r: Self)
        ensures
            r.spec_state() == SagaState::Created,
            r.spec_entries() =~= Seq::<(E, H)>::empty(),
    {
        Saga { state: SagaState::Created, handlers: Vec::new() }
    }

    /// Moves the saga to `Started`, unconditionally.
    pub fn start(&mut self)
        ensures
            final(self).spec_state() == SagaState::Started,
            final(self).spec_entries() == old(self).spec_entries(),
    {
        self.state = SagaState::Started;
    }

    /// Moves the saga to `Cancelled`, unconditionally.
    pub fn cancel(&mut self)
        ensures
            final(self).spec_state() == SagaState::Cancelled,
            final(self).spec_entries() == old(self).spec_entries(),
    {
        self.state = SagaState::Cancelled;
    }

    /// Moves the saga to `Finalized`, unconditionally.
    pub fn finalize(&mut self)
        ensures
            final(self).spec_state() == SagaState::Finalized,
            final(self).spec_entries() == old(self).spec_entries(),
    {
        self.state = SagaState::Finalized;
    }

    /// Registers a handler for the given event value; a later registration
    /// against an equal event wins.
    pub fn register_function(&mut self, event: E, event_handler: H)
        ensures
            final(self).spec_entries() == old(self).spec_entries().push((event, event_handler)),
            final(self).spec_state() == old(self).spec_state(),
    {
        self.handlers.push((event, event_handler));
    }

    /// Law: a saga dispatches only while `Started`. Before `start`, and
    /// after `cancel` or `finalize`, it returns nothing even for a
    /// registered event; while started, an unregistered event is a silent
    /// no-op and a registered event returns the command produced by its
    /// (latest) registered handler.
    pub fn handle(&self, event: E) -> (r: Option<H::Command>)
        ensures
            self.spec_state() != SagaState::Started ==> r is None,
            E::obeys_eq_spec() ==> ((self.spec_state() == SagaState::Started
                && !self.spec_has_handler(event)) ==> r is None),
            E::obeys_eq_spec() ==> ((self.spec_state() == SagaState::Started
                && self.spec_has_handler(event)) ==> exists|i: int|
                #[trigger] self.spec_latest_match(event, i) && match r {
                    Some(command) => self.spec_entries()[i].1.handle_post(event, command),
                    None => false,
                }),
    {
        if !matches!(self.state, SagaState::Started) {
            return None;
        }
        let mut i: usize = self.handlers.len();
        while i > 0
            invariant
                i <= self.handlers@.len(),
                self.spec_state() == SagaState::Started,
                E::obeys_eq_spec() ==> forall|j: int|
                    i <= j < self.handlers@.len() ==> !(#[trigger] self.handlers@[j].0).eq_spec(
                        &event,
                    ),
            decreases i,
        {
            i = i - 1;
            if self.handlers[i].0 == event {
                proof {
                    if E::obeys_eq_spec() {
                        assert((self.spec_entries()[i as int].0).eq_spec(&event));
                        assert(self.spec_has_handler(event));
                        assert(self.spec_latest_match(event, i as int));
                    }
                }
                let command = self.handlers[i].1.handle(event);
                return Some(command);
            }
        }
        None
    }
}

} // verus!
