//! The entry point for interactions with an entity: restore from history,
//! read the state, handle a command.

use vstd::prelude::*;

verus! {

/// An event together with the per-entity sequence number the aggregate
/// assigned when it produced the event.
#[derive(Debug, Clone, PartialEq, Eq)]
pub struct SequencedEvent<E> {
    pub sequence_number: i64,
    pub event: E,
}

impl<E: View> View for SequencedEvent<E> {
    type V = (int, E::V);

    open spec fn view(&self) -> (int, E::V) {
        (self.sequence_number as int, self.event@)
    }
}

/// What an aggregate offers: event-sourced reconstruction, a read-only
/// state, and command handling that yields the applied events.
///
/// Each implementation states its own exact contract; the trait only asks
/// that commands are handled with headroom left for numbering new events.
pub trait AggregateRoot: Sized {
    type State;
    type Command;
    type Error;
    type Event;

    /// True while the aggregate can still assign a next sequence number.
    spec fn can_number_next(&self) -> bool;

    /// Restore the entity from historical events; on failure the entity
    /// keeps the last successfully applied state.
    fn restore_from_events(&mut self, events: Vec<SequencedEvent<Self::Event>>) -> (r: Result<
        Self::State,
        Self::Error,
    >);

    /// The read-only state of the entity.
    fn get_state(&self) -> (r: &Self::State);

    /// Handle a command. Success returns the updated state plus the applied
    /// events; failure leaves the state unchanged.
    fn handle_command(&mut self, command: Self::Command) -> (r: Result<
        (Self::State, Vec<SequencedEvent<Self::Event>>),
        Self::Error,
    >)
        requires
            old(self).can_number_next(),
    ;
}

} // verus!
