//! The journal contract: append and replay per entity, pluggable backends.

use vstd::prelude::*;

use crate::aggregate_root::SequencedEvent;
use crate::errors::OrderError;

verus! {

/// The mathematical content of a list of sequenced events.
pub open spec fn views_of<E: View>(events: Seq<SequencedEvent<E>>) -> Seq<(int, E::V)> {
    events.map_values(|se: SequencedEvent<E>| se@)
}

/// Whether some recorded event already carries the given sequence number.
pub open spec fn has_sequence<V>(events: Seq<(int, V)>, seq_num: int) -> bool {
    exists|i: int| 0 <= i < events.len() && (#[trigger] events[i]).0 == seq_num
}

/// A clone whose result carries the same mathematical content. Event types
/// stored by value in a journal implement it.
pub trait ViewClone: View + Sized {
    /// An owned copy carrying the same view as the source value.
    fn clone_view(&self) -> (r: Self)
        ensures
            r@ == self@,
    ;
}

impl<E: ViewClone> ViewClone for SequencedEvent<E> {
    fn clone_view(&self) -> (r: Self)
        ensures
            r@ == self@,
    {
        SequencedEvent { sequence_number: self.sequence_number, event: self.event.clone_view() }
    }
}

/// The durable, per-entity ordered log of events.
///
/// `events_of` is the journal's model: everything recorded for one entity,
/// in insertion order. An append is atomic: it either extends the model by
/// exactly the given event or leaves every entity's record unchanged; a
/// sequence number already on record is rejected as a duplicate.
///
/// `may_fail` says whether the backend can fail spontaneously — a lost
/// connection, a full disk. A backend for which it is false owes success
/// to every append of a fresh sequence number and to every load, so
/// callers over such a backend can prove their happy paths outright.
pub trait EventsJournal<Event: View>: Sized {
    /// The events recorded for one entity, in insertion order.
    spec fn events_of(&self, entity_id: i64) -> Seq<(int, Event::V)>;

    /// Whether an append or a load can fail for reasons of the backend
    /// alone, rather than of the data handed to it.
    spec fn may_fail(&self) -> bool;

    /// Append one sequenced event to an entity's record.
    fn persist_event(&mut self, entity_id: i64, evt_w_seq: &SequencedEvent<Event>) -> (r: Result<
        (),
        OrderError,
    >)
        ensures
            final(self).may_fail() == old(self).may_fail(),
            match r {
                Ok(()) => {
                    &&& !has_sequence(old(self).events_of(entity_id), evt_w_seq@.0)
                    &&& final(self).events_of(entity_id) == old(self).events_of(
                        entity_id,
                    ).push(evt_w_seq@)
                    &&& forall|other: i64|
                        other != entity_id ==> final(self).events_of(other) == old(
                            self,
                        ).events_of(other)
                },
                Err(e) => {
                    &&& e == OrderError::JournalWriteFailure || e == OrderError::DuplicateSequence
                    &&& e == OrderError::JournalWriteFailure ==> old(self).may_fail()
                    &&& e == OrderError::DuplicateSequence ==> has_sequence(
                        old(self).events_of(entity_id),
                        evt_w_seq@.0,
                    )
                    &&& forall|other: i64|
                        final(self).events_of(other) == old(self).events_of(other)
                },
            },
            has_sequence(old(self).events_of(entity_id), evt_w_seq@.0) ==> (r matches Err(e) && e
                == OrderError::DuplicateSequence),
    ;

    /// All events recorded for one entity; an unknown entity has none.
    fn retrieve_events(&mut self, entity_id: i64) -> (r: Result<
        Vec<SequencedEvent<Event>>,
        OrderError,
    >)
        ensures
            final(self).may_fail() == old(self).may_fail(),
            forall|other: i64| final(self).events_of(other) == old(self).events_of(other),
            match r {
                Ok(events) => views_of(events@) == old(self).events_of(entity_id),
                Err(e) => e == OrderError::JournalReadFailure && old(self).may_fail(),
            },
    ;
}

} // verus!
