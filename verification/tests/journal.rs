//! The in-memory journal: append, replay, duplicate rejection.

use reactive_service::aggregate_root::SequencedEvent;
use reactive_service::errors::OrderError;
use reactive_service::events_journal::EventsJournal;
use reactive_service::inmem_journal::InMemoryJournal;
use reactive_service::non_empty_cart::{NonEmptyCart, Quantity, Sku};
use reactive_service::order_entity::OrderEvent;

fn event(quantity: u16) -> OrderEvent {
    OrderEvent::UpdatedCart {
        cart: NonEmptyCart::new(vec![(Sku("apple".to_owned()), Quantity(quantity))]).unwrap(),
    }
}

#[test]
fn unknown_entity_has_no_events() {
    let mut journal: InMemoryJournal<OrderEvent> = InMemoryJournal::new().unwrap();
    assert_eq!(journal.retrieve_events(99).unwrap(), Vec::new());
}

#[test]
fn append_preserves_insertion_order() {
    let mut journal: InMemoryJournal<OrderEvent> = InMemoryJournal::new().unwrap();
    journal.persist_event(1, &SequencedEvent { sequence_number: 1, event: event(1) }).unwrap();
    journal.persist_event(1, &SequencedEvent { sequence_number: 2, event: event(2) }).unwrap();
    journal.persist_event(2, &SequencedEvent { sequence_number: 1, event: event(7) }).unwrap();
    let record = journal.retrieve_events(1).unwrap();
    assert_eq!(record.len(), 2);
    assert_eq!(record[0], SequencedEvent { sequence_number: 1, event: event(1) });
    assert_eq!(record[1], SequencedEvent { sequence_number: 2, event: event(2) });
    let other = journal.retrieve_events(2).unwrap();
    assert_eq!(other, vec![SequencedEvent { sequence_number: 1, event: event(7) }]);
}

#[test]
fn duplicate_sequence_is_rejected() {
    let mut journal: InMemoryJournal<OrderEvent> = InMemoryJournal::new().unwrap();
    journal.persist_event(1, &SequencedEvent { sequence_number: 1, event: event(1) }).unwrap();
    let err = journal
        .persist_event(1, &SequencedEvent { sequence_number: 1, event: event(2) })
        .unwrap_err();
    assert_eq!(err, OrderError::DuplicateSequence);
    // The rejected append left the record untouched.
    let record = journal.retrieve_events(1).unwrap();
    assert_eq!(record, vec![SequencedEvent { sequence_number: 1, event: event(1) }]);
}

#[test]
fn same_sequence_on_distinct_entities_is_fine() {
    let mut journal: InMemoryJournal<OrderEvent> = InMemoryJournal::new().unwrap();
    journal.persist_event(1, &SequencedEvent { sequence_number: 1, event: event(1) }).unwrap();
    journal.persist_event(2, &SequencedEvent { sequence_number: 1, event: event(2) }).unwrap();
    assert_eq!(journal.retrieve_events(1).unwrap().len(), 1);
    assert_eq!(journal.retrieve_events(2).unwrap().len(), 1);
}
