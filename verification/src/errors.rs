//! The error taxonomy shared by the aggregate, the journal and the service.

use vstd::prelude::*;

verus! {

/// Every way a command, a replay or a journal operation can fail.
#[derive(Debug, Clone, Copy, PartialEq, Eq, Structural)]
pub enum OrderError {
    /// Attempt to construct an empty cart.
    CartEmpty,
    /// Postal code rejected after normalisation.
    InvalidPostalCode,
    /// Command semantics do not match the current state.
    InvalidState,
    /// Address update attempted on an empty order.
    AddressOnEmpty,
    /// Payment attempted before an address is present.
    NotReady,
    /// Any mutation attempted on a completed order.
    OrderCompleted,
    /// Replay met an event whose kind is illegal in the current state.
    EventNotApplicable,
    /// Event encoding failed at the journal boundary.
    SerializationFailure,
    /// Event decoding failed during replay.
    DeserializationFailure,
    /// The journal rejected an append.
    JournalWriteFailure,
    /// The journal failed to load an entity's events.
    JournalReadFailure,
    /// The journal saw a second event with an already-used sequence number.
    DuplicateSequence,
}

impl OrderError {
    /// A short, stable text for logs and transports.
    pub fn as_text(&self) -> (r: &'static str)
        ensures
            *self is CartEmpty ==> r@ == "cart is empty"@,
            *self is InvalidPostalCode ==> r@ == "invalid postal code format"@,
            *self is InvalidState ==> r@ == "invalid state"@,
            *self is AddressOnEmpty ==> r@ == "cannot add a delivery address on an empty order"@,
            *self is NotReady ==> r@ == "order is not ready for payment"@,
            *self is OrderCompleted ==> r@ == "order is completed"@,
            *self is EventNotApplicable ==> r@ == "event is not applicable to the current state"@,
            *self is SerializationFailure ==> r@ == "failed to serialize event"@,
            *self is DeserializationFailure ==> r@ == "failed to deserialize event"@,
            *self is JournalWriteFailure ==> r@ == "failed to persist event"@,
            *self is JournalReadFailure ==> r@ == "failed to retrieve events"@,
            *self is DuplicateSequence ==> r@ == "duplicate sequence number"@,
    {
        match self {
            OrderError::CartEmpty => "cart is empty",
            OrderError::InvalidPostalCode => "invalid postal code format",
            OrderError::InvalidState => "invalid state",
            OrderError::AddressOnEmpty => "cannot add a delivery address on an empty order",
            OrderError::NotReady => "order is not ready for payment",
            OrderError::OrderCompleted => "order is completed",
            OrderError::EventNotApplicable => "event is not applicable to the current state",
            OrderError::SerializationFailure => "failed to serialize event",
            OrderError::DeserializationFailure => "failed to deserialize event",
            OrderError::JournalWriteFailure => "failed to persist event",
            OrderError::JournalReadFailure => "failed to retrieve events",
            OrderError::DuplicateSequence => "duplicate sequence number",
        }
    }
}

} // verus!
