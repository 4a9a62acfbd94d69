//! The aggregate alone: replay, rejection and event numbering.

use reactive_service::aggregate_root::{AggregateRoot, SequencedEvent};
use reactive_service::canada_postal_code::CanadaPostalCode;
use reactive_service::errors::OrderError;
use reactive_service::non_empty_cart::{NonEmptyCart, Quantity, Sku};
use reactive_service::order_entity::{OrderEntity, OrderEntityCommand, OrderEvent};
use reactive_service::order_state::{Currency, DeliveryAddress, Invoice, Money, OrderState};

fn cart(entries: &[(&str, u16)]) -> NonEmptyCart {
    let mut list = Vec::new();
    for (sku, quantity) in entries {
        list.push((Sku((*sku).to_owned()), Quantity(*quantity)));
    }
    NonEmptyCart::new(list).unwrap()
}

fn address() -> DeliveryAddress {
    DeliveryAddress::new("1 rue".to_owned(), CanadaPostalCode::parse("K1B 0A1").unwrap())
}

fn cad(amount_cents: u32) -> Money {
    Money { amount_cents, currency: Currency::Cad }
}

#[test]
fn commands_number_their_events_consecutively() {
    let mut entity = OrderEntity::default();
    let (_, events) = entity
        .handle_command(OrderEntityCommand::AddCart { cart: cart(&[("apple", 1)]) })
        .unwrap();
    assert_eq!(events[0].sequence_number, 1);
    let (_, events) = entity
        .handle_command(OrderEntityCommand::UpdateDeliveryAddress {
            delivery_address: address(),
            shipping_cost: cad(200),
            tax: cad(130),
        })
        .unwrap();
    assert_eq!(events[0].sequence_number, 2);
    let (_, events) = entity
        .handle_command(OrderEntityCommand::Complete { invoice: Invoice {} })
        .unwrap();
    assert_eq!(events[0].sequence_number, 3);
    assert_eq!(entity.watermark(), 3);
}

#[test]
fn rejected_command_restores_the_state() {
    let mut entity = OrderEntity::default();
    entity.handle_command(OrderEntityCommand::AddCart { cart: cart(&[("apple", 1)]) }).unwrap();
    let err = entity
        .handle_command(OrderEntityCommand::UpdateCart {
            cart: cart(&[("apple", 2)]),
            shipping_cost: cad(200),
            tax: cad(130),
        })
        .unwrap_err();
    assert_eq!(err, OrderError::InvalidState);
    match entity.get_state() {
        OrderState::WithCart(with_cart) => {
            assert_eq!(*with_cart.get_cart(), cart(&[("apple", 1)]));
        },
        other => panic!("expected a cart-only order, got {:?}", other),
    }
    assert_eq!(entity.watermark(), 1);
}

#[test]
fn update_cart_command_needs_an_address() {
    let mut entity = OrderEntity::default();
    let err = entity
        .handle_command(OrderEntityCommand::UpdateCart {
            cart: cart(&[("apple", 1)]),
            shipping_cost: cad(200),
            tax: cad(130),
        })
        .unwrap_err();
    assert_eq!(err, OrderError::InvalidState);
}

#[test]
fn partial_replay_keeps_the_last_good_state() {
    let mut entity = OrderEntity::default();
    let history = vec![
        SequencedEvent { sequence_number: 1, event: OrderEvent::UpdatedCart {
            cart: cart(&[("apple", 1)]),
        } },
        // A completion is not applicable while no address exists.
        SequencedEvent { sequence_number: 2, event: OrderEvent::Completed { invoice: Invoice {} } },
        SequencedEvent { sequence_number: 3, event: OrderEvent::UpdatedCart {
            cart: cart(&[("apple", 9)]),
        } },
    ];
    let err = entity.restore_from_events(history).unwrap_err();
    assert_eq!(err, OrderError::EventNotApplicable);
    match entity.get_state() {
        OrderState::WithCart(with_cart) => {
            assert_eq!(*with_cart.get_cart(), cart(&[("apple", 1)]));
        },
        other => panic!("expected a cart-only order, got {:?}", other),
    }
    assert_eq!(entity.watermark(), 1);
}

#[test]
fn replay_follows_the_applicability_table() {
    let mut entity = OrderEntity::default();
    let history = vec![
        SequencedEvent { sequence_number: 1, event: OrderEvent::UpdatedCart {
            cart: cart(&[("apple", 1)]),
        } },
        SequencedEvent { sequence_number: 2, event: OrderEvent::UpdatedDeliveryAddress {
            delivery_address: address(),
            shipping_cost: cad(200),
            tax: cad(130),
        } },
        SequencedEvent { sequence_number: 3, event: OrderEvent::UpdatedCartOnExistingDeliveryAddress {
            cart: cart(&[("apple", 1), ("chocolate", 2)]),
            shipping_cost: cad(200),
            tax: cad(130),
        } },
        SequencedEvent { sequence_number: 4, event: OrderEvent::Completed { invoice: Invoice {} } },
    ];
    let state = entity.restore_from_events(history).unwrap();
    assert!(matches!(state, OrderState::Completed(_)));
    assert_eq!(entity.watermark(), 4);
}
