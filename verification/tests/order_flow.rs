//! End-to-end scenarios: one order driven through its whole lifecycle by
//! the command service over the in-memory journal and the reference
//! calculators.

use reactive_service::aggregate_root::{AggregateRoot, SequencedEvent};
use reactive_service::canada_postal_code::CanadaPostalCode;
use reactive_service::errors::OrderError;
use reactive_service::inmem_journal::InMemoryJournal;
use reactive_service::non_empty_cart::{NonEmptyCart, Quantity, Sku};
use reactive_service::order_entity::{OrderEntity, OrderEvent};
use reactive_service::order_service::{OrderService, PayOrder, UpdateCart, UpdateDeliveryAddress};
use reactive_service::order_state::{Currency, Money, OrderState};
use reactive_service::payment_processor::{LocalPaymentProcessor, PaymentToken};
use reactive_service::shipping_calculator::LocalShippingCalculator;
use reactive_service::tax_calculator::LocalTaxCalculator;

type Service = OrderService<
    InMemoryJournal<OrderEvent>,
    LocalShippingCalculator,
    LocalTaxCalculator,
    LocalPaymentProcessor,
>;

fn service() -> Service {
    OrderService::new(
        InMemoryJournal::new().unwrap(),
        LocalShippingCalculator {},
        LocalTaxCalculator {},
        LocalPaymentProcessor {},
    )
}

fn cart(entries: &[(&str, u16)]) -> NonEmptyCart {
    let mut list = Vec::new();
    for (sku, quantity) in entries {
        list.push((Sku((*sku).to_owned()), Quantity(*quantity)));
    }
    NonEmptyCart::new(list).unwrap()
}

fn address(street: &str, code: &str) -> reactive_service::order_state::DeliveryAddress {
    reactive_service::order_state::DeliveryAddress::new(
        street.to_owned(),
        CanadaPostalCode::parse(code).unwrap(),
    )
}

fn cad(amount_cents: u32) -> Money {
    Money { amount_cents, currency: Currency::Cad }
}

#[test]
fn full_lifecycle_of_one_order() {
    let mut service = service();
    let mut history: Vec<SequencedEvent<OrderEvent>> = Vec::new();

    // A first cart on a fresh order.
    let (state, events) = service
        .update_cart(UpdateCart { order_id: 42, cart: cart(&[("apple", 1)]) })
        .unwrap();
    match &state {
        OrderState::WithCart(with_cart) => {
            assert_eq!(*with_cart.get_cart(), cart(&[("apple", 1)]));
        },
        other => panic!("expected a cart-only order, got {:?}", other),
    }
    assert_eq!(
        events,
        vec![SequencedEvent { sequence_number: 1, event: OrderEvent::UpdatedCart {
            cart: cart(&[("apple", 1)]),
        } }]
    );
    history.extend(events);

    // The delivery address arrives, priced by the reference calculators.
    let (state, events) = service
        .update_delivery_address(UpdateDeliveryAddress {
            order_id: 42,
            delivery_address: address("1 rue", "K1B 0A1"),
        })
        .unwrap();
    match &state {
        OrderState::WithAddress(with_addr) => {
            assert_eq!(*with_addr.get_cart(), cart(&[("apple", 1)]));
            assert_eq!(*with_addr.get_delivery_address(), address("1 rue", "K1B 0A1"));
        },
        other => panic!("expected an addressed order, got {:?}", other),
    }
    assert_eq!(
        events,
        vec![SequencedEvent { sequence_number: 2, event: OrderEvent::UpdatedDeliveryAddress {
            delivery_address: address("1 rue", "K1B 0A1"),
            shipping_cost: cad(200),
            tax: cad(130),
        } }]
    );
    history.extend(events);

    // A new cart while the address exists is re-priced.
    let (state, events) = service
        .update_cart(UpdateCart { order_id: 42, cart: cart(&[("apple", 1), ("chocolate", 2)]) })
        .unwrap();
    match &state {
        OrderState::WithAddress(with_addr) => {
            assert_eq!(*with_addr.get_cart(), cart(&[("apple", 1), ("chocolate", 2)]));
        },
        other => panic!("expected an addressed order, got {:?}", other),
    }
    assert_eq!(
        events,
        vec![SequencedEvent {
            sequence_number: 3,
            event: OrderEvent::UpdatedCartOnExistingDeliveryAddress {
                cart: cart(&[("apple", 1), ("chocolate", 2)]),
                shipping_cost: cad(200),
                tax: cad(130),
            },
        }]
    );
    history.extend(events);

    // Payment closes the order.
    let (state, events) = service
        .pay_order(PayOrder { order_id: 42, payment_token: PaymentToken::new("t".to_owned()) })
        .unwrap();
    assert!(matches!(state, OrderState::Completed(_)));
    assert_eq!(events.len(), 1);
    assert_eq!(events[0].sequence_number, 4);
    assert!(matches!(events[0].event, OrderEvent::Completed { .. }));
    history.extend(events);

    // Once completed, every further command fails and journals nothing.
    let err = service
        .update_cart(UpdateCart { order_id: 42, cart: cart(&[("apple", 1)]) })
        .unwrap_err();
    assert_eq!(err, OrderError::OrderCompleted);

    // Replaying the exact journalled history reproduces the final state
    // and the watermark.
    let mut replayed = OrderEntity::default();
    let replayed_state = replayed.restore_from_events(history).unwrap();
    assert_eq!(replayed_state, state);
    assert_eq!(replayed.watermark(), 4);

    // The sequence numbers were strictly increasing from one, with no gap.
    // (Checked via the journalled history above: 1, 2, 3, 4.)
}

#[test]
fn payment_before_address_is_rejected() {
    let mut service = service();
    let err = service
        .pay_order(PayOrder { order_id: 7, payment_token: PaymentToken::new("t".to_owned()) })
        .unwrap_err();
    assert_eq!(err, OrderError::NotReady);

    // The journal for this entity stays empty: the order restores as empty.
    let state = service.get_state(7).unwrap();
    assert!(matches!(state, OrderState::Empty(_)));
    let mut fresh = OrderEntity::default();
    let restored = fresh.restore_from_events(Vec::new()).unwrap();
    assert_eq!(restored, state);
    assert_eq!(fresh.watermark(), 0);
}

#[test]
fn rejected_command_leaves_state_unchanged() {
    let mut service = service();
    let (state_before, _) = service
        .update_cart(UpdateCart { order_id: 3, cart: cart(&[("apple", 1)]) })
        .unwrap();
    let err = service
        .pay_order(PayOrder { order_id: 3, payment_token: PaymentToken::new("t".to_owned()) })
        .unwrap_err();
    assert_eq!(err, OrderError::NotReady);
    let state_after = service.get_state(3).unwrap();
    assert_eq!(state_after, state_before);
}

#[test]
fn address_on_fresh_order_is_rejected() {
    let mut service = service();
    let err = service
        .update_delivery_address(UpdateDeliveryAddress {
            order_id: 9,
            delivery_address: address("1 rue", "K1B 0A1"),
        })
        .unwrap_err();
    assert_eq!(err, OrderError::AddressOnEmpty);
}

#[test]
fn distinct_entities_are_independent() {
    let mut service = service();
    service.update_cart(UpdateCart { order_id: 1, cart: cart(&[("apple", 1)]) }).unwrap();
    service.update_cart(UpdateCart { order_id: 2, cart: cart(&[("chocolate", 5)]) }).unwrap();
    let (_, events_one) = service
        .update_delivery_address(UpdateDeliveryAddress {
            order_id: 1,
            delivery_address: address("1 rue", "K1B 0A1"),
        })
        .unwrap();
    let (_, events_two) = service
        .update_cart(UpdateCart { order_id: 2, cart: cart(&[("chocolate", 7)]) })
        .unwrap();
    // Each entity numbers its own events; the interleaving of the other
    // entity's commands is invisible to it.
    assert_eq!(events_one[0].sequence_number, 2);
    assert_eq!(events_two[0].sequence_number, 2);
    let state_one = service.get_state(1).unwrap();
    let state_two = service.get_state(2).unwrap();
    assert!(matches!(state_one, OrderState::WithAddress(_)));
    match state_two {
        OrderState::WithCart(with_cart) => {
            assert_eq!(*with_cart.get_cart(), cart(&[("chocolate", 7)]));
        },
        other => panic!("expected a cart-only order, got {:?}", other),
    }
}

#[test]
fn completed_order_rejects_every_command() {
    let mut service = service();
    service.update_cart(UpdateCart { order_id: 5, cart: cart(&[("apple", 1)]) }).unwrap();
    service
        .update_delivery_address(UpdateDeliveryAddress {
            order_id: 5,
            delivery_address: address("1 rue", "K1B 0A1"),
        })
        .unwrap();
    let (state, _) = service
        .pay_order(PayOrder { order_id: 5, payment_token: PaymentToken::new("t".to_owned()) })
        .unwrap();

    let cart_err = service
        .update_cart(UpdateCart { order_id: 5, cart: cart(&[("apple", 1)]) })
        .unwrap_err();
    let addr_err = service
        .update_delivery_address(UpdateDeliveryAddress {
            order_id: 5,
            delivery_address: address("2 rue", "K1B 0A1"),
        })
        .unwrap_err();
    let pay_err = service
        .pay_order(PayOrder { order_id: 5, payment_token: PaymentToken::new("u".to_owned()) })
        .unwrap_err();
    assert_eq!(cart_err, OrderError::OrderCompleted);
    assert_eq!(addr_err, OrderError::OrderCompleted);
    assert_eq!(pay_err, OrderError::OrderCompleted);
    assert_eq!(service.get_state(5).unwrap(), state);
}

#[test]
fn cart_is_replaced_before_an_address_exists() {
    let mut service = service();
    service.update_cart(UpdateCart { order_id: 11, cart: cart(&[("apple", 1)]) }).unwrap();
    let (state, events) = service
        .update_cart(UpdateCart { order_id: 11, cart: cart(&[("pear", 4)]) })
        .unwrap();
    match &state {
        OrderState::WithCart(with_cart) => {
            assert_eq!(*with_cart.get_cart(), cart(&[("pear", 4)]));
        },
        other => panic!("expected a cart-only order, got {:?}", other),
    }
    assert_eq!(
        events,
        vec![SequencedEvent { sequence_number: 2, event: OrderEvent::UpdatedCart {
            cart: cart(&[("pear", 4)]),
        } }]
    );
}

#[test]
fn address_is_replaced_while_one_exists() {
    let mut service = service();
    service.update_cart(UpdateCart { order_id: 12, cart: cart(&[("apple", 1)]) }).unwrap();
    service
        .update_delivery_address(UpdateDeliveryAddress {
            order_id: 12,
            delivery_address: address("1 rue", "K1B 0A1"),
        })
        .unwrap();
    let (state, events) = service
        .update_delivery_address(UpdateDeliveryAddress {
            order_id: 12,
            delivery_address: address("2 rue", "A1A 0B0"),
        })
        .unwrap();
    match &state {
        OrderState::WithAddress(with_addr) => {
            assert_eq!(*with_addr.get_delivery_address(), address("2 rue", "A1A 0B0"));
            assert_eq!(*with_addr.get_cart(), cart(&[("apple", 1)]));
        },
        other => panic!("expected an addressed order, got {:?}", other),
    }
    assert_eq!(
        events,
        vec![SequencedEvent { sequence_number: 3, event: OrderEvent::UpdatedDeliveryAddress {
            delivery_address: address("2 rue", "A1A 0B0"),
            shipping_cost: cad(200),
            tax: cad(130),
        } }]
    );
}
