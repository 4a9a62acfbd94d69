//! Construction rules of the non-empty cart.

use reactive_service::errors::OrderError;
use reactive_service::non_empty_cart::{NonEmptyCart, Quantity, Sku};

fn entry(sku: &str, quantity: u16) -> (Sku, Quantity) {
    (Sku(sku.to_owned()), Quantity(quantity))
}

#[test]
fn empty_cart_is_rejected() {
    assert_eq!(NonEmptyCart::new(Vec::new()), Err(OrderError::CartEmpty));
}

#[test]
fn cart_keeps_its_entries() {
    let cart = NonEmptyCart::new(vec![entry("apple", 1), entry("chocolate", 2)]).unwrap();
    assert_eq!(cart.len(), 2);
    assert_eq!(cart.line_at(0), ("apple".to_owned(), 1));
    assert_eq!(cart.line_at(1), ("chocolate".to_owned(), 2));
}

#[test]
fn later_entry_replaces_earlier_one() {
    let cart = NonEmptyCart::new(vec![entry("apple", 1), entry("apple", 3)]).unwrap();
    assert_eq!(cart.len(), 1);
    assert_eq!(cart.line_at(0), ("apple".to_owned(), 3));
}

#[test]
fn clone_preserves_entries() {
    let cart = NonEmptyCart::new(vec![entry("apple", 1)]).unwrap();
    let copy = cart.clone();
    assert_eq!(cart, copy);
}

#[test]
fn cart_empty_error_text() {
    assert_eq!(OrderError::CartEmpty.as_text(), "cart is empty");
}
