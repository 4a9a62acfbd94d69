//! The shipping-cost boundary: a pure function of cart and destination,
//! injected into the service.

use vstd::prelude::*;

use crate::non_empty_cart::{CartLine, NonEmptyCart};
use crate::order_state::{AddressView, Currency, DeliveryAddress, Money};

verus! {

/// Computes what shipping a cart to an address costs. Implementations are
/// pure: the result is a function of cart and address alone, stated by
/// `cost_model`.
pub trait ShippingCalculator: Sized {
    /// The cost as a mathematical function of the inputs.
    spec fn cost_model(&self, cart: Seq<CartLine>, address: AddressView) -> Money;

    /// Compute the cost of shipping `cart` to `delivery_address`.
    fn shipping_cost(&self, cart: &NonEmptyCart, delivery_address: &DeliveryAddress) -> (r: Money)
        ensures
            r == self.cost_model(cart@, delivery_address@),
    ;
}

/// The reference calculator: a flat local rate.
pub struct LocalShippingCalculator {}

impl ShippingCalculator for LocalShippingCalculator {
    open spec fn cost_model(&self, cart: Seq<CartLine>, address: AddressView) -> Money {
        Money { amount_cents: 200, currency: Currency::Cad }
    }

    fn shipping_cost(&self, cart: &NonEmptyCart, delivery_address: &DeliveryAddress) -> (r: Money)
    {
        let _ = cart;
        let _ = delivery_address;
        Money { amount_cents: 200, currency: Currency::Cad }
    }
}

} // verus!
