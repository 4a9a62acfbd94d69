//! The tax boundary: a pure function of cart and shipping cost, injected
//! into the service.

use vstd::prelude::*;

use crate::non_empty_cart::{CartLine, NonEmptyCart};
use crate::order_state::{Currency, Money};

verus! {

/// Computes the tax owed on a cart and its shipping cost. Implementations
/// are pure: the result is a function of the inputs alone, stated by
/// `tax_model`.
pub trait TaxCalculator: Sized {
    /// The tax as a mathematical function of the inputs.
    spec fn tax_model(&self, cart: Seq<CartLine>, shipping_cost: Money) -> Money;

    /// Compute the tax on `cart` shipped at `shipping_cost`.
    fn tax_cost(&self, cart: &NonEmptyCart, shipping_cost: &Money) -> (r: Money)
        ensures
            r == self.tax_model(cart@, *shipping_cost),
    ;
}

/// The reference calculator: a flat local amount.
pub struct LocalTaxCalculator {}

impl TaxCalculator for LocalTaxCalculator {
    open spec fn tax_model(&self, cart: Seq<CartLine>, shipping_cost: Money) -> Money {
        Money { amount_cents: 130, currency: Currency::Cad }
    }

    fn tax_cost(&self, cart: &NonEmptyCart, shipping_cost: &Money) -> (r: Money) {
        let _ = cart;
        let _ = shipping_cost;
        Money { amount_cents: 130, currency: Currency::Cad }
    }
}

} // verus!
