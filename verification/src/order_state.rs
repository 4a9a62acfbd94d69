//! The typed order lifecycle: Empty, WithCart, WithAddress, Completed.
//!
//! Each variant exposes only the transitions legal from that state, and a
//! transition consumes the prior variant. The ghost [`StateView`] is the
//! mathematical shape the contracts speak of.

use vstd::prelude::*;

use crate::canada_postal_code::CanadaPostalCode;
use crate::non_empty_cart::{CartLine, NonEmptyCart};

verus! {

/// An amount of integer cents in one currency.
#[derive(Debug, Clone, Copy, PartialEq, Eq, Structural)]
pub struct Money {
    pub amount_cents: u32,
    pub currency: Currency,
}

/// The currencies the engine knows.
#[derive(Debug, Clone, Copy, PartialEq, Eq, Structural)]
pub enum Currency {
    Cad,
}

/// The receipt a successful payment hands back.
#[derive(Debug, Clone, Copy, PartialEq, Eq, Structural)]
pub struct Invoice {}

/// A free-form street line.
#[derive(Debug, PartialEq, Eq)]
pub struct Street(pub String);

/// Where an order ships: a street line and a validated postal code.
#[derive(Debug, PartialEq, Eq)]
pub struct DeliveryAddress {
    street: Street,
    postal_code: CanadaPostalCode,
}

/// The mathematical content of an address: street and compact postal code.
pub type AddressView = (Seq<char>, Seq<char>);

impl View for DeliveryAddress {
    type V = AddressView;

    closed spec fn view(&self) -> AddressView {
        (self.street.0@, self.postal_code@)
    }
}

impl DeliveryAddress {
    /// Assemble an address from its parts.
    pub fn new(street: String, postal_code: CanadaPostalCode) -> (r: DeliveryAddress)
        ensures
            r@ == (street@, postal_code@),
    {
        DeliveryAddress { street: Street(street), postal_code }
    }

    /// The street line.
    pub fn street_text(&self) -> (r: String)
        ensures
            r@ == self@.0,
    {
        crate::non_empty_cart::clone_string(&self.street.0)
    }

    /// The compact six characters of the postal code.
    pub fn postal_code_text(&self) -> (r: String)
        ensures
            r@ == self@.1,
    {
        self.postal_code.compact_text()
    }
}

impl Clone for DeliveryAddress {
    fn clone(&self) -> (r: Self)
        ensures
            r@ == self@,
    {
        DeliveryAddress {
            street: Street(crate::non_empty_cart::clone_string(&self.street.0)),
            postal_code: self.postal_code.clone(),
        }
    }
}

/// The shape of an order, with the plain values each variant owns.
pub enum StateView {
    /// Nothing recorded yet.
    Empty,
    /// A cart only.
    WithCart { cart: Seq<CartLine> },
    /// A cart, a destination and the prices recorded for it.
    WithAddress { cart: Seq<CartLine>, address: AddressView, shipping_cost: Money, tax: Money },
    /// Terminal: paid, with its invoice.
    Completed {
        cart: Seq<CartLine>,
        address: AddressView,
        shipping_cost: Money,
        tax: Money,
        invoice: Invoice,
    },
}

/// The lifecycle stage of an order.
#[derive(Debug, PartialEq, Eq)]
pub enum OrderState {
    Empty(Empty),
    WithCart(WithCart),
    WithAddress(WithAddress),
    Completed(Completed),
}

impl View for OrderState {
    type V = StateView;

    open spec fn view(&self) -> StateView {
        match self {
            OrderState::Empty(_) => StateView::Empty,
            OrderState::WithCart(s) => StateView::WithCart { cart: s@ },
            OrderState::WithAddress(s) => StateView::WithAddress {
                cart: s@.0,
                address: s@.1,
                shipping_cost: s@.2,
                tax: s@.3,
            },
            OrderState::Completed(s) => StateView::Completed {
                cart: s@.0,
                address: s@.1,
                shipping_cost: s@.2,
                tax: s@.3,
                invoice: s@.4,
            },
        }
    }
}

impl Default for OrderState {
    fn default() -> (r: Self)
        ensures
            r@ is Empty,
    {
        OrderState::Empty(Empty {})
    }
}

impl Clone for OrderState {
    fn clone(&self) -> (r: Self)
        ensures
            r@ == self@,
    {
        match self {
            OrderState::Empty(_) => OrderState::Empty(Empty {}),
            OrderState::WithCart(s) => OrderState::WithCart(WithCart { cart: s.cart.clone() }),
            OrderState::WithAddress(s) => OrderState::WithAddress(WithAddress {
                cart: s.cart.clone(),
                delivery_address: s.delivery_address.clone(),
                shipping_cost: s.shipping_cost,
                tax: s.tax,
            }),
            OrderState::Completed(s) => OrderState::Completed(Completed {
                cart: s.cart.clone(),
                delivery_address: s.delivery_address.clone(),
                shipping_cost: s.shipping_cost,
                tax: s.tax,
                invoice: s.invoice,
            }),
        }
    }
}

/// An order with nothing recorded yet.
#[derive(Debug, PartialEq, Eq)]
pub struct Empty {}

impl Empty {
    /// Record the first cart.
    pub fn add_cart(self, cart: NonEmptyCart) -> (r: WithCart)
        ensures
            r@ == cart@,
    {
        WithCart { cart }
    }
}

/// An order holding a cart but no destination yet.
#[derive(Debug, PartialEq, Eq)]
pub struct WithCart {
    cart: NonEmptyCart,
}

impl View for WithCart {
    type V = Seq<CartLine>;

    closed spec fn view(&self) -> Seq<CartLine> {
        self.cart@
    }
}

impl WithCart {
    /// The cart as recorded.
    pub fn get_cart(&self) -> (r: &NonEmptyCart)
        ensures
            r@ == self@,
    {
        &self.cart
    }

    /// Replace the cart while no address exists.
    pub fn update_cart(self, cart: NonEmptyCart) -> (r: Self)
        ensures
            r@ == cart@,
    {
        Self { cart }
    }

    /// Record the destination together with the prices computed for it.
    pub fn add_delivery_address(
        self,
        delivery_address: DeliveryAddress,
        shipping_cost: Money,
        tax: Money,
    ) -> (r: WithAddress)
        ensures
            r@ == (self@, delivery_address@, shipping_cost, tax),
    {
        WithAddress { cart: self.cart, delivery_address, shipping_cost, tax }
    }
}

/// An order holding a cart, a destination and the prices recorded for it.
#[derive(Debug, PartialEq, Eq)]
pub struct WithAddress {
    cart: NonEmptyCart,
    delivery_address: DeliveryAddress,
    shipping_cost: Money,
    tax: Money,
}

impl View for WithAddress {
    type V = (Seq<CartLine>, AddressView, Money, Money);

    closed spec fn view(&self) -> (Seq<CartLine>, AddressView, Money, Money) {
        (self.cart@, self.delivery_address@, self.shipping_cost, self.tax)
    }
}

impl WithAddress {
    /// The cart as recorded.
    pub fn get_cart(&self) -> (r: &NonEmptyCart)
        ensures
            r@ == self@.0,
    {
        &self.cart
    }

    /// The destination as recorded.
    pub fn get_delivery_address(&self) -> (r: &DeliveryAddress)
        ensures
            r@ == self@.1,
    {
        &self.delivery_address
    }

    /// Replace the cart, re-priced against the existing destination.
    pub fn update_cart(self, cart: NonEmptyCart, shipping_cost: Money, tax: Money) -> (r: Self)
        ensures
            r@ == (cart@, self@.1, shipping_cost, tax),
    {
        Self { cart, shipping_cost, tax, ..self }
    }

    /// Replace the destination, with prices freshly computed for it.
    pub fn update_delivery_address(
        self,
        delivery_address: DeliveryAddress,
        shipping_cost: Money,
        tax: Money,
    ) -> (r: Self)
        ensures
            r@ == (self@.0, delivery_address@, shipping_cost, tax),
    {
        Self { delivery_address, shipping_cost, tax, ..self }
    }

    /// Close the order with the invoice of its payment.
    pub fn complete_order(self, invoice: Invoice) -> (r: Completed)
        ensures
            r@ == (self@.0, self@.1, self@.2, self@.3, invoice),
    {
        Completed {
            cart: self.cart,
            delivery_address: self.delivery_address,
            shipping_cost: self.shipping_cost,
            tax: self.tax,
            invoice,
        }
    }
}

/// A paid order; no further transition exists.
#[derive(Debug, PartialEq, Eq)]
pub struct Completed {
    cart: NonEmptyCart,
    delivery_address: DeliveryAddress,
    shipping_cost: Money,
    tax: Money,
    invoice: Invoice,
}

impl View for Completed {
    type V = (Seq<CartLine>, AddressView, Money, Money, Invoice);

    closed spec fn view(&self) -> (Seq<CartLine>, AddressView, Money, Money, Invoice) {
        (self.cart@, self.delivery_address@, self.shipping_cost, self.tax, self.invoice)
    }
}

} // verus!
