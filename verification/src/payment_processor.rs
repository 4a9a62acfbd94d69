//! The payment boundary: turning a token into an invoice, injected into
//! the service and treated as synchronous and total by this core.

use vstd::prelude::*;

use crate::order_state::Invoice;

verus! {

/// A token standing for an authorised payment.
#[derive(Debug)]
pub struct PaymentToken(String);

impl View for PaymentToken {
    type V = Seq<char>;

    closed spec fn view(&self) -> Seq<char> {
        self.0@
    }
}

impl PaymentToken {
    /// Wrap the raw token text.
    pub fn new(token: String) -> (r: PaymentToken)
        ensures
            r@ == token@,
    {
        PaymentToken(token)
    }
}

impl Clone for PaymentToken {
    fn clone(&self) -> (r: Self)
        ensures
            r@ == self@,
    {
        PaymentToken(crate::non_empty_cart::clone_string(&self.0))
    }
}

/// Pays with a token and hands back the invoice. This core treats payment
/// as total and deterministic in the token, stated by `invoice_model`.
pub trait PaymentProcessor: Sized {
    /// The invoice as a mathematical function of the token.
    spec fn invoice_model(&self, token: Seq<char>) -> Invoice;

    /// Settle the payment behind `payment_token`.
    fn pay_with_token(&self, payment_token: PaymentToken) -> (r: Invoice)
        ensures
            r == self.invoice_model(payment_token@),
    ;
}

/// The reference processor: every token settles into the one invoice.
pub struct LocalPaymentProcessor {}

impl PaymentProcessor for LocalPaymentProcessor {
    open spec fn invoice_model(&self, token: Seq<char>) -> Invoice {
        Invoice {  }
    }

    fn pay_with_token(&self, payment_token: PaymentToken) -> (r: Invoice) {
        let _ = payment_token;
        Invoice {  }
    }
}

} // verus!
