//! Paying with a single-use token: on failure the token travels back
//! inside the error, so the caller owns it again and can retry; on success
//! it is consumed and cannot be reused.

use vstd::prelude::*;

use crate::payment_processor::PaymentToken;

verus! {

/// A failed attempt: the message, and the token handed back for a retry.
pub struct PaymentError {
    pub error_message: String,
    pub payment_token: PaymentToken,
}

/// Settle the payment behind the token. A failure returns the very token
/// that was passed in; the collaborator here settles every payment, so the
/// attempt always succeeds.
pub fn pay_with_token(payment_token: PaymentToken) -> (r: Result<(), PaymentError>)
    ensures
        r is Ok,
        r matches Err(e) ==> e.payment_token@ == payment_token@,
{
    match external_service(&payment_token) {
        Ok(()) => Ok(()),
        Err(err) => Err(PaymentError { error_message: err.to_owned(), payment_token }),
    }
}

/// The fallible collaborator that processes the payment; this stand-in
/// settles everything.
fn external_service(payment_token: &PaymentToken) -> (r: Result<(), &'static str>)
    ensures
        r is Ok,
{
    let _ = payment_token;
    Ok(())
}

} // verus!
