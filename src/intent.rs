//! What a retrieved PaymentIntent means for a checkout.
use vstd::prelude::*;
use vstd::string::*;
use crate::error::{StripeError, StripeErrorModel};
use crate::text::{opt_chars, copy_opt, concat3};

verus! {

/// The fields of a retrieved PaymentIntent that a checkout reads. Each is
/// `None` where the PaymentIntent lacks it or holds a value of another kind.
#[derive(Clone, Debug)]
pub struct PaymentIntentSnapshot {
    /// `id`.
    pub id: Option<String>,
    /// `status`.
    pub status: Option<String>,
    /// `amount_received`, in the smallest currency unit.
    pub amount_received: Option<i64>,
    /// `amount`, in the smallest currency unit.
    pub amount: Option<i64>,
    /// `charges.data[0].payment_method_details.card.last4`.
    pub card_last4: Option<String>,
    /// `charges.data[0].payment_method_details.card.brand`.
    pub card_brand: Option<String>,
    /// `charges.data[0].receipt_url`.
    pub receipt_url: Option<String>,
    /// `last_payment_error.message`.
    pub error_message: Option<String>,
    /// `last_payment_error.type`.
    pub error_type: Option<String>,
    /// `last_payment_error.code`.
    pub error_code: Option<String>,
}

/// Data reported when a payment completes successfully.
#[derive(Clone, Debug)]
pub struct StripeCheckoutSuccess {
    /// Amount paid, in the smallest currency unit (cents).
    pub amount_cents: i64,
    pub last4: Option<String>,
    pub brand: Option<String>,
    pub receipt_url: Option<String>,
    pub payment_intent_id: Option<String>,
}

/// The status a PaymentIntent has after a completed payment.
pub open spec fn succeeded_chars() -> Seq<char> {
    seq!['s', 'u', 'c', 'c', 'e', 'e', 'd', 'e', 'd']
}

/// The status as read: an absent status reads as the empty string.
pub open spec fn status_chars(pi: PaymentIntentSnapshot) -> Seq<char> {
    match pi.status {
        Some(s) => s@,
        None => Seq::empty(),
    }
}

/// The amount paid: `amount_received`, else `amount`, else zero.
pub open spec fn amount_paid(pi: PaymentIntentSnapshot) -> i64 {
    match pi.amount_received {
        Some(a) => a,
        None => match pi.amount {
            Some(a) => a,
            None => 0,
        },
    }
}

/// The message shown when a payment did not succeed and Stripe gave none.
pub open spec fn failed_status_message(status: Seq<char>) -> Seq<char> {
    "Payment failed (status: "@ + status + "). Please try another card."@
}

/// The error a checkout reports for a PaymentIntent that did not succeed.
pub open spec fn intent_failure(pi: PaymentIntentSnapshot) -> StripeErrorModel {
    StripeErrorModel {
        message: match pi.error_message {
            Some(m) => m@,
            None => failed_status_message(status_chars(pi)),
        },
        error_type: opt_chars(pi.error_type),
        code: opt_chars(pi.error_code),
    }
}

/// Whether `s` describes the same success that `pi` reports.
pub open spec fn success_of(s: StripeCheckoutSuccess, pi: PaymentIntentSnapshot) -> bool {
    &&& s.amount_cents == amount_paid(pi)
    &&& opt_chars(s.last4) == opt_chars(pi.card_last4)
    &&& opt_chars(s.brand) == opt_chars(pi.card_brand)
    &&& opt_chars(s.receipt_url) == opt_chars(pi.receipt_url)
    &&& opt_chars(s.payment_intent_id) == opt_chars(pi.id)
}

/// A checkout succeeds exactly when the PaymentIntent's status is
/// `"succeeded"`; it then reports the amount, card and receipt, and
/// otherwise Stripe's last payment error, or a message naming the status.
pub fn settle_payment_intent(pi: &PaymentIntentSnapshot) -> (r: Result<StripeCheckoutSuccess, StripeError>)
    ensures
        r is Ok <==> status_chars(*pi) == succeeded_chars(),
        r matches Ok(s) ==> success_of(s, *pi),
        r matches Err(e) ==> e@ == intent_failure(*pi),
{
    let status = match &pi.status {
        Some(s) => s.clone(),
        None => String::new(),
    };
    let succeeded = String::from_str("succeeded");
    proof {
        reveal_strlit("succeeded");
        assert("succeeded"@ =~= succeeded_chars());
    }
    if status == succeeded {
        let amount_cents: i64 = match pi.amount_received {
            Some(a) => a,
            None => match pi.amount {
                Some(a) => a,
                None => 0,
            },
        };
        Ok(StripeCheckoutSuccess {
            amount_cents,
            last4: copy_opt(&pi.card_last4),
            brand: copy_opt(&pi.card_brand),
            receipt_url: copy_opt(&pi.receipt_url),
            payment_intent_id: copy_opt(&pi.id),
        })
    } else {
        let message = match &pi.error_message {
            Some(m) => m.clone(),
            None => concat3("Payment failed (status: ", status.as_str(), "). Please try another card."),
        };
        Err(StripeError {
            message,
            error_type: copy_opt(&pi.error_type),
            code: copy_opt(&pi.error_code),
        })
    }
}

/// The error a checkout reports when the PaymentIntent could not be
/// retrieved, given the debug rendering of what JavaScript rejected with.
pub open spec fn retrieval_failure(detail: Seq<char>) -> StripeErrorModel {
    StripeErrorModel {
        message: "Stripe API error: "@ + detail,
        error_type: Some("api_error"@),
        code: None,
    }
}

/// The error for a failed PaymentIntent retrieval.
pub fn retrieval_error(detail: &str) -> (r: StripeError)
    ensures
        r@ == retrieval_failure(detail@),
{
    let mut message = String::from_str("Stripe API error: ");
    message.append(detail);
    StripeError {
        message,
        error_type: Some(String::from_str("api_error")),
        code: None,
    }
}

} // verus!
