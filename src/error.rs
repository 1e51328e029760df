//! Errors as Stripe.js reports them, and how caught JavaScript values become one.
use vstd::prelude::*;
use crate::text::{opt_chars, copy_opt};

verus! {

/// Representation of a Stripe.js error object.
#[derive(Clone, Debug)]
pub struct StripeError {
    /// Human-readable message.
    pub message: String,
    /// Stripe's error type, e.g. `"card_error"`.
    pub error_type: Option<String>,
    /// Stripe's error code, e.g. `"card_declined"`.
    pub code: Option<String>,
}

/// The mathematical content of a [`StripeError`].
pub struct StripeErrorModel {
    pub message: Seq<char>,
    pub error_type: Option<Seq<char>>,
    pub code: Option<Seq<char>>,
}

impl View for StripeError {
    type V = StripeErrorModel;

    open spec fn view(&self) -> StripeErrorModel {
        StripeErrorModel {
            message: self.message@,
            error_type: opt_chars(self.error_type),
            code: opt_chars(self.code),
        }
    }
}

/// An error that carries a message and neither a type nor a code.
pub open spec fn plain_error(message: Seq<char>) -> StripeErrorModel {
    StripeErrorModel { message, error_type: None, code: None }
}

impl StripeError {
    /// An error with the given message, without type or code.
    pub fn from_message(message: String) -> (r: StripeError)
        ensures
            r@ == plain_error(message@),
    {
        StripeError { message, error_type: None, code: None }
    }

    /// A field-by-field copy.
    pub fn duplicate(&self) -> (r: StripeError)
        ensures
            r@ == self@,
    {
        StripeError {
            message: self.message.clone(),
            error_type: copy_opt(&self.error_type),
            code: copy_opt(&self.code),
        }
    }
}

/// A value that JavaScript threw, or with which a promise was rejected, as
/// far as this crate reads it.
#[derive(Clone, Debug)]
pub enum JsRejection {
    /// The value reads as a Stripe.js error object: `message`, and optional
    /// `type` and `code`.
    Structured(StripeError),
    /// The value is a JavaScript string.
    Text(String),
    /// Any other value, given by its debug rendering.
    Other(String),
}

/// How a caught JavaScript value is read: as a Stripe error object where it
/// reads as one, else as a string where it is one, else by its debug
/// rendering.
pub open spec fn rejection_reading(structured: Option<StripeError>, text: Option<String>, debug: String) -> JsRejection {
    match structured {
        Some(e) => JsRejection::Structured(e),
        None => match text {
            Some(t) => JsRejection::Text(t),
            None => JsRejection::Other(debug),
        },
    }
}

/// Choose the reading of a caught JavaScript value, given what it reads as:
/// a Stripe error object, a string, and its debug rendering.
pub fn classify_rejection(structured: Option<StripeError>, text: Option<String>, debug: String) -> (r: JsRejection)
    ensures
        r == rejection_reading(structured, text, debug),
{
    match structured {
        Some(e) => JsRejection::Structured(e),
        None => match text {
            Some(t) => JsRejection::Text(t),
            None => JsRejection::Other(debug),
        },
    }
}

/// The error that a caught JavaScript value stands for: a structured Stripe
/// error as it is, and otherwise the string, or the debug rendering, as a
/// bare message.
pub open spec fn rejection_error(j: JsRejection) -> StripeErrorModel {
    match j {
        JsRejection::Structured(e) => e@,
        JsRejection::Text(s) => plain_error(s@),
        JsRejection::Other(d) => plain_error(d@),
    }
}

/// Convert a caught JavaScript value into a `StripeError` with best effort.
pub fn js_to_stripe_error(value: JsRejection) -> (r: StripeError)
    ensures
        r@ == rejection_error(value),
{
    match value {
        JsRejection::Structured(e) => e,
        JsRejection::Text(s) => StripeError::from_message(s),
        JsRejection::Other(d) => StripeError::from_message(d),
    }
}

/// Convert the text of a serialization failure into a `StripeError`.
pub fn serde_error_to_stripe_error(message: String) -> (r: StripeError)
    ensures
        r@ == plain_error(message@),
{
    StripeError::from_message(message)
}

} // verus!
