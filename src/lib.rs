//! Verified core of a Stripe.js checkout binding for Yew.
//!
//! The browser side (Stripe.js handles, the DOM, promises) is driven from
//! outside this crate. What the binding decides is stated here over plain
//! values: how a caught JavaScript value becomes a [`StripeError`], which
//! options `stripe.confirmPayment` receives, how its answer becomes a
//! [`PaymentResult`], how a retrieved PaymentIntent settles a checkout, and
//! how the checkout form moves from one step to the next.
use vstd::prelude::*;

pub mod checkout;
pub mod error;
pub mod intent;
pub mod loader;
pub mod payment;
pub mod text;

pub use checkout::{CheckoutAction, CheckoutEvent, CheckoutState, PAYMENT_ELEMENT_SELECTOR};
pub use error::{classify_rejection, js_to_stripe_error, serde_error_to_stripe_error, JsRejection, StripeError};
pub use intent::{retrieval_error, settle_payment_intent, PaymentIntentSnapshot, StripeCheckoutSuccess};
pub use loader::{needs_script_injection, stripe_initially_loaded, STRIPE_JS_URL, STRIPE_SCRIPT_ID};
pub use payment::{
    checkout_confirm_options, confirm_payment_options, confirmation_result, unmount_payment_element, ConfirmOption,
    ConfirmResponse, ConfirmValue, PaymentIntentInfo, PaymentResult,
};
