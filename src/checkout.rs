//! The checkout form as a state machine. The browser side performs each
//! action (mount the Payment Element, validate it, confirm the payment,
//! retrieve the PaymentIntent, report to the application) and hands the
//! outcome back as the next event.
use vstd::prelude::*;
use vstd::string::*;
use crate::error::{StripeError, StripeErrorModel};
use crate::intent::{
    intent_failure, retrieval_error, retrieval_failure, settle_payment_intent, status_chars,
    succeeded_chars, success_of, PaymentIntentSnapshot, StripeCheckoutSuccess,
};
use crate::payment::{
    checkout_confirm_options, confirm_options_spec, options_model, ConfirmOption, PaymentResult,
};
use crate::text::opt_chars;

verus! {

/// Where the checkout form mounts the Payment Element.
pub const PAYMENT_ELEMENT_SELECTOR: &'static str = "#stripe-payment-element";

/// What the checkout form keeps between events.
#[derive(Clone, Debug)]
pub struct CheckoutState {
    /// The client secret of the PaymentIntent being paid.
    pub client_secret: String,
    /// Stripe.js has loaded.
    pub ready: bool,
    /// The Payment Element is mounted.
    pub mounted: bool,
    /// A payment is in progress.
    pub loading: bool,
    /// The message shown under the form.
    pub error: Option<String>,
}

/// The mathematical content of a [`CheckoutState`].
pub struct CheckoutStateModel {
    pub client_secret: Seq<char>,
    pub ready: bool,
    pub mounted: bool,
    pub loading: bool,
    pub error: Option<Seq<char>>,
}

impl View for CheckoutState {
    type V = CheckoutStateModel;

    open spec fn view(&self) -> CheckoutStateModel {
        CheckoutStateModel {
            client_secret: self.client_secret@,
            ready: self.ready,
            mounted: self.mounted,
            loading: self.loading,
            error: opt_chars(self.error),
        }
    }
}

/// What happened since the last step.
#[derive(Debug)]
pub enum CheckoutEvent {
    /// Stripe.js is now loaded, or not.
    ReadyChanged(bool),
    /// Mounting the Payment Element finished.
    MountFinished(Result<(), StripeError>),
    /// The pay button was clicked.
    PayClicked,
    /// `elements.submit()` finished.
    ValidationFinished(Result<(), StripeError>),
    /// `stripe.confirmPayment` finished.
    ConfirmationFinished(PaymentResult),
    /// `stripe.retrievePaymentIntent` finished: the PaymentIntent, or the
    /// debug rendering of what it rejected with.
    IntentRetrieved(Result<PaymentIntentSnapshot, String>),
}

/// What the browser side is to do next.
#[derive(Clone, Debug)]
pub enum CheckoutAction {
    /// Nothing.
    Idle,
    /// Mount the Payment Element at [`PAYMENT_ELEMENT_SELECTOR`] with the
    /// checkout's keys and options.
    MountElement,
    /// Validate the Payment Element (`elements.submit()`).
    ValidateElement,
    /// Confirm the payment with these options (default confirm parameters
    /// under `confirmParams`).
    ConfirmPayment(Vec<ConfirmOption>),
    /// Retrieve the PaymentIntent of this client secret.
    RetrieveIntent(String),
    /// Report a completed payment to the application.
    ReportSuccess(StripeCheckoutSuccess),
    /// Report a failure to the application.
    ReportError(StripeError),
}

/// The state after a payment attempt ended: no longer loading, and showing
/// `error` where one is given.
pub open spec fn attempt_ended(s: CheckoutStateModel, error: Option<Seq<char>>) -> CheckoutStateModel {
    CheckoutStateModel {
        loading: false,
        error: match error {
            Some(m) => Some(m),
            None => s.error,
        },
        ..s
    }
}

/// Whether `a` reports exactly the error `e`, and `next` ends the attempt
/// showing its message.
pub open spec fn ends_with_error(s: CheckoutStateModel, next: CheckoutStateModel, a: CheckoutAction, e: StripeErrorModel) -> bool {
    &&& a matches CheckoutAction::ReportError(r) && r@ == e
    &&& next == attempt_ended(s, Some(e.message))
}

/// One step of the checkout form, from state `s` on event `e` to state
/// `next` with action `a`.
pub open spec fn checkout_step_spec(s: CheckoutStateModel, e: CheckoutEvent, next: CheckoutStateModel, a: CheckoutAction) -> bool {
    match e {
        // Once Stripe.js is loaded the Payment Element is mounted.
        CheckoutEvent::ReadyChanged(ready) => {
            &&& next == CheckoutStateModel { ready, ..s }
            &&& if ready { a is MountElement } else { a is Idle }
        },
        // A mounted element enables payment; a failed mount shows its message.
        CheckoutEvent::MountFinished(res) => {
            &&& a is Idle
            &&& match res {
                Ok(()) => next == CheckoutStateModel { mounted: true, ..s },
                Err(err) => next == CheckoutStateModel { error: Some(err.message@), ..s },
            }
        },
        // A click starts an attempt, unless one is running or nothing is mounted.
        CheckoutEvent::PayClicked => if s.loading || !s.mounted {
            next == s && a is Idle
        } else {
            next == CheckoutStateModel { loading: true, error: None, ..s } && a is ValidateElement
        },
        // Valid details go on to confirmation.
        CheckoutEvent::ValidationFinished(res) => match res {
            Ok(()) => {
                &&& next == s
                &&& a matches CheckoutAction::ConfirmPayment(opts)
                    && options_model(opts) == confirm_options_spec(Some(s.client_secret), true)
            },
            Err(err) => ends_with_error(s, next, a, err@),
        },
        // A confirmed payment is checked against its PaymentIntent.
        CheckoutEvent::ConfirmationFinished(res) => match res {
            PaymentResult::Success(_) => {
                &&& next == s
                &&& a matches CheckoutAction::RetrieveIntent(cs) && cs@ == s.client_secret
            },
            PaymentResult::Error(err) => ends_with_error(s, next, a, err@),
        },
        // The PaymentIntent's status settles the attempt.
        CheckoutEvent::IntentRetrieved(res) => match res {
            Ok(pi) => if status_chars(pi) == succeeded_chars() {
                &&& a matches CheckoutAction::ReportSuccess(done) && success_of(done, pi)
                &&& next == attempt_ended(s, None)
            } else {
                ends_with_error(s, next, a, intent_failure(pi))
            },
            Err(detail) => ends_with_error(s, next, a, retrieval_failure(detail@)),
        },
    }
}

impl CheckoutState {
    /// The state of a fresh checkout form for the PaymentIntent of
    /// `client_secret`, given whether Stripe.js is already loaded.
    pub fn new(client_secret: String, ready: bool) -> (r: CheckoutState)
        ensures
            r@ == (CheckoutStateModel {
                client_secret: client_secret@,
                ready,
                mounted: false,
                loading: false,
                error: None,
            }),
    {
        CheckoutState { client_secret, ready, mounted: false, loading: false, error: None }
    }

    /// The pay button is disabled until Stripe.js is loaded and while a
    /// payment is in progress.
    pub fn pay_button_disabled(&self) -> (r: bool)
        ensures
            r == (!self.ready || self.loading),
    {
        !self.ready || self.loading
    }

    /// The pay button's text: `"Processing…"` while a payment is in
    /// progress, else the given label, by default `"Pay Now"`.
    pub fn pay_button_label(&self, label: &Option<String>) -> (r: String)
        ensures
            self.loading ==> r@ == "Processing…"@,
            !self.loading ==> r@ == match label {
                Some(l) => l@,
                None => "Pay Now"@,
            },
    {
        if self.loading {
            String::from_str("Processing…")
        } else {
            match label {
                Some(l) => l.clone(),
                None => String::from_str("Pay Now"),
            }
        }
    }

    fn end_attempt(self, err: StripeError) -> (r: (CheckoutState, CheckoutAction))
        ensures
            ends_with_error(self@, r.0@, r.1, err@),
    {
        let message = err.message.clone();
        (CheckoutState { loading: false, error: Some(message), ..self }, CheckoutAction::ReportError(err))
    }

    /// Take one step of the checkout form.
    pub fn step(self, event: CheckoutEvent) -> (r: (CheckoutState, CheckoutAction))
        ensures
            checkout_step_spec(self@, event, r.0@, r.1),
    {
        match event {
            CheckoutEvent::ReadyChanged(ready) => {
                let action = if ready { CheckoutAction::MountElement } else { CheckoutAction::Idle };
                (CheckoutState { ready, ..self }, action)
            },
            CheckoutEvent::MountFinished(res) => match res {
                Ok(()) => (CheckoutState { mounted: true, ..self }, CheckoutAction::Idle),
                Err(err) => (CheckoutState { error: Some(err.message), ..self }, CheckoutAction::Idle),
            },
            CheckoutEvent::PayClicked => {
                if self.loading || !self.mounted {
                    (self, CheckoutAction::Idle)
                } else {
                    (CheckoutState { loading: true, error: None, ..self }, CheckoutAction::ValidateElement)
                }
            },
            CheckoutEvent::ValidationFinished(res) => match res {
                Ok(()) => {
                    let opts = checkout_confirm_options(&self.client_secret);
                    (self, CheckoutAction::ConfirmPayment(opts))
                },
                Err(err) => self.end_attempt(err),
            },
            CheckoutEvent::ConfirmationFinished(res) => match res {
                PaymentResult::Success(_) => {
                    let cs = self.client_secret.clone();
                    (self, CheckoutAction::RetrieveIntent(cs))
                },
                PaymentResult::Error(err) => self.end_attempt(err),
            },
            CheckoutEvent::IntentRetrieved(res) => match res {
                Ok(pi) => match settle_payment_intent(&pi) {
                    Ok(done) => (CheckoutState { loading: false, ..self }, CheckoutAction::ReportSuccess(done)),
                    Err(err) => self.end_attempt(err),
                },
                Err(detail) => self.end_attempt(retrieval_error(detail.as_str())),
            },
        }
    }
}

} // verus!
