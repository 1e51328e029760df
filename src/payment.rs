//! Confirming a payment: what `stripe.confirmPayment` is given, and what its
//! answer means.
use vstd::prelude::*;
use vstd::string::*;
use crate::text::opt_chars;
use crate::error::{js_to_stripe_error, rejection_error, JsRejection, StripeError, StripeErrorModel};

verus! {

/// Minimal representation of a confirmed PaymentIntent.
#[derive(Clone, Debug)]
pub struct PaymentIntentInfo {
    /// Stripe's identifier, e.g. `pi_1Fxxxxxx`.
    pub id: String,
    /// Final status, e.g. `"succeeded"`.
    pub status: String,
}

/// Strongly-typed outcome of attempting to confirm a payment.
#[derive(Clone, Debug)]
pub enum PaymentResult {
    /// The PaymentIntent succeeded. Contains basic info.
    Success(PaymentIntentInfo),
    /// Something went wrong. Contains Stripe's error details.
    Error(StripeError),
}

/// The mathematical content of a [`PaymentResult`].
pub enum PaymentResultModel {
    Success { id: Seq<char>, status: Seq<char> },
    Error(StripeErrorModel),
}

impl View for PaymentResult {
    type V = PaymentResultModel;

    open spec fn view(&self) -> PaymentResultModel {
        match self {
            PaymentResult::Success(info) => PaymentResultModel::Success {
                id: info.id@,
                status: info.status@,
            },
            PaymentResult::Error(e) => PaymentResultModel::Error(e@),
        }
    }
}

/// What a settled `stripe.confirmPayment` promise resolved with, as far as
/// a confirmation reads it.
#[derive(Clone, Debug)]
pub struct ConfirmResponse {
    /// The resolved value read as a Stripe error object, where it reads as one.
    pub as_error: Option<StripeError>,
    /// `error`, read as a Stripe error object, where it reads as one: how
    /// Stripe.js reports a failed confirmation.
    pub nested_error: Option<StripeError>,
    /// `paymentIntent.id`, where it is a string.
    pub payment_intent_id: Option<String>,
    /// `status`, where it is a string.
    pub status: Option<String>,
}

/// The outcome that a confirmation answer stands for. A value that reads as
/// a Stripe error, or that carries one under `error`, is that error; otherwise the payment succeeded, with the
/// PaymentIntent id (empty where absent) and the status (`"succeeded"` where
/// absent). A rejection is an error too.
pub open spec fn confirmation_outcome(answer: Result<ConfirmResponse, JsRejection>) -> PaymentResultModel {
    match answer {
        Err(j) => PaymentResultModel::Error(rejection_error(j)),
        Ok(resp) => match (resp.as_error, resp.nested_error) {
            (Some(e), _) => PaymentResultModel::Error(e@),
            (None, Some(e)) => PaymentResultModel::Error(e@),
            (None, None) => PaymentResultModel::Success {
                id: match resp.payment_intent_id {
                    Some(id) => id@,
                    None => Seq::empty(),
                },
                status: match resp.status {
                    Some(s) => s@,
                    None => "succeeded"@,
                },
            },
        },
    }
}

/// Turn the answer of `stripe.confirmPayment` (the value its promise
/// resolved with, or what was thrown or rejected) into a `PaymentResult`.
pub fn confirmation_result(answer: Result<ConfirmResponse, JsRejection>) -> (r: PaymentResult)
    ensures
        r@ == confirmation_outcome(answer),
{
    match answer {
        Err(j) => PaymentResult::Error(js_to_stripe_error(j)),
        Ok(resp) => match (resp.as_error, resp.nested_error) {
            (Some(e), _) => PaymentResult::Error(e),
            (None, Some(e)) => PaymentResult::Error(e),
            (None, None) => {
                let id = match resp.payment_intent_id {
                    Some(id) => id,
                    None => String::new(),
                };
                let status = match resp.status {
                    Some(s) => s,
                    None => String::from_str("succeeded"),
                };
                PaymentResult::Success(PaymentIntentInfo { id, status })
            },
        },
    }
}

/// What one entry of the `stripe.confirmPayment` options object holds.
#[derive(Clone, Debug)]
pub enum ConfirmValue {
    /// The Elements instance.
    Elements,
    /// The serialized confirm parameters.
    ConfirmParams,
    /// A string.
    Text(String),
}

/// One entry of the `stripe.confirmPayment` options object.
#[derive(Clone, Debug)]
pub struct ConfirmOption {
    pub key: String,
    pub value: ConfirmValue,
}

/// The mathematical content of a [`ConfirmValue`].
pub enum ConfirmValueModel {
    Elements,
    ConfirmParams,
    Text(Seq<char>),
}

/// The mathematical content of a [`ConfirmOption`]: key and value.
pub open spec fn option_model(o: ConfirmOption) -> (Seq<char>, ConfirmValueModel) {
    (o.key@, match o.value {
        ConfirmValue::Elements => ConfirmValueModel::Elements,
        ConfirmValue::ConfirmParams => ConfirmValueModel::ConfirmParams,
        ConfirmValue::Text(s) => ConfirmValueModel::Text(s@),
    })
}

/// The options object, in order of insertion. With a client secret the
/// Elements instance goes under `paymentElement` beside `clientSecret`,
/// without one under `elements`; then `confirmParams`; then, where asked,
/// `redirect: "if_required"`.
pub open spec fn confirm_options_spec(client_secret: Option<Seq<char>>, redirect_if_required: bool) -> Seq<(Seq<char>, ConfirmValueModel)> {
    let handles = match client_secret {
        Some(cs) => seq![
            ("paymentElement"@, ConfirmValueModel::Elements),
            ("clientSecret"@, ConfirmValueModel::Text(cs)),
        ],
        None => seq![("elements"@, ConfirmValueModel::Elements)],
    };
    let redirect = if redirect_if_required {
        seq![("redirect"@, ConfirmValueModel::Text("if_required"@))]
    } else {
        Seq::empty()
    };
    handles + seq![("confirmParams"@, ConfirmValueModel::ConfirmParams)] + redirect
}

/// The mathematical content of a list of confirm options.
pub open spec fn options_model(v: Vec<ConfirmOption>) -> Seq<(Seq<char>, ConfirmValueModel)> {
    v@.map_values(|o: ConfirmOption| option_model(o))
}

fn entry(key: &str, value: ConfirmValue) -> (r: ConfirmOption)
    ensures
        r.key@ == key@,
        r.value == value,
{
    ConfirmOption { key: String::from_str(key), value }
}

/// The entries of the `stripe.confirmPayment` options object.
pub fn confirm_payment_options(client_secret: Option<String>, redirect_if_required: bool) -> (r: Vec<ConfirmOption>)
    ensures
        options_model(r) == confirm_options_spec(opt_chars(client_secret), redirect_if_required),
{
    let ghost secret = opt_chars(client_secret);
    let mut r: Vec<ConfirmOption> = Vec::new();
    match client_secret {
        Some(cs) => {
            r.push(entry("paymentElement", ConfirmValue::Elements));
            r.push(entry("clientSecret", ConfirmValue::Text(cs)));
        },
        None => {
            r.push(entry("elements", ConfirmValue::Elements));
        },
    }
    r.push(entry("confirmParams", ConfirmValue::ConfirmParams));
    if redirect_if_required {
        r.push(entry("redirect", ConfirmValue::Text(String::from_str("if_required"))));
    }
    proof {
        let m = r@.map_values(|o: ConfirmOption| option_model(o));
        assert(m =~= confirm_options_spec(secret, redirect_if_required));
    }
    r
}

/// The options with which a checkout confirms its payment: its client
/// secret, and `redirect: "if_required"`.
pub fn checkout_confirm_options(client_secret: &String) -> (r: Vec<ConfirmOption>)
    ensures
        options_model(r) == confirm_options_spec(Some(client_secret@), true),
{
    confirm_payment_options(Some(client_secret.clone()), true)
}

/// Tear down a mounted PaymentElement, given how its `unmount()` call went.
pub fn unmount_payment_element(unmounted: Result<(), JsRejection>) -> (r: Result<(), StripeError>)
    ensures
        r is Ok <==> unmounted is Ok,
        unmounted matches Err(j) ==> r matches Err(e) && e@ == rejection_error(j),
{
    match unmounted {
        Ok(()) => Ok(()),
        Err(j) => Err(js_to_stripe_error(j)),
    }
}

} // verus!
