//! Loading Stripe.js into the page once.
use vstd::prelude::*;

verus! {

/// Where Stripe.js v3 is served from.
pub const STRIPE_JS_URL: &'static str = "https://js.stripe.com/v3/";

/// The id of the `<script>` element that loads Stripe.js.
pub const STRIPE_SCRIPT_ID: &'static str = "stripejs-sdk";

/// Whether Stripe.js counts as loaded when the page is first looked at,
/// given the answer to "does `window` have a `Stripe` property": `None`
/// where there is no window or the lookup threw.
pub fn stripe_initially_loaded(has_stripe: Option<bool>) -> (r: bool)
    ensures
        r == (has_stripe == Some(true)),
{
    match has_stripe {
        Some(b) => b,
        None => false,
    }
}

/// A `<script>` element for Stripe.js is added only while Stripe.js is not
/// loaded and no element with [`STRIPE_SCRIPT_ID`] is in the document.
pub fn needs_script_injection(loaded: bool, script_present: bool) -> (r: bool)
    ensures
        r == (!loaded && !script_present),
{
    !loaded && !script_present
}

} // verus!
