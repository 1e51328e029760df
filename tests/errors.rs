use yew_stripe::{
    classify_rejection, js_to_stripe_error, retrieval_error, serde_error_to_stripe_error, unmount_payment_element,
    JsRejection, StripeError,
};

fn card_declined() -> StripeError {
    StripeError {
        message: "Your card was declined.".to_string(),
        error_type: Some("card_error".to_string()),
        code: Some("card_declined".to_string()),
    }
}

#[test]
fn structured_rejection_is_kept_as_is() {
    let e = js_to_stripe_error(JsRejection::Structured(card_declined()));
    assert_eq!(e.message, "Your card was declined.");
    assert_eq!(e.error_type.as_deref(), Some("card_error"));
    assert_eq!(e.code.as_deref(), Some("card_declined"));
}

#[test]
fn string_rejection_becomes_message() {
    let e = js_to_stripe_error(JsRejection::Text("network down".to_string()));
    assert_eq!(e.message, "network down");
    assert_eq!(e.error_type, None);
    assert_eq!(e.code, None);
}

#[test]
fn other_rejection_uses_debug_rendering() {
    let e = js_to_stripe_error(JsRejection::Other("JsValue(Object({}))".to_string()));
    assert_eq!(e.message, "JsValue(Object({}))");
    assert_eq!(e.error_type, None);
    assert_eq!(e.code, None);
}

#[test]
fn serialization_failure_becomes_message() {
    let e = serde_error_to_stripe_error("invalid type: map".to_string());
    assert_eq!(e.message, "invalid type: map");
    assert_eq!(e.error_type, None);
    assert_eq!(e.code, None);
}

#[test]
fn retrieval_failure_is_an_api_error() {
    let e = retrieval_error("JsValue(\"timeout\")");
    assert_eq!(e.message, "Stripe API error: JsValue(\"timeout\")");
    assert_eq!(e.error_type.as_deref(), Some("api_error"));
    assert_eq!(e.code, None);
}

#[test]
fn retrieval_failure_with_empty_detail() {
    let e = retrieval_error("");
    assert_eq!(e.message, "Stripe API error: ");
}

#[test]
fn unmount_success_is_ok() {
    assert!(unmount_payment_element(Ok(())).is_ok());
}

#[test]
fn unmount_failure_maps_the_rejection() {
    let r = unmount_payment_element(Err(JsRejection::Text("not mounted".to_string())));
    let e = r.unwrap_err();
    assert_eq!(e.message, "not mounted");
    assert_eq!(e.error_type, None);

    let r = unmount_payment_element(Err(JsRejection::Structured(card_declined())));
    assert_eq!(r.unwrap_err().code.as_deref(), Some("card_declined"));
}

#[test]
fn duplicate_copies_every_field() {
    let e = card_declined();
    let d = e.duplicate();
    assert_eq!(d.message, e.message);
    assert_eq!(d.error_type, e.error_type);
    assert_eq!(d.code, e.code);
}

#[test]
fn from_message_has_no_type_or_code() {
    let e = StripeError::from_message("boom".to_string());
    assert_eq!(e.message, "boom");
    assert!(e.error_type.is_none() && e.code.is_none());
}

#[test]
fn classify_prefers_structured_reading() {
    let r = classify_rejection(Some(card_declined()), Some("text".to_string()), "dbg".to_string());
    assert!(matches!(r, JsRejection::Structured(ref e) if e.code.as_deref() == Some("card_declined")));
}

#[test]
fn classify_then_text() {
    let r = classify_rejection(None, Some("text".to_string()), "dbg".to_string());
    assert!(matches!(r, JsRejection::Text(ref t) if t == "text"));
}

#[test]
fn classify_falls_back_to_debug() {
    let r = classify_rejection(None, None, "JsValue(42)".to_string());
    assert!(matches!(r, JsRejection::Other(ref d) if d == "JsValue(42)"));
}
