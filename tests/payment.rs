use yew_stripe::{
    checkout_confirm_options, confirm_payment_options, confirmation_result, ConfirmOption, ConfirmResponse, ConfirmValue,
    JsRejection, PaymentResult, StripeError,
};

fn describe(opts: &[ConfirmOption]) -> Vec<String> {
    opts.iter()
        .map(|o| match &o.value {
            ConfirmValue::Elements => format!("{}=<elements>", o.key),
            ConfirmValue::ConfirmParams => format!("{}=<params>", o.key),
            ConfirmValue::Text(t) => format!("{}={}", o.key, t),
        })
        .collect()
}

#[test]
fn options_with_client_secret_and_redirect() {
    let opts = confirm_payment_options(Some("pi_1_secret_2".to_string()), true);
    assert_eq!(
        describe(&opts),
        vec![
            "paymentElement=<elements>",
            "clientSecret=pi_1_secret_2",
            "confirmParams=<params>",
            "redirect=if_required",
        ]
    );
}

#[test]
fn options_without_client_secret_or_redirect() {
    let opts = confirm_payment_options(None, false);
    assert_eq!(describe(&opts), vec!["elements=<elements>", "confirmParams=<params>"]);
}

#[test]
fn options_without_client_secret_with_redirect() {
    let opts = confirm_payment_options(None, true);
    assert_eq!(
        describe(&opts),
        vec!["elements=<elements>", "confirmParams=<params>", "redirect=if_required"]
    );
}

#[test]
fn options_with_empty_client_secret() {
    let opts = confirm_payment_options(Some(String::new()), false);
    assert_eq!(
        describe(&opts),
        vec!["paymentElement=<elements>", "clientSecret=", "confirmParams=<params>"]
    );
}

#[test]
fn confirmation_with_intent_and_status() {
    let r = confirmation_result(Ok(ConfirmResponse {
        as_error: None,
        nested_error: None,
        payment_intent_id: Some("pi_123".to_string()),
        status: Some("processing".to_string()),
    }));
    match r {
        PaymentResult::Success(info) => {
            assert_eq!(info.id, "pi_123");
            assert_eq!(info.status, "processing");
        }
        PaymentResult::Error(e) => panic!("unexpected error {:?}", e),
    }
}

#[test]
fn confirmation_defaults_when_fields_absent() {
    let r = confirmation_result(Ok(ConfirmResponse {
        as_error: None,
        nested_error: None,
        payment_intent_id: None,
        status: None,
    }));
    match r {
        PaymentResult::Success(info) => {
            assert_eq!(info.id, "");
            assert_eq!(info.status, "succeeded");
        }
        PaymentResult::Error(e) => panic!("unexpected error {:?}", e),
    }
}

#[test]
fn confirmation_answer_that_reads_as_error() {
    let r = confirmation_result(Ok(ConfirmResponse {
        as_error: Some(StripeError {
            message: "Your card has insufficient funds.".to_string(),
            error_type: Some("card_error".to_string()),
            code: Some("insufficient_funds".to_string()),
        }),
        nested_error: None,
        payment_intent_id: Some("pi_ignored".to_string()),
        status: Some("succeeded".to_string()),
    }));
    match r {
        PaymentResult::Error(e) => {
            assert_eq!(e.message, "Your card has insufficient funds.");
            assert_eq!(e.code.as_deref(), Some("insufficient_funds"));
        }
        PaymentResult::Success(info) => panic!("unexpected success {:?}", info),
    }
}

#[test]
fn confirmation_rejected() {
    let r = confirmation_result(Err(JsRejection::Text("Stripe is not defined".to_string())));
    match r {
        PaymentResult::Error(e) => {
            assert_eq!(e.message, "Stripe is not defined");
            assert_eq!(e.error_type, None);
        }
        PaymentResult::Success(info) => panic!("unexpected success {:?}", info),
    }
}

#[test]
fn confirmation_answer_with_nested_error() {
    let r = confirmation_result(Ok(ConfirmResponse {
        as_error: None,
        nested_error: Some(StripeError {
            message: "Your card was declined.".to_string(),
            error_type: Some("card_error".to_string()),
            code: Some("card_declined".to_string()),
        }),
        payment_intent_id: None,
        status: None,
    }));
    match r {
        PaymentResult::Error(e) => {
            assert_eq!(e.message, "Your card was declined.");
            assert_eq!(e.error_type.as_deref(), Some("card_error"));
            assert_eq!(e.code.as_deref(), Some("card_declined"));
        }
        PaymentResult::Success(info) => panic!("unexpected success {:?}", info),
    }
}

#[test]
fn top_level_error_wins_over_nested_one() {
    let r = confirmation_result(Ok(ConfirmResponse {
        as_error: Some(StripeError::from_message("outer".to_string())),
        nested_error: Some(StripeError::from_message("inner".to_string())),
        payment_intent_id: None,
        status: None,
    }));
    assert!(matches!(r, PaymentResult::Error(ref e) if e.message == "outer"));
}

#[test]
fn checkout_options_use_secret_and_redirect() {
    let opts = checkout_confirm_options(&"pi_9_secret_9".to_string());
    assert_eq!(
        describe(&opts),
        vec![
            "paymentElement=<elements>",
            "clientSecret=pi_9_secret_9",
            "confirmParams=<params>",
            "redirect=if_required",
        ]
    );
}
