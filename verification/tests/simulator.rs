use dummy_connector::flows::ProcessPaymentAttempt;
use dummy_connector::store::{
    get_payment_data_by_attempt_id, get_payment_data_from_payment_id, index_attempt,
    store_new_record, Store,
};
use dummy_connector::types::{
    DummyConnectorCard, DummyConnectorCardFlow, DummyConnectorErrors, DummyConnectorNextAction,
    DummyConnectorPayLater, DummyConnectorPaymentAttempt, DummyConnectorPaymentData,
    DummyConnectorPaymentMethodData, DummyConnectorPaymentMethodType,
    DummyConnectorPaymentRequest, DummyConnectorStatus, DummyConnectorWallet,
};

fn card(number: &str) -> DummyConnectorCard {
    DummyConnectorCard {
        number: number.to_string(),
    }
}

fn attempt_with(
    payment_method_data: DummyConnectorPaymentMethodData,
) -> DummyConnectorPaymentAttempt {
    DummyConnectorPaymentAttempt {
        attempt_id: "attempt_123".to_string(),
        payment_id: "payment_456".to_string(),
        payment_request: DummyConnectorPaymentRequest {
            amount: 1000,
            currency: "USD".to_string(),
            return_url: Some("https://merchant/return".to_string()),
            connector: "phonypay".to_string(),
            payment_method_data,
        },
    }
}

fn record(payment_id: &str) -> DummyConnectorPaymentData {
    DummyConnectorPaymentData {
        payment_id: payment_id.to_string(),
        status: DummyConnectorStatus::Succeeded,
        next_action: None,
        amount: 1000,
        currency: "USD".to_string(),
        payment_method_type: DummyConnectorPaymentMethodType::Card,
        connector: "phonypay".to_string(),
        return_url: Some("https://merchant/return".to_string()),
    }
}

fn assert_records_equal(a: &DummyConnectorPaymentData, b: &DummyConnectorPaymentData) {
    assert_eq!(a.payment_id, b.payment_id);
    assert_eq!(a.status, b.status);
    match (&a.next_action, &b.next_action) {
        (None, None) => {}
        (
            Some(DummyConnectorNextAction::RedirectToUrl(u1)),
            Some(DummyConnectorNextAction::RedirectToUrl(u2)),
        ) => assert_eq!(u1, u2),
        _ => panic!("next actions differ"),
    }
    assert_eq!(a.amount, b.amount);
    assert_eq!(a.currency, b.currency);
    assert_eq!(a.payment_method_type, b.payment_method_type);
    assert_eq!(a.connector, b.connector);
    assert_eq!(a.return_url, b.return_url);
}

#[test]
fn classify_succeed_cards() {
    let numbers = [
        "4111111111111111",
        "4242424242424242",
        "5555555555554444",
        "38000000000006",
        "378282246310005",
        "6011111111111117",
    ];
    for number in numbers {
        let flow = card(number).get_flow_from_card_number();
        assert!(
            matches!(
                flow,
                Ok(DummyConnectorCardFlow::NoThreeDS(
                    DummyConnectorStatus::Succeeded,
                    None
                ))
            ),
            "card {number} should succeed without 3-D-Secure"
        );
    }
}

#[test]
fn classify_decline_cards() {
    let cases = [
        ("5105105105105100", "Card declined"),
        ("4000000000000002", "Card declined"),
        ("4000000000009995", "Insufficient funds"),
        ("4000000000009987", "Lost card"),
        ("4000000000009979", "Stolen card"),
    ];
    for (number, reason) in cases {
        match card(number).get_flow_from_card_number() {
            Ok(DummyConnectorCardFlow::NoThreeDS(
                DummyConnectorStatus::Failed,
                Some(DummyConnectorErrors::PaymentDeclined { message }),
            )) => assert_eq!(message, reason),
            _ => panic!("card {number} should decline with reason {reason}"),
        }
    }
}

#[test]
fn classify_three_ds_card() {
    let flow = card("4000003800000446").get_flow_from_card_number();
    assert!(matches!(
        flow,
        Ok(DummyConnectorCardFlow::ThreeDS(
            DummyConnectorStatus::Succeeded,
            None
        ))
    ));
}

#[test]
fn classify_unknown_cards() {
    let numbers = ["", "1234", "4111111111111112", "424242424242424242"];
    for number in numbers {
        let flow = card(number).get_flow_from_card_number();
        assert!(
            matches!(flow, Err(DummyConnectorErrors::CardNotSupported)),
            "card {number:?} should not be supported"
        );
    }
}

#[test]
fn declined_card_yields_no_record() {
    let attempt = attempt_with(DummyConnectorPaymentMethodData::Card(card(
        "4000000000009987",
    )));
    let pmd = attempt.payment_request.payment_method_data.clone();
    let result =
        pmd.build_payment_data_from_payment_attempt(attempt, "http://base/redirect".to_string());
    match result {
        Err(DummyConnectorErrors::PaymentDeclined { message }) => {
            assert_eq!(message, "Lost card")
        }
        _ => panic!("a declined card must fail with PaymentDeclined"),
    }
}

#[test]
fn unsupported_card_propagates() {
    let attempt = attempt_with(DummyConnectorPaymentMethodData::Card(card("9999")));
    let pmd = attempt.payment_request.payment_method_data.clone();
    let result =
        pmd.build_payment_data_from_payment_attempt(attempt, "http://base/redirect".to_string());
    assert!(matches!(
        result,
        Err(DummyConnectorErrors::CardNotSupported)
    ));
}

#[test]
fn step_up_flows_produce_redirect_records() {
    let inputs = [
        DummyConnectorPaymentMethodData::Card(card("4000003800000446")),
        DummyConnectorPaymentMethodData::Wallet(DummyConnectorWallet {}),
        DummyConnectorPaymentMethodData::PayLater(DummyConnectorPayLater {}),
    ];
    for input in inputs {
        let attempt = attempt_with(input);
        let pmd = attempt.payment_request.payment_method_data.clone();
        let record = pmd
            .build_payment_data_from_payment_attempt(attempt, "http://base/redirect".to_string())
            .expect("step-up flows must produce a record");
        assert_eq!(record.status, DummyConnectorStatus::Processing);
        match &record.next_action {
            Some(DummyConnectorNextAction::RedirectToUrl(url)) => {
                assert_eq!(url, "http://base/redirect")
            }
            None => panic!("a step-up record must carry a redirect"),
        }
        assert_eq!(record.return_url.as_deref(), Some("https://merchant/return"));
    }
}

#[test]
fn no_three_ds_success_record_fields() {
    let attempt = attempt_with(DummyConnectorPaymentMethodData::Card(card(
        "4242424242424242",
    )));
    let pmd = attempt.payment_request.payment_method_data.clone();
    let record = pmd
        .build_payment_data_from_payment_attempt(attempt, "http://base/redirect".to_string())
        .expect("a succeeding card must produce a record");
    assert_eq!(record.payment_id, "payment_456");
    assert_eq!(record.status, DummyConnectorStatus::Succeeded);
    assert!(record.next_action.is_none());
    assert_eq!(record.amount, 1000);
    assert_eq!(record.currency, "USD");
    assert_eq!(
        record.payment_method_type,
        DummyConnectorPaymentMethodType::Card
    );
    assert_eq!(record.connector, "phonypay");
    assert_eq!(record.return_url.as_deref(), Some("https://merchant/return"));
}

#[test]
fn scenario_card_success() {
    let attempt = attempt_with(DummyConnectorPaymentMethodData::Card(card(
        "4242424242424242",
    )));
    let record = DummyConnectorPaymentData::process_payment_attempt("http://localhost:8080", attempt)
        .expect("the scenario card must succeed");
    assert_eq!(record.status, DummyConnectorStatus::Succeeded);
    assert!(record.next_action.is_none());
    assert_eq!(record.amount, 1000);
    assert_eq!(record.currency, "USD");
}

#[test]
fn scenario_three_ds_redirect() {
    let attempt = attempt_with(DummyConnectorPaymentMethodData::Card(card(
        "4000003800000446",
    )));
    let record = DummyConnectorPaymentData::process_payment_attempt("http://localhost:8080", attempt)
        .expect("the 3-D-Secure card must produce a record");
    assert_eq!(record.status, DummyConnectorStatus::Processing);
    match &record.next_action {
        Some(DummyConnectorNextAction::RedirectToUrl(url)) => assert_eq!(
            url,
            "http://localhost:8080/dummy-connector/authorize/attempt_123"
        ),
        None => panic!("the 3-D-Secure record must carry a redirect"),
    }
    assert_eq!(record.return_url.as_deref(), Some("https://merchant/return"));
}

#[test]
fn store_round_trip() {
    let mut store = Store::new();
    let stored = record("payment_456");
    store_new_record(&mut store, stored.clone(), 300).expect("writes succeed");
    let found = get_payment_data_from_payment_id(&store, "payment_456".to_string())
        .expect("a stored record must be found");
    assert_records_equal(&found, &stored);
}

#[test]
fn attempt_id_indirection() {
    let mut store = Store::new();
    index_attempt(
        &mut store,
        "attempt_123".to_string(),
        "payment_456".to_string(),
        300,
    )
    .expect("writes succeed");
    let stored = record("payment_456");
    store_new_record(&mut store, stored.clone(), 300).expect("writes succeed");
    let by_attempt = get_payment_data_by_attempt_id(&store, "attempt_123".to_string())
        .expect("an indexed record must be found by attempt id");
    let by_payment = get_payment_data_from_payment_id(&store, "payment_456".to_string())
        .expect("a stored record must be found by payment id");
    assert_records_equal(&by_attempt, &by_payment);
    assert_records_equal(&by_attempt, &stored);
}

#[test]
fn unknown_ids_are_not_found() {
    let store = Store::new();
    assert!(matches!(
        get_payment_data_from_payment_id(&store, "missing".to_string()),
        Err(DummyConnectorErrors::PaymentNotFound)
    ));
    assert!(matches!(
        get_payment_data_by_attempt_id(&store, "missing".to_string()),
        Err(DummyConnectorErrors::PaymentNotFound)
    ));
}

#[test]
fn dangling_index_is_not_found() {
    let mut store = Store::new();
    index_attempt(
        &mut store,
        "attempt_123".to_string(),
        "payment_456".to_string(),
        300,
    )
    .expect("writes succeed");
    assert!(matches!(
        get_payment_data_by_attempt_id(&store, "attempt_123".to_string()),
        Err(DummyConnectorErrors::PaymentNotFound)
    ));
}

#[test]
fn index_entry_does_not_decode_as_record() {
    let mut store = Store::new();
    index_attempt(
        &mut store,
        "attempt_123".to_string(),
        "payment_456".to_string(),
        300,
    )
    .expect("writes succeed");
    assert!(matches!(
        get_payment_data_from_payment_id(&store, "attempt_123".to_string()),
        Err(DummyConnectorErrors::PaymentNotFound)
    ));
}

#[test]
fn last_write_wins() {
    let mut store = Store::new();
    let mut first = record("payment_456");
    first.amount = 1;
    let mut second = record("payment_456");
    second.amount = 2;
    store_new_record(&mut store, first, 300).expect("writes succeed");
    store_new_record(&mut store, second, 300).expect("writes succeed");
    let found = get_payment_data_from_payment_id(&store, "payment_456".to_string())
        .expect("a stored record must be found");
    assert_eq!(found.amount, 2);
}
