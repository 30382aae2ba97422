use appwash::model::{
    units_of_cents, units_of_signed_cents, ActionResult, Balance, ComponentPriceObject, History,
    MachineData, MachineState,
};
use appwash::policy::{can_reserve, can_stop, check_reserve, check_stop, Legality};
use appwash::text::{decimal_text, same_text, signed_decimal_text};
use appwash::user::{Account, Token, User, UserConfig};

fn machine(state: MachineState, start: Option<i64>) -> MachineData {
    MachineData {
        external_id: "12345".to_string(),
        location_id: "9944".to_string(),
        location: "Laundry".to_string(),
        location_top_level_name: "Campus".to_string(),
        service_type: "WASHING_MACHINE".to_string(),
        service_name: "Washer".to_string(),
        unit: "MINUTES".to_string(),
        state,
        state_description: String::new(),
        last_session_start: start,
        required_fields: Vec::new(),
        free_form_question_int: Vec::new(),
        pricing: Vec::new(),
        tariff_set_name: String::new(),
        gps: serde_json::Value::Null,
        reservable: "true".to_string(),
        reservations: Vec::new(),
        block_time_seconds: 0,
        time_of_arrival_seconds: 0,
        checkout_time_seconds: 0,
        start_with_predetermined_usage: false,
        optional_name: None,
    }
}

#[test]
fn decimal_rendering() {
    assert_eq!(decimal_text(0), "0");
    assert_eq!(decimal_text(7), "7");
    assert_eq!(decimal_text(1234), "1234");
    assert_eq!(decimal_text(u64::MAX), "18446744073709551615");
    assert_eq!(signed_decimal_text(-5), "-5");
    assert_eq!(signed_decimal_text(i64::MIN), "-9223372036854775808");
    assert_eq!(signed_decimal_text(40), "40");
}

#[test]
fn text_comparison() {
    assert!(same_text("OCCUPIED", "OCCUPIED"));
    assert!(!same_text("OCCUPIED", "OCCUPIE"));
    assert!(!same_text("OCCUPIED", "occupied"));
    assert!(same_text("", ""));
}

#[test]
fn machine_state_from_wire_names() {
    assert_eq!(MachineState::from_wire("AVAILABLE"), MachineState::Available);
    assert_eq!(MachineState::from_wire("RESERVED"), MachineState::Reserved);
    assert_eq!(MachineState::from_wire("OCCUPIED"), MachineState::Occupied);
    assert_eq!(MachineState::from_wire("STOPPABLE"), MachineState::Stoppable);
    assert_eq!(MachineState::from_wire("FAULTED"), MachineState::Faulted);
    assert_eq!(
        MachineState::from_wire("MAINTENANCE"),
        MachineState::Unknown("MAINTENANCE".to_string())
    );
    assert_eq!(
        MachineState::from_wire("available"),
        MachineState::Unknown("available".to_string())
    );
}

#[test]
fn machine_state_labels() {
    assert_eq!(MachineState::Available.label(), "Available");
    assert_eq!(MachineState::Available.wire_text(), "AVAILABLE");
    assert_eq!(MachineState::Faulted.wire_text(), "FAULTED");
    assert_eq!(MachineState::Unknown("NEW".to_string()).wire_text(), "NEW");
    assert_eq!(MachineState::Stoppable.label(), "Stoppable");
    assert_eq!(MachineState::Unknown("MAINTENANCE".to_string()).label(), "MAINTENANCE");
    assert!(MachineState::Occupied.is_in_session());
    assert!(!MachineState::Reserved.is_in_session());
}

#[test]
fn reserve_and_stop_rules() {
    assert!(can_reserve(&MachineState::Available));
    assert!(!can_reserve(&MachineState::Occupied));
    assert!(can_stop(&MachineState::Stoppable));
    assert!(!can_stop(&MachineState::Available));
    assert!(!can_reserve(&MachineState::Faulted));
    assert!(!can_stop(&MachineState::Faulted));
    assert!(can_stop(&MachineState::Occupied));
    assert!(!can_reserve(&MachineState::Reserved));
    assert!(!can_reserve(&MachineState::Unknown("NEW".to_string())));
    assert!(!can_stop(&MachineState::Unknown("NEW".to_string())));
}

#[test]
fn legality_verdicts_with_reasons() {
    assert_eq!(check_reserve(&machine(MachineState::Available, None)), Legality::Legal);
    assert_eq!(
        check_reserve(&machine(MachineState::Occupied, Some(1_700_000_000))),
        Legality::Illegal("machine is not currently available".to_string())
    );
    assert_eq!(
        check_stop(&machine(MachineState::Stoppable, Some(1_700_000_000))),
        Legality::Legal
    );
    assert_eq!(
        check_stop(&machine(MachineState::Available, None)),
        Legality::Illegal("machine has no running session to stop".to_string())
    );
    assert_eq!(
        check_stop(&machine(MachineState::Occupied, None)),
        Legality::Illegal("machine has no running session to stop".to_string())
    );
}

#[test]
fn session_start_agrees_with_state() {
    assert!(machine(MachineState::Available, None).has_consistent_session());
    assert!(machine(MachineState::Occupied, Some(5)).has_consistent_session());
    assert!(machine(MachineState::Stoppable, Some(5)).has_consistent_session());
    assert!(!machine(MachineState::Occupied, None).has_consistent_session());
    assert!(!machine(MachineState::Faulted, Some(5)).has_consistent_session());
    assert!(!machine(MachineState::Reserved, Some(5)).has_consistent_session());
}

#[test]
fn cents_become_whole_units_by_truncation() {
    assert_eq!(units_of_cents(1234), 12);
    assert_eq!(units_of_cents(99), 0);
    assert_eq!(units_of_cents(100), 1);
    assert_eq!(units_of_signed_cents(-1234), -12);
    assert_eq!(units_of_signed_cents(-99), 0);
    assert_eq!(units_of_signed_cents(i32::MIN), -21474836);
    let balance = Balance { amount_cents: 1234, currency: "EUR".to_string() };
    assert_eq!(balance.amount_units(), 12);
    assert_eq!(balance.display_text(), "12 EUR");
    let price = ComponentPriceObject {
        full_price_string: "1.50".to_string(),
        price_string: "1.50".to_string(),
        cost_cents: 150,
    };
    assert_eq!(price.cost_units(), 1);
    let entry = History {
        mutation_timestamp: 1_700_000_000,
        currency: "EUR".to_string(),
        mutation_cents: -350,
        balance_cents_before: 2000,
        balance_cents_after: 1650,
        mutation_description: "washing".to_string(),
        service_type: Some("WASHING_MACHINE".to_string()),
    };
    assert_eq!(entry.mutation_units(), -3);
    assert_eq!(entry.balance_after_units(), 16);
}

#[test]
fn action_result_success_sentinel() {
    let ok = ActionResult { error_code: 0, error_description: String::new() };
    let refused = ActionResult { error_code: 17, error_description: "busy".to_string() };
    assert!(ok.succeeded());
    assert!(!refused.succeeded());
}

#[test]
fn user_and_token_constructors() {
    let user = User::new();
    assert_eq!(user.email, "");
    assert_eq!(user.password, "");
    assert_eq!(user.token, "");
    let token = Token::new("abc".to_string(), 42);
    assert_eq!(token.secret, "abc");
    assert_eq!(token.expires, 42);
}

#[test]
fn default_config_and_token_replacement() {
    let mut config = UserConfig::default();
    assert_eq!(config.account.email, "<YOUR EMAIL>");
    assert_eq!(config.account.password, "<YOUR PASSWORD>");
    assert_eq!(config.account.location, 0);
    assert_eq!(config.token.secret, "<TOKEN WILL BE AUTOMATICALLY GENERATED>");
    assert_eq!(config.token.expires, 0);
    config.set_token(Token::new("fresh".to_string(), 1000));
    assert_eq!(config.token, Token::new("fresh".to_string(), 1000));
    assert_eq!(
        config.account,
        Account {
            email: "<YOUR EMAIL>".to_string(),
            password: "<YOUR PASSWORD>".to_string(),
            location: 0
        }
    );
}
