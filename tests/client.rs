use appwash::action::{plain_str, ActionMetadata};
use appwash::error::ClientError;
use appwash::model::{
    ActionResult, Balance, BalanceResponse, History, LocationInfo, LocationTypeObject, LoginInfo,
    LoginResponse, MachineData, MachineState, ReserveStopResponse, Response,
};
use appwash::request::{
    balance_request, get_headers, history_request, location_request, login_body, login_request,
    machines_request, reserve_request, stop_request, ApiRequest, Header, Method,
};
use appwash::session::{TokenStep, TOKEN_MARGIN_SECS};
use appwash::settle::{
    action_of, balance_of, history_of, location_of, login_token, machines_of, settle_body,
};
use appwash::user::{Account, Token, UserConfig};

const BASE: &str = "https://www.involtum-services.com/api-rest";
const FIXED_METADATA: &str = "{\"objectId\":null,\"objectLength\":null,\"objectName\":null,\"nrOfPersons\":null,\"freeFormQuestionValue\":null,\"comment\":null,\"sourceChannel\":\"WEBSITE\"}";

fn pairs(req: &ApiRequest) -> Vec<(String, String)> {
    req.headers.iter().map(|h| (h.name.clone(), h.value.clone())).collect()
}

fn identification() -> Vec<(String, String)> {
    vec![
        ("Content-Type".to_string(), "application/json".to_string()),
        ("User-Agent".to_string(), "appwash-cli v1.0.0".to_string()),
        ("language".to_string(), "EN".to_string()),
        ("platform".to_string(), "appWash".to_string()),
        ("Referer".to_string(), "https://appwash.com/".to_string()),
    ]
}

fn with_token(secret: &str) -> Vec<(String, String)> {
    let mut hs = identification();
    hs.push(("token".to_string(), secret.to_string()));
    hs
}

fn login_info(token: &str) -> LoginInfo {
    LoginInfo {
        email: "user@example.org".to_string(),
        username: "user".to_string(),
        external_id: "1".to_string(),
        language: "EN".to_string(),
        token: token.to_string(),
        offline_allowed: false,
        manage_others: false,
        administrator: false,
        view_invoice: true,
        view_transaction_history: true,
        view_products: true,
        api_message_permission: false,
        correction_allowed: false,
        installer: false,
        start_multiple: false,
        start_for_others: false,
        time_for_review: false,
    }
}

fn login_reply(code: u32, token: &str, expire: u32) -> LoginResponse {
    LoginResponse {
        error_code: code,
        error_description: if code == 0 { "OK".to_string() } else { "bad credentials".to_string() },
        token_expire_ts: expire,
        server_time: 1_700_000_000,
        active_sessions: Vec::new(),
        login: login_info(token),
    }
}

fn config(email: &str, password: &str, location: u32) -> UserConfig {
    UserConfig {
        account: Account { email: email.to_string(), password: password.to_string(), location },
        token: Token::new(String::new(), 0),
    }
}

fn machine(state: MachineState, start: Option<i64>) -> MachineData {
    MachineData {
        external_id: "12345".to_string(),
        location_id: "9944".to_string(),
        location: "Laundry".to_string(),
        location_top_level_name: "Campus".to_string(),
        service_type: "WASHING_MACHINE".to_string(),
        service_name: "Washer".to_string(),
        unit: "MINUTES".to_string(),
        state,
        state_description: String::new(),
        last_session_start: start,
        required_fields: Vec::new(),
        free_form_question_int: Vec::new(),
        pricing: Vec::new(),
        tariff_set_name: String::new(),
        gps: serde_json::Value::Null,
        reservable: "true".to_string(),
        reservations: Vec::new(),
        block_time_seconds: 0,
        time_of_arrival_seconds: 0,
        checkout_time_seconds: 0,
        start_with_predetermined_usage: false,
        optional_name: None,
    }
}

fn envelope<T>(code: usize, data: T) -> Response<T> {
    Response {
        error_code: code,
        error_description: if code == 0 { "OK".to_string() } else { "denied".to_string() },
        token_expire_ts: 0,
        server_time: 0,
        data,
    }
}

#[test]
fn identification_headers_are_fixed() {
    let hs: Vec<(String, String)> =
        get_headers().into_iter().map(|h: Header| (h.name, h.value)).collect();
    assert_eq!(hs, identification());
}

#[test]
fn login_request_writes_credentials_as_json() {
    let account = Account {
        email: "a\"b@example.org".to_string(),
        password: "p\\w\n".to_string(),
        location: 9944,
    };
    let req = login_request(&account).unwrap();
    assert_eq!(req.method, Method::Post);
    assert_eq!(req.url, format!("{BASE}/login"));
    assert_eq!(pairs(&req), identification());
    assert_eq!(
        req.body,
        Some("{\"email\":\"a\\\"b@example.org\",\"password\":\"p\\\\w\\n\"}".to_string())
    );
}

#[test]
fn login_body_frames_both_fields() {
    assert_eq!(login_body("\"e\"", "\"p\""), "{\"email\":\"e\",\"password\":\"p\"}");
}

#[test]
fn login_request_needs_credentials() {
    let empty_email = Account { email: String::new(), password: "pw".to_string(), location: 1 };
    let empty_password = Account { email: "e@x".to_string(), password: String::new(), location: 1 };
    assert!(matches!(login_request(&empty_email), Err(ClientError::Config(_))));
    assert!(matches!(login_request(&empty_password), Err(ClientError::Config(_))));
}

#[test]
fn machines_request_filters_washing_machines() {
    let token = Token::new("tok".to_string(), 100);
    let req = machines_request(&token, 9944).unwrap();
    assert_eq!(req.method, Method::Post);
    assert_eq!(req.url, format!("{BASE}/location/9944/connectorsv2"));
    let mut expected = with_token("tok");
    expected.push(("DNT".to_string(), "1".to_string()));
    assert_eq!(pairs(&req), expected);
    assert_eq!(req.body, Some("{\"serviceType\":\"WASHING_MACHINE\"}".to_string()));
}

#[test]
fn location_zero_is_a_configuration_error() {
    let token = Token::new("tok".to_string(), 100);
    assert!(matches!(machines_request(&token, 0), Err(ClientError::Config(_))));
    assert!(matches!(location_request(&token, 0), Err(ClientError::Config(_))));
}

#[test]
fn location_balance_and_history_requests() {
    let token = Token::new("tok".to_string(), 100);
    let loc = location_request(&token, 17).unwrap();
    assert_eq!(loc.method, Method::Get);
    assert_eq!(loc.url, format!("{BASE}/locations/split/17"));
    assert_eq!(pairs(&loc), with_token("tok"));
    assert_eq!(loc.body, None);
    let bal = balance_request(&token).unwrap();
    assert_eq!(bal.method, Method::Get);
    assert_eq!(bal.url, format!("{BASE}/account/getprepaid"));
    assert_eq!(pairs(&bal), with_token("tok"));
    let hist = history_request(&token).unwrap();
    assert_eq!(hist.url, format!("{BASE}/account/getprepaidmutations"));
    assert_eq!(pairs(&hist), with_token("tok"));
}

#[test]
fn token_that_no_header_can_carry_is_refused() {
    let token = Token::new("to\nk".to_string(), 100);
    assert!(matches!(balance_request(&token), Err(ClientError::Config(_))));
    assert!(matches!(reserve_request(&token, 3), Err(ClientError::Config(_))));
    let tab = Token::new("to\tk é".to_string(), 100);
    assert!(balance_request(&tab).is_ok());
}

#[test]
fn reserve_and_stop_requests_carry_fixed_metadata() {
    let token = Token::new("tok".to_string(), 100);
    let reserve = reserve_request(&token, 12345).unwrap();
    assert_eq!(reserve.method, Method::Post);
    assert_eq!(reserve.url, format!("{BASE}/connector/12345/start"));
    assert_eq!(pairs(&reserve), with_token("tok"));
    assert_eq!(reserve.body, Some(FIXED_METADATA.to_string()));
    let stop = stop_request(&token, 7).unwrap();
    assert_eq!(stop.url, format!("{BASE}/connector/7/stop"));
    assert_eq!(stop.body, reserve.body);
}

#[test]
fn action_metadata_round_trip() {
    let fixed = ActionMetadata::fixed();
    let text = fixed.encode().unwrap();
    assert_eq!(text, FIXED_METADATA);
    assert_eq!(ActionMetadata::decode(&text), Some(fixed));
    let filled = ActionMetadata {
        object_id: Some("42".to_string()),
        object_length: None,
        object_name: Some(String::new()),
        nr_of_persons: Some("2".to_string()),
        free_form_question_value: None,
        comment: Some("front door".to_string()),
        source_channel: "WEBSITE".to_string(),
    };
    let filled_text = filled.encode().unwrap();
    assert_eq!(
        filled_text,
        "{\"objectId\":\"42\",\"objectLength\":null,\"objectName\":\"\",\"nrOfPersons\":\"2\",\"freeFormQuestionValue\":null,\"comment\":\"front door\",\"sourceChannel\":\"WEBSITE\"}"
    );
    assert_eq!(ActionMetadata::decode(&filled_text), Some(filled));
}

#[test]
fn action_metadata_needing_escapes_is_not_written() {
    let mut quoted = ActionMetadata::fixed();
    quoted.comment = Some("say \"hi\"".to_string());
    assert!(!quoted.is_plain());
    assert_eq!(quoted.encode(), None);
    let mut newline = ActionMetadata::fixed();
    newline.source_channel = "WEB\nSITE".to_string();
    assert_eq!(newline.encode(), None);
    assert!(ActionMetadata::fixed().is_plain());
    assert!(plain_str("front door"));
    assert!(!plain_str("back\\slash"));
}

#[test]
fn action_metadata_rejects_other_layouts() {
    assert_eq!(ActionMetadata::decode(""), None);
    assert_eq!(ActionMetadata::decode(&format!("{FIXED_METADATA} ")), None);
    assert_eq!(ActionMetadata::decode(&FIXED_METADATA.replace("\"WEBSITE\"", "null")), None);
    assert_eq!(ActionMetadata::decode(&FIXED_METADATA.replace("\"comment\"", "\"remark\"")), None);
    assert_eq!(
        ActionMetadata::decode(&FIXED_METADATA.replace("\"WEBSITE\"", "\"WEB\\SITE\"")),
        None
    );
}

#[test]
fn login_then_reuse_until_deadline() {
    let expire: u32 = 1_700_003_600;
    let deadline = expire as u64 - TOKEN_MARGIN_SECS;
    let mut cfg = config("user@example.org", "secret", 9944);

    let first = cfg.ensure_valid(1_700_000_000).unwrap();
    assert!(matches!(first, TokenStep::Login(_)));
    let token = cfg.accept_login(login_reply(0, "T1", expire)).unwrap();
    assert_eq!(token, Token::new("T1".to_string(), expire));
    assert_eq!(cfg.token, token);

    let before = cfg.ensure_valid(deadline - 1).unwrap();
    assert_eq!(before, TokenStep::Reuse(Token::new("T1".to_string(), expire)));
    let req = machines_request(&cfg.token, cfg.account.location).unwrap();
    assert_eq!(pairs(&req)[5], ("token".to_string(), "T1".to_string()));

    let after = cfg.ensure_valid(deadline + 1).unwrap();
    match after {
        TokenStep::Login(login) => {
            assert_eq!(login.url, format!("{BASE}/login"));
            assert_eq!(
                login.body,
                Some("{\"email\":\"user@example.org\",\"password\":\"secret\"}".to_string())
            );
        }
        other => panic!("expected a login, got {other:?}"),
    }
    cfg.accept_login(login_reply(0, "T2", expire + 3600)).unwrap();
    assert_eq!(
        cfg.ensure_valid(deadline + 1).unwrap(),
        TokenStep::Reuse(Token::new("T2".to_string(), expire + 3600))
    );
}

#[test]
fn token_at_deadline_is_replaced() {
    let mut cfg = config("user@example.org", "secret", 1);
    cfg.set_token(Token::new("T".to_string(), 100));
    assert!(matches!(cfg.ensure_valid(100 - TOKEN_MARGIN_SECS), Ok(TokenStep::Login(_))));
    assert!(matches!(cfg.ensure_valid(100 - TOKEN_MARGIN_SECS - 1), Ok(TokenStep::Reuse(_))));
    cfg.set_token(Token::new("T".to_string(), 3));
    assert!(matches!(cfg.ensure_valid(0), Ok(TokenStep::Login(_))));
}

#[test]
fn stale_token_without_credentials_is_a_configuration_error() {
    let cfg = config("", "", 1);
    assert!(matches!(cfg.ensure_valid(10), Err(ClientError::Config(_))));
}

#[test]
fn refused_login_keeps_the_configuration() {
    let mut cfg = config("user@example.org", "wrong", 1);
    let before = cfg.clone();
    assert_eq!(
        cfg.accept_login(login_reply(3, "ignored", 99)),
        Err(ClientError::Auth("bad credentials".to_string()))
    );
    assert_eq!(cfg, before);
    assert!(matches!(cfg.accept_login(login_reply(0, "", 99)), Err(ClientError::Auth(_))));
    assert_eq!(cfg, before);
}

#[test]
fn login_token_reads_secret_and_expiry() {
    assert_eq!(
        login_token(login_reply(0, "abc", 500)),
        Ok(Token::new("abc".to_string(), 500))
    );
}

#[test]
fn stop_refused_by_service_is_an_outcome() {
    let reply = ReserveStopResponse {
        error_code: 101,
        error_description: "machine is available".to_string(),
        token_expire_ts: 0,
        server_time: 0,
    };
    let settled = settle_body(200, Ok(reply)).map(action_of);
    match settled {
        Ok(result) => {
            assert_ne!(result.error_code, 0);
            assert!(!result.succeeded());
            assert_eq!(
                result,
                ActionResult {
                    error_code: 101,
                    error_description: "machine is available".to_string()
                }
            );
        }
        Err(e) => panic!("expected an outcome, got {e:?}"),
    }
}

#[test]
fn status_and_decoding_failures_are_distinct() {
    let bad_status: Result<u32, ClientError> = settle_body(502, Ok(1));
    assert!(matches!(bad_status, Err(ClientError::Network(_))));
    let bad_body: Result<u32, ClientError> = settle_body(200, Err("missing field".to_string()));
    assert_eq!(bad_body, Err(ClientError::Decode("missing field".to_string())));
    assert_eq!(settle_body(204, Ok(5u32)), Ok(5));
    assert!(matches!(settle_body(199, Ok(5u32)), Err(ClientError::Network(_))));
    assert!(matches!(settle_body(300, Ok(5u32)), Err(ClientError::Network(_))));
}

#[test]
fn balance_reply_settles() {
    let reply = |code: u32| BalanceResponse {
        error_code: code,
        error_description: if code == 0 { "OK".to_string() } else { "no account".to_string() },
        token_expire_ts: 0,
        server_time: 0,
        account_id: "A1".to_string(),
        currency: "EUR".to_string(),
        balance_cents: 1234,
        balance_date_time: 0,
    };
    let balance = balance_of(reply(0)).unwrap();
    assert_eq!(balance, Balance { amount_cents: 1234, currency: "EUR".to_string() });
    assert_eq!(balance.display_text(), "12 EUR");
    assert_eq!(
        balance_of(reply(4)),
        Err(ClientError::Domain { code: 4, description: "no account".to_string() })
    );
}

#[test]
fn machine_list_settles() {
    let ok = machines_of(envelope(
        0,
        vec![machine(MachineState::Available, None), machine(MachineState::Occupied, Some(9))],
    ))
    .unwrap();
    assert_eq!(ok.len(), 2);
    assert_eq!(ok[1].state, MachineState::Occupied);
    let inconsistent =
        machines_of(envelope(0, vec![machine(MachineState::Stoppable, None)]));
    assert!(matches!(inconsistent, Err(ClientError::Decode(_))));
    let denied = machines_of(envelope(2, vec![machine(MachineState::Available, None)]));
    assert!(matches!(denied, Err(ClientError::Domain { code: 2, .. })));
    assert_eq!(machines_of(envelope(0, Vec::new())).unwrap().len(), 0);
}

#[test]
fn location_and_history_settle() {
    let info = LocationInfo {
        name: "Campus laundry".to_string(),
        external_id: "9944".to_string(),
        gps: serde_json::Value::Null,
        location_type_v2: "LAUNDRY".to_string(),
        location_type_object: LocationTypeObject {
            location_type: "LAUNDRY".to_string(),
            name: "Laundry".to_string(),
        },
        location_status: "ACTIVE".to_string(),
        duration_required: false,
        known_communication_issues: false,
        services: Vec::new(),
        pricing: Vec::new(),
        products: Vec::new(),
        child_locations: Vec::new(),
        max_days_in_advance: 0,
        reserved_type: String::new(),
        service_types: Vec::new(),
    };
    assert_eq!(location_of(envelope(0, info)).unwrap().name, "Campus laundry");
    let entry = History {
        mutation_timestamp: 1,
        currency: "EUR".to_string(),
        mutation_cents: 500,
        balance_cents_before: 0,
        balance_cents_after: 500,
        mutation_description: "top up".to_string(),
        service_type: None,
    };
    assert_eq!(history_of(envelope(0, vec![entry])).unwrap().len(), 1);
    assert!(matches!(
        history_of(envelope(9, Vec::<History>::new())),
        Err(ClientError::Domain { code: 9, .. })
    ));
}

#[test]
fn login_reply_outcomes() {
    let mut cfg = config("user@example.org", "secret", 1);
    let before = cfg.clone();
    assert!(matches!(
        cfg.accept_login_reply(503, Ok(login_reply(0, "T", 10))),
        Err(ClientError::Network(_))
    ));
    assert_eq!(cfg, before);
    assert!(matches!(
        cfg.accept_login_reply(401, Ok(login_reply(0, "T", 10))),
        Err(ClientError::Auth(_))
    ));
    assert!(matches!(
        cfg.accept_login_reply(403, Err("not json".to_string())),
        Err(ClientError::Auth(_))
    ));
    assert_eq!(cfg, before);
    assert_eq!(
        cfg.accept_login_reply(200, Err("missing field `login`".to_string())),
        Err(ClientError::Auth("missing field `login`".to_string()))
    );
    assert_eq!(cfg, before);
    assert_eq!(
        cfg.accept_login_reply(200, Ok(login_reply(0, "T", 10))),
        Ok(Token::new("T".to_string(), 10))
    );
    assert_eq!(cfg.token, Token::new("T".to_string(), 10));
}
