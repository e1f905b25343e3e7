use balance_gateway::{
    AccountIdentifier, Balance, BalanceResponse, BalanceStep, Dispatch, HandlerError, HttpReply,
    ProviderError, ReplyBody, Route, Severity, ValidationError, balance_reply, dispatch,
    error_status, finish_balance, handler_reply, health_check, parse_address, request_severity,
    route, start_balance,
};

const ZERO_ADDRESS: &str = "0x0000000000000000000000000000000000000000";

fn fetched_reply(method: &str, path: &str, outcome: Result<Balance, ProviderError>) -> HttpReply {
    match dispatch(method, path) {
        Dispatch::FetchBalance(_) => balance_reply(outcome),
        Dispatch::Reply(r) => r,
    }
}

#[test]
fn test_get_balance() {
    let address = "0x0000000000000000000000000000000000000000";
    let path = format!("/balance/{}", address);
    let reply = fetched_reply("GET", &path, Ok(Balance::from_u64(1000)));
    assert_eq!(reply.status, 200);
}

#[test]
fn parse_rejects_wrong_lengths() {
    assert_eq!(parse_address(""), Err(ValidationError));
    assert_eq!(parse_address("0x"), Err(ValidationError));
    assert_eq!(parse_address("0x00000000000000000000000000000000000000000"), Err(ValidationError));
    assert_eq!(parse_address("0x000000000000000000000000000000000000000000"), Err(ValidationError));
    assert_eq!(parse_address("not-an-address"), Err(ValidationError));
}

#[test]
fn parse_rejects_unprefixed_digits() {
    assert_eq!(parse_address("0000000000000000000000000000000000000000"), Err(ValidationError));
    assert_eq!(parse_address("000000000000000000000000000000000000000000"), Err(ValidationError));
}

#[test]
fn parse_rejects_non_hex_digits() {
    assert_eq!(parse_address("0x000000000000000000000000000000000000000g"), Err(ValidationError));
    assert_eq!(parse_address("0xZZ00000000000000000000000000000000000000"), Err(ValidationError));
    assert_eq!(parse_address("1x0000000000000000000000000000000000000000"), Err(ValidationError));
    assert_eq!(parse_address("0x00000000000000000000000000000000000000\u{e9}"), Err(ValidationError));
}

#[test]
fn parse_decodes_bytes() {
    let id = parse_address("0x0102030405060708090a0B0c0D0e0F10111213ff").unwrap();
    let mut expected = [0u8; 20];
    for i in 0..19 {
        expected[i] = (i + 1) as u8;
    }
    expected[19] = 0xff;
    assert_eq!(id.bytes, expected);
    assert_eq!(parse_address(ZERO_ADDRESS).unwrap().bytes, [0u8; 20]);
}

#[test]
fn parse_rejects_upper_case_prefix() {
    assert_eq!(parse_address("0X00000000000000000000000000000000000000aa"), Err(ValidationError));
}

#[test]
fn round_trip_lowercases() {
    let text = "0xAbCdEf0123456789ABCDEF0123456789abcdefAB";
    let id = parse_address(text).unwrap();
    assert_eq!(id.to_hex(), text.to_lowercase());
    let upper = "0xFFFFFFFFFFFFFFFFFFFFFFFFFFFFFFFFFFFFFFFF";
    assert_eq!(parse_address(upper).unwrap().to_hex(), upper.to_lowercase());
}

#[test]
fn canonical_text_of_identifier() {
    let id = AccountIdentifier { bytes: [0x0f; 20] };
    assert_eq!(id.to_hex(), format!("0x{}", "0f".repeat(20)));
}

#[test]
fn fixed_balance_is_reported_in_decimal() {
    match start_balance(ZERO_ADDRESS) {
        BalanceStep::Query(id) => assert_eq!(id.bytes, [0u8; 20]),
        BalanceStep::Done(_) => panic!("a valid address must be queried"),
    }
    let resp = finish_balance(Ok(Balance::from_u64(1000))).unwrap();
    assert_eq!(resp.balance, "1000");
    let zero = finish_balance(Ok(Balance::from_u64(0))).unwrap();
    assert_eq!(zero.balance, "0");
}

#[test]
fn large_balances_in_decimal() {
    assert_eq!(Balance::from_limbs([0, 1, 0, 0]).to_decimal(), "18446744073709551616");
    assert_eq!(
        Balance::from_limbs([u64::MAX; 4]).to_decimal(),
        "115792089237316195423570985008687907853269984665640564039457584007913129639935"
    );
    assert_eq!(Balance::from_u64(u64::MAX).to_decimal(), "18446744073709551615");
}

#[test]
fn invalid_address_is_not_queried() {
    match start_balance("not-an-address") {
        BalanceStep::Query(_) => panic!("an invalid address must not be queried"),
        BalanceStep::Done(result) => assert_eq!(result, Err(HandlerError::InvalidAddress)),
    }
}

#[test]
fn provider_failure_is_upstream_unavailable() {
    assert_eq!(finish_balance(Err(ProviderError)), Err(HandlerError::UpstreamUnavailable));
}

#[test]
fn health_is_ok_every_time() {
    assert_eq!(health_check(), "OK");
    assert_eq!(health_check(), "OK");
}

#[test]
fn json_body_of_response() {
    let resp = BalanceResponse { balance: "1000".to_string() };
    assert_eq!(resp.to_json(), "{\"balance\":\"1000\"}");
}

#[test]
fn scenario_health() {
    match dispatch("GET", "/health") {
        Dispatch::Reply(r) => {
            assert_eq!(r.status, 200);
            assert_eq!(r.body, ReplyBody::Text("OK".to_string()));
        }
        Dispatch::FetchBalance(_) => panic!("health needs no node"),
    }
}

#[test]
fn scenario_balance_from_stub() {
    let path = format!("/balance/{}", ZERO_ADDRESS);
    let reply = fetched_reply("GET", &path, Ok(Balance::from_u64(1000)));
    assert_eq!(reply.status, 200);
    assert_eq!(reply.body, ReplyBody::Json("{\"balance\":\"1000\"}".to_string()));
}

#[test]
fn scenario_invalid_address() {
    match dispatch("GET", "/balance/not-an-address") {
        Dispatch::Reply(r) => {
            assert_eq!(r.status, 500);
            assert_eq!(r.body, ReplyBody::Empty);
        }
        Dispatch::FetchBalance(_) => panic!("an invalid address must not be queried"),
    }
}

#[test]
fn scenario_provider_fails() {
    let path = format!("/balance/{}", ZERO_ADDRESS);
    let reply = fetched_reply("GET", &path, Err(ProviderError));
    assert_eq!(reply.status, 500);
    assert_eq!(reply.body, ReplyBody::Empty);
}

#[test]
fn scenario_not_found() {
    match dispatch("GET", "/nonexistent") {
        Dispatch::Reply(r) => assert_eq!(r.status, 404),
        Dispatch::FetchBalance(_) => panic!("no route"),
    }
}

#[test]
fn routes() {
    assert_eq!(route("GET", "/health"), Route::Health);
    assert_eq!(route("POST", "/health"), Route::NotFound);
    assert_eq!(route("GET", "/health/"), Route::NotFound);
    assert_eq!(route("GET", "/balance/"), Route::NotFound);
    assert_eq!(route("GET", "/balance/a/b"), Route::NotFound);
    assert_eq!(route("GET", "/balances/abc"), Route::NotFound);
    assert_eq!(route("GET", "/balance/abc"), Route::Balance("abc".to_string()));
}

#[test]
fn handler_errors_map_to_500() {
    assert_eq!(error_status(HandlerError::InvalidAddress), 500);
    assert_eq!(error_status(HandlerError::UpstreamUnavailable), 500);
    let r = handler_reply(Err(HandlerError::InvalidAddress));
    assert_eq!(r.status, 500);
    let ok = handler_reply(Ok(BalanceResponse { balance: "7".to_string() }));
    assert_eq!(ok.status, 200);
    assert_eq!(ok.body, ReplyBody::Json("{\"balance\":\"7\"}".to_string()));
}

#[test]
fn severity_by_status() {
    assert_eq!(request_severity(200), Severity::Info);
    assert_eq!(request_severity(299), Severity::Info);
    assert_eq!(request_severity(199), Severity::Error);
    assert_eq!(request_severity(404), Severity::Error);
    assert_eq!(request_severity(500), Severity::Error);
}
