use ocpp_server::json::parse_json;
use ocpp_server::webclient::{
    answer_operator_request, clear_logs_success_reply, get_log_success_reply,
    handle_operator_text, internal_error_reply, notification_text, OperatorOutcome,
    OperatorTick, WebBrowserWebSocketSession,
};

fn answer(text: &str) -> OperatorOutcome {
    let req = parse_json(text).expect("request parses");
    answer_operator_request(&req, &String::from("2024-01-01T00:00:00.000+00:00"), 7_000)
}

#[test]
fn connect_method_replies_with_literal() {
    match answer("{\"jsonrpc\":\"2.0\",\"method\":\"connect\",\"id\":1}") {
        OperatorOutcome::Reply { text } => assert_eq!(
            text,
            "{\"jsonrpc\":\"2.0\",\"result\":\"connected to the ocpp server\",\"id\":1}"
        ),
        _ => panic!("expected a reply"),
    }
}

#[test]
fn disconnect_method_closes_session() {
    match answer("{\"jsonrpc\":\"2.0\",\"method\":\"disconnect\",\"id\":\"x\"}") {
        OperatorOutcome::Disconnect { text } => assert_eq!(
            text,
            "{\"jsonrpc\":\"2.0\",\"result\":\"disconnecting from the ocpp server\",\"id\":\"x\"}"
        ),
        _ => panic!("expected a disconnect"),
    }
}

#[test]
fn get_current_timestamp_echoes_clock() {
    match answer("{\"method\":\"get_current_timestamp\",\"id\":2}") {
        OperatorOutcome::Reply { text } => assert_eq!(
            text,
            "{\"jsonrpc\":\"2.0\",\"result\":\"2024-01-01T00:00:00.000+00:00\",\"id\":2}"
        ),
        _ => panic!("expected a reply"),
    }
}

#[test]
fn unknown_method_draws_32601() {
    match answer("{\"method\":\"frobnicate\",\"id\":3}") {
        OperatorOutcome::Reply { text } => assert_eq!(
            text,
            "{\"jsonrpc\":\"2.0\",\"error\":{\"code\":-32601,\"message\":\"Method not found\",\"data\":null},\"id\":3}"
        ),
        _ => panic!("expected a reply"),
    }
}

#[test]
fn unparsable_text_draws_32700() {
    let out = handle_operator_text(
        &String::from("this is not json"),
        &String::from("t"),
        0,
    );
    match out {
        OperatorOutcome::Reply { text } => assert_eq!(
            text,
            "{\"jsonrpc\":\"2.0\",\"error\":{\"code\":-32700,\"message\":\"Parse error\",\"data\":null},\"id\":null}"
        ),
        _ => panic!("expected a reply"),
    }
}

#[test]
fn get_log_parses_timestamps() {
    // 2024-01-01T00:00:00Z is 1704067200000 ms after the epoch; the
    // check fails if the timestamp parser hands anything else back.
    match answer(
        "{\"method\":\"get_log\",\"id\":4,\"params\":{\"charger_sn\":\"STN-1\",\"begin_timestamp\":\"2024-01-01T00:00:00Z\",\"end_timestamp\":\"2024-01-01T01:00:00Z\"}}",
    ) {
        OperatorOutcome::FetchLog { charger_sn, begin_millis, end_millis, id } => {
            assert_eq!(charger_sn, "STN-1");
            assert_eq!(begin_millis, 1_704_067_200_000);
            assert_eq!(end_millis, 1_704_070_800_000);
            assert_eq!(id, "4");
        }
        _ => panic!("expected a log fetch"),
    }
}

#[test]
fn get_log_end_defaults_to_now() {
    match answer(
        "{\"method\":\"get_log\",\"id\":5,\"params\":{\"charger_sn\":\"S\",\"begin_timestamp\":\"1970-01-01T00:00:01Z\"}}",
    ) {
        OperatorOutcome::FetchLog { begin_millis, end_millis, .. } => {
            assert_eq!(begin_millis, 1_000);
            assert_eq!(end_millis, 7_000);
        }
        _ => panic!("expected a log fetch"),
    }
}

#[test]
fn get_log_bad_params_draw_32602() {
    let cases = [
        "{\"method\":\"get_log\",\"id\":6}",
        "{\"method\":\"get_log\",\"id\":6,\"params\":{}}",
        "{\"method\":\"get_log\",\"id\":6,\"params\":{\"charger_sn\":\"S\"}}",
        "{\"method\":\"get_log\",\"id\":6,\"params\":{\"charger_sn\":\"S\",\"begin_timestamp\":\"yesterday\"}}",
        "{\"method\":\"get_log\",\"id\":6,\"params\":{\"charger_sn\":\"S\",\"begin_timestamp\":\"1970-01-01T00:00:01Z\",\"end_timestamp\":\"later\"}}",
    ];
    for case in cases {
        match answer(case) {
            OperatorOutcome::Reply { text } => assert_eq!(
                text,
                "{\"jsonrpc\":\"2.0\",\"error\":{\"code\":-32602,\"message\":\"Invalid params\",\"data\":null},\"id\":6}"
            ),
            _ => panic!("expected an invalid-params reply"),
        }
    }
}

#[test]
fn clear_logs_routes_to_store() {
    match answer("{\"method\":\"clear_logs\",\"id\":7}") {
        OperatorOutcome::ClearLogs { id } => assert_eq!(id, "7"),
        _ => panic!("expected a purge"),
    }
    assert_eq!(
        clear_logs_success_reply(String::from("7")),
        "{\"jsonrpc\":\"2.0\",\"result\":\"logs cleared\",\"id\":7}"
    );
}

#[test]
fn get_log_reply_carries_address() {
    let reply = get_log_success_reply(
        false,
        &String::from("localhost"),
        5000,
        &String::from("STN-1_1704067200.log"),
        String::from("4"),
    );
    assert_eq!(
        reply,
        "{\"jsonrpc\":\"2.0\",\"result\":\"{\\\"address\\\":\\\"http://localhost:5000/logs/STN-1_1704067200.log\\\"}\",\"id\":4}"
    );
}

#[test]
fn internal_error_reply_carries_detail() {
    let reply = internal_error_reply(&String::from("boom"), String::from("9"));
    assert_eq!(
        reply,
        "{\"jsonrpc\":\"2.0\",\"error\":{\"code\":-32603,\"message\":\"Internal error\",\"data\":\"boom\"},\"id\":9}"
    );
}

#[test]
fn pushed_events_use_fresh_ids() {
    let reply = notification_text(&String::from("hello"), &String::from("fresh-1"));
    assert_eq!(
        reply,
        "{\"jsonrpc\":\"2.0\",\"result\":\"hello\",\"id\":\"fresh-1\"}"
    );
}

#[test]
fn operator_liveness_boundary() {
    let mut s = WebBrowserWebSocketSession { id: String::from("OP-1"), hb: 0 };
    s.refresh_heartbeat(500);
    assert_eq!(s.hb_check(500 + 600_000), OperatorTick::Ping);
    assert_eq!(s.hb_check(500 + 600_001), OperatorTick::Disconnect);
}


#[test]
fn send_ocpp_call_routes_checked_payload() {
    match answer(
        "{\"method\":\"send_ocpp_call\",\"id\":10,\"params\":{\"charger\":\"STN-1\",\"action\":\"Reset\",\"payload\":{\"type\":\"Hard\"}}}",
    ) {
        OperatorOutcome::SendOcppCall { charger, action, payload_text, id } => {
            assert_eq!(charger, "STN-1");
            assert_eq!(action, "Reset");
            assert_eq!(payload_text, "{\"type\":\"Hard\"}");
            assert_eq!(id, "10");
        }
        _ => panic!("expected a routed call"),
    }
}

#[test]
fn send_ocpp_call_bad_payload_draws_32602() {
    match answer(
        "{\"method\":\"send_ocpp_call\",\"id\":11,\"params\":{\"charger\":\"STN-1\",\"action\":\"Reset\",\"payload\":{\"type\":\"Lukewarm\"}}}",
    ) {
        OperatorOutcome::Reply { text } => assert_eq!(
            text,
            "{\"jsonrpc\":\"2.0\",\"error\":{\"code\":-32602,\"message\":\"Invalid params\",\"data\":null},\"id\":11}"
        ),
        _ => panic!("expected an invalid-params reply"),
    }
    match answer("{\"method\":\"send_ocpp_call\",\"id\":11,\"params\":{\"charger\":\"STN-1\"}}") {
        OperatorOutcome::Reply { text } => assert!(text.contains("-32602")),
        _ => panic!("expected an invalid-params reply"),
    }
}

#[test]
fn set_default_response_routes_the_five_actions_only() {
    match answer(
        "{\"method\":\"set_default_response\",\"id\":12,\"params\":{\"charger\":\"STN-1\",\"action\":\"Authorize\",\"payload\":{\"idTagInfo\":{\"status\":\"Blocked\"}}}}",
    ) {
        OperatorOutcome::SetDefaultResponse { charger, action, payload_text, id } => {
            assert_eq!(charger, "STN-1");
            assert_eq!(action, "Authorize");
            assert_eq!(payload_text, "{\"idTagInfo\":{\"status\":\"Blocked\"}}");
            assert_eq!(id, "12");
        }
        _ => panic!("expected a routed default"),
    }
    // Reset is no overridable action: the command is refused.
    match answer(
        "{\"method\":\"set_default_response\",\"id\":13,\"params\":{\"charger\":\"STN-1\",\"action\":\"Reset\",\"payload\":{\"type\":\"Hard\"}}}",
    ) {
        OperatorOutcome::Reply { text } => assert!(text.contains("-32602")),
        _ => panic!("expected an invalid-params reply"),
    }
}
