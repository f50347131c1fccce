use ocpp_server::charger_client::{
    strip_quotes, ChargeStationWebSocketSession, DefaultResponses, DispatchOutcome, TickAction,
};
use ocpp_server::server::MessageToChargeStation;
use ocpp_server::messages::responses::{
    AuthorizeResponse, DataTransferResponse, DataTransferStatus, IdTagInfo, IdTagInfoStatus,
};

fn session() -> ChargeStationWebSocketSession {
    ChargeStationWebSocketSession {
        hb: 0,
        name: String::from("STN-1"),
        default_responses: DefaultResponses::default(),
    }
}

#[test]
fn boot_notification_reply_carries_time_and_interval() {
    let s = session();
    let frame = String::from(
        "[2,\"m1\",\"BootNotification\",{\"chargePointVendor\":\"X\",\"chargePointModel\":\"Y\"}]",
    );
    let time = String::from("2024-01-01T00:00:00.000+00:00");
    match s.handle_text_frame(&frame, &time, 60) {
        DispatchOutcome::Reply { text, is_error } => {
            assert!(!is_error);
            assert_eq!(
                text,
                "[3, \"m1\", {\"currentTime\":\"2024-01-01T00:00:00.000+00:00\",\"interval\":60,\"status\":\"Accepted\"}]"
            );
        }
        _ => panic!("expected a reply"),
    }
}

#[test]
fn authorize_answers_with_current_default() {
    let mut s = session();
    // An operator first overrides the canned Authorize reply.
    let update = MessageToChargeStation {
        authorize: Some(AuthorizeResponse {
            id_tag_info: IdTagInfo {
                expiry_date: None,
                parent_id_tag: None,
                status: IdTagInfoStatus::Blocked,
            },
        }),
        ..Default::default()
    };
    assert!(s.apply_message(update).is_none());
    let frame = String::from("[2,\"m2\",\"Authorize\",{\"idTag\":\"TAG\"}]");
    let time = String::from("t");
    match s.handle_text_frame(&frame, &time, 60) {
        DispatchOutcome::Reply { text, is_error } => {
            assert!(!is_error);
            assert_eq!(text, "[3, \"m2\", {\"idTagInfo\":{\"status\":\"Blocked\"}}]");
        }
        _ => panic!("expected a reply"),
    }
}

#[test]
fn unknown_action_answers_not_implemented() {
    let s = session();
    let frame = String::from("[2,\"m3\",\"FrobnicateUnknown\",{}]");
    let time = String::from("t");
    match s.handle_text_frame(&frame, &time, 60) {
        DispatchOutcome::Reply { text, is_error } => {
            assert!(is_error);
            assert_eq!(
                text,
                "[4, \"m3\", \"NotImplemented\", \"Requested Action is not known by receiver\", \"Not all messages are implemented yet. Ocpp server is still in development\"]"
            );
        }
        _ => panic!("expected a reply"),
    }
}

#[test]
fn invalid_payload_answers_format_violation() {
    let s = session();
    let frame = String::from("[2, \"m4\", \"Authorize\", {\"noIdTag\":true}]");
    let time = String::from("t");
    match s.handle_text_frame(&frame, &time, 60) {
        DispatchOutcome::Reply { text, is_error } => {
            assert!(is_error);
            assert_eq!(
                text,
                "[4, \"m4\", \"FormatViolation\", \"Payload for Action is syntactically incorrect or not conform the PDU structure for Action\", \"invalid payload\"]"
            );
        }
        _ => panic!("expected a reply"),
    }
}

#[test]
fn heartbeat_reply_carries_current_time() {
    let s = session();
    let frame = String::from("[2, \"m5\", \"Heartbeat\", {}]");
    let time = String::from("2024-06-01T10:00:00.000+02:00");
    match s.handle_text_frame(&frame, &time, 60) {
        DispatchOutcome::Reply { text, is_error } => {
            assert!(!is_error);
            assert_eq!(
                text,
                "[3, \"m5\", {\"currentTime\":\"2024-06-01T10:00:00.000+02:00\"}]"
            );
        }
        _ => panic!("expected a reply"),
    }
}

#[test]
fn start_transaction_uses_placeholder_transaction_id() {
    let s = session();
    let frame = String::from(
        "[2, \"m6\", \"StartTransaction\", {\"connectorId\":1,\"idTag\":\"T\",\"meterStart\":0,\"timestamp\":\"now\"}]",
    );
    let time = String::from("t");
    match s.handle_text_frame(&frame, &time, 60) {
        DispatchOutcome::Reply { text, is_error } => {
            assert!(!is_error);
            assert_eq!(
                text,
                "[3, \"m6\", {\"idTagInfo\":{\"status\":\"Accepted\"},\"transactionId\":1500100900}]"
            );
        }
        _ => panic!("expected a reply"),
    }
}

#[test]
fn call_result_is_forwarded() {
    let s = session();
    let frame = String::from("[3, \"abc\", {\"status\":\"Accepted\"}]");
    let time = String::from("t");
    match s.handle_text_frame(&frame, &time, 60) {
        DispatchOutcome::ForwardResult { unique_id, payload } => {
            assert_eq!(unique_id, "\"abc\"");
            assert_eq!(payload, "{\"status\":\"Accepted\"}");
        }
        _ => panic!("expected a forwarded CallResult"),
    }
}

#[test]
fn call_error_is_forwarded() {
    let s = session();
    let frame = String::from("[4, \"abc\", \"GenericError\", \"Non specific error\", {}]");
    let time = String::from("t");
    match s.handle_text_frame(&frame, &time, 60) {
        DispatchOutcome::ForwardError { unique_id, error_code, error_description, error_details } => {
            assert_eq!(unique_id, "\"abc\"");
            assert_eq!(error_code, "\"GenericError\"");
            assert_eq!(error_description, "\"Non specific error\"");
            assert_eq!(error_details, "{}");
        }
        _ => panic!("expected a forwarded CallError"),
    }
}

#[test]
fn malformed_text_draws_format_violation() {
    let s = session();
    let frame = String::from("garbage");
    let time = String::from("t");
    match s.handle_text_frame(&frame, &time, 60) {
        DispatchOutcome::Reply { text, is_error } => {
            assert!(is_error);
            assert_eq!(
                text,
                "[4, \"\", \"FormatViolation\", \"Payload for Action is syntactically incorrect or not conform the PDU structure for Action\", \"malformed frame\"]"
            );
        }
        _ => panic!("expected a reply"),
    }
}

#[test]
fn liveness_boundary() {
    let mut s = session();
    s.refresh_heartbeat(1_000);
    // Exactly at the timeout the session stays up; one millisecond past
    // it the session is torn down.
    assert_eq!(s.hb_check(1_000 + 600_000), TickAction::Ping);
    assert_eq!(s.hb_check(1_000 + 600_001), TickAction::Disconnect);
}

#[test]
fn apply_message_overwrites_only_present_cells() {
    let mut s = session();
    let update = MessageToChargeStation {
        message: Some(String::from("raw")),
        ..Default::default()
    };
    let out = s.apply_message(update);
    assert_eq!(out, Some(String::from("raw")));
    // The untouched Authorize default still answers Accepted.
    let frame = String::from("[2, \"m\", \"Authorize\", {\"idTag\":\"T\"}]");
    let time = String::from("t");
    match s.handle_text_frame(&frame, &time, 60) {
        DispatchOutcome::Reply { text, .. } => {
            assert_eq!(text, "[3, \"m\", {\"idTagInfo\":{\"status\":\"Accepted\"}}]");
        }
        _ => panic!("expected a reply"),
    }
}


#[test]
fn strip_quotes_removes_one_pair() {
    assert_eq!(strip_quotes(&String::from("\"abc\"")), "abc");
    assert_eq!(strip_quotes(&String::from("\"\"")), "");
}


#[test]
fn data_transfer_default_escapes_its_data() {
    let mut s = session();
    let update = MessageToChargeStation {
        data_transfer: Some(DataTransferResponse {
            data: Some(String::from("a\"b\\c")),
            status: DataTransferStatus::Rejected,
        }),
        ..Default::default()
    };
    s.apply_message(update);
    let frame = String::from("[2, \"m8\", \"DataTransfer\", {\"vendorId\":\"V\"}]");
    let time = String::from("t");
    match s.handle_text_frame(&frame, &time, 60) {
        DispatchOutcome::Reply { text, .. } => {
            assert_eq!(
                text,
                "[3, \"m8\", {\"data\":\"a\\\"b\\\\c\",\"status\":\"Rejected\"}]"
            );
        }
        _ => panic!("expected a reply"),
    }
}
