use ocpp_server::messages::{
    unpack_ocpp_message, wrap_call, wrap_call_error_result, wrap_call_result, ErrorCode,
    OcppMessage,
};

#[test]
fn wrap_call_quotes_bare_tokens() {
    let wire = wrap_call(
        &String::from("m1"),
        &String::from("Reset"),
        &String::from("{\"type\":\"Hard\"}"),
    );
    assert_eq!(wire, "[2, \"m1\", \"Reset\", {\"type\":\"Hard\"}]");
}

#[test]
fn wrap_call_keeps_quoted_tokens() {
    let quoted = wrap_call(
        &String::from("\"abc\""),
        &String::from("\"Reset\""),
        &String::from("{}"),
    );
    let bare = wrap_call(&String::from("abc"), &String::from("Reset"), &String::from("{}"));
    assert_eq!(quoted, bare);
    assert_eq!(bare, "[2, \"abc\", \"Reset\", {}]");
}

#[test]
fn wrap_call_result_quoting_idempotent() {
    let quoted = wrap_call_result(&String::from("\"abc\""), String::from("{}"));
    let bare = wrap_call_result(&String::from("abc"), String::from("{}"));
    assert_eq!(quoted, bare);
    assert_eq!(bare, "[3, \"abc\", {}]");
}

#[test]
fn wrap_call_error_quoting_idempotent() {
    let quoted = wrap_call_error_result(
        &String::from("\"m9\""),
        ErrorCode::GenericError,
        &String::from("{}"),
    );
    let bare = wrap_call_error_result(
        &String::from("m9"),
        ErrorCode::GenericError,
        &String::from("{}"),
    );
    assert_eq!(quoted, bare);
    assert_eq!(bare, "[4, \"m9\", \"GenericError\", \"Non specific error\", {}]");
}

#[test]
fn wrap_call_error_fixed_descriptions() {
    let wire = wrap_call_error_result(
        &String::from("m3"),
        ErrorCode::NotImplemented,
        &String::from("\"details\""),
    );
    assert_eq!(
        wire,
        "[4, \"m3\", \"NotImplemented\", \"Requested Action is not known by receiver\", \"details\"]"
    );
    let wire = wrap_call_error_result(
        &String::from("m4"),
        ErrorCode::FormatViolation,
        &String::from("{}"),
    );
    assert_eq!(
        wire,
        "[4, \"m4\", \"FormatViolation\", \"Payload for Action is syntactically incorrect or not conform the PDU structure for Action\", {}]"
    );
}

#[test]
fn decode_encode_call_round_trip() {
    // The decoded fields are the raw tokens: string elements keep
    // their quotes.
    let wire = wrap_call(
        &String::from("id-1"),
        &String::from("BootNotification"),
        &String::from("{\"chargePointVendor\":\"X\",\"chargePointModel\":\"Y\"}"),
    );
    match unpack_ocpp_message(&wire) {
        Ok(OcppMessage::Call(c)) => {
            assert_eq!(c.unique_id, "\"id-1\"");
            assert_eq!(c.action, "\"BootNotification\"");
            assert_eq!(c.payload, "{\"chargePointVendor\":\"X\",\"chargePointModel\":\"Y\"}");
        }
        _ => panic!("expected a Call"),
    }
}

#[test]
fn decode_encode_call_result_round_trip() {
    let wire = wrap_call_result(&String::from("m9"), String::from("{\"status\":\"Accepted\"}"));
    match unpack_ocpp_message(&wire) {
        Ok(OcppMessage::CallResult(c)) => {
            assert_eq!(c.unique_id, "\"m9\"");
            assert_eq!(c.payload, "{\"status\":\"Accepted\"}");
        }
        _ => panic!("expected a CallResult"),
    }
}

#[test]
fn decode_encode_call_error_round_trip() {
    let wire = wrap_call_error_result(
        &String::from("m7"),
        ErrorCode::GenericError,
        &String::from("{\"k\":1}"),
    );
    match unpack_ocpp_message(&wire) {
        Ok(OcppMessage::CallError(c)) => {
            assert_eq!(c.unique_id, "\"m7\"");
            assert_eq!(c.error_code, "\"GenericError\"");
            assert_eq!(c.error_description, "\"Non specific error\"");
            assert_eq!(c.error_details, "{\"k\":1}");
        }
        _ => panic!("expected a CallError"),
    }
}

#[test]
fn decode_tolerates_whitespace() {
    // The scenario frames carry no space after the commas; frames with
    // extra whitespace decode to the same tokens.
    let tight = String::from("[2,\"m2\",\"Authorize\",{\"idTag\":\"TAG\"}]");
    let spaced = String::from("  [ 2 , \"m2\" , \"Authorize\" , {\"idTag\":\"TAG\"} ]  ");
    for wire in [tight, spaced] {
        match unpack_ocpp_message(&wire) {
            Ok(OcppMessage::Call(c)) => {
                assert_eq!(c.unique_id, "\"m2\"");
                assert_eq!(c.action, "\"Authorize\"");
                assert_eq!(c.payload, "{\"idTag\":\"TAG\"}");
            }
            _ => panic!("expected a Call"),
        }
    }
}

#[test]
fn decode_rejects_malformed_frames() {
    assert!(unpack_ocpp_message(&String::from("not json")).is_err());
    assert!(unpack_ocpp_message(&String::from("[5, \"m\", {}]")).is_err());
    assert!(unpack_ocpp_message(&String::from("[2]")).is_err());
    assert!(unpack_ocpp_message(&String::from("")).is_err());
    assert!(unpack_ocpp_message(&String::from("[2, \"m\"")).is_err());
    // Wrong arity for the type.
    assert!(unpack_ocpp_message(&String::from("[2, \"m\", \"A\"]")).is_err());
    assert!(unpack_ocpp_message(&String::from("[3, \"m\", {}, {}]")).is_err());
    // A payload that is no JSON token.
    assert!(unpack_ocpp_message(&String::from("[2, \"m\", \"A\", }{]")).is_err());
    assert!(unpack_ocpp_message(&String::from("[2, \"m\", \"A\", ]")).is_err());
    // Trailing text after the frame.
    assert!(unpack_ocpp_message(&String::from("[2, \"m\", \"A\", {}] x")).is_err());
}

#[test]
fn payload_with_brackets_and_quotes_round_trips() {
    let payload = String::from("{\"s\":\"]\",\"t\":\"[2, \\\"x\\\"\"}");
    let wire = wrap_call(&String::from("id"), &String::from("DataTransfer"), &payload);
    match unpack_ocpp_message(&wire) {
        Ok(OcppMessage::Call(c)) => {
            assert_eq!(c.unique_id, "\"id\"");
            assert_eq!(c.action, "\"DataTransfer\"");
            assert_eq!(c.payload, payload);
        }
        _ => panic!("expected a Call"),
    }
}
