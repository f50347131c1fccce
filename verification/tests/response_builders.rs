use ocpp_server::json::parse_json;
use ocpp_server::messages::{
    authorize_response, boot_notification_response, diagnostics_status_notification_response,
    heartbeat_response, meter_values_response, start_transaction_response,
    stop_transaction_response,
};

#[test]
fn boot_builder_accepts_and_rejects() {
    let good = parse_json("{\"chargePointVendor\":\"X\",\"chargePointModel\":\"Y\"}").unwrap();
    let time = String::from("2024-01-01T00:00:00.000+00:00");
    assert_eq!(
        boot_notification_response(&String::from("m1"), Some(&good), &time, 60),
        "[3, \"m1\", {\"currentTime\":\"2024-01-01T00:00:00.000+00:00\",\"interval\":60,\"status\":\"Accepted\"}]"
    );
    let bad = parse_json("{\"chargePointVendor\":\"X\"}").unwrap();
    assert_eq!(
        boot_notification_response(&String::from("m1"), Some(&bad), &time, 60),
        "[4, \"m1\", \"FormatViolation\", \"Payload for Action is syntactically incorrect or not conform the PDU structure for Action\", \"invalid payload\"]"
    );
    assert!(boot_notification_response(&String::from("m1"), None, &time, 60)
        .starts_with("[4, \"m1\", \"FormatViolation\""));
}

#[test]
fn heartbeat_builder_echoes_time() {
    let time = String::from("2024-06-01T10:00:00.000+02:00");
    assert_eq!(
        heartbeat_response(&String::from("m2"), &time),
        "[3, \"m2\", {\"currentTime\":\"2024-06-01T10:00:00.000+02:00\"}]"
    );
}

#[test]
fn authorize_builder_is_fixed_accepted() {
    let good = parse_json("{\"idTag\":\"TAG\"}").unwrap();
    assert_eq!(
        authorize_response(&String::from("m3"), Some(&good)),
        "[3, \"m3\", {\"idTagInfo\":{\"status\":\"Accepted\"}}]"
    );
}

#[test]
fn start_transaction_builder_uses_placeholder_id() {
    let good = parse_json(
        "{\"connectorId\":1,\"idTag\":\"T\",\"meterStart\":0,\"timestamp\":\"now\"}",
    )
    .unwrap();
    assert_eq!(
        start_transaction_response(&String::from("m4"), Some(&good)),
        "[3, \"m4\", {\"idTagInfo\":{\"status\":\"Accepted\"},\"transactionId\":1500100900}]"
    );
}

#[test]
fn stop_transaction_builder_returns_empty_object() {
    let good = parse_json(
        "{\"meterStop\":5,\"timestamp\":\"now\",\"transactionId\":1500100900}",
    )
    .unwrap();
    assert_eq!(
        stop_transaction_response(&String::from("m5"), Some(&good)),
        "[3, \"m5\", {}]"
    );
}

#[test]
fn notification_builders_return_empty_objects() {
    let diag = parse_json("{\"status\":\"Uploaded\"}").unwrap();
    assert_eq!(
        diagnostics_status_notification_response(&String::from("m6"), Some(&diag)),
        "[3, \"m6\", {}]"
    );
    let meter = parse_json("{\"connectorId\":1,\"meterValue\":[]}").unwrap();
    assert_eq!(
        meter_values_response(&String::from("m7"), Some(&meter)),
        "[3, \"m7\", {}]"
    );
}
