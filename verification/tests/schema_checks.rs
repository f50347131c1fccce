use ocpp_server::json::parse_json;
use ocpp_server::schema::{
    check_authorize_req, check_boot_notification_req, check_operator_payload, check_reset_req,
    check_status_notification_req,
};

fn v(text: &str) -> ocpp_server::json::Json {
    parse_json(text).expect("test payload parses")
}

#[test]
fn reset_accepts_only_hard_and_soft() {
    assert!(check_reset_req(&v("{\"type\":\"Hard\"}")));
    assert!(check_reset_req(&v("{\"type\":\"Soft\"}")));
    assert!(!check_reset_req(&v("{\"type\":\"Lukewarm\"}")));
    assert!(!check_reset_req(&v("{}")));
    assert!(!check_reset_req(&v("{\"type\":2}")));
}

#[test]
fn authorize_needs_id_tag() {
    assert!(check_authorize_req(&v("{\"idTag\":\"TAG\"}")));
    assert!(check_authorize_req(&v("{\"idTag\":\"TAG\",\"extra\":1}")));
    assert!(!check_authorize_req(&v("{}")));
    assert!(!check_authorize_req(&v("{\"idTag\":7}")));
    assert!(!check_authorize_req(&v("[1,2]")));
}

#[test]
fn boot_notification_required_and_optional_fields() {
    assert!(check_boot_notification_req(&v(
        "{\"chargePointVendor\":\"X\",\"chargePointModel\":\"Y\"}"
    )));
    assert!(check_boot_notification_req(&v(
        "{\"chargePointVendor\":\"X\",\"chargePointModel\":\"Y\",\"iccid\":\"89\"}"
    )));
    assert!(!check_boot_notification_req(&v("{\"chargePointVendor\":\"X\"}")));
    assert!(!check_boot_notification_req(&v(
        "{\"chargePointVendor\":\"X\",\"chargePointModel\":\"Y\",\"iccid\":5}"
    )));
}

#[test]
fn status_notification_closed_enumerations() {
    assert!(check_status_notification_req(&v(
        "{\"connectorId\":1,\"errorCode\":\"NoError\",\"status\":\"Available\"}"
    )));
    assert!(!check_status_notification_req(&v(
        "{\"connectorId\":1,\"errorCode\":\"MadeUp\",\"status\":\"Available\"}"
    )));
    assert!(!check_status_notification_req(&v(
        "{\"connectorId\":\"one\",\"errorCode\":\"NoError\",\"status\":\"Available\"}"
    )));
}

#[test]
fn operator_actions_use_their_own_schemas() {
    assert!(check_operator_payload("RemoteStopTransaction", &v("{\"transactionId\":5}")));
    assert!(!check_operator_payload("RemoteStopTransaction", &v("{}")));
    assert!(check_operator_payload("ChangeAvailability", &v(
        "{\"connectorId\":0,\"type\":\"Operative\"}"
    )));
    assert!(!check_operator_payload("ChangeAvailability", &v(
        "{\"connectorId\":0,\"type\":\"Sideways\"}"
    )));
    assert!(check_operator_payload("ClearCache", &v("{}")));
    assert!(check_operator_payload("GetLog", &v(
        "{\"log\":{\"remoteLocation\":\"ftp://x\"},\"logType\":\"DiagnosticsLog\",\"requestId\":1}"
    )));
    // The log parameters object must name its upload location.
    assert!(!check_operator_payload("GetLog", &v(
        "{\"log\":{},\"logType\":\"DiagnosticsLog\",\"requestId\":1}"
    )));
    assert!(!check_operator_payload("NoSuchAction", &v("{}")));
    // The two default-reply actions take response shapes.
    assert!(check_operator_payload("Authorize", &v("{\"idTagInfo\":{\"status\":\"Blocked\"}}")));
    assert!(!check_operator_payload("Authorize", &v("{\"idTag\":\"TAG\"}")));
    assert!(check_operator_payload("StartTransaction", &v(
        "{\"idTagInfo\":{\"status\":\"Accepted\"},\"transactionId\":12}"
    )));
}


#[test]
fn nested_required_fields_are_checked() {
    // A meter value batch needs its readings and their values.
    let good = "{\"connectorId\":1,\"meterValue\":[{\"timestamp\":\"t\",\"sampledValue\":[{\"value\":\"7\"}]}]}";
    assert!(ocpp_server::schema::check_meter_values_req(&v(good)));
    let missing_value = "{\"connectorId\":1,\"meterValue\":[{\"timestamp\":\"t\",\"sampledValue\":[{}]}]}";
    assert!(!ocpp_server::schema::check_meter_values_req(&v(missing_value)));
    // A charging profile needs its schedule, and the schedule its
    // periods.
    let profile = "{\"connectorId\":1,\"csChargingProfiles\":{\"chargingProfileId\":1,\"chargingProfileKind\":\"Absolute\",\"chargingProfilePurpose\":\"TxProfile\",\"stackLevel\":0,\"chargingSchedule\":{\"chargingRateUnit\":\"A\",\"chargingSchedulePeriod\":[{\"startPeriod\":0,\"limit\":16}]}}}";
    assert!(check_operator_payload("SetChargingProfile", &v(profile)));
    let hollow_profile = "{\"connectorId\":1,\"csChargingProfiles\":{}}";
    assert!(!check_operator_payload("SetChargingProfile", &v(hollow_profile)));
    // A local authorization entry needs its idTag.
    let list_good = "{\"listVersion\":1,\"updateType\":\"Full\",\"localAuthorizationList\":[{\"idTag\":\"T\"}]}";
    assert!(check_operator_payload("SendLocalList", &v(list_good)));
    let list_bad = "{\"listVersion\":1,\"updateType\":\"Full\",\"localAuthorizationList\":[{}]}";
    assert!(!check_operator_payload("SendLocalList", &v(list_bad)));
    // Certificate hash data carries its algorithm and hashes.
    let cert_good = "{\"certificateHashData\":{\"hashAlgorithm\":\"SHA256\",\"issuerNameHash\":\"a\",\"issuerKeyHash\":\"b\",\"serialNumber\":\"c\"}}";
    assert!(check_operator_payload("DeleteCertificate", &v(cert_good)));
    assert!(!check_operator_payload("DeleteCertificate", &v("{\"certificateHashData\":{}}")));
}

#[test]
fn unicode_escapes_are_read() {
    let j = v("{\"idTag\":\"caf\\u00e9 \\ud83d\\ude00\"}");
    assert!(check_authorize_req(&j));
    match j.get("idTag") {
        Some(ocpp_server::json::Json::Str(s)) => assert_eq!(s, "caf\u{e9} \u{1F600}"),
        _ => panic!("expected a string"),
    }
    // A lone surrogate is no scalar value.
    assert!(parse_json("{\"x\":\"\\ud800\"}").is_none());
}
