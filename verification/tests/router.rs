use ocpp_server::json::{parse_json, Json};
use ocpp_server::messages::{unpack_ocpp_message, OcppMessage};
use ocpp_server::server::{
    MessageFromWebBrowser, OcppServer, WebCommandOutcome,
};

fn browser_msg(client: &str, charger: &str, action: &str, kind: u8, payload: &str) -> MessageFromWebBrowser {
    MessageFromWebBrowser {
        client_id: String::from(client),
        charger: String::from(charger),
        selected: String::from(action),
        message_id: kind,
        payload: parse_json(payload).expect("test payload parses"),
    }
}

#[test]
fn connect_and_list_stations() {
    let mut srv = OcppServer::new();
    assert!(!srv.connect_charger(String::from("STN-1")));
    assert!(!srv.connect_charger(String::from("STN-2")));
    let mut names = srv.get_chargers();
    names.sort();
    assert_eq!(names, vec![String::from("STN-1"), String::from("STN-2")]);
}

#[test]
fn reconnect_displaces_previous_session() {
    let mut srv = OcppServer::new();
    assert!(!srv.connect_charger(String::from("STN-1")));
    // The same serial connecting again displaces the old session and
    // is reachable immediately.
    assert!(srv.connect_charger(String::from("STN-1")));
    assert_eq!(srv.get_chargers(), vec![String::from("STN-1")]);
}

#[test]
fn disconnect_removes_station_from_listing() {
    let mut srv = OcppServer::new();
    srv.connect_charger(String::from("STN-1"));
    srv.connect_charger(String::from("STN-2"));
    srv.disconnect_charger(&String::from("STN-1"));
    assert_eq!(srv.get_chargers(), vec![String::from("STN-2")]);
}

#[test]
fn issued_call_reaches_station_and_reply_comes_back() {
    // The S1 flow: operator issues a Reset, the station replies, the
    // reply is delivered to the issuing operator and the pending entry
    // is gone.
    let mut srv = OcppServer::new();
    srv.connect_charger(String::from("STN-1"));
    srv.connect_web_client(String::from("OP-1"));
    let msg = browser_msg("OP-1", "STN-1", "Reset", 2, "{\"type\":\"Hard\"}");
    let outcome = srv.route_web_browser_message(&msg, String::from("uuid-1"));
    let wire = match outcome {
        WebCommandOutcome::CallIssued { charger_listed, wire, echo } => {
            assert!(charger_listed);
            assert_eq!(wire, "[2, \"uuid-1\", \"Reset\", {\"type\":\"Hard\"}]");
            assert_eq!(
                echo,
                "call sent to charger STN-1:\r\n[2, \"uuid-1\", \"Reset\", {\"type\":\"Hard\"}]"
            );
            wire
        }
        _ => panic!("expected an issued call"),
    };
    // The station echoes the MessageId back in a CallResult.
    let reply_wire = {
        let decoded = unpack_ocpp_message(&wire).expect("wire decodes");
        match decoded {
            OcppMessage::Call(c) => format!("[3, {}, {{\"status\":\"Accepted\"}}]", c.unique_id),
            _ => panic!("expected a Call"),
        }
    };
    let reply = unpack_ocpp_message(&String::from(reply_wire)).expect("reply decodes");
    match srv.station_to_operator(&String::from("STN-1"), &reply) {
        Some((client, text)) => {
            assert_eq!(client, "OP-1");
            assert_eq!(
                text,
                "Call result from STN-1: \r\n[3, \"uuid-1\", {\"status\":\"Accepted\"}]"
            );
        }
        None => panic!("the reply must reach the issuing operator"),
    }
    // The correlation entry was consumed: the same reply is now dropped.
    assert!(srv.station_to_operator(&String::from("STN-1"), &reply).is_none());
}

#[test]
fn unknown_message_id_is_dropped() {
    let mut srv = OcppServer::new();
    srv.connect_charger(String::from("STN-1"));
    let reply = unpack_ocpp_message(&String::from(
        "[4, \"nobody\", \"GenericError\", \"Non specific error\", {}]",
    ))
    .expect("decodes");
    assert!(srv.station_to_operator(&String::from("STN-1"), &reply).is_none());
}

#[test]
fn operator_disconnect_sweeps_pending() {
    // The S6 flow: the operator holds a pending Call and disconnects;
    // the late reply finds nothing and is dropped.
    let mut srv = OcppServer::new();
    srv.connect_charger(String::from("STN-1"));
    srv.connect_web_client(String::from("OP-1"));
    let msg = browser_msg("OP-1", "STN-1", "Reset", 2, "{\"type\":\"Soft\"}");
    srv.route_web_browser_message(&msg, String::from("uuid-9"));
    srv.disconnect_web_client(&String::from("OP-1"));
    let reply = unpack_ocpp_message(&String::from("[3, \"uuid-9\", {\"status\":\"Accepted\"}]"))
        .expect("decodes");
    assert!(srv.station_to_operator(&String::from("STN-1"), &reply).is_none());
}

#[test]
fn invalid_operator_payload_changes_nothing() {
    // The S5 flow: a Reset with a payload outside the schema draws a
    // notice and no frame is issued.
    let mut srv = OcppServer::new();
    srv.connect_charger(String::from("STN-1"));
    srv.connect_web_client(String::from("OP-1"));
    let msg = browser_msg("OP-1", "STN-1", "Reset", 2, "{\"type\":\"Lukewarm\"}");
    match srv.route_web_browser_message(&msg, String::from("uuid-2")) {
        WebCommandOutcome::Invalid { notice } => {
            assert_eq!(notice, "improper payload:\r\n{\"type\":\"Lukewarm\"}");
        }
        _ => panic!("expected an invalid-payload notice"),
    }
    // No pending entry was recorded: a matching reply is dropped.
    let reply = unpack_ocpp_message(&String::from("[3, \"uuid-2\", {}]")).expect("decodes");
    assert!(srv.station_to_operator(&String::from("STN-1"), &reply).is_none());
}

#[test]
fn set_default_builds_typed_envelope() {
    let mut srv = OcppServer::new();
    srv.connect_charger(String::from("STN-1"));
    let msg = browser_msg(
        "OP-1",
        "STN-1",
        "Authorize",
        3,
        "{\"idTagInfo\":{\"status\":\"Blocked\"}}",
    );
    match srv.route_web_browser_message(&msg, String::from("unused")) {
        WebCommandOutcome::SetDefault { charger_listed, envelope, confirmation } => {
            assert!(charger_listed);
            assert!(envelope.message.is_none());
            assert!(envelope.authorize.is_some());
            assert!(envelope.data_transfer.is_none());
            assert_eq!(
                confirmation,
                "Setting default Authorize response for charger STN-1:\r\n {\"idTagInfo\":{\"status\":\"Blocked\"}}"
            );
        }
        _ => panic!("expected a default-reply envelope"),
    }
}

#[test]
fn unsolicited_station_call_is_not_forwarded() {
    let mut srv = OcppServer::new();
    srv.connect_charger(String::from("STN-1"));
    let call = unpack_ocpp_message(&String::from("[2, \"m\", \"BootNotification\", {}]"))
        .expect("decodes");
    assert!(srv.station_to_operator(&String::from("STN-1"), &call).is_none());
}

#[test]
fn validity_check_matches_schema() {
    let good = browser_msg("c", "s", "Reset", 2, "{\"type\":\"Hard\"}");
    assert!(OcppServer::message_from_web_browser_is_valid(&good));
    let bad = browser_msg("c", "s", "Reset", 2, "{\"type\":\"Lukewarm\"}");
    assert!(!OcppServer::message_from_web_browser_is_valid(&bad));
    let unknown = MessageFromWebBrowser {
        client_id: String::from("c"),
        charger: String::from("s"),
        selected: String::from("NoSuchAction"),
        message_id: 2,
        payload: Json::Obj(vec![]),
    };
    assert!(!OcppServer::message_from_web_browser_is_valid(&unknown));
}

#[test]
fn fresh_uuid_path_issues_call() {
    let mut srv = OcppServer::new();
    srv.connect_charger(String::from("STN-1"));
    srv.connect_web_client(String::from("OP-1"));
    let msg = browser_msg("OP-1", "STN-1", "Reset", 2, "{\"type\":\"Hard\"}");
    match srv.handle_message_from_web_browser(&msg) {
        WebCommandOutcome::CallIssued { charger_listed, wire, .. } => {
            assert!(charger_listed);
            // The wire frame carries a server-chosen MessageId.
            let decoded = unpack_ocpp_message(&wire).expect("decodes");
            match decoded {
                OcppMessage::Call(c) => {
                    assert_eq!(c.action, "\"Reset\"");
                    assert!(!c.unique_id.is_empty());
                }
                _ => panic!("expected a Call"),
            }
        }
        _ => panic!("expected an issued call"),
    }
}
