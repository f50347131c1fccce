use vstd::prelude::*;

use crate::json::{parse_json, Json};
use crate::messages::responses::{
    authorize_response_text, boot_notification_payload, boot_notification_response_text,
    data_transfer_response_text, empty_object_payload, heartbeat_payload, heartbeat_response_text,
    sign_certificate_response_text, start_transaction_response_text, stop_transaction_response_text,
    AuthorizeResponse, DataTransferResponse, DataTransferStatus, GenericStatusEnumType, IdTagInfo,
    IdTagInfoStatus, SignCertificateResponse, StartTransactionResponse, StopTransactionResponse,
};
use crate::messages::{
    invalid_payload_details, invalid_payload_error, quoted, spec_unpack, unpack_ocpp_message,
    wrap_call_error_result, wrap_call_error_spec, wrap_call_result, wrap_call_result_spec,
    ErrorCode, MessageView, OcppMessage, CLIENT_TIMEOUT,
};
use crate::schema::{
    check_authorize_req, check_boot_notification_req, check_data_transfer_req,
    check_diagnostics_status_notification_req, check_firmware_status_notification_req,
    check_log_status_notification_req, check_meter_values_req,
    check_security_event_notification_req, check_sign_certificate_req,
    check_signed_firmware_status_notification_req, check_start_transaction_req,
    check_status_notification_req, check_stop_transaction_req, valid_authorize_req,
    valid_boot_notification_req, valid_data_transfer_req,
    valid_diagnostics_status_notification_req, valid_firmware_status_notification_req,
    valid_log_status_notification_req, valid_meter_values_req,
    valid_security_event_notification_req, valid_sign_certificate_req,
    valid_signed_firmware_status_notification_req, valid_start_transaction_req,
    valid_status_notification_req, valid_stop_transaction_req,
};
use crate::server::MessageToChargeStation;
use crate::strutil::{dequoted, remove_quotes, str_eq};

verus! {

/// The per-station table of canned replies for the five overridable
/// actions.
pub struct DefaultResponses {
    pub authorize: AuthorizeResponse,
    pub data_transfer: DataTransferResponse,
    pub sign_certificate: SignCertificateResponse,
    pub start_transaction: StartTransactionResponse,
    pub stop_transaction: StopTransactionResponse,
}

impl Default for DefaultResponses {
    /// The hard-coded defaults a session starts with: `Accepted`
    /// statuses, the placeholder transaction id, empty optionals.
    fn default() -> (r: DefaultResponses)
        ensures
            r.authorize.id_tag_info.expiry_date is None,
            r.authorize.id_tag_info.parent_id_tag is None,
            r.authorize.id_tag_info.status == IdTagInfoStatus::Accepted,
            r.data_transfer.data is None,
            r.data_transfer.status == DataTransferStatus::Accepted,
            r.sign_certificate.status == GenericStatusEnumType::Accepted,
            r.start_transaction.id_tag_info.expiry_date is None,
            r.start_transaction.id_tag_info.parent_id_tag is None,
            r.start_transaction.id_tag_info.status == IdTagInfoStatus::Accepted,
            r.start_transaction.transaction_id == 1500100900,
            r.stop_transaction.id_tag_info is None,
    {
        DefaultResponses {
            authorize: AuthorizeResponse {
                id_tag_info: IdTagInfo {
                    expiry_date: None,
                    parent_id_tag: None,
                    status: IdTagInfoStatus::Accepted,
                },
            },
            data_transfer: DataTransferResponse { data: None, status: DataTransferStatus::Accepted },
            sign_certificate: SignCertificateResponse { status: GenericStatusEnumType::Accepted },
            start_transaction: StartTransactionResponse {
                id_tag_info: IdTagInfo {
                    expiry_date: None,
                    parent_id_tag: None,
                    status: IdTagInfoStatus::Accepted,
                },
                transaction_id: 1500100900,
            },
            stop_transaction: StopTransactionResponse { id_tag_info: None },
        }
    }
}

/// One charge-station session as the verified core sees it: its id,
/// the instant of the last sign of life (milliseconds), and its
/// default-response table. The socket and the log store stay outside.
pub struct ChargeStationWebSocketSession {
    pub hb: u64,
    pub name: String,
    pub default_responses: DefaultResponses,
}

/// What the liveness tick decides.
#[derive(Clone, Copy, Debug, PartialEq, Eq, Structural)]
pub enum TickAction {
    Disconnect,
    Ping,
}

/// What one inbound text frame results in.
pub enum DispatchOutcome {
    /// A reply to write back to the station; `is_error` selects the
    /// error log level.
    Reply { text: String, is_error: bool },
    /// A CallResult to hand to the router.
    ForwardResult { unique_id: String, payload: String },
    /// A CallError to hand to the router.
    ForwardError { unique_id: String, error_code: String, error_description: String, error_details: String },
}

/// Strips one surrounding pair of double quotes.
pub fn strip_quotes(input: &String) -> (r: String)
    requires
        input@.len() >= 2,
        input@[0] == '"',
        input@[input@.len() - 1] == '"',
    ensures
        r@ == input@.subrange(1, input@.len() - 1),
{
    let s = input.as_str();
    let n = s.unicode_len();
    String::from_str(s.substring_char(1, n - 1))
}

/// The error details of the reply to a Call whose action this server
/// does not implement.
pub open spec fn not_implemented_details() -> Seq<char> {
    "\"Not all messages are implemented yet. Ocpp server is still in development\""@
}

/// The error details of the reply to a text that is no frame at all.
pub open spec fn malformed_frame_details() -> Seq<char> {
    "\"malformed frame\""@
}

/// The reply this server writes for a station-originated Call: the
/// canned default for the five overridable actions, a synthesized
/// response for the notification set, `NotImplemented` for anything
/// else, and `FormatViolation` when the payload fails the schema of
/// its action.
pub open spec fn answer_call_text(
    action: Seq<char>,
    mid: Seq<char>,
    payload: Option<Json>,
    d: DefaultResponses,
    time: Seq<char>,
    interval: int,
) -> Seq<char> {
    if action == "Authorize"@ {
        if payload matches Some(j) && valid_authorize_req(j) {
            wrap_call_result_spec(mid, authorize_response_text(d.authorize))
        } else {
            wrap_call_error_spec(mid, ErrorCode::FormatViolation, invalid_payload_details())
        }
    } else if action == "BootNotification"@ {
        if payload matches Some(j) && valid_boot_notification_req(j) {
            wrap_call_result_spec(mid, boot_notification_response_text(time, interval))
        } else {
            wrap_call_error_spec(mid, ErrorCode::FormatViolation, invalid_payload_details())
        }
    } else if action == "DataTransfer"@ {
        if payload matches Some(j) && valid_data_transfer_req(j) {
            wrap_call_result_spec(mid, data_transfer_response_text(d.data_transfer))
        } else {
            wrap_call_error_spec(mid, ErrorCode::FormatViolation, invalid_payload_details())
        }
    } else if action == "DiagnosticsStatusNotification"@ {
        if payload matches Some(j) && valid_diagnostics_status_notification_req(j) {
            wrap_call_result_spec(mid, "{}"@)
        } else {
            wrap_call_error_spec(mid, ErrorCode::FormatViolation, invalid_payload_details())
        }
    } else if action == "FirmwareStatusNotification"@ {
        if payload matches Some(j) && valid_firmware_status_notification_req(j) {
            wrap_call_result_spec(mid, "{}"@)
        } else {
            wrap_call_error_spec(mid, ErrorCode::FormatViolation, invalid_payload_details())
        }
    } else if action == "Heartbeat"@ {
        wrap_call_result_spec(mid, heartbeat_response_text(time))
    } else if action == "MeterValues"@ {
        if payload matches Some(j) && valid_meter_values_req(j) {
            wrap_call_result_spec(mid, "{}"@)
        } else {
            wrap_call_error_spec(mid, ErrorCode::FormatViolation, invalid_payload_details())
        }
    } else if action == "StartTransaction"@ {
        if payload matches Some(j) && valid_start_transaction_req(j) {
            wrap_call_result_spec(mid, start_transaction_response_text(d.start_transaction))
        } else {
            wrap_call_error_spec(mid, ErrorCode::FormatViolation, invalid_payload_details())
        }
    } else if action == "StatusNotification"@ {
        if payload matches Some(j) && valid_status_notification_req(j) {
            wrap_call_result_spec(mid, "{}"@)
        } else {
            wrap_call_error_spec(mid, ErrorCode::FormatViolation, invalid_payload_details())
        }
    } else if action == "StopTransaction"@ {
        if payload matches Some(j) && valid_stop_transaction_req(j) {
            wrap_call_result_spec(mid, stop_transaction_response_text(d.stop_transaction))
        } else {
            wrap_call_error_spec(mid, ErrorCode::FormatViolation, invalid_payload_details())
        }
    } else if action == "LogStatusNotification"@ {
        if payload matches Some(j) && valid_log_status_notification_req(j) {
            wrap_call_result_spec(mid, "{}"@)
        } else {
            wrap_call_error_spec(mid, ErrorCode::FormatViolation, invalid_payload_details())
        }
    } else if action == "SecurityEventNotification"@ {
        if payload matches Some(j) && valid_security_event_notification_req(j) {
            wrap_call_result_spec(mid, "{}"@)
        } else {
            wrap_call_error_spec(mid, ErrorCode::FormatViolation, invalid_payload_details())
        }
    } else if action == "SignCertificate"@ {
        if payload matches Some(j) && valid_sign_certificate_req(j) {
            wrap_call_result_spec(mid, sign_certificate_response_text(d.sign_certificate))
        } else {
            wrap_call_error_spec(mid, ErrorCode::FormatViolation, invalid_payload_details())
        }
    } else if action == "SignedFirmwareStatusNotification"@ {
        if payload matches Some(j) && valid_signed_firmware_status_notification_req(j) {
            wrap_call_result_spec(mid, "{}"@)
        } else {
            wrap_call_error_spec(mid, ErrorCode::FormatViolation, invalid_payload_details())
        }
    } else {
        wrap_call_error_spec(mid, ErrorCode::NotImplemented, not_implemented_details())
    }
}

/// Whether the reply to a Call is logged at the error level: exactly
/// the CallError replies are.
pub open spec fn answer_call_is_error(action: Seq<char>, payload: Option<Json>) -> bool {
    if action == "Authorize"@ {
        !(payload matches Some(j) && valid_authorize_req(j))
    } else if action == "BootNotification"@ {
        !(payload matches Some(j) && valid_boot_notification_req(j))
    } else if action == "DataTransfer"@ {
        !(payload matches Some(j) && valid_data_transfer_req(j))
    } else if action == "DiagnosticsStatusNotification"@ {
        !(payload matches Some(j) && valid_diagnostics_status_notification_req(j))
    } else if action == "FirmwareStatusNotification"@ {
        !(payload matches Some(j) && valid_firmware_status_notification_req(j))
    } else if action == "Heartbeat"@ {
        false
    } else if action == "MeterValues"@ {
        !(payload matches Some(j) && valid_meter_values_req(j))
    } else if action == "StartTransaction"@ {
        !(payload matches Some(j) && valid_start_transaction_req(j))
    } else if action == "StatusNotification"@ {
        !(payload matches Some(j) && valid_status_notification_req(j))
    } else if action == "StopTransaction"@ {
        !(payload matches Some(j) && valid_stop_transaction_req(j))
    } else if action == "LogStatusNotification"@ {
        !(payload matches Some(j) && valid_log_status_notification_req(j))
    } else if action == "SecurityEventNotification"@ {
        !(payload matches Some(j) && valid_security_event_notification_req(j))
    } else if action == "SignCertificate"@ {
        !(payload matches Some(j) && valid_sign_certificate_req(j))
    } else if action == "SignedFirmwareStatusNotification"@ {
        !(payload matches Some(j) && valid_signed_firmware_status_notification_req(j))
    } else {
        true
    }
}

/// The reply written for a Call is the dispatch answer for its action
/// and MessageId under some reading of the payload text.
pub open spec fn call_reply_matches(
    t: Seq<char>,
    is_error: bool,
    action: Seq<char>,
    mid: Seq<char>,
    d: DefaultResponses,
    time: Seq<char>,
    interval: int,
) -> bool {
    exists|pj: Option<Json>|
        t == #[trigger] answer_call_text(action, mid, pj, d, time, interval) && is_error
            == answer_call_is_error(action, pj)
}

/// The reply written for a Call is the dispatch answer under some
/// reading of the payload text and some instant of the clock.
pub open spec fn call_reply_matches_some_time(
    t: Seq<char>,
    is_error: bool,
    action: Seq<char>,
    mid: Seq<char>,
    d: DefaultResponses,
    interval: int,
) -> bool {
    exists|time: Seq<char>| #[trigger] call_reply_matches(t, is_error, action, mid, d, time, interval)
}

impl ChargeStationWebSocketSession {
    /// The liveness decision of the periodic tick: tear the session
    /// down exactly when the peer has been silent for longer than
    /// `CLIENT_TIMEOUT`, otherwise ping it.
    pub fn hb_check(&self, now_ms: u64) -> (r: TickAction)
        requires
            now_ms >= self.hb,
        ensures
            (r == TickAction::Disconnect) <==> (now_ms - self.hb > CLIENT_TIMEOUT * 1000),
            (r == TickAction::Ping) <==> (now_ms - self.hb <= CLIENT_TIMEOUT * 1000),
    {
        if now_ms - self.hb > CLIENT_TIMEOUT * 1000 {
            TickAction::Disconnect
        } else {
            TickAction::Ping
        }
    }

    /// Records a sign of life from the peer.
    pub fn refresh_heartbeat(&mut self, now_ms: u64)
        ensures
            final(self).hb == now_ms,
            final(self).name == old(self).name,
            final(self).default_responses == old(self).default_responses,
    {
        self.hb = now_ms;
    }

    /// Applies an envelope from the router: present reply defaults
    /// overwrite their cell, absent ones leave it unchanged, and a raw
    /// wire text is handed back for the caller to write to the peer.
    pub fn apply_message(&mut self, msg: MessageToChargeStation) -> (out: Option<String>)
        ensures
            final(self).default_responses.authorize == (match msg.authorize {
                Some(a) => a,
                None => old(self).default_responses.authorize,
            }),
            final(self).default_responses.data_transfer == (match msg.data_transfer {
                Some(a) => a,
                None => old(self).default_responses.data_transfer,
            }),
            final(self).default_responses.sign_certificate == (match msg.sign_certificate {
                Some(a) => a,
                None => old(self).default_responses.sign_certificate,
            }),
            final(self).default_responses.start_transaction == (match msg.start_transaction {
                Some(a) => a,
                None => old(self).default_responses.start_transaction,
            }),
            final(self).default_responses.stop_transaction == (match msg.stop_transaction {
                Some(a) => a,
                None => old(self).default_responses.stop_transaction,
            }),
            final(self).hb == old(self).hb,
            final(self).name == old(self).name,
            out == msg.message,
    {
        match msg.authorize {
            Some(a) => {
                self.default_responses.authorize = a;
            },
            None => {},
        }
        match msg.data_transfer {
            Some(a) => {
                self.default_responses.data_transfer = a;
            },
            None => {},
        }
        match msg.sign_certificate {
            Some(a) => {
                self.default_responses.sign_certificate = a;
            },
            None => {},
        }
        match msg.start_transaction {
            Some(a) => {
                self.default_responses.start_transaction = a;
            },
            None => {},
        }
        match msg.stop_transaction {
            Some(a) => {
                self.default_responses.stop_transaction = a;
            },
            None => {},
        }
        msg.message
    }

    /// Answers one station-originated Call.
    pub fn answer_call(
        &self,
        action: &String,
        message_id: &String,
        payload: Option<&Json>,
        current_time: &String,
        interval: i64,
    ) -> (r: (String, bool))
        ensures
            r.0@ == answer_call_text(
                action@,
                message_id@,
                (match payload {
                    Some(j) => Some(*j),
                    None => None,
                }),
                self.default_responses,
                current_time@,
                interval as int,
            ),
            r.1 == answer_call_is_error(
                action@,
                (match payload {
                    Some(j) => Some(*j),
                    None => None,
                }),
            ),
    {
        let a = action.as_str();
        let d = &self.default_responses;
        if str_eq(a, "Authorize") {
            match payload {
                Some(j) if check_authorize_req(j) => (
                    wrap_call_result(message_id, d.authorize.to_json()),
                    false,
                ),
                _ => (invalid_payload_error(message_id), true),
            }
        } else if str_eq(a, "BootNotification") {
            match payload {
                Some(j) if check_boot_notification_req(j) => (
                    wrap_call_result(message_id, boot_notification_payload(current_time, interval)),
                    false,
                ),
                _ => (invalid_payload_error(message_id), true),
            }
        } else if str_eq(a, "DataTransfer") {
            match payload {
                Some(j) if check_data_transfer_req(j) => (
                    wrap_call_result(message_id, d.data_transfer.to_json()),
                    false,
                ),
                _ => (invalid_payload_error(message_id), true),
            }
        } else if str_eq(a, "DiagnosticsStatusNotification") {
            match payload {
                Some(j) if check_diagnostics_status_notification_req(j) => (
                    wrap_call_result(message_id, empty_object_payload()),
                    false,
                ),
                _ => (invalid_payload_error(message_id), true),
            }
        } else if str_eq(a, "FirmwareStatusNotification") {
            match payload {
                Some(j) if check_firmware_status_notification_req(j) => (
                    wrap_call_result(message_id, empty_object_payload()),
                    false,
                ),
                _ => (invalid_payload_error(message_id), true),
            }
        } else if str_eq(a, "Heartbeat") {
            (wrap_call_result(message_id, heartbeat_payload(current_time)), false)
        } else if str_eq(a, "MeterValues") {
            match payload {
                Some(j) if check_meter_values_req(j) => (
                    wrap_call_result(message_id, empty_object_payload()),
                    false,
                ),
                _ => (invalid_payload_error(message_id), true),
            }
        } else if str_eq(a, "StartTransaction") {
            match payload {
                Some(j) if check_start_transaction_req(j) => (
                    wrap_call_result(message_id, d.start_transaction.to_json()),
                    false,
                ),
                _ => (invalid_payload_error(message_id), true),
            }
        } else if str_eq(a, "StatusNotification") {
            match payload {
                Some(j) if check_status_notification_req(j) => (
                    wrap_call_result(message_id, empty_object_payload()),
                    false,
                ),
                _ => (invalid_payload_error(message_id), true),
            }
        } else if str_eq(a, "StopTransaction") {
            match payload {
                Some(j) if check_stop_transaction_req(j) => (
                    wrap_call_result(message_id, d.stop_transaction.to_json()),
                    false,
                ),
                _ => (invalid_payload_error(message_id), true),
            }
        } else if str_eq(a, "LogStatusNotification") {
            match payload {
                Some(j) if check_log_status_notification_req(j) => (
                    wrap_call_result(message_id, empty_object_payload()),
                    false,
                ),
                _ => (invalid_payload_error(message_id), true),
            }
        } else if str_eq(a, "SecurityEventNotification") {
            match payload {
                Some(j) if check_security_event_notification_req(j) => (
                    wrap_call_result(message_id, empty_object_payload()),
                    false,
                ),
                _ => (invalid_payload_error(message_id), true),
            }
        } else if str_eq(a, "SignCertificate") {
            match payload {
                Some(j) if check_sign_certificate_req(j) => (
                    wrap_call_result(message_id, d.sign_certificate.to_json()),
                    false,
                ),
                _ => (invalid_payload_error(message_id), true),
            }
        } else if str_eq(a, "SignedFirmwareStatusNotification") {
            match payload {
                Some(j) if check_signed_firmware_status_notification_req(j) => (
                    wrap_call_result(message_id, empty_object_payload()),
                    false,
                ),
                _ => (invalid_payload_error(message_id), true),
            }
        } else {
            (
                wrap_call_error_result(
                    message_id,
                    ErrorCode::NotImplemented,
                    &String::from_str(
                        "\"Not all messages are implemented yet. Ocpp server is still in development\"",
                    ),
                ),
                true,
            )
        }
    }

    /// Handles one inbound text frame: a Call is answered on the spot,
    /// a CallResult or CallError is handed to the router, and a text
    /// that is no frame draws a FormatViolation reply with a
    /// best-effort (empty) MessageId. The reply to a Call is the
    /// dispatch answer under some reading of the payload text: the
    /// JSON reader carries a structural contract only, so the reading
    /// is quantified here; `answer_call` states the exact answer for
    /// every reading.
    #[verifier::rlimit(60)]
    pub fn handle_text_frame(
        &self,
        text: &String,
        current_time: &String,
        interval: i64,
    ) -> (r: DispatchOutcome)
        ensures
            match spec_unpack(text@) {
                None => r matches DispatchOutcome::Reply { text: t, is_error } && t@
                    == wrap_call_error_spec(
                    seq!['"', '"'],
                    ErrorCode::FormatViolation,
                    malformed_frame_details(),
                ) && is_error == true,
                Some(m) => match m {
                    MessageView::Call(c) => r matches DispatchOutcome::Reply { text: t, is_error }
                        && call_reply_matches(
                        t@,
                        is_error,
                        dequoted(c.action),
                        c.unique_id,
                        self.default_responses,
                        current_time@,
                        interval as int,
                    ),
                    MessageView::CallResult(c) => r matches DispatchOutcome::ForwardResult {
                        unique_id,
                        payload,
                    } && unique_id@ == c.unique_id && payload@ == c.payload,
                    MessageView::CallError(c) => r matches DispatchOutcome::ForwardError {
                        unique_id,
                        error_code,
                        error_description,
                        error_details,
                    } && unique_id@ == c.unique_id && error_code@ == c.error_code
                        && error_description@ == c.error_description && error_details@
                        == c.error_details,
                },
            },
    {
        match unpack_ocpp_message(text) {
            Err(_) => {
                let reply = wrap_call_error_result(
                    &String::from_str("\"\""),
                    ErrorCode::FormatViolation,
                    &String::from_str("\"malformed frame\""),
                );
                proof {
                    reveal_strlit("\"\"");
                    assert("\"\""@ =~= seq!['"', '"']);
                }
                return DispatchOutcome::Reply { text: reply, is_error: true };
            },
            Ok(OcppMessage::Call(c)) => {
                let action = remove_quotes(c.action.as_str());
                let pj = parse_json(c.payload.as_str());
                let pjr = pj.as_ref();
                let ghost pjv: Option<Json> = match pjr {
                    Some(j) => Some(*j),
                    None => None,
                };
                let (reply, is_error) = self.answer_call(
                    &action,
                    &c.unique_id,
                    pjr,
                    current_time,
                    interval,
                );
                proof {
                    assert(reply@ == #[trigger] answer_call_text(
                        dequoted(c@.action),
                        c@.unique_id,
                        pjv,
                        self.default_responses,
                        current_time@,
                        interval as int,
                    ));
                    assert(is_error == answer_call_is_error(dequoted(c@.action), pjv));
                    assert(call_reply_matches(
                        reply@,
                        is_error,
                        dequoted(c@.action),
                        c@.unique_id,
                        self.default_responses,
                        current_time@,
                        interval as int,
                    ));
                }
                return DispatchOutcome::Reply { text: reply, is_error };
            },
            Ok(OcppMessage::CallResult(cr)) => {
                return DispatchOutcome::ForwardResult {
                    unique_id: cr.unique_id,
                    payload: cr.payload,
                };
            },
            Ok(OcppMessage::CallError(ce)) => {
                return DispatchOutcome::ForwardError {
                    unique_id: ce.unique_id,
                    error_code: ce.error_code,
                    error_description: ce.error_description,
                    error_details: ce.error_details,
                };
            },
        }
    }
}

impl ChargeStationWebSocketSession {
    /// Handles one inbound text frame against the clock: the reply to
    /// a Call carries the time now, shifted by the configured offset.
    /// Whatever instant the clock reported, the frame classification
    /// of `handle_text_frame` holds.
    pub fn handle_text_frame_at_now(
        &self,
        text: &String,
        time_offset_hours: i64,
        interval: i64,
    ) -> (r: DispatchOutcome)
        requires
            -876000 <= time_offset_hours <= 876000,
        ensures
            match spec_unpack(text@) {
                None => r matches DispatchOutcome::Reply { text: t, is_error } && t@
                    == wrap_call_error_spec(
                    seq!['"', '"'],
                    ErrorCode::FormatViolation,
                    malformed_frame_details(),
                ) && is_error == true,
                Some(m) => match m {
                    MessageView::Call(c) => r matches DispatchOutcome::Reply { text: t, is_error }
                        && call_reply_matches_some_time(
                        t@,
                        is_error,
                        dequoted(c.action),
                        c.unique_id,
                        self.default_responses,
                        interval as int,
                    ),
                    MessageView::CallResult(c) => r matches DispatchOutcome::ForwardResult {
                        unique_id,
                        payload,
                    } && unique_id@ == c.unique_id && payload@ == c.payload,
                    MessageView::CallError(c) => r matches DispatchOutcome::ForwardError {
                        unique_id,
                        error_code,
                        error_description,
                        error_details,
                    } && unique_id@ == c.unique_id && error_code@ == c.error_code
                        && error_description@ == c.error_description && error_details@
                        == c.error_details,
                },
            },
    {
        let current_time = crate::clock::now_rfc3339_millis_utc_offset(time_offset_hours);
        let r = self.handle_text_frame(text, &current_time, interval);
        proof {
            match spec_unpack(text@) {
                Some(m) => match m {
                    MessageView::Call(c) => {
                        match &r {
                            DispatchOutcome::Reply { text: t, is_error } => {
                                assert(call_reply_matches_some_time(
                                    t@,
                                    *is_error,
                                    dequoted(c.action),
                                    c.unique_id,
                                    self.default_responses,
                                    interval as int,
                                )) by {
                                    assert(call_reply_matches(
                                        t@,
                                        *is_error,
                                        dequoted(c.action),
                                        c.unique_id,
                                        self.default_responses,
                                        current_time@,
                                        interval as int,
                                    ));
                                }
                            },
                            _ => {},
                        }
                    },
                    _ => {},
                },
                None => {},
            }
        }
        r
    }
}

} // verus!
