use vstd::prelude::*;

use crate::json::{
    int_text, json_get, json_string_text, json_text, json_to_string, nat_text, u64_to_string,
    i64_to_string, Json,
};
use crate::clock::rfc3339_millis_of;
use crate::messages::CLIENT_TIMEOUT;
use crate::schema::{check_operator_payload, field_string_val, operator_payload_ok};
use crate::strutil::str_eq;

verus! {

/// One operator browser session as the verified core sees it: its
/// server-assigned id and the instant of the last sign of life
/// (milliseconds). The socket stays outside.
pub struct WebBrowserWebSocketSession {
    pub id: String,
    pub hb: u64,
}

/// What the liveness tick of an operator session decides.
#[derive(Clone, Copy, Debug, PartialEq, Eq, Structural)]
pub enum OperatorTick {
    Disconnect,
    Ping,
}

impl WebBrowserWebSocketSession {
    /// The liveness decision: tear the session down exactly when the
    /// peer has been silent for longer than `CLIENT_TIMEOUT`,
    /// otherwise ping it.
    pub fn hb_check(&self, now_ms: u64) -> (r: OperatorTick)
        requires
            now_ms >= self.hb,
        ensures
            (r == OperatorTick::Disconnect) <==> (now_ms - self.hb > CLIENT_TIMEOUT * 1000),
    {
        if now_ms - self.hb > CLIENT_TIMEOUT * 1000 {
            OperatorTick::Disconnect
        } else {
            OperatorTick::Ping
        }
    }

    /// Records a sign of life from the peer.
    pub fn refresh_heartbeat(&mut self, now_ms: u64)
        ensures
            final(self).hb == now_ms,
            final(self).id == old(self).id,
    {
        self.hb = now_ms;
    }
}

/// The error member of a JSON-RPC response. `data` holds raw JSON
/// text, inserted into the response verbatim.
pub struct RpcErrorData {
    pub code: i64,
    pub message: String,
    pub data: String,
}

/// The standard message for a standard JSON-RPC error code.
pub open spec fn std_error_message(code: int) -> Seq<char> {
    if code == -32700 {
        "Parse error"@
    } else if code == -32601 {
        "Method not found"@
    } else if code == -32602 {
        "Invalid params"@
    } else if code == -32603 {
        "Internal error"@
    } else {
        "Server error"@
    }
}

impl RpcErrorData {
    /// The standard error object for a standard code, with no data.
    pub fn standard(code: i64) -> (r: RpcErrorData)
        ensures
            r.code == code,
            r.message@ == std_error_message(code as int),
            r.data@ == "null"@,
    {
        let message: &str = if code == -32700 {
            "Parse error"
        } else if code == -32601 {
            "Method not found"
        } else if code == -32602 {
            "Invalid params"
        } else if code == -32603 {
            "Internal error"
        } else {
            "Server error"
        };
        RpcErrorData { code, message: String::from_str(message), data: String::from_str("null") }
    }
}

/// A JSON-RPC response. `result` and `id` hold raw JSON text, inserted
/// into the printed response verbatim.
pub struct JsonRpcResponse {
    pub result: String,
    pub error: Option<RpcErrorData>,
    pub id: String,
}

/// The printed form of a JSON-RPC response: a success response carries
/// the result, an error response the error object, and both echo the
/// correlation id.
pub open spec fn dump_text(r: JsonRpcResponse) -> Seq<char> {
    match r.error {
        None => "{\"jsonrpc\":\"2.0\",\"result\":"@ + r.result@ + ",\"id\":"@ + r.id@ + seq!['}'],
        Some(e) => "{\"jsonrpc\":\"2.0\",\"error\":{\"code\":"@ + int_text(e.code as int)
            + ",\"message\":"@ + json_string_text(e.message@) + ",\"data\":"@ + e.data@
            + "},\"id\":"@ + r.id@ + seq!['}'],
    }
}

impl Default for JsonRpcResponse {
    fn default() -> (r: JsonRpcResponse)
        ensures
            r.result@ == "null"@,
            r.error is None,
            r.id@ == "null"@,
    {
        JsonRpcResponse {
            result: String::from_str("null"),
            error: None,
            id: String::from_str("null"),
        }
    }
}

impl JsonRpcResponse {
    /// Prints the response in the form of `dump_text`.
    pub fn dump(&self) -> (r: String)
        ensures
            r@ == dump_text(*self),
    {
        proof {
            reveal_strlit("}");
        }
        match &self.error {
            None => {
                let mut out = String::from_str("{\"jsonrpc\":\"2.0\",\"result\":");
                out.append(self.result.as_str());
                out.append(",\"id\":");
                out.append(self.id.as_str());
                out.append("}");
                proof {
                    assert("}"@ =~= seq!['}']);
                    assert(out@ =~= dump_text(*self));
                }
                out
            },
            Some(e) => {
                let mut out = String::from_str("{\"jsonrpc\":\"2.0\",\"error\":{\"code\":");
                let code_digits = i64_to_string(e.code);
                out.append(code_digits.as_str());
                out.append(",\"message\":");
                crate::json::append_json_string(&mut out, e.message.as_str());
                out.append(",\"data\":");
                out.append(e.data.as_str());
                out.append("},\"id\":");
                out.append(self.id.as_str());
                out.append("}");
                proof {
                    assert("}"@ =~= seq!['}']);
                    assert(out@ =~= dump_text(*self));
                }
                out
            },
        }
    }
}

/// A success response text with the given raw result and id.
pub open spec fn result_reply_text(result_raw: Seq<char>, id_raw: Seq<char>) -> Seq<char> {
    "{\"jsonrpc\":\"2.0\",\"result\":"@ + result_raw + ",\"id\":"@ + id_raw + seq!['}']
}

/// A standard error response text for the given code and id.
pub open spec fn std_error_reply_text(code: int, id_raw: Seq<char>) -> Seq<char> {
    "{\"jsonrpc\":\"2.0\",\"error\":{\"code\":"@ + int_text(code) + ",\"message\":"@
        + json_string_text(std_error_message(code)) + ",\"data\":null},\"id\":"@ + id_raw
        + seq!['}']
}

fn make_result_reply(result_raw: String, id_raw: String) -> (r: String)
    ensures
        r@ == result_reply_text(result_raw@, id_raw@),
{
    let resp = JsonRpcResponse { result: result_raw, error: None, id: id_raw };
    resp.dump()
}

fn make_std_error_reply(code: i64, id_raw: String) -> (r: String)
    ensures
        r@ == std_error_reply_text(code as int, id_raw@),
{
    let resp = JsonRpcResponse {
        result: String::from_str("null"),
        error: Some(RpcErrorData::standard(code)),
        id: id_raw,
    };
    let out = resp.dump();
    proof {
        reveal_strlit("null");
        reveal_strlit(",\"data\":");
        reveal_strlit("},\"id\":");
        reveal_strlit(",\"data\":null},\"id\":");
        assert(out@ =~= std_error_reply_text(code as int, resp.id@));
    }
    out
}

/// The raw JSON text of the correlation id of a request: its `id`
/// member, or `null` when there is none.
pub open spec fn request_id_text(req: Json) -> Seq<char> {
    match json_get(req, "id"@) {
        Some(v) => json_text(v),
        None => "null"@,
    }
}

fn extract_id_text(req: &Json) -> (r: String)
    ensures
        r@ == request_id_text(*req),
{
    match req.get("id") {
        Some(v) => json_to_string(v),
        None => String::from_str("null"),
    }
}

/// What one operator JSON-RPC request results in. The caller performs
/// what the verified core cannot: it closes the socket, runs the log
/// extractor or the purge, or routes the command, and then sends the
/// reply.
pub enum OperatorOutcome {
    /// A response to write back.
    Reply { text: String },
    /// The response to the `disconnect` method: write it, deregister
    /// the session, close the socket.
    Disconnect { text: String },
    /// A `get_log` request with checked parameters: run the extractor
    /// over `[begin_millis, end_millis]` and answer under `id`.
    FetchLog { charger_sn: String, begin_millis: i64, end_millis: i64, id: String },
    /// A `clear_logs` request: purge the store and answer under `id`.
    ClearLogs { id: String },
    /// A `send_ocpp_call` request with a checked payload: route the
    /// Call to the charger and echo the wire frame under `id`.
    SendOcppCall { charger: String, action: String, payload_text: String, id: String },
    /// A `set_default_response` request with a checked payload: ship
    /// the typed default to the charger and confirm under `id`.
    SetDefaultResponse { charger: String, action: String, payload_text: String, id: String },
}

/// The five actions whose canned reply an operator may override.
pub open spec fn is_default_action(a: Seq<char>) -> bool {
    a == "Authorize"@ || a == "DataTransfer"@ || a == "SignCertificate"@ || a
        == "StartTransaction"@ || a == "StopTransaction"@
}

fn check_default_action(a: &str) -> (r: bool)
    ensures
        r == is_default_action(a@),
{
    str_eq(a, "Authorize") || str_eq(a, "DataTransfer") || str_eq(a, "SignCertificate") || str_eq(
        a,
        "StartTransaction",
    ) || str_eq(a, "StopTransaction")
}

/// The answer owed to one parsed operator request, by its `method`
/// member: the supported methods are `connect`, `disconnect`,
/// `get_current_timestamp`, `get_log`, `send_ocpp_call`,
/// `set_default_response` and `clear_logs`; an unknown method draws
/// error -32601, a request without a readable method -32700, and
/// parameters that fail their checks -32602.
pub open spec fn operator_answer_ok(
    r: OperatorOutcome,
    req: Json,
    current_time: Seq<char>,
    now_millis: int,
) -> bool {
    match field_string_val(req, "method"@) {
        None => r matches OperatorOutcome::Reply { text } && text@ == std_error_reply_text(
            -32700,
            "null"@,
        ),
        Some(m) => {
            if m == "connect"@ {
                r matches OperatorOutcome::Reply { text } && text@ == result_reply_text(
                    json_string_text("connected to the ocpp server"@),
                    request_id_text(req),
                )
            } else if m == "disconnect"@ {
                r matches OperatorOutcome::Disconnect { text } && text@ == result_reply_text(
                    json_string_text("disconnecting from the ocpp server"@),
                    request_id_text(req),
                )
            } else if m == "get_current_timestamp"@ {
                r matches OperatorOutcome::Reply { text } && text@ == result_reply_text(
                    json_string_text(current_time),
                    request_id_text(req),
                )
            } else if m == "get_log"@ {
                match json_get(req, "params"@) {
                    None => r matches OperatorOutcome::Reply { text } && text@
                        == std_error_reply_text(-32602, request_id_text(req)),
                    Some(p) => match field_string_val(p, "charger_sn"@) {
                        None => r matches OperatorOutcome::Reply { text } && text@
                            == std_error_reply_text(-32602, request_id_text(req)),
                        Some(sn) => match field_string_val(p, "begin_timestamp"@) {
                            None => r matches OperatorOutcome::Reply { text } && text@
                                == std_error_reply_text(-32602, request_id_text(req)),
                            Some(bt) => match rfc3339_millis_of(bt) {
                                None => r matches OperatorOutcome::Reply { text } && text@
                                    == std_error_reply_text(-32602, request_id_text(req)),
                                Some(bm) => match json_get(p, "end_timestamp"@) {
                                    None => r matches OperatorOutcome::FetchLog {
                                        charger_sn,
                                        begin_millis,
                                        end_millis,
                                        id,
                                    } && charger_sn@ == sn && begin_millis as int == bm
                                        && end_millis == now_millis && id@ == request_id_text(req),
                                    Some(ev) => match ev {
                                        Json::Str(es) => match rfc3339_millis_of(es@) {
                                            None => r matches OperatorOutcome::Reply { text }
                                                && text@ == std_error_reply_text(
                                                -32602,
                                                request_id_text(req),
                                            ),
                                            Some(em) => r matches OperatorOutcome::FetchLog {
                                                charger_sn,
                                                begin_millis,
                                                end_millis,
                                                id,
                                            } && charger_sn@ == sn && begin_millis as int == bm
                                                && end_millis as int == em && id@
                                                == request_id_text(req),
                                        },
                                        _ => r matches OperatorOutcome::Reply { text } && text@
                                            == std_error_reply_text(-32602, request_id_text(req)),
                                    },
                                },
                            },
                        },
                    },
                }
            } else if m == "send_ocpp_call"@ {
                match json_get(req, "params"@) {
                    None => r matches OperatorOutcome::Reply { text } && text@
                        == std_error_reply_text(-32602, request_id_text(req)),
                    Some(p) => match field_string_val(p, "charger"@) {
                        None => r matches OperatorOutcome::Reply { text } && text@
                            == std_error_reply_text(-32602, request_id_text(req)),
                        Some(ch) => match field_string_val(p, "action"@) {
                            None => r matches OperatorOutcome::Reply { text } && text@
                                == std_error_reply_text(-32602, request_id_text(req)),
                            Some(a) => match json_get(p, "payload"@) {
                                None => r matches OperatorOutcome::Reply { text } && text@
                                    == std_error_reply_text(-32602, request_id_text(req)),
                                Some(pl) => if operator_payload_ok(a, pl) {
                                    r matches OperatorOutcome::SendOcppCall {
                                        charger,
                                        action,
                                        payload_text,
                                        id,
                                    } && charger@ == ch && action@ == a && payload_text@
                                        == json_text(pl) && id@ == request_id_text(req)
                                } else {
                                    r matches OperatorOutcome::Reply { text } && text@
                                        == std_error_reply_text(-32602, request_id_text(req))
                                },
                            },
                        },
                    },
                }
            } else if m == "set_default_response"@ {
                match json_get(req, "params"@) {
                    None => r matches OperatorOutcome::Reply { text } && text@
                        == std_error_reply_text(-32602, request_id_text(req)),
                    Some(p) => match field_string_val(p, "charger"@) {
                        None => r matches OperatorOutcome::Reply { text } && text@
                            == std_error_reply_text(-32602, request_id_text(req)),
                        Some(ch) => match field_string_val(p, "action"@) {
                            None => r matches OperatorOutcome::Reply { text } && text@
                                == std_error_reply_text(-32602, request_id_text(req)),
                            Some(a) => match json_get(p, "payload"@) {
                                None => r matches OperatorOutcome::Reply { text } && text@
                                    == std_error_reply_text(-32602, request_id_text(req)),
                                Some(pl) => if is_default_action(a) && operator_payload_ok(a, pl) {
                                    r matches OperatorOutcome::SetDefaultResponse {
                                        charger,
                                        action,
                                        payload_text,
                                        id,
                                    } && charger@ == ch && action@ == a && payload_text@
                                        == json_text(pl) && id@ == request_id_text(req)
                                } else {
                                    r matches OperatorOutcome::Reply { text } && text@
                                        == std_error_reply_text(-32602, request_id_text(req))
                                },
                            },
                        },
                    },
                }
            } else if m == "clear_logs"@ {
                r matches OperatorOutcome::ClearLogs { id } && id@ == request_id_text(req)
            } else {
                r matches OperatorOutcome::Reply { text } && text@ == std_error_reply_text(
                    -32601,
                    request_id_text(req),
                )
            }
        },
    }
}

/// Answers one parsed operator request per `operator_answer_ok`.
pub fn answer_operator_request(req: &Json, current_time: &String, now_millis: i64) -> (r:
    OperatorOutcome)
    ensures
        operator_answer_ok(r, *req, current_time@, now_millis as int),
{
    let method = match req.get("method") {
        Some(v) => match v.as_string() {
            Some(s) => s,
            None => {
                return OperatorOutcome::Reply {
                    text: make_std_error_reply(-32700, String::from_str("null")),
                };
            },
        },
        None => {
            return OperatorOutcome::Reply {
                text: make_std_error_reply(-32700, String::from_str("null")),
            };
        },
    };
    let id = extract_id_text(req);
    if str_eq(method.as_str(), "connect") {
        OperatorOutcome::Reply {
            text: make_result_reply(
                crate::json::json_string_value("connected to the ocpp server"),
                id,
            ),
        }
    } else if str_eq(method.as_str(), "disconnect") {
        OperatorOutcome::Disconnect {
            text: make_result_reply(
                crate::json::json_string_value("disconnecting from the ocpp server"),
                id,
            ),
        }
    } else if str_eq(method.as_str(), "get_current_timestamp") {
        OperatorOutcome::Reply {
            text: make_result_reply(crate::json::json_string_value(current_time.as_str()), id),
        }
    } else if str_eq(method.as_str(), "get_log") {
        let params = match req.get("params") {
            Some(p) => p,
            None => {
                return OperatorOutcome::Reply { text: make_std_error_reply(-32602, id) };
            },
        };
        let charger_sn = match params.get("charger_sn") {
            Some(v) => match v.as_string() {
                Some(s) => s.clone(),
                None => {
                    return OperatorOutcome::Reply { text: make_std_error_reply(-32602, id) };
                },
            },
            None => {
                return OperatorOutcome::Reply { text: make_std_error_reply(-32602, id) };
            },
        };
        let begin_text = match params.get("begin_timestamp") {
            Some(v) => match v.as_string() {
                Some(s) => s,
                None => {
                    return OperatorOutcome::Reply { text: make_std_error_reply(-32602, id) };
                },
            },
            None => {
                return OperatorOutcome::Reply { text: make_std_error_reply(-32602, id) };
            },
        };
        let begin_millis = match crate::clock::parse_rfc3339_millis(begin_text.as_str()) {
            Some(v) => v,
            None => {
                return OperatorOutcome::Reply { text: make_std_error_reply(-32602, id) };
            },
        };
        let end_millis = match params.get("end_timestamp") {
            Some(ev) => match ev.as_string() {
                Some(es) => match crate::clock::parse_rfc3339_millis(es.as_str()) {
                    Some(v) => v,
                    None => {
                        return OperatorOutcome::Reply { text: make_std_error_reply(-32602, id) };
                    },
                },
                None => {
                    return OperatorOutcome::Reply { text: make_std_error_reply(-32602, id) };
                },
            },
            None => now_millis,
        };
        OperatorOutcome::FetchLog { charger_sn, begin_millis, end_millis, id }
    } else if str_eq(method.as_str(), "send_ocpp_call") {
        let params = match req.get("params") {
            Some(p) => p,
            None => {
                return OperatorOutcome::Reply { text: make_std_error_reply(-32602, id) };
            },
        };
        let charger = match params.get("charger") {
            Some(v) => match v.as_string() {
                Some(s) => s.clone(),
                None => {
                    return OperatorOutcome::Reply { text: make_std_error_reply(-32602, id) };
                },
            },
            None => {
                return OperatorOutcome::Reply { text: make_std_error_reply(-32602, id) };
            },
        };
        let action = match params.get("action") {
            Some(v) => match v.as_string() {
                Some(s) => s.clone(),
                None => {
                    return OperatorOutcome::Reply { text: make_std_error_reply(-32602, id) };
                },
            },
            None => {
                return OperatorOutcome::Reply { text: make_std_error_reply(-32602, id) };
            },
        };
        let payload = match params.get("payload") {
            Some(p) => p,
            None => {
                return OperatorOutcome::Reply { text: make_std_error_reply(-32602, id) };
            },
        };
        if check_operator_payload(action.as_str(), payload) {
            let payload_text = json_to_string(payload);
            OperatorOutcome::SendOcppCall { charger, action, payload_text, id }
        } else {
            OperatorOutcome::Reply { text: make_std_error_reply(-32602, id) }
        }
    } else if str_eq(method.as_str(), "set_default_response") {
        let params = match req.get("params") {
            Some(p) => p,
            None => {
                return OperatorOutcome::Reply { text: make_std_error_reply(-32602, id) };
            },
        };
        let charger = match params.get("charger") {
            Some(v) => match v.as_string() {
                Some(s) => s.clone(),
                None => {
                    return OperatorOutcome::Reply { text: make_std_error_reply(-32602, id) };
                },
            },
            None => {
                return OperatorOutcome::Reply { text: make_std_error_reply(-32602, id) };
            },
        };
        let action = match params.get("action") {
            Some(v) => match v.as_string() {
                Some(s) => s.clone(),
                None => {
                    return OperatorOutcome::Reply { text: make_std_error_reply(-32602, id) };
                },
            },
            None => {
                return OperatorOutcome::Reply { text: make_std_error_reply(-32602, id) };
            },
        };
        let payload = match params.get("payload") {
            Some(p) => p,
            None => {
                return OperatorOutcome::Reply { text: make_std_error_reply(-32602, id) };
            },
        };
        if check_default_action(action.as_str()) && check_operator_payload(
            action.as_str(),
            payload,
        ) {
            let payload_text = json_to_string(payload);
            OperatorOutcome::SetDefaultResponse { charger, action, payload_text, id }
        } else {
            OperatorOutcome::Reply { text: make_std_error_reply(-32602, id) }
        }
    } else if str_eq(method.as_str(), "clear_logs") {
        OperatorOutcome::ClearLogs { id }
    } else {
        OperatorOutcome::Reply { text: make_std_error_reply(-32601, id) }
    }
}

/// Reads one inbound operator text frame and answers it: either the
/// text draws the parse-error reply (code -32700, id null), or the
/// outcome is the answer owed to some request value read from it. The
/// JSON reader carries a structural contract only, so the request
/// value is quantified here; `answer_operator_request` states the
/// exact answer for every value.
pub fn handle_operator_text(text: &String, current_time: &String, now_millis: i64) -> (r:
    OperatorOutcome)
    ensures
        (r matches OperatorOutcome::Reply { text: t } && t@ == std_error_reply_text(
            -32700,
            "null"@,
        )) || (exists|req: Json|
            #[trigger] operator_answer_ok(r, req, current_time@, now_millis as int)),
{
    match crate::json::parse_json(text.as_str()) {
        Some(req) => {
            let ghost reqv = req;
            let out = answer_operator_request(&req, current_time, now_millis);
            proof {
                assert(operator_answer_ok(out, reqv, current_time@, now_millis as int));
            }
            out
        },
        None => OperatorOutcome::Reply {
            text: make_std_error_reply(-32700, String::from_str("null")),
        },
    }
}

/// The body of the `get_log` success result: the URL under which the
/// extracted file is served.
pub open spec fn address_text(
    tls: bool,
    host: Seq<char>,
    port: int,
    filename: Seq<char>,
) -> Seq<char> {
    "{\"address\":\""@ + (if tls {
        "https"@
    } else {
        "http"@
    }) + "://"@ + host + seq![':'] + nat_text(port) + "/logs/"@ + filename + "\"}"@
}

/// The response to a successful `get_log`: a string result holding the
/// address of the extracted file.
pub fn get_log_success_reply(
    use_tls: bool,
    host: &String,
    port: u32,
    filename: &String,
    id_raw: String,
) -> (r: String)
    ensures
        r@ == result_reply_text(
            json_string_text(address_text(use_tls, host@, port as int, filename@)),
            id_raw@,
        ),
{
    proof {
        reveal_strlit(":");
    }
    let mut body = String::from_str("{\"address\":\"");
    if use_tls {
        body.append("https");
    } else {
        body.append("http");
    }
    body.append("://");
    body.append(host.as_str());
    body.append(":");
    assert(":"@ =~= seq![':']);
    let digits = u64_to_string(port as u64);
    body.append(digits.as_str());
    body.append("/logs/");
    body.append(filename.as_str());
    body.append("\"}");
    let result_raw = crate::json::json_string_value(body.as_str());
    make_result_reply(result_raw, id_raw)
}

/// An internal-error response (code -32603) whose data is the given
/// diagnostic text.
pub fn internal_error_reply(detail: &String, id_raw: String) -> (r: String)
    ensures
        r@ == "{\"jsonrpc\":\"2.0\",\"error\":{\"code\":"@ + int_text(-32603)
            + ",\"message\":"@ + json_string_text("Internal error"@) + ",\"data\":"@
            + json_string_text(detail@) + "},\"id\":"@ + id_raw@ + seq!['}'],
{
    let e = RpcErrorData {
        code: -32603,
        message: String::from_str("Internal error"),
        data: crate::json::json_string_value(detail.as_str()),
    };
    let resp = JsonRpcResponse { result: String::from_str("null"), error: Some(e), id: id_raw };
    resp.dump()
}

/// The response to a successful `clear_logs`.
pub fn clear_logs_success_reply(id_raw: String) -> (r: String)
    ensures
        r@ == result_reply_text(json_string_text("logs cleared"@), id_raw@),
{
    make_result_reply(crate::json::json_string_value("logs cleared"), id_raw)
}

/// The response to a routed command whose result is a text: the echo
/// of a sent wire frame, or a confirmation line.
pub fn string_result_reply(text: &String, id_raw: String) -> (r: String)
    ensures
        r@ == result_reply_text(json_string_text(text@), id_raw@),
{
    make_result_reply(crate::json::json_string_value(text.as_str()), id_raw)
}

/// The response that carries a router-pushed event to the operator: a
/// string result under a freshly generated id.
pub fn notification_text(message: &String, fresh_id: &String) -> (r: String)
    ensures
        r@ == result_reply_text(json_string_text(message@), json_string_text(fresh_id@)),
{
    let mut id_raw = String::new();
    crate::json::append_json_string(&mut id_raw, fresh_id.as_str());
    make_result_reply(crate::json::json_string_value(message.as_str()), id_raw)
}

/// Reads one inbound operator text frame against the clock: the
/// current-timestamp method answers with the local time now, and a
/// `get_log` without an end bound closes its range at the instant now.
/// Whatever the clock reported, the text draws either the parse-error
/// reply or the answer owed to some request value read from it.
pub fn handle_operator_text_now(text: &String) -> (r: OperatorOutcome)
    ensures
        (r matches OperatorOutcome::Reply { text: t } && t@ == std_error_reply_text(
            -32700,
            "null"@,
        )) || (exists|req: Json, time: Seq<char>, now: int|
            #[trigger] operator_answer_ok(r, req, time, now)),
{
    let current_time = crate::clock::now_rfc3339_millis_local();
    let now_millis = crate::clock::now_unix_millis();
    let r = handle_operator_text(text, &current_time, now_millis);
    proof {
        if !(r matches OperatorOutcome::Reply { text: ref t } && t@ == std_error_reply_text(
            -32700,
            "null"@,
        )) {
            let req = choose|req: Json|
                #[trigger] operator_answer_ok(r, req, current_time@, now_millis as int);
            assert(operator_answer_ok(r, req, current_time@, now_millis as int));
        }
    }
    r
}

} // verus!
