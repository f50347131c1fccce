use vstd::prelude::*;

use crate::json::{is_ws_char, Json};
use crate::messages::responses::{
    authorize_response_text, boot_notification_payload, boot_notification_response_text,
    data_transfer_response_text, empty_object_payload, heartbeat_payload, heartbeat_response_text,
    sign_certificate_response_text, start_transaction_response_text, stop_transaction_response_text,
    AuthorizeResponse, IdTagInfo, IdTagInfoStatus, StartTransactionResponse,
    StopTransactionResponse,
};
use crate::schema::{
    valid_authorize_req, valid_boot_notification_req, valid_diagnostics_status_notification_req,
    valid_firmware_status_notification_req, valid_log_status_notification_req,
    valid_meter_values_req, valid_security_event_notification_req,
    valid_signed_firmware_status_notification_req, valid_start_transaction_req,
    valid_status_notification_req, valid_stop_transaction_req, check_authorize_req,
    check_boot_notification_req, check_diagnostics_status_notification_req,
    check_firmware_status_notification_req, check_log_status_notification_req,
    check_meter_values_req, check_security_event_notification_req,
    check_signed_firmware_status_notification_req, check_start_transaction_req,
    check_status_notification_req, check_stop_transaction_req,
};

pub mod requests;
pub mod responses;

verus! {

/// Cadence of the liveness ping, in seconds.
pub const HEARTBEAT_INTERVAL: u64 = 60;

/// Maximum silence tolerated from a peer before its session is closed,
/// in seconds.
pub const CLIENT_TIMEOUT: u64 = 600;

/// The OCPP-J error codes, each mapped to a fixed wire name and a fixed
/// human description by `wrap_call_error_result`.
#[derive(Clone, Copy, Debug, PartialEq, Eq, Structural)]
pub enum ErrorCode {
    FormatViolation,
    GenericError,
    InternalError,
    MessageTypeNotSupported,
    NotImplemented,
    NotSupported,
    OccurrenceConstraintViolation,
    PropertyConstraintViolation,
    ProtocolError,
    RpcFrameworkError,
    SecurityError,
    TypeConstraintViolation,
}

/// A decoded request frame: `[2, "<MessageId>", "<Action>", <Payload>]`.
/// Every field holds the raw JSON token of its array element: a string
/// element keeps its surrounding quotes, and the payload is raw JSON
/// text that is not schema-validated here.
#[derive(Clone, Debug)]
pub struct Call {
    pub unique_id: String,
    pub action: String,
    pub payload: String,
}

/// A decoded reply frame: `[3, "<MessageId>", <Payload>]`.
#[derive(Clone, Debug)]
pub struct CallResult {
    pub unique_id: String,
    pub payload: String,
}

/// A decoded error frame:
/// `[4, "<MessageId>", "<ErrorCode>", "<ErrorDescription>", <ErrorDetails>]`.
#[derive(Clone, Debug)]
pub struct CallError {
    pub unique_id: String,
    pub error_code: String,
    pub error_description: String,
    pub error_details: String,
}

/// The three shapes an OCPP-J frame can take.
#[derive(Clone, Debug)]
pub enum OcppMessage {
    Call(Call),
    CallResult(CallResult),
    CallError(CallError),
}

/// Decoding failure: the text is not a JSON array of balanced element
/// tokens whose first element is 2, 3 or 4 with the matching arity.
#[derive(Clone, Copy, Debug, PartialEq, Eq, Structural)]
pub enum FrameError {
    FrameMalformed,
}

pub struct CallView {
    pub unique_id: Seq<char>,
    pub action: Seq<char>,
    pub payload: Seq<char>,
}

pub struct CallResultView {
    pub unique_id: Seq<char>,
    pub payload: Seq<char>,
}

pub struct CallErrorView {
    pub unique_id: Seq<char>,
    pub error_code: Seq<char>,
    pub error_description: Seq<char>,
    pub error_details: Seq<char>,
}

pub enum MessageView {
    Call(CallView),
    CallResult(CallResultView),
    CallError(CallErrorView),
}

impl View for Call {
    type V = CallView;

    open spec fn view(&self) -> CallView {
        CallView { unique_id: self.unique_id@, action: self.action@, payload: self.payload@ }
    }
}

impl View for CallResult {
    type V = CallResultView;

    open spec fn view(&self) -> CallResultView {
        CallResultView { unique_id: self.unique_id@, payload: self.payload@ }
    }
}

impl View for CallError {
    type V = CallErrorView;

    open spec fn view(&self) -> CallErrorView {
        CallErrorView {
            unique_id: self.unique_id@,
            error_code: self.error_code@,
            error_description: self.error_description@,
            error_details: self.error_details@,
        }
    }
}

impl View for OcppMessage {
    type V = MessageView;

    open spec fn view(&self) -> MessageView {
        match self {
            OcppMessage::Call(c) => MessageView::Call(c@),
            OcppMessage::CallResult(c) => MessageView::CallResult(c@),
            OcppMessage::CallError(c) => MessageView::CallError(c@),
        }
    }
}

/// The token contains no double-quote character, so that surrounding it
/// with quotes yields a well-formed JSON-level string token.
pub open spec fn no_quote(t: Seq<char>) -> bool {
    forall|i: int| 0 <= i < t.len() ==> t[i] != '"'
}

/// The quoting rule of the wire helpers: a token that already carries a
/// quote at both ends is kept as it is, any other token gains exactly one
/// surrounding pair.
pub open spec fn quoted(t: Seq<char>) -> Seq<char> {
    if t.len() >= 1 && t[0] == '"' && t[t.len() - 1] == '"' {
        t
    } else {
        seq!['"'] + t + seq!['"']
    }
}

pub open spec fn wrap_call_spec(m: Seq<char>, a: Seq<char>, p: Seq<char>) -> Seq<char> {
    seq!['[', '2', ',', ' '] + quoted(m) + seq![',', ' '] + quoted(a) + seq![',', ' '] + p
        + seq![']']
}

pub open spec fn wrap_call_result_spec(m: Seq<char>, p: Seq<char>) -> Seq<char> {
    seq!['[', '3', ',', ' '] + quoted(m) + seq![',', ' '] + p + seq![']']
}

pub open spec fn error_code_name(e: ErrorCode) -> Seq<char> {
    match e {
        ErrorCode::FormatViolation => "FormatViolation"@,
        ErrorCode::GenericError => "GenericError"@,
        ErrorCode::InternalError => "InternalError"@,
        ErrorCode::MessageTypeNotSupported => "MessageTypeNotSupported"@,
        ErrorCode::NotImplemented => "NotImplemented"@,
        ErrorCode::NotSupported => "NotSupported"@,
        ErrorCode::OccurrenceConstraintViolation => "OccurrenceConstraintViolation"@,
        ErrorCode::PropertyConstraintViolation => "PropertyConstraintViolation"@,
        ErrorCode::ProtocolError => "ProtocolError"@,
        ErrorCode::RpcFrameworkError => "RpcFrameworkError"@,
        ErrorCode::SecurityError => "SecurityError"@,
        ErrorCode::TypeConstraintViolation => "TypeConstraintViolation"@,
    }
}

pub open spec fn error_code_description(e: ErrorCode) -> Seq<char> {
    match e {
        ErrorCode::FormatViolation => "Payload for Action is syntactically incorrect or not conform the PDU structure for Action"@,
        ErrorCode::GenericError => "Non specific error"@,
        ErrorCode::InternalError => "An internal error occurred and the receiver was not able to process the requested Action successfully"@,
        ErrorCode::MessageTypeNotSupported => "A message with an Message Type Number received that is not supported by this implementation"@,
        ErrorCode::NotImplemented => "Requested Action is not known by receiver"@,
        ErrorCode::NotSupported => "Requested Action is recognized but not supported by the receiver"@,
        ErrorCode::OccurrenceConstraintViolation => "Payload for Action is syntactically correct but at least one of the fields violates occurrence constraints"@,
        ErrorCode::PropertyConstraintViolation => "Payload for Action is syntactically correct but at least one of the fields violates occurrence constraints"@,
        ErrorCode::ProtocolError => "Payload for Action is not conform the PDU structure"@,
        ErrorCode::RpcFrameworkError => "Content of the call is not a valid RPC Request, for example: MessageId could not be read."@,
        ErrorCode::SecurityError => "During the processing of Action a security issue occurred preventing receiver from completing the Action successfully"@,
        ErrorCode::TypeConstraintViolation => "Payload for Action is syntactically correct but at least one of the fields violates data type constraints"@,
    }
}

pub open spec fn wrap_call_error_spec(m: Seq<char>, e: ErrorCode, d: Seq<char>) -> Seq<char> {
    seq!['[', '4', ',', ' '] + quoted(m) + seq![',', ' ', '"'] + error_code_name(e)
        + seq!['"', ',', ' ', '"'] + error_code_description(e) + seq!['"', ',', ' '] + d
        + seq![']']
}

/// Appends `quoted(t@)` to `out`.
pub(crate) fn append_quoted(out: &mut String, t: &String)
    ensures
        final(out)@ == old(out)@ + quoted(t@),
{
    proof {
        reveal_strlit("\"");
    }
    let s = t.as_str();
    let n = s.unicode_len();
    if n >= 1 && s.get_char(0) == '"' && s.get_char(n - 1) == '"' {
        out.append(s);
    } else {
        out.append("\"");
        out.append(s);
        out.append("\"");
        assert(final(out)@ == old(out)@ + (seq!['"'] + t@ + seq!['"']));
    }
}

/// Builds the wire text of a Call frame. Both the MessageId and the
/// Action may be handed in bare or already quoted; the payload is
/// inserted verbatim.
pub fn wrap_call(message_id: &String, action: &String, payload: &String) -> (r: String)
    ensures
        r@ == wrap_call_spec(message_id@, action@, payload@),
{
    proof {
        reveal_strlit("[2, ");
        reveal_strlit(", ");
        reveal_strlit("]");
    }
    let mut r = String::from_str("[2, ");
    assert(r@ =~= seq!['[', '2', ',', ' ']);
    append_quoted(&mut r, message_id);
    r.append(", ");
    append_quoted(&mut r, action);
    r.append(", ");
    r.append(payload.as_str());
    r.append("]");
    proof {
        assert(", "@ =~= seq![',', ' ']);
        assert("]"@ =~= seq![']']);
        assert(r@ =~= wrap_call_spec(message_id@, action@, payload@));
    }
    r
}

/// Builds the wire text of a CallResult frame.
pub fn wrap_call_result(unique_id: &String, payload: String) -> (r: String)
    ensures
        r@ == wrap_call_result_spec(unique_id@, payload@),
{
    proof {
        reveal_strlit("[3, ");
        reveal_strlit(", ");
        reveal_strlit("]");
    }
    let mut r = String::from_str("[3, ");
    assert(r@ =~= seq!['[', '3', ',', ' ']);
    append_quoted(&mut r, unique_id);
    r.append(", ");
    r.append(payload.as_str());
    r.append("]");
    proof {
        assert(", "@ =~= seq![',', ' ']);
        assert("]"@ =~= seq![']']);
        assert(r@ =~= wrap_call_result_spec(unique_id@, payload@));
    }
    r
}

/// Builds the wire text of a CallError frame. The MessageId may be
/// handed in bare or already quoted; the error code selects a fixed
/// wire name and description.
pub fn wrap_call_error_result(msg_id: &String, error_code: ErrorCode, error_details: &String) -> (r:
    String)
    ensures
        r@ == wrap_call_error_spec(msg_id@, error_code, error_details@),
{
    proof {
        reveal_strlit("[4, ");
        reveal_strlit(", \"");
        reveal_strlit("\", \"");
        reveal_strlit("\", ");
        reveal_strlit("]");
    }
    let name: &str = match error_code {
        ErrorCode::FormatViolation => "FormatViolation",
        ErrorCode::GenericError => "GenericError",
        ErrorCode::InternalError => "InternalError",
        ErrorCode::MessageTypeNotSupported => "MessageTypeNotSupported",
        ErrorCode::NotImplemented => "NotImplemented",
        ErrorCode::NotSupported => "NotSupported",
        ErrorCode::OccurrenceConstraintViolation => "OccurrenceConstraintViolation",
        ErrorCode::PropertyConstraintViolation => "PropertyConstraintViolation",
        ErrorCode::ProtocolError => "ProtocolError",
        ErrorCode::RpcFrameworkError => "RpcFrameworkError",
        ErrorCode::SecurityError => "SecurityError",
        ErrorCode::TypeConstraintViolation => "TypeConstraintViolation",
    };
    let desc: &str = match error_code {
        ErrorCode::FormatViolation => "Payload for Action is syntactically incorrect or not conform the PDU structure for Action",
        ErrorCode::GenericError => "Non specific error",
        ErrorCode::InternalError => "An internal error occurred and the receiver was not able to process the requested Action successfully",
        ErrorCode::MessageTypeNotSupported => "A message with an Message Type Number received that is not supported by this implementation",
        ErrorCode::NotImplemented => "Requested Action is not known by receiver",
        ErrorCode::NotSupported => "Requested Action is recognized but not supported by the receiver",
        ErrorCode::OccurrenceConstraintViolation => "Payload for Action is syntactically correct but at least one of the fields violates occurrence constraints",
        ErrorCode::PropertyConstraintViolation => "Payload for Action is syntactically correct but at least one of the fields violates occurrence constraints",
        ErrorCode::ProtocolError => "Payload for Action is not conform the PDU structure",
        ErrorCode::RpcFrameworkError => "Content of the call is not a valid RPC Request, for example: MessageId could not be read.",
        ErrorCode::SecurityError => "During the processing of Action a security issue occurred preventing receiver from completing the Action successfully",
        ErrorCode::TypeConstraintViolation => "Payload for Action is syntactically correct but at least one of the fields violates data type constraints",
    };
    assert(name@ == error_code_name(error_code));
    assert(desc@ == error_code_description(error_code));
    let mut r = String::from_str("[4, ");
    assert(r@ =~= seq!['[', '4', ',', ' ']);
    append_quoted(&mut r, msg_id);
    r.append(", \"");
    r.append(name);
    r.append("\", \"");
    r.append(desc);
    r.append("\", ");
    r.append(error_details.as_str());
    r.append("]");
    proof {
        assert(", \""@ =~= seq![',', ' ', '"']);
        assert("\", \""@ =~= seq!['"', ',', ' ', '"']);
        assert("\", "@ =~= seq!['"', ',', ' ']);
        assert("]"@ =~= seq![']']);
        assert(r@ =~= wrap_call_error_spec(msg_id@, error_code, error_details@));
    }
    r
}

/// First index at or after `i` holding a character that is not JSON
/// whitespace, or `s.len()`.
pub open spec fn ws_end(s: Seq<char>, i: int) -> int
    decreases s.len() - i,
{
    if i < 0 || i >= s.len() {
        s.len() as int
    } else if is_ws_char(s[i]) {
        ws_end(s, i + 1)
    } else {
        i
    }
}

/// One past the last character of `s[i..j)` that is not JSON
/// whitespace, or `i` when the range is all whitespace.
pub open spec fn trim_end(s: Seq<char>, i: int, j: int) -> int
    decreases j - i,
{
    if j <= i {
        i
    } else if is_ws_char(s[j - 1]) {
        trim_end(s, i, j - 1)
    } else {
        j
    }
}

/// The element scanner of the frame decoder: from `i`, the index of
/// the first comma or closing bracket at nesting depth zero, skipping
/// over strings (with escapes) and balanced brackets. `None` when the
/// text ends inside an element or a closing brace has no opener.
pub open spec fn elem_end(s: Seq<char>, i: int, depth: int, in_str: bool, esc: bool) -> Option<int>
    decreases s.len() - i,
{
    if i < 0 || i >= s.len() {
        None
    } else {
        let c = s[i];
        if in_str {
            if esc {
                elem_end(s, i + 1, depth, true, false)
            } else if c == '\\' {
                elem_end(s, i + 1, depth, true, true)
            } else if c == '"' {
                elem_end(s, i + 1, depth, false, false)
            } else {
                elem_end(s, i + 1, depth, true, false)
            }
        } else if c == '"' {
            elem_end(s, i + 1, depth, true, false)
        } else if c == '[' || c == '{' {
            elem_end(s, i + 1, depth + 1, false, false)
        } else if c == ']' && depth == 0 {
            Some(i)
        } else if c == ',' && depth == 0 {
            Some(i)
        } else if c == ']' || c == '}' {
            if depth == 0 {
                None
            } else {
                elem_end(s, i + 1, depth - 1, false, false)
            }
        } else {
            elem_end(s, i + 1, depth, false, false)
        }
    }
}

/// The raw token of the element spanning `s[i..j)`: the slice with its
/// surrounding whitespace removed, or empty when the slice is blank.
pub open spec fn element_token(s: Seq<char>, i: int, j: int) -> Seq<char> {
    let a = ws_end(s, i);
    let b = trim_end(s, i, j);
    if 0 <= i && i <= j <= s.len() && a <= b {
        s.subrange(a, b)
    } else {
        Seq::<char>::empty()
    }
}

pub open spec fn num_char(c: char) -> bool {
    c == '0' || c == '1' || c == '2' || c == '3' || c == '4' || c == '5' || c == '6' || c == '7'
        || c == '8' || c == '9' || c == '-' || c == '+' || c == '.' || c == 'e' || c == 'E'
}

/// The shallow shape check on one element token: a string token ends
/// with its quote, a brace or bracket token with its closing brace or
/// bracket, the three literals are spelled out, and anything else must
/// be built of number characters. The grammar inside braces is not
/// checked here: payloads are not schema-validated at the codec.
pub open spec fn token_ok(t: Seq<char>) -> bool {
    t.len() > 0 && {
        let c = t[0];
        if c == '"' {
            t.len() >= 2 && t[t.len() - 1] == '"'
        } else if c == '{' {
            t[t.len() - 1] == '}'
        } else if c == '[' {
            t[t.len() - 1] == ']'
        } else if c == 't' {
            t == "true"@
        } else if c == 'f' {
            t == "false"@
        } else if c == 'n' {
            t == "null"@
        } else {
            forall|k: int| 0 <= k < t.len() ==> num_char(t[k])
        }
    }
}

/// A raw string token: quoted at both ends, with no quote and no
/// backslash inside.
pub open spec fn string_token(t: Seq<char>) -> bool {
    t.len() >= 2 && t[0] == '"' && t[t.len() - 1] == '"' && (forall|k: int|
        0 < k < t.len() - 1 ==> t[k] != '"' && t[k] != '\\')
}

/// A raw token fit to stand as one frame element: it passes the shape
/// check and the element scanner reads it as exactly one element.
pub open spec fn element_text_ok(p: Seq<char>) -> bool {
    token_ok(p) && elem_end(p.push(']'), 0, 0, false, false) == Some(p.len() as int)
}

pub open spec fn spec_unpack_call(s: Seq<char>, c0: int) -> Option<MessageView> {
    match elem_end(s, c0 + 1, 0, false, false) {
        None => None,
        Some(c1) => if s[c1] != ',' {
            None
        } else {
            match elem_end(s, c1 + 1, 0, false, false) {
                None => None,
                Some(c2) => if s[c2] != ',' {
                    None
                } else {
                    match elem_end(s, c2 + 1, 0, false, false) {
                        None => None,
                        Some(c3) => if s[c3] != ']' {
                            None
                        } else if ws_end(s, c3 + 1) != s.len() {
                            None
                        } else {
                            let tok1 = element_token(s, c0 + 1, c1);
                            let tok2 = element_token(s, c1 + 1, c2);
                            let tok3 = element_token(s, c2 + 1, c3);
                            if token_ok(tok1) && token_ok(tok2) && token_ok(tok3) {
                                Some(
                                    MessageView::Call(
                                        CallView { unique_id: tok1, action: tok2, payload: tok3 },
                                    ),
                                )
                            } else {
                                None
                            }
                        },
                    }
                },
            }
        },
    }
}

pub open spec fn spec_unpack_call_result(s: Seq<char>, c0: int) -> Option<MessageView> {
    match elem_end(s, c0 + 1, 0, false, false) {
        None => None,
        Some(c1) => if s[c1] != ',' {
            None
        } else {
            match elem_end(s, c1 + 1, 0, false, false) {
                None => None,
                Some(c2) => if s[c2] != ']' {
                    None
                } else if ws_end(s, c2 + 1) != s.len() {
                    None
                } else {
                    let tok1 = element_token(s, c0 + 1, c1);
                    let tok2 = element_token(s, c1 + 1, c2);
                    if token_ok(tok1) && token_ok(tok2) {
                        Some(
                            MessageView::CallResult(
                                CallResultView { unique_id: tok1, payload: tok2 },
                            ),
                        )
                    } else {
                        None
                    }
                },
            }
        },
    }
}

pub open spec fn spec_unpack_call_error(s: Seq<char>, c0: int) -> Option<MessageView> {
    match elem_end(s, c0 + 1, 0, false, false) {
        None => None,
        Some(c1) => if s[c1] != ',' {
            None
        } else {
            match elem_end(s, c1 + 1, 0, false, false) {
                None => None,
                Some(c2) => if s[c2] != ',' {
                    None
                } else {
                    match elem_end(s, c2 + 1, 0, false, false) {
                        None => None,
                        Some(c3) => if s[c3] != ',' {
                            None
                        } else {
                            match elem_end(s, c3 + 1, 0, false, false) {
                                None => None,
                                Some(c4) => if s[c4] != ']' {
                                    None
                                } else if ws_end(s, c4 + 1) != s.len() {
                                    None
                                } else {
                                    let tok1 = element_token(s, c0 + 1, c1);
                                    let tok2 = element_token(s, c1 + 1, c2);
                                    let tok3 = element_token(s, c2 + 1, c3);
                                    let tok4 = element_token(s, c3 + 1, c4);
                                    if token_ok(tok1) && token_ok(tok2) && token_ok(tok3)
                                        && token_ok(tok4) {
                                        Some(
                                            MessageView::CallError(
                                                CallErrorView {
                                                    unique_id: tok1,
                                                    error_code: tok2,
                                                    error_description: tok3,
                                                    error_details: tok4,
                                                },
                                            ),
                                        )
                                    } else {
                                        None
                                    }
                                },
                            }
                        },
                    }
                },
            }
        },
    }
}

/// What the decoder accepts: a JSON array (whitespace-tolerant, its
/// elements read as balanced raw tokens) whose first element is 2, 3
/// or 4 and whose arity matches that type. The decoded fields are the
/// raw tokens.
pub open spec fn spec_unpack(s: Seq<char>) -> Option<MessageView> {
    let open = ws_end(s, 0);
    if open >= s.len() || s[open] != '[' {
        None
    } else {
        match elem_end(s, open + 1, 0, false, false) {
            None => None,
            Some(c0) => if s[c0] != ',' {
                None
            } else {
                let tok0 = element_token(s, open + 1, c0);
                if tok0 == seq!['2'] {
                    spec_unpack_call(s, c0)
                } else if tok0 == seq!['3'] {
                    spec_unpack_call_result(s, c0)
                } else if tok0 == seq!['4'] {
                    spec_unpack_call_error(s, c0)
                } else {
                    None
                }
            },
        }
    }
}

fn is_ws(c: char) -> (r: bool)
    ensures
        r == is_ws_char(c),
{
    c == ' ' || c == '\t' || c == '\n' || c == '\r'
}

fn is_num_char(c: char) -> (r: bool)
    ensures
        r == num_char(c),
{
    c == '0' || c == '1' || c == '2' || c == '3' || c == '4' || c == '5' || c == '6' || c == '7'
        || c == '8' || c == '9' || c == '-' || c == '+' || c == '.' || c == 'e' || c == 'E'
}

#[verifier::loop_isolation(false)]
fn skip_ws(s: &str, i: usize, n: usize) -> (r: usize)
    requires
        s@.len() == n,
        i <= n,
    ensures
        r == ws_end(s@, i as int),
        i <= r <= n,
{
    let mut cur: usize = i;
    while cur < n
        invariant
            i <= cur <= n,
            ws_end(s@, i as int) == ws_end(s@, cur as int),
        decreases n - cur,
    {
        if !is_ws(s.get_char(cur)) {
            return cur;
        }
        cur += 1;
    }
    cur
}

#[verifier::loop_isolation(false)]
fn trim_to(s: &str, i: usize, j: usize, n: usize) -> (r: usize)
    requires
        s@.len() == n,
        i <= j <= n,
    ensures
        r == trim_end(s@, i as int, j as int),
        i <= r <= j,
{
    let mut cur: usize = j;
    while cur > i
        invariant
            i <= cur <= j,
            trim_end(s@, i as int, j as int) == trim_end(s@, i as int, cur as int),
        decreases cur,
    {
        if !is_ws(s.get_char(cur - 1)) {
            return cur;
        }
        cur -= 1;
    }
    cur
}

/// Runs the element scanner from `start` at depth zero.
#[verifier::loop_isolation(false)]
fn scan_elem(s: &str, start: usize, n: usize) -> (r: Option<usize>)
    requires
        s@.len() == n,
        start <= n,
    ensures
        match r {
            Some(c) => start <= c < n && elem_end(s@, start as int, 0, false, false) == Some(
                c as int,
            ),
            None => elem_end(s@, start as int, 0, false, false) is None,
        },
{
    let mut i: usize = start;
    let mut depth: usize = 0;
    let mut in_str = false;
    let mut esc = false;
    while i < n
        invariant
            start <= i <= n,
            depth <= i,
            !in_str ==> !esc,
            elem_end(s@, start as int, 0, false, false) == elem_end(
                s@,
                i as int,
                depth as int,
                in_str,
                esc,
            ),
        decreases n - i,
    {
        let ghost pre_i = i as int;
        let ghost pre_depth = depth as int;
        let ghost pre_str = in_str;
        let ghost pre_esc = esc;
        let c = s.get_char(i);
        if in_str {
            if esc {
                esc = false;
            } else if c == '\\' {
                esc = true;
            } else if c == '"' {
                in_str = false;
            }
        } else if c == '"' {
            in_str = true;
        } else if c == '[' || c == '{' {
            depth += 1;
        } else if c == ']' && depth == 0 {
            proof {
                assert(elem_end(s@, pre_i, pre_depth, pre_str, pre_esc) == Some(pre_i));
            }
            return Some(i);
        } else if c == ',' && depth == 0 {
            proof {
                assert(elem_end(s@, pre_i, pre_depth, pre_str, pre_esc) == Some(pre_i));
            }
            return Some(i);
        } else if c == ']' || c == '}' {
            if depth == 0 {
                proof {
                    assert(elem_end(s@, pre_i, pre_depth, pre_str, pre_esc) is None);
                }
                return None;
            }
            depth -= 1;
        }
        i += 1;
        proof {
            reveal_with_fuel(elem_end, 2);
            assert(elem_end(s@, pre_i, pre_depth, pre_str, pre_esc) == elem_end(
                s@,
                i as int,
                depth as int,
                in_str,
                esc,
            ));
        }
    }
    proof {
        assert(elem_end(s@, i as int, depth as int, in_str, esc) is None);
    }
    None
}

/// The raw token of the element spanning `s[i..j)`, or `None` when the
/// slice is blank.
fn element_slice<'a>(s: &'a str, i: usize, j: usize, n: usize) -> (r: Option<&'a str>)
    requires
        s@.len() == n,
        i <= j <= n,
    ensures
        match r {
            Some(tok) => tok@ == element_token(s@, i as int, j as int),
            None => element_token(s@, i as int, j as int) == Seq::<char>::empty(),
        },
{
    let a = skip_ws(s, i, n);
    let b = trim_to(s, i, j, n);
    if a <= b {
        Some(s.substring_char(a, b))
    } else {
        None
    }
}

/// The shape check of `token_ok`.
#[verifier::loop_isolation(false)]
fn check_token(t: &str) -> (r: bool)
    ensures
        r == token_ok(t@),
{
    let n = t.unicode_len();
    if n == 0 {
        return false;
    }
    let c = t.get_char(0);
    if c == '"' {
        n >= 2 && t.get_char(n - 1) == '"'
    } else if c == '{' {
        t.get_char(n - 1) == '}'
    } else if c == '[' {
        t.get_char(n - 1) == ']'
    } else if c == 't' {
        crate::strutil::str_eq(t, "true")
    } else if c == 'f' {
        crate::strutil::str_eq(t, "false")
    } else if c == 'n' {
        crate::strutil::str_eq(t, "null")
    } else {
        let mut k: usize = 0;
        while k < n
            invariant
                0 <= k <= n,
                forall|m: int| 0 <= m < k ==> num_char(t@[m]),
            decreases n - k,
        {
            if !is_num_char(t.get_char(k)) {
                return false;
            }
            k += 1;
        }
        true
    }
}

/// Decodes a textual frame into its discriminated shape, keeping the
/// raw token of every element. Decoding fails when the text is not a
/// JSON array of balanced tokens, its first element is not 2, 3 or 4,
/// or the arity does not match the type.
pub fn unpack_ocpp_message(msg: &String) -> (r: Result<OcppMessage, FrameError>)
    ensures
        match r {
            Ok(m) => spec_unpack(msg@) == Some(m@),
            Err(_) => spec_unpack(msg@) is None,
        },
{
    let s = msg.as_str();
    let n = s.unicode_len();
    let open = skip_ws(s, 0, n);
    if open >= n || s.get_char(open) != '[' {
        return Err(FrameError::FrameMalformed);
    }
    let c0 = match scan_elem(s, open + 1, n) {
        Some(c) => c,
        None => {
            return Err(FrameError::FrameMalformed);
        },
    };
    if s.get_char(c0) != ',' {
        return Err(FrameError::FrameMalformed);
    }
    let type_id = match element_slice(s, open + 1, c0, n) {
        Some(tok) => tok,
        None => {
            proof {
                assert(Seq::<char>::empty().len() == 0);
                assert(seq!['2'].len() == 1 && seq!['3'].len() == 1 && seq!['4'].len() == 1);
            }
            return Err(FrameError::FrameMalformed);
        },
    };
    let is2 = crate::strutil::str_eq(type_id, "2");
    let is3 = crate::strutil::str_eq(type_id, "3");
    let is4 = crate::strutil::str_eq(type_id, "4");
    proof {
        reveal_strlit("2");
        reveal_strlit("3");
        reveal_strlit("4");
        assert("2"@ =~= seq!['2']);
        assert("3"@ =~= seq!['3']);
        assert("4"@ =~= seq!['4']);
        assert(seq!['2'] != seq!['3'] && seq!['2'] != seq!['4'] && seq!['3'] != seq!['4']) by {
            assert(seq!['2'][0] == '2' && seq!['3'][0] == '3' && seq!['4'][0] == '4');
        }
    }
    if !is2 && !is3 && !is4 {
        return Err(FrameError::FrameMalformed);
    }
    let c1 = match scan_elem(s, c0 + 1, n) {
        Some(c) => c,
        None => {
            return Err(FrameError::FrameMalformed);
        },
    };
    let tok1 = match element_slice(s, c0 + 1, c1, n) {
        Some(tok) => tok,
        None => {
            return Err(FrameError::FrameMalformed);
        },
    };
    if !check_token(tok1) {
        return Err(FrameError::FrameMalformed);
    }
    if s.get_char(c1) != ',' {
        return Err(FrameError::FrameMalformed);
    }
    let c2 = match scan_elem(s, c1 + 1, n) {
        Some(c) => c,
        None => {
            return Err(FrameError::FrameMalformed);
        },
    };
    let tok2 = match element_slice(s, c1 + 1, c2, n) {
        Some(tok) => tok,
        None => {
            return Err(FrameError::FrameMalformed);
        },
    };
    if !check_token(tok2) {
        return Err(FrameError::FrameMalformed);
    }
    if is3 {
        if s.get_char(c2) != ']' {
            return Err(FrameError::FrameMalformed);
        }
        if skip_ws(s, c2 + 1, n) != n {
            return Err(FrameError::FrameMalformed);
        }
        return Ok(
            OcppMessage::CallResult(
                CallResult {
                    unique_id: String::from_str(tok1),
                    payload: String::from_str(tok2),
                },
            ),
        );
    }
    if s.get_char(c2) != ',' {
        return Err(FrameError::FrameMalformed);
    }
    let c3 = match scan_elem(s, c2 + 1, n) {
        Some(c) => c,
        None => {
            return Err(FrameError::FrameMalformed);
        },
    };
    let tok3 = match element_slice(s, c2 + 1, c3, n) {
        Some(tok) => tok,
        None => {
            return Err(FrameError::FrameMalformed);
        },
    };
    if !check_token(tok3) {
        return Err(FrameError::FrameMalformed);
    }
    if is2 {
        if s.get_char(c3) != ']' {
            return Err(FrameError::FrameMalformed);
        }
        if skip_ws(s, c3 + 1, n) != n {
            return Err(FrameError::FrameMalformed);
        }
        return Ok(
            OcppMessage::Call(
                Call {
                    unique_id: String::from_str(tok1),
                    action: String::from_str(tok2),
                    payload: String::from_str(tok3),
                },
            ),
        );
    }
    if s.get_char(c3) != ',' {
        return Err(FrameError::FrameMalformed);
    }
    let c4 = match scan_elem(s, c3 + 1, n) {
        Some(c) => c,
        None => {
            return Err(FrameError::FrameMalformed);
        },
    };
    let tok4 = match element_slice(s, c3 + 1, c4, n) {
        Some(tok) => tok,
        None => {
            return Err(FrameError::FrameMalformed);
        },
    };
    if !check_token(tok4) {
        return Err(FrameError::FrameMalformed);
    }
    if s.get_char(c4) != ']' {
        return Err(FrameError::FrameMalformed);
    }
    if skip_ws(s, c4 + 1, n) != n {
        return Err(FrameError::FrameMalformed);
    }
    Ok(
        OcppMessage::CallError(
            CallError {
                unique_id: String::from_str(tok1),
                error_code: String::from_str(tok2),
                error_description: String::from_str(tok3),
                error_details: String::from_str(tok4),
            },
        ),
    )
}

/// Canonical wire text of a Call frame built from raw tokens.
pub open spec fn encode_call(id: Seq<char>, action: Seq<char>, payload: Seq<char>) -> Seq<char> {
    seq!['[', '2', ',', ' '] + id + seq![',', ' '] + action + seq![',', ' '] + payload + seq![']']
}

/// Canonical wire text of a CallResult frame built from raw tokens.
pub open spec fn encode_call_result(id: Seq<char>, payload: Seq<char>) -> Seq<char> {
    seq!['[', '3', ',', ' '] + id + seq![',', ' '] + payload + seq![']']
}

/// Canonical wire text of a CallError frame built from raw tokens.
pub open spec fn encode_call_error(
    id: Seq<char>,
    code: Seq<char>,
    desc: Seq<char>,
    details: Seq<char>,
) -> Seq<char> {
    seq!['[', '4', ',', ' '] + id + seq![',', ' '] + code + seq![',', ' '] + desc + seq![',', ' ']
        + details + seq![']']
}

/// Canonical wire text of any frame.
pub open spec fn encode_message(m: MessageView) -> Seq<char> {
    match m {
        MessageView::Call(c) => encode_call(c.unique_id, c.action, c.payload),
        MessageView::CallResult(c) => encode_call_result(c.unique_id, c.payload),
        MessageView::CallError(c) => encode_call_error(
            c.unique_id,
            c.error_code,
            c.error_description,
            c.error_details,
        ),
    }
}

/// A frame is well formed when the elements the wire format types as
/// strings are raw string tokens, and the payload or details element
/// is a balanced raw token.
pub open spec fn wf_message(m: MessageView) -> bool {
    match m {
        MessageView::Call(c) => string_token(c.unique_id) && string_token(c.action)
            && element_text_ok(c.payload),
        MessageView::CallResult(c) => string_token(c.unique_id) && element_text_ok(c.payload),
        MessageView::CallError(c) => string_token(c.unique_id) && string_token(c.error_code)
            && string_token(c.error_description) && element_text_ok(c.error_details),
    }
}

/// For a quote-free token the quoting rule always adds exactly one pair.
pub proof fn lemma_quoted_bare(t: Seq<char>)
    requires
        no_quote(t),
    ensures
        quoted(t) == seq!['"'] + t + seq!['"'],
{
    if t.len() >= 1 {
        assert(t[0] != '"');
    }
}

/// The quoting rule is idempotent: a token handed in already quoted
/// yields the same result as the bare token.
pub proof fn lemma_quoted_idempotent(t: Seq<char>)
    requires
        no_quote(t),
    ensures
        quoted(seq!['"'] + t + seq!['"']) == quoted(t),
{
    let q = seq!['"'] + t + seq!['"'];
    assert(q[0] == '"');
    assert(q[q.len() - 1] == '"');
    lemma_quoted_bare(t);
}

/// `wrap_call` emits the same wire text whether the MessageId and the
/// Action are handed in bare or already quoted.
pub proof fn lemma_wrap_call_quoting_idempotent(m: Seq<char>, a: Seq<char>, p: Seq<char>)
    requires
        no_quote(m),
        no_quote(a),
    ensures
        wrap_call_spec(seq!['"'] + m + seq!['"'], seq!['"'] + a + seq!['"'], p) == wrap_call_spec(
            m,
            a,
            p,
        ),
{
    lemma_quoted_idempotent(m);
    lemma_quoted_idempotent(a);
}

/// `wrap_call_result` emits the same wire text whether the MessageId is
/// handed in bare or already quoted.
pub proof fn lemma_wrap_call_result_quoting_idempotent(m: Seq<char>, p: Seq<char>)
    requires
        no_quote(m),
    ensures
        wrap_call_result_spec(seq!['"'] + m + seq!['"'], p) == wrap_call_result_spec(m, p),
{
    lemma_quoted_idempotent(m);
}

/// `wrap_call_error_result` emits the same wire text whether the
/// MessageId is handed in bare or already quoted.
pub proof fn lemma_wrap_call_error_quoting_idempotent(m: Seq<char>, e: ErrorCode, d: Seq<char>)
    requires
        no_quote(m),
    ensures
        wrap_call_error_spec(seq!['"'] + m + seq!['"'], e, d) == wrap_call_error_spec(m, e, d),
{
    lemma_quoted_idempotent(m);
}

/// On bare quote-free tokens the wire helpers produce exactly the
/// canonical encoding of the frame whose raw tokens carry the quotes.
pub proof fn lemma_wrap_call_encodes(m: Seq<char>, a: Seq<char>, p: Seq<char>)
    requires
        no_quote(m),
        no_quote(a),
    ensures
        wrap_call_spec(m, a, p) == encode_call(
            seq!['"'] + m + seq!['"'],
            seq!['"'] + a + seq!['"'],
            p,
        ),
{
    lemma_quoted_bare(m);
    lemma_quoted_bare(a);
    assert(wrap_call_spec(m, a, p) =~= encode_call(
        seq!['"'] + m + seq!['"'],
        seq!['"'] + a + seq!['"'],
        p,
    ));
}

pub proof fn lemma_wrap_call_result_encodes(m: Seq<char>, p: Seq<char>)
    requires
        no_quote(m),
    ensures
        wrap_call_result_spec(m, p) == encode_call_result(seq!['"'] + m + seq!['"'], p),
{
    lemma_quoted_bare(m);
    assert(wrap_call_result_spec(m, p) =~= encode_call_result(seq!['"'] + m + seq!['"'], p));
}

pub proof fn lemma_wrap_call_error_encodes(m: Seq<char>, e: ErrorCode, d: Seq<char>)
    requires
        no_quote(m),
    ensures
        wrap_call_error_spec(m, e, d) == encode_call_error(
            seq!['"'] + m + seq!['"'],
            seq!['"'] + error_code_name(e) + seq!['"'],
            seq!['"'] + error_code_description(e) + seq!['"'],
            d,
        ),
{
    lemma_quoted_bare(m);
    assert(wrap_call_error_spec(m, e, d) =~= encode_call_error(
        seq!['"'] + m + seq!['"'],
        seq!['"'] + error_code_name(e) + seq!['"'],
        seq!['"'] + error_code_description(e) + seq!['"'],
        d,
    ));
}

proof fn lemma_elem_end_string_run(s: Seq<char>, i: int, j: int, depth: int)
    requires
        0 <= i <= j <= s.len(),
        forall|k: int| i <= k < j ==> s[k] != '"' && s[k] != '\\',
    ensures
        elem_end(s, i, depth, true, false) == elem_end(s, j, depth, true, false),
    decreases j - i,
{
    if i < j {
        lemma_elem_end_string_run(s, i + 1, j, depth);
    }
}

proof fn lemma_elem_end_congruent(
    s1: Seq<char>,
    i1: int,
    s2: Seq<char>,
    i2: int,
    depth: int,
    in_str: bool,
    esc: bool,
)
    requires
        0 <= i1 <= s1.len(),
        0 <= i2 <= s2.len(),
        s1.len() - i1 == s2.len() - i2,
        forall|k: int| 0 <= k < s1.len() - i1 ==> #[trigger] s1[i1 + k] == s2[i2 + k],
    ensures
        match elem_end(s1, i1, depth, in_str, esc) {
            Some(x) => elem_end(s2, i2, depth, in_str, esc) == Some(x - i1 + i2),
            None => elem_end(s2, i2, depth, in_str, esc) is None,
        },
    decreases s1.len() - i1,
{
    if i1 < s1.len() {
        assert(s1[i1] == s2[i2]) by {
            assert(s1[i1 + 0] == s2[i2 + 0]);
        }
        assert forall|k: int| 0 <= k < s1.len() - (i1 + 1) implies #[trigger] s1[i1 + 1 + k]
            == s2[i2 + 1 + k] by {
            assert(s1[i1 + (k + 1)] == s2[i2 + (k + 1)]);
        }
        let c = s1[i1];
        if in_str {
            if esc {
                lemma_elem_end_congruent(s1, i1 + 1, s2, i2 + 1, depth, true, false);
            } else if c == '\\' {
                lemma_elem_end_congruent(s1, i1 + 1, s2, i2 + 1, depth, true, true);
            } else if c == '"' {
                lemma_elem_end_congruent(s1, i1 + 1, s2, i2 + 1, depth, false, false);
            } else {
                lemma_elem_end_congruent(s1, i1 + 1, s2, i2 + 1, depth, true, false);
            }
        } else if c == '"' {
            lemma_elem_end_congruent(s1, i1 + 1, s2, i2 + 1, depth, true, false);
        } else if c == '[' || c == '{' {
            lemma_elem_end_congruent(s1, i1 + 1, s2, i2 + 1, depth + 1, false, false);
        } else if c == ']' && depth == 0 {
        } else if c == ',' && depth == 0 {
        } else if c == ']' || c == '}' {
            if depth != 0 {
                lemma_elem_end_congruent(s1, i1 + 1, s2, i2 + 1, depth - 1, false, false);
            }
        } else {
            lemma_elem_end_congruent(s1, i1 + 1, s2, i2 + 1, depth, false, false);
        }
    }
}

proof fn lemma_token_ok_edges(t: Seq<char>)
    requires
        token_ok(t),
    ensures
        !is_ws_char(t[0]),
        !is_ws_char(t[t.len() - 1]),
{
    let c = t[0];
    if c == '"' || c == '{' || c == '[' {
    } else if c == 't' {
        reveal_strlit("true");
        assert(t[t.len() - 1] == 'e');
    } else if c == 'f' {
        reveal_strlit("false");
        assert(t[t.len() - 1] == 'e');
    } else if c == 'n' {
        reveal_strlit("null");
        assert(t[t.len() - 1] == 'l');
    } else {
        assert(num_char(t[0]));
        assert(num_char(t[t.len() - 1]));
    }
}

/// Scanning a string token inside a frame stops right after it.
proof fn lemma_scan_string_token(s: Seq<char>, i: int, t: Seq<char>)
    requires
        string_token(t),
        0 <= i,
        i + t.len() < s.len(),
        forall|k: int| 0 <= k < t.len() ==> s[i + k] == t[k],
        s[i + t.len()] == ',' || s[i + t.len()] == ']',
    ensures
        elem_end(s, i, 0, false, false) == Some(i + t.len()),
{
    assert(s[i] == t[0]) by {
        assert(s[i + 0] == t[0]);
    }
    assert(s[i] == '"');
    assert(elem_end(s, i, 0, false, false) == elem_end(s, i + 1, 0, true, false));
    assert(forall|k: int| i + 1 <= k < i + t.len() - 1 ==> s[k] != '"' && s[k] != '\\') by {
        assert(forall|k: int|
            i + 1 <= k < i + t.len() - 1 ==> s[k] == t[k - i] && 0 < k - i < t.len() - 1);
    }
    lemma_elem_end_string_run(s, i + 1, i + t.len() - 1, 0);
    assert(s[i + t.len() - 1] == t[t.len() - 1]) by {
        assert(s[i + (t.len() - 1)] == t[t.len() - 1]);
    }
    assert(s[i + t.len() - 1] == '"');
    assert(elem_end(s, i + t.len() - 1, 0, true, false) == elem_end(
        s,
        i + t.len(),
        0,
        false,
        false,
    ));
}

proof fn lemma_unpack_encode_call(id: Seq<char>, action: Seq<char>, payload: Seq<char>)
    requires
        string_token(id),
        string_token(action),
        element_text_ok(payload),
    ensures
        spec_unpack(encode_call(id, action, payload)) == Some(
            MessageView::Call(CallView { unique_id: id, action, payload }),
        ),
{
    let s = encode_call(id, action, payload);
    let n = s.len() as int;
    assert(n == 9 + id.len() + action.len() + payload.len());
    assert(s[0] == '[');
    assert(ws_end(s, 0) == 0);
    assert(s[1] == '2');
    assert(s[2] == ',');
    assert(elem_end(s, 1, 0, false, false) == elem_end(s, 2, 0, false, false));
    assert(elem_end(s, 2, 0, false, false) == Some(2int));
    assert(element_token(s, 1, 2) =~= seq!['2']) by {
        assert(ws_end(s, 1) == 1);
        assert(trim_end(s, 1, 2) == 2);
    }
    // element 1: the MessageId token after ", "
    let i1 = 4 + id.len() as int;
    assert(s[3] == ' ');
    assert(elem_end(s, 3, 0, false, false) == elem_end(s, 4, 0, false, false));
    assert(forall|k: int| 0 <= k < id.len() ==> s[4 + k] == id[k]);
    assert(s[i1] == ',');
    lemma_scan_string_token(s, 4, id);
    assert(elem_end(s, 3, 0, false, false) == Some(i1));
    lemma_token_ok_edges(id);
    assert(element_token(s, 3, i1) =~= id) by {
        assert(s[4] == id[0] && !is_ws_char(id[0]));
        assert(ws_end(s, 3) == ws_end(s, 4));
        assert(ws_end(s, 4) == 4);
        assert(s[i1 - 1] == id[id.len() - 1] && !is_ws_char(id[id.len() - 1]));
        assert(trim_end(s, 3, i1) == i1);
    }
    // element 2: the Action token
    let a0 = i1 + 2;
    let i2 = a0 + action.len() as int;
    assert(s[i1 + 1] == ' ');
    assert(elem_end(s, i1 + 1, 0, false, false) == elem_end(s, a0, 0, false, false));
    assert(forall|k: int| 0 <= k < action.len() ==> s[a0 + k] == action[k]);
    assert(s[i2] == ',');
    lemma_scan_string_token(s, a0, action);
    assert(elem_end(s, i1 + 1, 0, false, false) == Some(i2));
    lemma_token_ok_edges(action);
    assert(element_token(s, i1 + 1, i2) =~= action) by {
        assert(s[a0] == action[0] && !is_ws_char(action[0]));
        assert(ws_end(s, i1 + 1) == ws_end(s, a0));
        assert(ws_end(s, a0) == a0);
        assert(s[i2 - 1] == action[action.len() - 1]);
        assert(trim_end(s, i1 + 1, i2) == i2);
    }
    // element 3: the payload, running to the closing bracket
    let p0 = i2 + 2;
    let i3 = p0 + payload.len() as int;
    assert(s[i2 + 1] == ' ');
    assert(elem_end(s, i2 + 1, 0, false, false) == elem_end(s, p0, 0, false, false));
    let pb = payload.push(']');
    assert(forall|k: int| 0 <= k < pb.len() ==> pb[k] == s[p0 + k]) by {
        assert(forall|k: int| 0 <= k < payload.len() ==> s[p0 + k] == payload[k]);
        assert(s[i3] == ']');
        assert(pb[pb.len() - 1] == ']');
    }
    lemma_elem_end_congruent(pb, 0, s, p0, 0, false, false);
    assert(elem_end(s, p0, 0, false, false) == Some(i3));
    assert(s[i3] == ']');
    lemma_token_ok_edges(payload);
    assert(element_token(s, i2 + 1, i3) =~= payload) by {
        assert(s[p0] == payload[0] && !is_ws_char(payload[0]));
        assert(ws_end(s, i2 + 1) == ws_end(s, p0));
        assert(ws_end(s, p0) == p0);
        assert(s[i3 - 1] == payload[payload.len() - 1]);
        assert(trim_end(s, i2 + 1, i3) == i3);
    }
    assert(ws_end(s, i3 + 1) == n);
    assert(token_ok(id)) by {
        assert(id[0] == '"');
    }
    assert(token_ok(action)) by {
        assert(action[0] == '"');
    }
}

proof fn lemma_unpack_encode_call_result(id: Seq<char>, payload: Seq<char>)
    requires
        string_token(id),
        element_text_ok(payload),
    ensures
        spec_unpack(encode_call_result(id, payload)) == Some(
            MessageView::CallResult(CallResultView { unique_id: id, payload }),
        ),
{
    let s = encode_call_result(id, payload);
    let n = s.len() as int;
    assert(n == 7 + id.len() + payload.len());
    assert(s[0] == '[');
    assert(ws_end(s, 0) == 0);
    assert(s[1] == '3');
    assert(s[2] == ',');
    assert(elem_end(s, 1, 0, false, false) == elem_end(s, 2, 0, false, false));
    assert(elem_end(s, 2, 0, false, false) == Some(2int));
    assert(element_token(s, 1, 2) =~= seq!['3']) by {
        assert(ws_end(s, 1) == 1);
        assert(trim_end(s, 1, 2) == 2);
    }
    let i1 = 4 + id.len() as int;
    assert(s[3] == ' ');
    assert(elem_end(s, 3, 0, false, false) == elem_end(s, 4, 0, false, false));
    assert(forall|k: int| 0 <= k < id.len() ==> s[4 + k] == id[k]);
    assert(s[i1] == ',');
    lemma_scan_string_token(s, 4, id);
    lemma_token_ok_edges(id);
    assert(element_token(s, 3, i1) =~= id) by {
        assert(s[4] == id[0] && !is_ws_char(id[0]));
        assert(ws_end(s, 3) == ws_end(s, 4));
        assert(ws_end(s, 4) == 4);
        assert(s[i1 - 1] == id[id.len() - 1]);
        assert(trim_end(s, 3, i1) == i1);
    }
    let p0 = i1 + 2;
    let i2 = p0 + payload.len() as int;
    assert(s[i1 + 1] == ' ');
    assert(elem_end(s, i1 + 1, 0, false, false) == elem_end(s, p0, 0, false, false));
    let pb = payload.push(']');
    assert(forall|k: int| 0 <= k < pb.len() ==> pb[k] == s[p0 + k]) by {
        assert(forall|k: int| 0 <= k < payload.len() ==> s[p0 + k] == payload[k]);
        assert(s[i2] == ']');
        assert(pb[pb.len() - 1] == ']');
    }
    lemma_elem_end_congruent(pb, 0, s, p0, 0, false, false);
    assert(elem_end(s, p0, 0, false, false) == Some(i2));
    assert(s[i2] == ']');
    lemma_token_ok_edges(payload);
    assert(element_token(s, i1 + 1, i2) =~= payload) by {
        assert(s[p0] == payload[0] && !is_ws_char(payload[0]));
        assert(ws_end(s, i1 + 1) == ws_end(s, p0));
        assert(ws_end(s, p0) == p0);
        assert(s[i2 - 1] == payload[payload.len() - 1]);
        assert(trim_end(s, i1 + 1, i2) == i2);
    }
    assert(ws_end(s, i2 + 1) == n);
    assert(token_ok(id)) by {
        assert(id[0] == '"');
    }
    assert(seq!['3'] != seq!['2']) by {
        assert(seq!['3'][0] == '3' && seq!['2'][0] == '2');
    }
    assert(spec_unpack(s) == Some(
        MessageView::CallResult(CallResultView { unique_id: id, payload }),
    ));
}

#[verifier::rlimit(100)]
proof fn lemma_unpack_encode_call_error(
    id: Seq<char>,
    code: Seq<char>,
    desc: Seq<char>,
    details: Seq<char>,
)
    requires
        string_token(id),
        string_token(code),
        string_token(desc),
        element_text_ok(details),
    ensures
        spec_unpack(encode_call_error(id, code, desc, details)) == Some(
            MessageView::CallError(
                CallErrorView {
                    unique_id: id,
                    error_code: code,
                    error_description: desc,
                    error_details: details,
                },
            ),
        ),
{
    let s = encode_call_error(id, code, desc, details);
    let n = s.len() as int;
    assert(n == 11 + id.len() + code.len() + desc.len() + details.len());
    assert(s[0] == '[');
    assert(ws_end(s, 0) == 0);
    assert(s[1] == '4');
    assert(s[2] == ',');
    assert(elem_end(s, 1, 0, false, false) == elem_end(s, 2, 0, false, false));
    assert(elem_end(s, 2, 0, false, false) == Some(2int));
    assert(element_token(s, 1, 2) =~= seq!['4']) by {
        assert(ws_end(s, 1) == 1);
        assert(trim_end(s, 1, 2) == 2);
    }
    let i1 = 4 + id.len() as int;
    assert(s[3] == ' ');
    assert(elem_end(s, 3, 0, false, false) == elem_end(s, 4, 0, false, false));
    assert(forall|k: int| 0 <= k < id.len() ==> s[4 + k] == id[k]);
    assert(s[i1] == ',');
    lemma_scan_string_token(s, 4, id);
    lemma_token_ok_edges(id);
    assert(element_token(s, 3, i1) =~= id) by {
        assert(s[4] == id[0] && !is_ws_char(id[0]));
        assert(ws_end(s, 3) == ws_end(s, 4));
        assert(ws_end(s, 4) == 4);
        assert(s[i1 - 1] == id[id.len() - 1]);
        assert(trim_end(s, 3, i1) == i1);
    }
    let b0 = i1 + 2;
    let i2 = b0 + code.len() as int;
    assert(s[i1 + 1] == ' ');
    assert(elem_end(s, i1 + 1, 0, false, false) == elem_end(s, b0, 0, false, false));
    assert(forall|k: int| 0 <= k < code.len() ==> s[b0 + k] == code[k]);
    assert(s[i2] == ',');
    lemma_scan_string_token(s, b0, code);
    lemma_token_ok_edges(code);
    assert(element_token(s, i1 + 1, i2) =~= code) by {
        assert(s[b0] == code[0] && !is_ws_char(code[0]));
        assert(ws_end(s, i1 + 1) == ws_end(s, b0));
        assert(ws_end(s, b0) == b0);
        assert(s[i2 - 1] == code[code.len() - 1]);
        assert(trim_end(s, i1 + 1, i2) == i2);
    }
    let d0 = i2 + 2;
    let i3 = d0 + desc.len() as int;
    assert(s[i2 + 1] == ' ');
    assert(elem_end(s, i2 + 1, 0, false, false) == elem_end(s, d0, 0, false, false));
    assert(forall|k: int| 0 <= k < desc.len() ==> s[d0 + k] == desc[k]);
    assert(s[i3] == ',');
    lemma_scan_string_token(s, d0, desc);
    lemma_token_ok_edges(desc);
    assert(element_token(s, i2 + 1, i3) =~= desc) by {
        assert(s[d0] == desc[0] && !is_ws_char(desc[0]));
        assert(ws_end(s, i2 + 1) == ws_end(s, d0));
        assert(ws_end(s, d0) == d0);
        assert(s[i3 - 1] == desc[desc.len() - 1]);
        assert(trim_end(s, i2 + 1, i3) == i3);
    }
    let e0 = i3 + 2;
    let i4 = e0 + details.len() as int;
    assert(s[i3 + 1] == ' ');
    assert(elem_end(s, i3 + 1, 0, false, false) == elem_end(s, e0, 0, false, false));
    let db = details.push(']');
    assert(forall|k: int| 0 <= k < db.len() ==> db[k] == s[e0 + k]) by {
        assert(forall|k: int| 0 <= k < details.len() ==> s[e0 + k] == details[k]);
        assert(s[i4] == ']');
        assert(db[db.len() - 1] == ']');
    }
    lemma_elem_end_congruent(db, 0, s, e0, 0, false, false);
    assert(elem_end(s, e0, 0, false, false) == Some(i4));
    assert(s[i4] == ']');
    lemma_token_ok_edges(details);
    assert(element_token(s, i3 + 1, i4) =~= details) by {
        assert(s[e0] == details[0] && !is_ws_char(details[0]));
        assert(ws_end(s, i3 + 1) == ws_end(s, e0));
        assert(ws_end(s, e0) == e0);
        assert(s[i4 - 1] == details[details.len() - 1]);
        assert(trim_end(s, i3 + 1, i4) == i4);
    }
    assert(ws_end(s, i4 + 1) == n);
    assert(token_ok(id)) by {
        assert(id[0] == '"');
    }
    assert(token_ok(code)) by {
        assert(code[0] == '"');
    }
    assert(token_ok(desc)) by {
        assert(desc[0] == '"');
    }
    assert(seq!['4'] != seq!['2']) by {
        assert(seq!['4'][0] == '4' && seq!['2'][0] == '2');
    }
    assert(seq!['4'] != seq!['3']) by {
        assert(seq!['4'][0] == '4' && seq!['3'][0] == '3');
    }
    assert(spec_unpack(s) == Some(
        MessageView::CallError(
            CallErrorView {
                unique_id: id,
                error_code: code,
                error_description: desc,
                error_details: details,
            },
        ),
    ));
}

/// Round trip of the codec: decoding the canonical encoding of any
/// well-formed frame gives back exactly that frame, raw tokens and all.
pub proof fn lemma_unpack_encode(m: MessageView)
    requires
        wf_message(m),
    ensures
        spec_unpack(encode_message(m)) == Some(m),
{
    match m {
        MessageView::Call(c) => {
            lemma_unpack_encode_call(c.unique_id, c.action, c.payload);
        }
        MessageView::CallResult(c) => {
            lemma_unpack_encode_call_result(c.unique_id, c.payload);
        }
        MessageView::CallError(c) => {
            lemma_unpack_encode_call_error(
                c.unique_id,
                c.error_code,
                c.error_description,
                c.error_details,
            );
        }
    }
}

/// A quote-free, backslash-free text: surrounded with quotes it is a
/// raw string token.
pub open spec fn plain_text(t: Seq<char>) -> bool {
    forall|k: int| 0 <= k < t.len() ==> t[k] != '"' && t[k] != '\\'
}

pub proof fn lemma_plain_string_token(t: Seq<char>)
    requires
        plain_text(t),
    ensures
        string_token(seq!['"'] + t + seq!['"']),
{
    let q = seq!['"'] + t + seq!['"'];
    assert(q[0] == '"');
    assert(q[q.len() - 1] == '"');
    assert forall|k: int| 0 < k < q.len() - 1 implies q[k] != '"' && q[k] != '\\' by {
        assert(q[k] == t[k - 1]);
    }
}

/// The fixed wire name and description of every error code are plain
/// texts, so their quoted forms are raw string tokens.
#[verifier::rlimit(100)]
pub proof fn lemma_error_code_tokens(e: ErrorCode)
    ensures
        plain_text(error_code_name(e)),
        plain_text(error_code_description(e)),
{
    match e {
        ErrorCode::FormatViolation => {
            reveal_strlit("FormatViolation");
            reveal_strlit("Payload for Action is syntactically incorrect or not conform the PDU structure for Action");
        }
        ErrorCode::GenericError => {
            reveal_strlit("GenericError");
            reveal_strlit("Non specific error");
        }
        ErrorCode::InternalError => {
            reveal_strlit("InternalError");
            reveal_strlit("An internal error occurred and the receiver was not able to process the requested Action successfully");
        }
        ErrorCode::MessageTypeNotSupported => {
            reveal_strlit("MessageTypeNotSupported");
            reveal_strlit("A message with an Message Type Number received that is not supported by this implementation");
        }
        ErrorCode::NotImplemented => {
            reveal_strlit("NotImplemented");
            reveal_strlit("Requested Action is not known by receiver");
        }
        ErrorCode::NotSupported => {
            reveal_strlit("NotSupported");
            reveal_strlit("Requested Action is recognized but not supported by the receiver");
        }
        ErrorCode::OccurrenceConstraintViolation => {
            reveal_strlit("OccurrenceConstraintViolation");
            reveal_strlit("Payload for Action is syntactically correct but at least one of the fields violates occurrence constraints");
        }
        ErrorCode::PropertyConstraintViolation => {
            reveal_strlit("PropertyConstraintViolation");
            reveal_strlit("Payload for Action is syntactically correct but at least one of the fields violates occurrence constraints");
        }
        ErrorCode::ProtocolError => {
            reveal_strlit("ProtocolError");
            reveal_strlit("Payload for Action is not conform the PDU structure");
        }
        ErrorCode::RpcFrameworkError => {
            reveal_strlit("RpcFrameworkError");
            reveal_strlit("Content of the call is not a valid RPC Request, for example: MessageId could not be read.");
        }
        ErrorCode::SecurityError => {
            reveal_strlit("SecurityError");
            reveal_strlit("During the processing of Action a security issue occurred preventing receiver from completing the Action successfully");
        }
        ErrorCode::TypeConstraintViolation => {
            reveal_strlit("TypeConstraintViolation");
            reveal_strlit("Payload for Action is syntactically correct but at least one of the fields violates data type constraints");
        }
    }
}

/// Round trip through `wrap_call`: the wire text of a Call built from
/// plain bare tokens decodes back to those tokens in their quoted raw
/// form.
pub proof fn lemma_unpack_wrap_call(m: Seq<char>, a: Seq<char>, p: Seq<char>)
    requires
        plain_text(m),
        plain_text(a),
        element_text_ok(p),
    ensures
        spec_unpack(wrap_call_spec(m, a, p)) == Some(
            MessageView::Call(
                CallView {
                    unique_id: seq!['"'] + m + seq!['"'],
                    action: seq!['"'] + a + seq!['"'],
                    payload: p,
                },
            ),
        ),
{
    lemma_wrap_call_encodes(m, a, p);
    lemma_plain_string_token(m);
    lemma_plain_string_token(a);
    lemma_unpack_encode(
        MessageView::Call(
            CallView {
                unique_id: seq!['"'] + m + seq!['"'],
                action: seq!['"'] + a + seq!['"'],
                payload: p,
            },
        ),
    );
}

/// Round trip through `wrap_call_result`.
pub proof fn lemma_unpack_wrap_call_result(m: Seq<char>, p: Seq<char>)
    requires
        plain_text(m),
        element_text_ok(p),
    ensures
        spec_unpack(wrap_call_result_spec(m, p)) == Some(
            MessageView::CallResult(
                CallResultView { unique_id: seq!['"'] + m + seq!['"'], payload: p },
            ),
        ),
{
    lemma_wrap_call_result_encodes(m, p);
    lemma_plain_string_token(m);
    lemma_unpack_encode(
        MessageView::CallResult(
            CallResultView { unique_id: seq!['"'] + m + seq!['"'], payload: p },
        ),
    );
}

/// Round trip through `wrap_call_error_result`: the wire text decodes
/// back to the quoted MessageId, the quoted fixed name and description
/// of the error code, and the raw details token.
pub proof fn lemma_unpack_wrap_call_error(m: Seq<char>, e: ErrorCode, d: Seq<char>)
    requires
        plain_text(m),
        element_text_ok(d),
    ensures
        spec_unpack(wrap_call_error_spec(m, e, d)) == Some(
            MessageView::CallError(
                CallErrorView {
                    unique_id: seq!['"'] + m + seq!['"'],
                    error_code: seq!['"'] + error_code_name(e) + seq!['"'],
                    error_description: seq!['"'] + error_code_description(e) + seq!['"'],
                    error_details: d,
                },
            ),
        ),
{
    lemma_wrap_call_error_encodes(m, e, d);
    lemma_error_code_tokens(e);
    lemma_plain_string_token(m);
    lemma_plain_string_token(error_code_name(e));
    lemma_plain_string_token(error_code_description(e));
    lemma_unpack_encode(
        MessageView::CallError(
            CallErrorView {
                unique_id: seq!['"'] + m + seq!['"'],
                error_code: seq!['"'] + error_code_name(e) + seq!['"'],
                error_description: seq!['"'] + error_code_description(e) + seq!['"'],
                error_details: d,
            },
        ),
    );
}

/// The error details this server writes when a payload fails its
/// schema check: the JSON string literal `"invalid payload"`.
pub open spec fn invalid_payload_details() -> Seq<char> {
    "\"invalid payload\""@
}

/// A FormatViolation CallError for the given MessageId, with the fixed
/// details of `invalid_payload_details`.
pub fn invalid_payload_error(message_id: &String) -> (r: String)
    ensures
        r@ == wrap_call_error_spec(message_id@, ErrorCode::FormatViolation,
            invalid_payload_details(),
        ),
{
    wrap_call_error_result(
        message_id,
        ErrorCode::FormatViolation,
        &String::from_str("\"invalid payload\""),
    )
}

/// The fixed Authorize reply payload: status `Accepted`, no optionals.
pub open spec fn default_authorize_response() -> AuthorizeResponse {
    AuthorizeResponse {
        id_tag_info: IdTagInfo {
            expiry_date: None,
            parent_id_tag: None,
            status: IdTagInfoStatus::Accepted,
        },
    }
}

/// The fixed StartTransaction reply payload: status `Accepted` and the
/// placeholder transaction id.
pub open spec fn default_start_transaction_response() -> StartTransactionResponse {
    StartTransactionResponse {
        id_tag_info: IdTagInfo {
            expiry_date: None,
            parent_id_tag: None,
            status: IdTagInfoStatus::Accepted,
        },
        transaction_id: 1500100900,
    }
}

/// Answers a BootNotification Call: a CallResult carrying the given
/// current time and heartbeat interval when the payload meets the
/// schema, a FormatViolation CallError otherwise.
pub fn boot_notification_response(
    message_id: &String,
    payload: Option<&Json>,
    current_time: &String,
    interval: i64,
) -> (r: String)
    ensures
        r@ == (match payload {
            Some(j) => if valid_boot_notification_req(*j) {
                wrap_call_result_spec(
                    message_id@,
                    boot_notification_response_text(current_time@, interval as int),
                )
            } else {
                wrap_call_error_spec(message_id@, ErrorCode::FormatViolation,
                    invalid_payload_details(),
                )
            },
            None => wrap_call_error_spec(message_id@, ErrorCode::FormatViolation,
                invalid_payload_details(),
            ),
        }),
{
    match payload {
        Some(j) => {
            if check_boot_notification_req(j) {
                wrap_call_result(message_id, boot_notification_payload(current_time, interval))
            } else {
                invalid_payload_error(message_id)
            }
        },
        None => invalid_payload_error(message_id),
    }
}

/// Answers a Heartbeat Call: a CallResult carrying the given current
/// time. A Heartbeat request has no fields to check.
pub fn heartbeat_response(message_id: &String, current_time: &String) -> (r: String)
    ensures
        r@ == wrap_call_result_spec(message_id@, heartbeat_response_text(current_time@)),
{
    wrap_call_result(message_id, heartbeat_payload(current_time))
}

/// Answers an Authorize Call with the fixed `Accepted` reply when the
/// payload meets the schema, a FormatViolation CallError otherwise.
pub fn authorize_response(message_id: &String, payload: Option<&Json>) -> (r: String)
    ensures
        r@ == (match payload {
            Some(j) => if valid_authorize_req(*j) {
                wrap_call_result_spec(message_id@, authorize_response_text(
                    default_authorize_response(),
                ))
            } else {
                wrap_call_error_spec(message_id@, ErrorCode::FormatViolation,
                    invalid_payload_details(),
                )
            },
            None => wrap_call_error_spec(message_id@, ErrorCode::FormatViolation,
                invalid_payload_details(),
            ),
        }),
{
    match payload {
        Some(j) => {
            if check_authorize_req(j) {
                let resp = AuthorizeResponse {
                    id_tag_info: IdTagInfo {
                        expiry_date: None,
                        parent_id_tag: None,
                        status: IdTagInfoStatus::Accepted,
                    },
                };
                wrap_call_result(message_id, resp.to_json())
            } else {
                invalid_payload_error(message_id)
            }
        },
        None => invalid_payload_error(message_id),
    }
}

/// Answers a StartTransaction Call with the fixed `Accepted` reply and
/// the placeholder transaction id when the payload meets the schema.
pub fn start_transaction_response(message_id: &String, payload: Option<&Json>) -> (r: String)
    ensures
        r@ == (match payload {
            Some(j) => if valid_start_transaction_req(*j) {
                wrap_call_result_spec(message_id@, start_transaction_response_text(
                    default_start_transaction_response(),
                ))
            } else {
                wrap_call_error_spec(message_id@, ErrorCode::FormatViolation,
                    invalid_payload_details(),
                )
            },
            None => wrap_call_error_spec(message_id@, ErrorCode::FormatViolation,
                invalid_payload_details(),
            ),
        }),
{
    match payload {
        Some(j) => {
            if check_start_transaction_req(j) {
                let resp = StartTransactionResponse {
                    id_tag_info: IdTagInfo {
                        expiry_date: None,
                        parent_id_tag: None,
                        status: IdTagInfoStatus::Accepted,
                    },
                    transaction_id: 1500100900,
                };
                wrap_call_result(message_id, resp.to_json())
            } else {
                invalid_payload_error(message_id)
            }
        },
        None => invalid_payload_error(message_id),
    }
}

/// Answers a StopTransaction Call with an empty reply object when the
/// payload meets the schema.
pub fn stop_transaction_response(message_id: &String, payload: Option<&Json>) -> (r: String)
    ensures
        r@ == (match payload {
            Some(j) => if valid_stop_transaction_req(*j) {
                wrap_call_result_spec(message_id@, "{}"@)
            } else {
                wrap_call_error_spec(message_id@, ErrorCode::FormatViolation,
                    invalid_payload_details(),
                )
            },
            None => wrap_call_error_spec(message_id@, ErrorCode::FormatViolation,
                invalid_payload_details(),
            ),
        }),
{
    match payload {
        Some(j) => {
            if check_stop_transaction_req(j) {
                let resp = StopTransactionResponse { id_tag_info: None };
                wrap_call_result(message_id, resp.to_json())
            } else {
                invalid_payload_error(message_id)
            }
        },
        None => invalid_payload_error(message_id),
    }
}

/// Answers a DiagnosticsStatusNotification Call with an empty reply
/// object when the payload meets the schema.
pub fn diagnostics_status_notification_response(message_id: &String, payload: Option<&Json>) -> (r:
    String)
    ensures
        r@ == (match payload {
            Some(j) => if valid_diagnostics_status_notification_req(*j) {
                wrap_call_result_spec(message_id@, "{}"@)
            } else {
                wrap_call_error_spec(message_id@, ErrorCode::FormatViolation,
                    invalid_payload_details(),
                )
            },
            None => wrap_call_error_spec(message_id@, ErrorCode::FormatViolation,
                invalid_payload_details(),
            ),
        }),
{
    match payload {
        Some(j) => {
            if check_diagnostics_status_notification_req(j) {
                wrap_call_result(message_id, empty_object_payload())
            } else {
                invalid_payload_error(message_id)
            }
        },
        None => invalid_payload_error(message_id),
    }
}

/// Answers a FirmwareStatusNotification Call with an empty reply object
/// when the payload meets the schema.
pub fn firmware_status_notification_response(message_id: &String, payload: Option<&Json>) -> (r:
    String)
    ensures
        r@ == (match payload {
            Some(j) => if valid_firmware_status_notification_req(*j) {
                wrap_call_result_spec(message_id@, "{}"@)
            } else {
                wrap_call_error_spec(message_id@, ErrorCode::FormatViolation,
                    invalid_payload_details(),
                )
            },
            None => wrap_call_error_spec(message_id@, ErrorCode::FormatViolation,
                invalid_payload_details(),
            ),
        }),
{
    match payload {
        Some(j) => {
            if check_firmware_status_notification_req(j) {
                wrap_call_result(message_id, empty_object_payload())
            } else {
                invalid_payload_error(message_id)
            }
        },
        None => invalid_payload_error(message_id),
    }
}

/// Answers a MeterValues Call with an empty reply object when the
/// payload meets the schema.
pub fn meter_values_response(message_id: &String, payload: Option<&Json>) -> (r: String)
    ensures
        r@ == (match payload {
            Some(j) => if valid_meter_values_req(*j) {
                wrap_call_result_spec(message_id@, "{}"@)
            } else {
                wrap_call_error_spec(message_id@, ErrorCode::FormatViolation,
                    invalid_payload_details(),
                )
            },
            None => wrap_call_error_spec(message_id@, ErrorCode::FormatViolation,
                invalid_payload_details(),
            ),
        }),
{
    match payload {
        Some(j) => {
            if check_meter_values_req(j) {
                wrap_call_result(message_id, empty_object_payload())
            } else {
                invalid_payload_error(message_id)
            }
        },
        None => invalid_payload_error(message_id),
    }
}

/// Answers a StatusNotification Call with an empty reply object when
/// the payload meets the schema.
pub fn status_notification_response(message_id: &String, payload: Option<&Json>) -> (r: String)
    ensures
        r@ == (match payload {
            Some(j) => if valid_status_notification_req(*j) {
                wrap_call_result_spec(message_id@, "{}"@)
            } else {
                wrap_call_error_spec(message_id@, ErrorCode::FormatViolation,
                    invalid_payload_details(),
                )
            },
            None => wrap_call_error_spec(message_id@, ErrorCode::FormatViolation,
                invalid_payload_details(),
            ),
        }),
{
    match payload {
        Some(j) => {
            if check_status_notification_req(j) {
                wrap_call_result(message_id, empty_object_payload())
            } else {
                invalid_payload_error(message_id)
            }
        },
        None => invalid_payload_error(message_id),
    }
}

/// Answers a LogStatusNotification Call with an empty reply object when
/// the payload meets the schema.
pub fn log_status_notification_response(message_id: &String, payload: Option<&Json>) -> (r: String)
    ensures
        r@ == (match payload {
            Some(j) => if valid_log_status_notification_req(*j) {
                wrap_call_result_spec(message_id@, "{}"@)
            } else {
                wrap_call_error_spec(message_id@, ErrorCode::FormatViolation,
                    invalid_payload_details(),
                )
            },
            None => wrap_call_error_spec(message_id@, ErrorCode::FormatViolation,
                invalid_payload_details(),
            ),
        }),
{
    match payload {
        Some(j) => {
            if check_log_status_notification_req(j) {
                wrap_call_result(message_id, empty_object_payload())
            } else {
                invalid_payload_error(message_id)
            }
        },
        None => invalid_payload_error(message_id),
    }
}

/// Answers a SecurityEventNotification Call with an empty reply object
/// when the payload meets the schema.
pub fn security_event_notification_response(message_id: &String, payload: Option<&Json>) -> (r:
    String)
    ensures
        r@ == (match payload {
            Some(j) => if valid_security_event_notification_req(*j) {
                wrap_call_result_spec(message_id@, "{}"@)
            } else {
                wrap_call_error_spec(message_id@, ErrorCode::FormatViolation,
                    invalid_payload_details(),
                )
            },
            None => wrap_call_error_spec(message_id@, ErrorCode::FormatViolation,
                invalid_payload_details(),
            ),
        }),
{
    match payload {
        Some(j) => {
            if check_security_event_notification_req(j) {
                wrap_call_result(message_id, empty_object_payload())
            } else {
                invalid_payload_error(message_id)
            }
        },
        None => invalid_payload_error(message_id),
    }
}

/// Answers a SignedFirmwareStatusNotification Call with an empty reply
/// object when the payload meets the schema.
pub fn signed_firmware_status_notification_response(
    message_id: &String,
    payload: Option<&Json>,
) -> (r: String)
    ensures
        r@ == (match payload {
            Some(j) => if valid_signed_firmware_status_notification_req(*j) {
                wrap_call_result_spec(message_id@, "{}"@)
            } else {
                wrap_call_error_spec(message_id@, ErrorCode::FormatViolation,
                    invalid_payload_details(),
                )
            },
            None => wrap_call_error_spec(message_id@, ErrorCode::FormatViolation,
                invalid_payload_details(),
            ),
        }),
{
    match payload {
        Some(j) => {
            if check_signed_firmware_status_notification_req(j) {
                wrap_call_result(message_id, empty_object_payload())
            } else {
                invalid_payload_error(message_id)
            }
        },
        None => invalid_payload_error(message_id),
    }
}

} // verus!
