use vstd::prelude::*;

use crate::json::{append_json_string, json_string_text, int_text};
use crate::json::i64_to_string;

verus! {

// The OCPP 1.6 response payload shapes, plus the security extension set.
// The five types that the per-station default-response table holds are
// AuthorizeResponse, DataTransferResponse, SignCertificateResponse,
// StartTransactionResponse and StopTransactionResponse.

#[derive(Clone, Debug)]
pub struct AuthorizeResponse {
    pub id_tag_info: IdTagInfo,
}

#[derive(Clone, Debug)]
pub struct IdTagInfo {
    pub expiry_date: Option<String>,
    pub parent_id_tag: Option<String>,
    pub status: IdTagInfoStatus,
}

#[derive(Clone, Copy, Debug, PartialEq, Eq, Structural)]
pub enum IdTagInfoStatus {
    Accepted,
    Blocked,
    ConcurrentTx,
    Expired,
    Invalid,
}

#[derive(Clone, Debug)]
pub struct BootNotificationResponse {
    pub current_time: String,
    pub interval: i64,
    pub status: BootNotificationStatus,
}

#[derive(Clone, Copy, Debug, PartialEq, Eq, Structural)]
pub enum BootNotificationStatus {
    Accepted,
    Pending,
    Rejected,
}

#[derive(Clone, Debug)]
pub struct CancelReservationResponse {
    pub status: CancelReservationStatus,
}

#[derive(Clone, Copy, Debug, PartialEq, Eq, Structural)]
pub enum CancelReservationStatus {
    Accepted,
    Rejected,
}

#[derive(Clone, Debug)]
pub struct ChangeAvailabilityResponse {
    pub status: ChangeAvailabilityStatus,
}

#[derive(Clone, Copy, Debug, PartialEq, Eq, Structural)]
pub enum ChangeAvailabilityStatus {
    Accepted,
    Rejected,
    Scheduled,
}

#[derive(Clone, Debug)]
pub struct ChangeConfigurationResponse {
    pub status: ChangeConfigurationStatus,
}

#[derive(Clone, Copy, Debug, PartialEq, Eq, Structural)]
pub enum ChangeConfigurationStatus {
    Accepted,
    NotSupported,
    RebootRequired,
    Rejected,
}

#[derive(Clone, Debug)]
pub struct ClearCacheResponse {
    pub status: ClearCacheStatus,
}

#[derive(Clone, Copy, Debug, PartialEq, Eq, Structural)]
pub enum ClearCacheStatus {
    Accepted,
    Rejected,
}

#[derive(Clone, Debug)]
pub struct ClearChargingProfileResponse {
    pub status: ClearChargingProfileStatus,
}

#[derive(Clone, Copy, Debug, PartialEq, Eq, Structural)]
pub enum ClearChargingProfileStatus {
    Accepted,
    Unknown,
}

#[derive(Clone, Debug)]
pub struct DataTransferResponse {
    pub data: Option<String>,
    pub status: DataTransferStatus,
}

#[derive(Clone, Copy, Debug, PartialEq, Eq, Structural)]
pub enum DataTransferStatus {
    Accepted,
    Rejected,
    UnknownMessageId,
    UnknownVendorId,
}

#[derive(Clone, Debug)]
pub struct DiagnosticsStatusNotificationResponse {}

#[derive(Clone, Debug)]
pub struct FirmwareStatusNotificationResponse {}

#[derive(Clone, Copy, Debug, PartialEq, Eq, Structural)]
pub enum ChargingRateUnit {
    A,
    W,
}

#[derive(Clone, Copy, Debug, PartialEq, Eq, Structural)]
pub enum Status {
    Accepted,
    Rejected,
}

#[derive(Clone, Debug)]
pub struct GetConfigurationResponse {
    pub configuration_key: Option<Vec<ConfigurationKey>>,
    pub unknown_key: Option<Vec<String>>,
}

#[derive(Clone, Debug)]
pub struct ConfigurationKey {
    pub key: String,
    pub readonly: bool,
    pub value: Option<String>,
}

#[derive(Clone, Debug)]
pub struct GetDiagnosticsResponse {
    pub file_name: Option<String>,
}

#[derive(Clone, Debug)]
pub struct GetLocalListVersionResponse {
    pub list_version: i64,
}

#[derive(Clone, Debug)]
pub struct HeartbeatResponse {
    pub current_time: String,
}

#[derive(Clone, Debug)]
pub struct MeterValuesResponse {}

#[derive(Clone, Debug)]
pub struct RemoteStartTransactionResponse {
    pub status: RemoteStartTransactionStatus,
}

#[derive(Clone, Copy, Debug, PartialEq, Eq, Structural)]
pub enum RemoteStartTransactionStatus {
    Accepted,
    Rejected,
}

#[derive(Clone, Debug)]
pub struct RemoteStopTransactionResponse {
    pub status: RemoteStopTransactionStatus,
}

#[derive(Clone, Copy, Debug, PartialEq, Eq, Structural)]
pub enum RemoteStopTransactionStatus {
    Accepted,
    Rejected,
}

#[derive(Clone, Debug)]
pub struct ReserveNowResponse {
    pub status: ReserveNowStatus,
}

#[derive(Clone, Copy, Debug, PartialEq, Eq, Structural)]
pub enum ReserveNowStatus {
    Accepted,
    Faulted,
    Occupied,
    Rejected,
    Unavailable,
}

#[derive(Clone, Debug)]
pub struct ResetResponse {
    pub status: ResetStatus,
}

#[derive(Clone, Copy, Debug, PartialEq, Eq, Structural)]
pub enum ResetStatus {
    Accepted,
    Rejected,
}

#[derive(Clone, Debug)]
pub struct SendLocalListResponse {
    pub status: SendLocalListStatus,
}

#[derive(Clone, Copy, Debug, PartialEq, Eq, Structural)]
pub enum SendLocalListStatus {
    Accepted,
    Failed,
    NotSupported,
    VersionMismatch,
}

#[derive(Clone, Debug)]
pub struct SetChargingProfileResponse {
    pub status: SetChargingProfileStatus,
}

#[derive(Clone, Copy, Debug, PartialEq, Eq, Structural)]
pub enum SetChargingProfileStatus {
    Accepted,
    NotSupported,
    Rejected,
}

#[derive(Clone, Debug)]
pub struct StartTransactionResponse {
    pub id_tag_info: IdTagInfo,
    pub transaction_id: i64,
}

#[derive(Clone, Debug)]
pub struct StatusNotificationResponse {}

#[derive(Clone, Debug)]
pub struct StopTransactionResponse {
    pub id_tag_info: Option<IdTagInfo>,
}

#[derive(Clone, Debug)]
pub struct TriggerMessageResponse {
    pub status: TriggerMessageStatus,
}

#[derive(Clone, Copy, Debug, PartialEq, Eq, Structural)]
pub enum TriggerMessageStatus {
    Accepted,
    NotImplemented,
    Rejected,
}

#[derive(Clone, Debug)]
pub struct UnlockConnectorResponse {
    pub status: UnlockConnectorStatus,
}

#[derive(Clone, Copy, Debug, PartialEq, Eq, Structural)]
pub enum UnlockConnectorStatus {
    NotSupported,
    UnlockFailed,
    Unlocked,
}

#[derive(Clone, Debug)]
pub struct UpdateFirmwareResponse {}

#[derive(Clone, Debug)]
pub struct CertificateSignedResponse {
    pub status: CertificateSignedStatusEnumType,
}

#[derive(Clone, Copy, Debug, PartialEq, Eq, Structural)]
pub enum CertificateSignedStatusEnumType {
    Accepted,
    Rejected,
}

#[derive(Clone, Debug)]
pub struct DeleteCertificateResponse {
    pub status: DeleteCertificateStatusEnumType,
}

#[derive(Clone, Copy, Debug, PartialEq, Eq, Structural)]
pub enum DeleteCertificateStatusEnumType {
    Accepted,
    Failed,
    NotFound,
}

#[derive(Clone, Debug)]
pub struct ExtendedTriggerMessageResponse {
    pub status: TriggerMessageStatusEnumType,
}

#[derive(Clone, Copy, Debug, PartialEq, Eq, Structural)]
pub enum TriggerMessageStatusEnumType {
    Accepted,
    NotImplemented,
    Rejected,
}

#[derive(Clone, Debug)]
pub struct GetInstalledCertificateIdsResponse {
    pub certificate_hash_data: Option<Vec<CertificateHashDataType>>,
    pub status: GetInstalledCertificateStatusEnumType,
}

#[derive(Clone, Debug)]
pub struct CertificateHashDataType {
    pub hash_algorithm: HashAlgorithmEnumType,
    pub issuer_key_hash: String,
    pub issuer_name_hash: String,
    pub serial_number: String,
}

#[derive(Clone, Copy, Debug, PartialEq, Eq, Structural)]
pub enum HashAlgorithmEnumType {
    Sha256,
    Sha384,
    Sha512,
}

#[derive(Clone, Copy, Debug, PartialEq, Eq, Structural)]
pub enum GetInstalledCertificateStatusEnumType {
    Accepted,
    NotFound,
}

#[derive(Clone, Debug)]
pub struct GetLogResponse {
    pub filename: Option<String>,
    pub status: LogStatusEnumType,
}

#[derive(Clone, Copy, Debug, PartialEq, Eq, Structural)]
pub enum LogStatusEnumType {
    Accepted,
    AcceptedCanceled,
    Rejected,
}

#[derive(Clone, Debug)]
pub struct InstallCertificateResponse {
    pub status: InstallCertificateStatusEnumType,
}

#[derive(Clone, Copy, Debug, PartialEq, Eq, Structural)]
pub enum InstallCertificateStatusEnumType {
    Accepted,
    Failed,
    Rejected,
}

#[derive(Clone, Debug)]
pub struct LogStatusNotificationResponse {}

#[derive(Clone, Debug)]
pub struct SecurityEventNotificationResponse {}

#[derive(Clone, Debug)]
pub struct SignCertificateResponse {
    pub status: GenericStatusEnumType,
}

#[derive(Clone, Copy, Debug, PartialEq, Eq, Structural)]
pub enum GenericStatusEnumType {
    Accepted,
    Rejected,
}

#[derive(Clone, Debug)]
pub struct SignedFirmwareStatusNotificationResponse {}

#[derive(Clone, Debug)]
pub struct SignedUpdateFirmwareResponse {
    pub status: UpdateFirmwareStatusEnumType,
}

#[derive(Clone, Copy, Debug, PartialEq, Eq, Structural)]
pub enum UpdateFirmwareStatusEnumType {
    Accepted,
    AcceptedCanceled,
    InvalidCertificate,
    Rejected,
    RevokedCertificate,
}

// Wire texts of the response payloads that this server writes. Field
// order follows the declaration order of the structs above, and absent
// optional fields are omitted.

pub open spec fn id_tag_status_text(s: IdTagInfoStatus) -> Seq<char> {
    match s {
        IdTagInfoStatus::Accepted => "Accepted"@,
        IdTagInfoStatus::Blocked => "Blocked"@,
        IdTagInfoStatus::ConcurrentTx => "ConcurrentTx"@,
        IdTagInfoStatus::Expired => "Expired"@,
        IdTagInfoStatus::Invalid => "Invalid"@,
    }
}

pub open spec fn id_tag_info_text(t: IdTagInfo) -> Seq<char> {
    seq!['{'] + (match t.expiry_date {
        Some(e) => "\"expiryDate\":"@ + json_string_text(e@) + seq![','],
        None => Seq::<char>::empty(),
    }) + (match t.parent_id_tag {
        Some(p) => "\"parentIdTag\":"@ + json_string_text(p@) + seq![','],
        None => Seq::<char>::empty(),
    }) + "\"status\":\""@ + id_tag_status_text(t.status) + seq!['"', '}']
}

fn status_str(s: IdTagInfoStatus) -> (r: &'static str)
    ensures
        r@ == id_tag_status_text(s),
{
    match s {
        IdTagInfoStatus::Accepted => "Accepted",
        IdTagInfoStatus::Blocked => "Blocked",
        IdTagInfoStatus::ConcurrentTx => "ConcurrentTx",
        IdTagInfoStatus::Expired => "Expired",
        IdTagInfoStatus::Invalid => "Invalid",
    }
}

fn append_id_tag_info(out: &mut String, t: &IdTagInfo)
    ensures
        final(out)@ == old(out)@ + id_tag_info_text(*t),
{
    proof {
        reveal_strlit("{");
        reveal_strlit("\"expiryDate\":");
        reveal_strlit("\"parentIdTag\":");
        reveal_strlit("\"status\":\"");
        reveal_strlit(",");
        reveal_strlit("\"}");
    }
    out.append("{");
    match &t.expiry_date {
        Some(e) => {
            out.append("\"expiryDate\":");
            append_json_string(out, e.as_str());
            out.append(",");
        },
        None => {},
    }
    match &t.parent_id_tag {
        Some(p) => {
            out.append("\"parentIdTag\":");
            append_json_string(out, p.as_str());
            out.append(",");
        },
        None => {},
    }
    out.append("\"status\":\"");
    out.append(status_str(t.status));
    out.append("\"}");
    proof {
        assert("\"}"@ =~= seq!['"', '}']);
        assert(","@ =~= seq![',']);
        assert("{"@ =~= seq!['{']);
        assert(final(out)@ =~= old(out)@ + id_tag_info_text(*t));
    }
}

pub open spec fn authorize_response_text(r: AuthorizeResponse) -> Seq<char> {
    "{\"idTagInfo\":"@ + id_tag_info_text(r.id_tag_info) + seq!['}']
}

impl AuthorizeResponse {
    /// The wire text of this response payload.
    pub fn to_json(&self) -> (r: String)
        ensures
            r@ == authorize_response_text(*self),
    {
        proof {
            reveal_strlit("{\"idTagInfo\":");
            reveal_strlit("}");
        }
        let mut out = String::from_str("{\"idTagInfo\":");
        append_id_tag_info(&mut out, &self.id_tag_info);
        out.append("}");
        proof {
            assert("}"@ =~= seq!['}']);
            assert(out@ =~= authorize_response_text(*self));
        }
        out
    }
}

pub open spec fn data_transfer_status_text(s: DataTransferStatus) -> Seq<char> {
    match s {
        DataTransferStatus::Accepted => "Accepted"@,
        DataTransferStatus::Rejected => "Rejected"@,
        DataTransferStatus::UnknownMessageId => "UnknownMessageId"@,
        DataTransferStatus::UnknownVendorId => "UnknownVendorId"@,
    }
}

pub open spec fn data_transfer_response_text(r: DataTransferResponse) -> Seq<char> {
    seq!['{'] + (match r.data {
        Some(d) => "\"data\":"@ + json_string_text(d@) + seq![','],
        None => Seq::<char>::empty(),
    }) + "\"status\":\""@ + data_transfer_status_text(r.status) + seq!['"', '}']
}

impl DataTransferResponse {
    /// The wire text of this response payload.
    pub fn to_json(&self) -> (r: String)
        ensures
            r@ == data_transfer_response_text(*self),
    {
        proof {
            reveal_strlit("{");
            reveal_strlit("\"data\":");
            reveal_strlit(",");
            reveal_strlit("\"status\":\"");
            reveal_strlit("\"}");
        }
        let mut out = String::from_str("{");
        match &self.data {
            Some(d) => {
                out.append("\"data\":");
                append_json_string(&mut out, d.as_str());
                out.append(",");
            },
            None => {},
        }
        out.append("\"status\":\"");
        let s: &str = match self.status {
            DataTransferStatus::Accepted => "Accepted",
            DataTransferStatus::Rejected => "Rejected",
            DataTransferStatus::UnknownMessageId => "UnknownMessageId",
            DataTransferStatus::UnknownVendorId => "UnknownVendorId",
        };
        out.append(s);
        out.append("\"}");
        proof {
            assert("{"@ =~= seq!['{']);
            assert(","@ =~= seq![',']);
            assert("\"}"@ =~= seq!['"', '}']);
            assert(out@ =~= data_transfer_response_text(*self));
        }
        out
    }
}

pub open spec fn sign_certificate_response_text(r: SignCertificateResponse) -> Seq<char> {
    "{\"status\":\""@ + (match r.status {
        GenericStatusEnumType::Accepted => "Accepted"@,
        GenericStatusEnumType::Rejected => "Rejected"@,
    }) + seq!['"', '}']
}

impl SignCertificateResponse {
    /// The wire text of this response payload.
    pub fn to_json(&self) -> (r: String)
        ensures
            r@ == sign_certificate_response_text(*self),
    {
        proof {
            reveal_strlit("{\"status\":\"");
            reveal_strlit("\"}");
        }
        let mut out = String::from_str("{\"status\":\"");
        let s: &str = match self.status {
            GenericStatusEnumType::Accepted => "Accepted",
            GenericStatusEnumType::Rejected => "Rejected",
        };
        out.append(s);
        out.append("\"}");
        proof {
            assert("\"}"@ =~= seq!['"', '}']);
            assert(out@ =~= sign_certificate_response_text(*self));
        }
        out
    }
}

pub open spec fn start_transaction_response_text(r: StartTransactionResponse) -> Seq<char> {
    "{\"idTagInfo\":"@ + id_tag_info_text(r.id_tag_info) + ",\"transactionId\":"@ + int_text(
        r.transaction_id as int,
    ) + seq!['}']
}

impl StartTransactionResponse {
    /// The wire text of this response payload.
    pub fn to_json(&self) -> (r: String)
        ensures
            r@ == start_transaction_response_text(*self),
    {
        proof {
            reveal_strlit("{\"idTagInfo\":");
            reveal_strlit(",\"transactionId\":");
            reveal_strlit("}");
        }
        let mut out = String::from_str("{\"idTagInfo\":");
        append_id_tag_info(&mut out, &self.id_tag_info);
        out.append(",\"transactionId\":");
        let digits = i64_to_string(self.transaction_id);
        out.append(digits.as_str());
        out.append("}");
        proof {
            assert("}"@ =~= seq!['}']);
            assert(out@ =~= start_transaction_response_text(*self));
        }
        out
    }
}

pub open spec fn stop_transaction_response_text(r: StopTransactionResponse) -> Seq<char> {
    match r.id_tag_info {
        Some(t) => "{\"idTagInfo\":"@ + id_tag_info_text(t) + seq!['}'],
        None => "{}"@,
    }
}

impl StopTransactionResponse {
    /// The wire text of this response payload.
    pub fn to_json(&self) -> (r: String)
        ensures
            r@ == stop_transaction_response_text(*self),
    {
        proof {
            reveal_strlit("{\"idTagInfo\":");
            reveal_strlit("}");
            reveal_strlit("{}");
        }
        match &self.id_tag_info {
            Some(t) => {
                let mut out = String::from_str("{\"idTagInfo\":");
                append_id_tag_info(&mut out, t);
                out.append("}");
                proof {
                    assert("}"@ =~= seq!['}']);
                    assert(out@ =~= stop_transaction_response_text(*self));
                }
                out
            },
            None => String::from_str("{}"),
        }
    }
}

/// Wire text of a BootNotification response carrying the given current
/// time and heartbeat interval, with status `Accepted`.
pub open spec fn boot_notification_response_text(time: Seq<char>, interval: int) -> Seq<char> {
    "{\"currentTime\":"@ + json_string_text(time) + ",\"interval\":"@ + int_text(interval)
        + ",\"status\":\"Accepted\"}"@
}

/// Builds the BootNotification response payload.
pub fn boot_notification_payload(time: &String, interval: i64) -> (r: String)
    ensures
        r@ == boot_notification_response_text(time@, interval as int),
{
    proof {
        reveal_strlit("{\"currentTime\":");
        reveal_strlit(",\"interval\":");
        reveal_strlit(",\"status\":\"Accepted\"}");
    }
    let mut out = String::from_str("{\"currentTime\":");
    append_json_string(&mut out, time.as_str());
    out.append(",\"interval\":");
    let digits = i64_to_string(interval);
    out.append(digits.as_str());
    out.append(",\"status\":\"Accepted\"}");
    out
}

/// Wire text of a Heartbeat response carrying the given current time.
pub open spec fn heartbeat_response_text(time: Seq<char>) -> Seq<char> {
    "{\"currentTime\":"@ + json_string_text(time) + seq!['}']
}

/// Builds the Heartbeat response payload.
pub fn heartbeat_payload(time: &String) -> (r: String)
    ensures
        r@ == heartbeat_response_text(time@),
{
    proof {
        reveal_strlit("{\"currentTime\":");
        reveal_strlit("}");
    }
    let mut out = String::from_str("{\"currentTime\":");
    append_json_string(&mut out, time.as_str());
    out.append("}");
    proof {
        assert("}"@ =~= seq!['}']);
        assert(out@ =~= heartbeat_response_text(time@));
    }
    out
}

/// Builds the empty-object payload used by the notification responses.
pub fn empty_object_payload() -> (r: String)
    ensures
        r@ == "{}"@,
{
    String::from_str("{}")
}

} // verus!
