use vstd::prelude::*;

use crate::json::{Json, json_get, is_string, is_number, is_array, is_object};
use crate::strutil::str_eq;
use crate::messages::responses::{
    id_tag_status_text, AuthorizeResponse, DataTransferResponse, DataTransferStatus,
    GenericStatusEnumType, IdTagInfo, IdTagInfoStatus, SignCertificateResponse,
    StartTransactionResponse, StopTransactionResponse,
};

verus! {

// Required-field checks for the OCPP 1.6 action schemas. A payload is
// held against the schema of its action: every required field must be
// present with the right shape, optional fields must have the right
// shape when present, and closed string enumerations admit only their
// listed values. Nested collections are checked one level deep.

/// The string content of field `key`, when `j` is an object carrying a
/// string there.
pub open spec fn field_string_val(j: Json, key: Seq<char>) -> Option<Seq<char>> {
    match json_get(j, key) {
        Some(v) => match v {
            Json::Str(s) => Some(s@),
            _ => None,
        },
        None => None,
    }
}

pub open spec fn req_string_field(j: Json, key: Seq<char>) -> bool {
    match json_get(j, key) {
        Some(v) => is_string(v),
        None => false,
    }
}

pub open spec fn opt_string_field(j: Json, key: Seq<char>) -> bool {
    match json_get(j, key) {
        Some(v) => is_string(v),
        None => true,
    }
}

pub open spec fn req_number_field(j: Json, key: Seq<char>) -> bool {
    match json_get(j, key) {
        Some(v) => is_number(v),
        None => false,
    }
}

pub open spec fn opt_number_field(j: Json, key: Seq<char>) -> bool {
    match json_get(j, key) {
        Some(v) => is_number(v),
        None => true,
    }
}

pub open spec fn req_array_field(j: Json, key: Seq<char>) -> bool {
    match json_get(j, key) {
        Some(v) => is_array(v),
        None => false,
    }
}

pub open spec fn opt_array_field(j: Json, key: Seq<char>) -> bool {
    match json_get(j, key) {
        Some(v) => is_array(v),
        None => true,
    }
}

pub open spec fn req_object_field(j: Json, key: Seq<char>) -> bool {
    match json_get(j, key) {
        Some(v) => is_object(v),
        None => false,
    }
}

pub open spec fn opt_object_field(j: Json, key: Seq<char>) -> bool {
    match json_get(j, key) {
        Some(v) => is_object(v),
        None => true,
    }
}

/// The object value stored under field `key`, if any.
pub open spec fn field_object_val(j: Json, key: Seq<char>) -> Option<Json> {
    match json_get(j, key) {
        Some(v) => if is_object(v) {
            Some(v)
        } else {
            None
        },
        None => None,
    }
}

fn get_field<'a>(j: &'a Json, key: &str) -> (r: Option<&'a Json>)
    ensures
        match r {
            Some(v) => json_get(*j, key@) == Some(*v),
            None => json_get(*j, key@) is None,
        },
{
    j.get(key)
}

fn check_req_string(j: &Json, key: &str) -> (r: bool)
    ensures
        r == req_string_field(*j, key@),
{
    match get_field(j, key) {
        Some(v) => matches!(v, Json::Str(_)),
        None => false,
    }
}

fn check_opt_string(j: &Json, key: &str) -> (r: bool)
    ensures
        r == opt_string_field(*j, key@),
{
    match get_field(j, key) {
        Some(v) => matches!(v, Json::Str(_)),
        None => true,
    }
}

fn check_req_number(j: &Json, key: &str) -> (r: bool)
    ensures
        r == req_number_field(*j, key@),
{
    match get_field(j, key) {
        Some(v) => matches!(v, Json::Int(_) | Json::Num(_)),
        None => false,
    }
}

fn check_opt_number(j: &Json, key: &str) -> (r: bool)
    ensures
        r == opt_number_field(*j, key@),
{
    match get_field(j, key) {
        Some(v) => matches!(v, Json::Int(_) | Json::Num(_)),
        None => true,
    }
}

fn check_req_array(j: &Json, key: &str) -> (r: bool)
    ensures
        r == req_array_field(*j, key@),
{
    match get_field(j, key) {
        Some(v) => matches!(v, Json::Arr(_)),
        None => false,
    }
}

fn check_opt_array(j: &Json, key: &str) -> (r: bool)
    ensures
        r == opt_array_field(*j, key@),
{
    match get_field(j, key) {
        Some(v) => matches!(v, Json::Arr(_)),
        None => true,
    }
}

fn check_req_object(j: &Json, key: &str) -> (r: bool)
    ensures
        r == req_object_field(*j, key@),
{
    match get_field(j, key) {
        Some(v) => matches!(v, Json::Obj(_)),
        None => false,
    }
}

fn check_opt_object(j: &Json, key: &str) -> (r: bool)
    ensures
        r == opt_object_field(*j, key@),
{
    match get_field(j, key) {
        Some(v) => matches!(v, Json::Obj(_)),
        None => true,
    }
}

fn get_string_field<'a>(j: &'a Json, key: &str) -> (r: Option<&'a String>)
    ensures
        match r {
            Some(s) => field_string_val(*j, key@) == Some(s@),
            None => field_string_val(*j, key@) is None,
        },
{
    match get_field(j, key) {
        Some(v) => v.as_string(),
        None => None,
    }
}

/// The five values an IdTagInfo status may take.
pub open spec fn id_tag_status_ok(v: Seq<char>) -> bool {
    v == "Accepted"@ || v == "Blocked"@ || v == "ConcurrentTx"@ || v == "Expired"@ || v
        == "Invalid"@
}

/// Shape of an `idTagInfo` object: a closed status plus two optional
/// string fields.
pub open spec fn valid_id_tag_info(j: Json) -> bool {
    &&& match field_string_val(j, "status"@) {
        Some(v) => id_tag_status_ok(v),
        None => false,
    }
    &&& opt_string_field(j, "expiryDate"@)
    &&& opt_string_field(j, "parentIdTag"@)
}

fn check_id_tag_info(j: &Json) -> (r: bool)
    ensures
        r == valid_id_tag_info(*j),
{
    let status_ok = match get_string_field(j, "status") {
        Some(s) => str_eq(s.as_str(), "Accepted") || str_eq(s.as_str(), "Blocked") || str_eq(
            s.as_str(),
            "ConcurrentTx",
        ) || str_eq(s.as_str(), "Expired") || str_eq(s.as_str(), "Invalid"),
        None => false,
    };
    status_ok && check_opt_string(j, "expiryDate") && check_opt_string(j, "parentIdTag")
}

pub open spec fn valid_authorize_req(j: Json) -> bool {
    req_string_field(j, "idTag"@)
}

pub fn check_authorize_req(j: &Json) -> (r: bool)
    ensures
        r == valid_authorize_req(*j),
{
    check_req_string(j, "idTag")
}

pub open spec fn valid_boot_notification_req(j: Json) -> bool {
    &&& req_string_field(j, "chargePointModel"@)
    &&& req_string_field(j, "chargePointVendor"@)
    &&& opt_string_field(j, "chargeBoxSerialNumber"@)
    &&& opt_string_field(j, "chargePointSerialNumber"@)
    &&& opt_string_field(j, "firmwareVersion"@)
    &&& opt_string_field(j, "iccid"@)
    &&& opt_string_field(j, "imsi"@)
    &&& opt_string_field(j, "meterSerialNumber"@)
    &&& opt_string_field(j, "meterType"@)
}

pub fn check_boot_notification_req(j: &Json) -> (r: bool)
    ensures
        r == valid_boot_notification_req(*j),
{
    check_req_string(j, "chargePointModel") && check_req_string(j, "chargePointVendor")
        && check_opt_string(j, "chargeBoxSerialNumber") && check_opt_string(
        j,
        "chargePointSerialNumber",
    ) && check_opt_string(j, "firmwareVersion") && check_opt_string(j, "iccid") && check_opt_string(
        j,
        "imsi",
    ) && check_opt_string(j, "meterSerialNumber") && check_opt_string(j, "meterType")
}

pub open spec fn valid_data_transfer_req(j: Json) -> bool {
    &&& req_string_field(j, "vendorId"@)
    &&& opt_string_field(j, "data"@)
    &&& opt_string_field(j, "messageId"@)
}

pub fn check_data_transfer_req(j: &Json) -> (r: bool)
    ensures
        r == valid_data_transfer_req(*j),
{
    check_req_string(j, "vendorId") && check_opt_string(j, "data") && check_opt_string(
        j,
        "messageId",
    )
}

pub open spec fn valid_diagnostics_status_notification_req(j: Json) -> bool {
    match field_string_val(j, "status"@) {
        Some(v) => v == "Idle"@ || v == "UploadFailed"@ || v == "Uploaded"@ || v == "Uploading"@,
        None => false,
    }
}

pub fn check_diagnostics_status_notification_req(j: &Json) -> (r: bool)
    ensures
        r == valid_diagnostics_status_notification_req(*j),
{
    match get_string_field(j, "status") {
        Some(s) => str_eq(s.as_str(), "Idle") || str_eq(s.as_str(), "UploadFailed") || str_eq(
            s.as_str(),
            "Uploaded",
        ) || str_eq(s.as_str(), "Uploading"),
        None => false,
    }
}

pub open spec fn valid_firmware_status_notification_req(j: Json) -> bool {
    match field_string_val(j, "status"@) {
        Some(v) => v == "DownloadFailed"@ || v == "Downloaded"@ || v == "Downloading"@ || v
            == "Idle"@ || v == "InstallationFailed"@ || v == "Installed"@ || v == "Installing"@,
        None => false,
    }
}

pub fn check_firmware_status_notification_req(j: &Json) -> (r: bool)
    ensures
        r == valid_firmware_status_notification_req(*j),
{
    match get_string_field(j, "status") {
        Some(s) => str_eq(s.as_str(), "DownloadFailed") || str_eq(s.as_str(), "Downloaded")
            || str_eq(s.as_str(), "Downloading") || str_eq(s.as_str(), "Idle") || str_eq(
            s.as_str(),
            "InstallationFailed",
        ) || str_eq(s.as_str(), "Installed") || str_eq(s.as_str(), "Installing"),
        None => false,
    }
}

pub open spec fn valid_meter_values_req(j: Json) -> bool {
    &&& req_number_field(j, "connectorId"@)
    &&& array_field_all(j, "meterValue"@, (|x: Json| valid_meter_value_item(x)))
    &&& opt_number_field(j, "transactionId"@)
}

pub fn check_meter_values_req(j: &Json) -> (r: bool)
    ensures
        r == valid_meter_values_req(*j),
{
    check_req_number(j, "connectorId") && check_array_field_meter_values(j, "meterValue")
        && check_opt_number(j, "transactionId")
}

pub open spec fn valid_start_transaction_req(j: Json) -> bool {
    &&& req_number_field(j, "connectorId"@)
    &&& req_string_field(j, "idTag"@)
    &&& req_number_field(j, "meterStart"@)
    &&& req_string_field(j, "timestamp"@)
    &&& opt_number_field(j, "reservationId"@)
}

pub fn check_start_transaction_req(j: &Json) -> (r: bool)
    ensures
        r == valid_start_transaction_req(*j),
{
    check_req_number(j, "connectorId") && check_req_string(j, "idTag") && check_req_number(
        j,
        "meterStart",
    ) && check_req_string(j, "timestamp") && check_opt_number(j, "reservationId")
}

pub open spec fn status_notification_error_code_ok(v: Seq<char>) -> bool {
    v == "ConnectorLockFailure"@ || v == "EVCommunicationError"@ || v == "GroundFailure"@ || v
        == "HighTemperature"@ || v == "InternalError"@ || v == "LocalListConflict"@ || v
        == "NoError"@ || v == "OtherError"@ || v == "OverCurrentFailure"@ || v == "OverVoltage"@
        || v == "PowerMeterFailure"@ || v == "PowerSwitchFailure"@ || v == "ReaderFailure"@ || v
        == "ResetFailure"@ || v == "UnderVoltage"@ || v == "WeakSignal"@
}

pub open spec fn status_notification_status_ok(v: Seq<char>) -> bool {
    v == "Available"@ || v == "Charging"@ || v == "Faulted"@ || v == "Finishing"@ || v
        == "Preparing"@ || v == "Reserved"@ || v == "SuspendedEV"@ || v == "SuspendedEVSE"@ || v
        == "Unavailable"@
}

pub open spec fn valid_status_notification_req(j: Json) -> bool {
    &&& req_number_field(j, "connectorId"@)
    &&& match field_string_val(j, "errorCode"@) {
        Some(v) => status_notification_error_code_ok(v),
        None => false,
    }
    &&& match field_string_val(j, "status"@) {
        Some(v) => status_notification_status_ok(v),
        None => false,
    }
    &&& opt_string_field(j, "info"@)
    &&& opt_string_field(j, "timestamp"@)
    &&& opt_string_field(j, "vendorErrorCode"@)
    &&& opt_string_field(j, "vendorId"@)
}

pub fn check_status_notification_req(j: &Json) -> (r: bool)
    ensures
        r == valid_status_notification_req(*j),
{
    let error_code_ok = match get_string_field(j, "errorCode") {
        Some(s) => str_eq(s.as_str(), "ConnectorLockFailure") || str_eq(
            s.as_str(),
            "EVCommunicationError",
        ) || str_eq(s.as_str(), "GroundFailure") || str_eq(s.as_str(), "HighTemperature")
            || str_eq(s.as_str(), "InternalError") || str_eq(s.as_str(), "LocalListConflict")
            || str_eq(s.as_str(), "NoError") || str_eq(s.as_str(), "OtherError") || str_eq(
            s.as_str(),
            "OverCurrentFailure",
        ) || str_eq(s.as_str(), "OverVoltage") || str_eq(s.as_str(), "PowerMeterFailure")
            || str_eq(s.as_str(), "PowerSwitchFailure") || str_eq(s.as_str(), "ReaderFailure")
            || str_eq(s.as_str(), "ResetFailure") || str_eq(s.as_str(), "UnderVoltage") || str_eq(
            s.as_str(),
            "WeakSignal",
        ),
        None => false,
    };
    let status_ok = match get_string_field(j, "status") {
        Some(s) => str_eq(s.as_str(), "Available") || str_eq(s.as_str(), "Charging") || str_eq(
            s.as_str(),
            "Faulted",
        ) || str_eq(s.as_str(), "Finishing") || str_eq(s.as_str(), "Preparing") || str_eq(
            s.as_str(),
            "Reserved",
        ) || str_eq(s.as_str(), "SuspendedEV") || str_eq(s.as_str(), "SuspendedEVSE") || str_eq(
            s.as_str(),
            "Unavailable",
        ),
        None => false,
    };
    check_req_number(j, "connectorId") && error_code_ok && status_ok && check_opt_string(j, "info")
        && check_opt_string(j, "timestamp") && check_opt_string(j, "vendorErrorCode")
        && check_opt_string(j, "vendorId")
}

pub open spec fn stop_reason_ok(v: Seq<char>) -> bool {
    v == "DeAuthorized"@ || v == "EmergencyStop"@ || v == "EVDisconnected"@ || v == "HardReset"@
        || v == "Local"@ || v == "Other"@ || v == "PowerLoss"@ || v == "Reboot"@ || v == "Remote"@
        || v == "SoftReset"@ || v == "UnlockCommand"@
}

pub open spec fn valid_stop_transaction_req(j: Json) -> bool {
    &&& req_number_field(j, "meterStop"@)
    &&& req_string_field(j, "timestamp"@)
    &&& req_number_field(j, "transactionId"@)
    &&& opt_string_field(j, "idTag"@)
    &&& match json_get(j, "reason"@) {
        Some(v) => match v {
            Json::Str(s) => stop_reason_ok(s@),
            _ => false,
        },
        None => true,
    }
    &&& opt_array_field_all(j, "transactionData"@, (|x: Json| valid_meter_value_item(x)))
}

pub fn check_stop_transaction_req(j: &Json) -> (r: bool)
    ensures
        r == valid_stop_transaction_req(*j),
{
    let reason_ok = match get_field(j, "reason") {
        Some(v) => match v.as_string() {
            Some(s) => str_eq(s.as_str(), "DeAuthorized") || str_eq(s.as_str(), "EmergencyStop")
                || str_eq(s.as_str(), "EVDisconnected") || str_eq(s.as_str(), "HardReset")
                || str_eq(s.as_str(), "Local") || str_eq(s.as_str(), "Other") || str_eq(
                s.as_str(),
                "PowerLoss",
            ) || str_eq(s.as_str(), "Reboot") || str_eq(s.as_str(), "Remote") || str_eq(
                s.as_str(),
                "SoftReset",
            ) || str_eq(s.as_str(), "UnlockCommand"),
            None => false,
        },
        None => true,
    };
    check_req_number(j, "meterStop") && check_req_string(j, "timestamp") && check_req_number(
        j,
        "transactionId",
    ) && check_opt_string(j, "idTag") && reason_ok && check_opt_array_field_meter_values(
        j,
        "transactionData",
    )
}

pub open spec fn valid_log_status_notification_req(j: Json) -> bool {
    req_string_field(j, "status"@)
}

pub fn check_log_status_notification_req(j: &Json) -> (r: bool)
    ensures
        r == valid_log_status_notification_req(*j),
{
    check_req_string(j, "status")
}

pub open spec fn valid_security_event_notification_req(j: Json) -> bool {
    &&& req_string_field(j, "type"@)
    &&& req_string_field(j, "timestamp"@)
    &&& opt_string_field(j, "techInfo"@)
}

pub fn check_security_event_notification_req(j: &Json) -> (r: bool)
    ensures
        r == valid_security_event_notification_req(*j),
{
    check_req_string(j, "type") && check_req_string(j, "timestamp") && check_opt_string(
        j,
        "techInfo",
    )
}

pub open spec fn valid_sign_certificate_req(j: Json) -> bool {
    req_string_field(j, "csr"@)
}

pub fn check_sign_certificate_req(j: &Json) -> (r: bool)
    ensures
        r == valid_sign_certificate_req(*j),
{
    check_req_string(j, "csr")
}

pub open spec fn valid_signed_firmware_status_notification_req(j: Json) -> bool {
    req_string_field(j, "status"@)
}

pub fn check_signed_firmware_status_notification_req(j: &Json) -> (r: bool)
    ensures
        r == valid_signed_firmware_status_notification_req(*j),
{
    check_req_string(j, "status")
}

pub open spec fn valid_authorize_resp(j: Json) -> bool {
    match json_get(j, "idTagInfo"@) {
        Some(t) => valid_id_tag_info(t),
        None => false,
    }
}

pub fn check_authorize_resp(j: &Json) -> (r: bool)
    ensures
        r == valid_authorize_resp(*j),
{
    match get_field(j, "idTagInfo") {
        Some(t) => check_id_tag_info(t),
        None => false,
    }
}

pub open spec fn valid_data_transfer_resp(j: Json) -> bool {
    &&& match field_string_val(j, "status"@) {
        Some(v) => v == "Accepted"@ || v == "Rejected"@ || v == "UnknownMessageId"@ || v
            == "UnknownVendorId"@,
        None => false,
    }
    &&& opt_string_field(j, "data"@)
}

pub fn check_data_transfer_resp(j: &Json) -> (r: bool)
    ensures
        r == valid_data_transfer_resp(*j),
{
    let status_ok = match get_string_field(j, "status") {
        Some(s) => str_eq(s.as_str(), "Accepted") || str_eq(s.as_str(), "Rejected") || str_eq(
            s.as_str(),
            "UnknownMessageId",
        ) || str_eq(s.as_str(), "UnknownVendorId"),
        None => false,
    };
    status_ok && check_opt_string(j, "data")
}

pub open spec fn valid_sign_certificate_resp(j: Json) -> bool {
    match field_string_val(j, "status"@) {
        Some(v) => v == "Accepted"@ || v == "Rejected"@,
        None => false,
    }
}

pub fn check_sign_certificate_resp(j: &Json) -> (r: bool)
    ensures
        r == valid_sign_certificate_resp(*j),
{
    match get_string_field(j, "status") {
        Some(s) => str_eq(s.as_str(), "Accepted") || str_eq(s.as_str(), "Rejected"),
        None => false,
    }
}

pub open spec fn valid_start_transaction_resp(j: Json) -> bool {
    &&& match json_get(j, "idTagInfo"@) {
        Some(t) => valid_id_tag_info(t),
        None => false,
    }
    &&& req_number_field(j, "transactionId"@)
}

pub fn check_start_transaction_resp(j: &Json) -> (r: bool)
    ensures
        r == valid_start_transaction_resp(*j),
{
    let tag_ok = match get_field(j, "idTagInfo") {
        Some(t) => check_id_tag_info(t),
        None => false,
    };
    tag_ok && check_req_number(j, "transactionId")
}

pub open spec fn valid_stop_transaction_resp(j: Json) -> bool {
    match json_get(j, "idTagInfo"@) {
        Some(t) => valid_id_tag_info(t),
        None => true,
    }
}

pub fn check_stop_transaction_resp(j: &Json) -> (r: bool)
    ensures
        r == valid_stop_transaction_resp(*j),
{
    match get_field(j, "idTagInfo") {
        Some(t) => check_id_tag_info(t),
        None => true,
    }
}

pub open spec fn valid_cancel_reservation_req(j: Json) -> bool {
    req_number_field(j, "reservationId"@)
}

pub fn check_cancel_reservation_req(j: &Json) -> (r: bool)
    ensures
        r == valid_cancel_reservation_req(*j),
{
    check_req_number(j, "reservationId")
}

pub open spec fn valid_change_availability_req(j: Json) -> bool {
    &&& req_number_field(j, "connectorId"@)
    &&& match field_string_val(j, "type"@) {
        Some(v) => v == "Inoperative"@ || v == "Operative"@,
        None => false,
    }
}

pub fn check_change_availability_req(j: &Json) -> (r: bool)
    ensures
        r == valid_change_availability_req(*j),
{
    let type_ok = match get_string_field(j, "type") {
        Some(s) => str_eq(s.as_str(), "Inoperative") || str_eq(s.as_str(), "Operative"),
        None => false,
    };
    check_req_number(j, "connectorId") && type_ok
}

pub open spec fn valid_change_configuration_req(j: Json) -> bool {
    &&& req_string_field(j, "key"@)
    &&& req_string_field(j, "value"@)
}

pub fn check_change_configuration_req(j: &Json) -> (r: bool)
    ensures
        r == valid_change_configuration_req(*j),
{
    check_req_string(j, "key") && check_req_string(j, "value")
}

pub open spec fn valid_clear_charging_profile_req(j: Json) -> bool {
    &&& is_object(j)
    &&& match json_get(j, "chargingProfilePurpose"@) {
        Some(v) => match v {
            Json::Str(s) => s@ == "ChargePointMaxProfile"@ || s@ == "TxDefaultProfile"@ || s@
                == "TxProfile"@,
            _ => false,
        },
        None => true,
    }
    &&& opt_number_field(j, "connectorId"@)
    &&& opt_number_field(j, "id"@)
    &&& opt_number_field(j, "stackLevel"@)
}

pub fn check_clear_charging_profile_req(j: &Json) -> (r: bool)
    ensures
        r == valid_clear_charging_profile_req(*j),
{
    let purpose_ok = match get_field(j, "chargingProfilePurpose") {
        Some(v) => match v.as_string() {
            Some(s) => str_eq(s.as_str(), "ChargePointMaxProfile") || str_eq(
                s.as_str(),
                "TxDefaultProfile",
            ) || str_eq(s.as_str(), "TxProfile"),
            None => false,
        },
        None => true,
    };
    matches!(j, Json::Obj(_)) && purpose_ok && check_opt_number(j, "connectorId")
        && check_opt_number(j, "id") && check_opt_number(j, "stackLevel")
}

pub open spec fn valid_get_composite_schedule_req(j: Json) -> bool {
    &&& req_number_field(j, "connectorId"@)
    &&& req_number_field(j, "duration"@)
    &&& match json_get(j, "chargingRateUnit"@) {
        Some(v) => match v {
            Json::Str(s) => s@ == "A"@ || s@ == "W"@,
            _ => false,
        },
        None => true,
    }
}

pub fn check_get_composite_schedule_req(j: &Json) -> (r: bool)
    ensures
        r == valid_get_composite_schedule_req(*j),
{
    let unit_ok = match get_field(j, "chargingRateUnit") {
        Some(v) => match v.as_string() {
            Some(s) => str_eq(s.as_str(), "A") || str_eq(s.as_str(), "W"),
            None => false,
        },
        None => true,
    };
    check_req_number(j, "connectorId") && check_req_number(j, "duration") && unit_ok
}

pub open spec fn valid_get_configuration_req(j: Json) -> bool {
    &&& is_object(j)
    &&& opt_array_field_all(j, "key"@, (|x: Json| is_string(x)))
}

pub fn check_get_configuration_req(j: &Json) -> (r: bool)
    ensures
        r == valid_get_configuration_req(*j),
{
    matches!(j, Json::Obj(_)) && check_opt_array_field_strings(j, "key")
}

pub open spec fn valid_get_diagnostics_req(j: Json) -> bool {
    &&& req_string_field(j, "location"@)
    &&& opt_number_field(j, "retries"@)
    &&& opt_number_field(j, "retryInterval"@)
    &&& opt_string_field(j, "startTime"@)
    &&& opt_string_field(j, "stopTime"@)
}

pub fn check_get_diagnostics_req(j: &Json) -> (r: bool)
    ensures
        r == valid_get_diagnostics_req(*j),
{
    check_req_string(j, "location") && check_opt_number(j, "retries") && check_opt_number(
        j,
        "retryInterval",
    ) && check_opt_string(j, "startTime") && check_opt_string(j, "stopTime")
}

pub open spec fn valid_remote_start_transaction_req(j: Json) -> bool {
    &&& req_string_field(j, "idTag"@)
    &&& opt_number_field(j, "connectorId"@)
    &&& match json_get(j, "chargingProfile"@) {
        Some(p) => valid_charging_profile_obj(p),
        None => true,
    }
}

pub fn check_remote_start_transaction_req(j: &Json) -> (r: bool)
    ensures
        r == valid_remote_start_transaction_req(*j),
{
    let profile_ok = match get_field(j, "chargingProfile") {
        Some(p) => check_charging_profile_obj(p),
        None => true,
    };
    check_req_string(j, "idTag") && check_opt_number(j, "connectorId") && profile_ok
}

pub open spec fn valid_remote_stop_transaction_req(j: Json) -> bool {
    req_number_field(j, "transactionId"@)
}

pub fn check_remote_stop_transaction_req(j: &Json) -> (r: bool)
    ensures
        r == valid_remote_stop_transaction_req(*j),
{
    check_req_number(j, "transactionId")
}

pub open spec fn valid_reserve_now_req(j: Json) -> bool {
    &&& req_number_field(j, "connectorId"@)
    &&& req_string_field(j, "expiryDate"@)
    &&& req_string_field(j, "idTag"@)
    &&& opt_string_field(j, "parentIdTag"@)
    &&& req_number_field(j, "reservationId"@)
}

pub fn check_reserve_now_req(j: &Json) -> (r: bool)
    ensures
        r == valid_reserve_now_req(*j),
{
    check_req_number(j, "connectorId") && check_req_string(j, "expiryDate") && check_req_string(
        j,
        "idTag",
    ) && check_opt_string(j, "parentIdTag") && check_req_number(j, "reservationId")
}

pub open spec fn valid_reset_req(j: Json) -> bool {
    match field_string_val(j, "type"@) {
        Some(v) => v == "Hard"@ || v == "Soft"@,
        None => false,
    }
}

pub fn check_reset_req(j: &Json) -> (r: bool)
    ensures
        r == valid_reset_req(*j),
{
    match get_string_field(j, "type") {
        Some(s) => str_eq(s.as_str(), "Hard") || str_eq(s.as_str(), "Soft"),
        None => false,
    }
}

pub open spec fn valid_send_local_list_req(j: Json) -> bool {
    &&& req_number_field(j, "listVersion"@)
    &&& opt_array_field_all(j, "localAuthorizationList"@, (|x: Json| valid_local_authorization_item(
        x,
    )))
    &&& match field_string_val(j, "updateType"@) {
        Some(v) => v == "Differential"@ || v == "Full"@,
        None => false,
    }
}

pub fn check_send_local_list_req(j: &Json) -> (r: bool)
    ensures
        r == valid_send_local_list_req(*j),
{
    let update_ok = match get_string_field(j, "updateType") {
        Some(s) => str_eq(s.as_str(), "Differential") || str_eq(s.as_str(), "Full"),
        None => false,
    };
    check_req_number(j, "listVersion") && check_opt_array_field_local_auth(
        j,
        "localAuthorizationList",
    ) && update_ok
}

pub open spec fn valid_set_charging_profile_req(j: Json) -> bool {
    &&& req_number_field(j, "connectorId"@)
    &&& match json_get(j, "csChargingProfiles"@) {
        Some(p) => valid_charging_profile_obj(p),
        None => false,
    }
}

pub fn check_set_charging_profile_req(j: &Json) -> (r: bool)
    ensures
        r == valid_set_charging_profile_req(*j),
{
    let profile_ok = match get_field(j, "csChargingProfiles") {
        Some(p) => check_charging_profile_obj(p),
        None => false,
    };
    check_req_number(j, "connectorId") && profile_ok
}

pub open spec fn valid_trigger_message_req(j: Json) -> bool {
    &&& match field_string_val(j, "requestedMessage"@) {
        Some(v) => v == "BootNotification"@ || v == "DiagnosticsStatusNotification"@ || v
            == "FirmwareStatusNotification"@ || v == "Heartbeat"@ || v == "MeterValues"@ || v
            == "StatusNotification"@,
        None => false,
    }
    &&& opt_number_field(j, "connectorId"@)
}

pub fn check_trigger_message_req(j: &Json) -> (r: bool)
    ensures
        r == valid_trigger_message_req(*j),
{
    let msg_ok = match get_string_field(j, "requestedMessage") {
        Some(s) => str_eq(s.as_str(), "BootNotification") || str_eq(
            s.as_str(),
            "DiagnosticsStatusNotification",
        ) || str_eq(s.as_str(), "FirmwareStatusNotification") || str_eq(s.as_str(), "Heartbeat")
            || str_eq(s.as_str(), "MeterValues") || str_eq(s.as_str(), "StatusNotification"),
        None => false,
    };
    msg_ok && check_opt_number(j, "connectorId")
}

pub open spec fn valid_unlock_connector_req(j: Json) -> bool {
    req_number_field(j, "connectorId"@)
}

pub fn check_unlock_connector_req(j: &Json) -> (r: bool)
    ensures
        r == valid_unlock_connector_req(*j),
{
    check_req_number(j, "connectorId")
}

pub open spec fn valid_update_firmware_req(j: Json) -> bool {
    &&& req_string_field(j, "location"@)
    &&& opt_number_field(j, "retries"@)
    &&& req_string_field(j, "retrieveDate"@)
    &&& opt_number_field(j, "retryInterval"@)
}

pub fn check_update_firmware_req(j: &Json) -> (r: bool)
    ensures
        r == valid_update_firmware_req(*j),
{
    check_req_string(j, "location") && check_opt_number(j, "retries") && check_req_string(
        j,
        "retrieveDate",
    ) && check_opt_number(j, "retryInterval")
}

pub open spec fn valid_certificate_signed_req(j: Json) -> bool {
    req_string_field(j, "certificateChain"@)
}

pub fn check_certificate_signed_req(j: &Json) -> (r: bool)
    ensures
        r == valid_certificate_signed_req(*j),
{
    check_req_string(j, "certificateChain")
}

pub open spec fn valid_delete_certificate_req(j: Json) -> bool {
    match json_get(j, "certificateHashData"@) {
        Some(h) => valid_certificate_hash_data(h),
        None => false,
    }
}

pub fn check_delete_certificate_req(j: &Json) -> (r: bool)
    ensures
        r == valid_delete_certificate_req(*j),
{
    match get_field(j, "certificateHashData") {
        Some(h) => check_certificate_hash_data(h),
        None => false,
    }
}

pub open spec fn valid_extended_trigger_message_req(j: Json) -> bool {
    &&& req_string_field(j, "requestedMessage"@)
    &&& opt_number_field(j, "connectorId"@)
}

pub fn check_extended_trigger_message_req(j: &Json) -> (r: bool)
    ensures
        r == valid_extended_trigger_message_req(*j),
{
    check_req_string(j, "requestedMessage") && check_opt_number(j, "connectorId")
}

pub open spec fn valid_get_installed_certificate_ids_req(j: Json) -> bool {
    req_string_field(j, "certificateType"@)
}

pub fn check_get_installed_certificate_ids_req(j: &Json) -> (r: bool)
    ensures
        r == valid_get_installed_certificate_ids_req(*j),
{
    check_req_string(j, "certificateType")
}

pub open spec fn valid_get_log_req(j: Json) -> bool {
    &&& match json_get(j, "log"@) {
        Some(p) => valid_log_parameters(p),
        None => false,
    }
    &&& req_string_field(j, "logType"@)
    &&& req_number_field(j, "requestId"@)
}

pub fn check_get_log_req(j: &Json) -> (r: bool)
    ensures
        r == valid_get_log_req(*j),
{
    let log_ok = match get_field(j, "log") {
        Some(p) => check_log_parameters(p),
        None => false,
    };
    log_ok && check_req_string(j, "logType") && check_req_number(j, "requestId")
}

pub open spec fn valid_install_certificate_req(j: Json) -> bool {
    &&& req_string_field(j, "certificateType"@)
    &&& req_string_field(j, "certificate"@)
}

pub fn check_install_certificate_req(j: &Json) -> (r: bool)
    ensures
        r == valid_install_certificate_req(*j),
{
    check_req_string(j, "certificateType") && check_req_string(j, "certificate")
}

pub open spec fn valid_signed_update_firmware_req(j: Json) -> bool {
    &&& req_number_field(j, "requestId"@)
    &&& match json_get(j, "firmware"@) {
        Some(f) => valid_firmware_obj(f),
        None => false,
    }
}

pub fn check_signed_update_firmware_req(j: &Json) -> (r: bool)
    ensures
        r == valid_signed_update_firmware_req(*j),
{
    let firmware_ok = match get_field(j, "firmware") {
        Some(f) => check_firmware_obj(f),
        None => false,
    };
    check_req_number(j, "requestId") && firmware_ok
}

/// The schema that this server holds an operator-issued payload
/// against, selected by the action name: a request schema for actions
/// forwarded to the station, a response schema for the five actions
/// whose default reply the operator may override. An action outside the
/// supported closed set accepts nothing.
pub open spec fn operator_payload_ok(action: Seq<char>, j: Json) -> bool {
    if action == "Authorize"@ {
        valid_authorize_resp(j)
    } else if action == "CancelReservation"@ {
        valid_cancel_reservation_req(j)
    } else if action == "ChangeAvailability"@ {
        valid_change_availability_req(j)
    } else if action == "ChangeConfiguration"@ {
        valid_change_configuration_req(j)
    } else if action == "ClearCache"@ {
        is_object(j)
    } else if action == "ClearChargingProfile"@ {
        valid_clear_charging_profile_req(j)
    } else if action == "DataTransfer"@ {
        valid_data_transfer_req(j) || valid_data_transfer_resp(j)
    } else if action == "GetCompositeSchedule"@ {
        valid_get_composite_schedule_req(j)
    } else if action == "GetConfiguration"@ {
        valid_get_configuration_req(j)
    } else if action == "GetDiagnostics"@ {
        valid_get_diagnostics_req(j)
    } else if action == "GetLocalListVersion"@ {
        is_object(j)
    } else if action == "RemoteStartTransaction"@ {
        valid_remote_start_transaction_req(j)
    } else if action == "RemoteStopTransaction"@ {
        valid_remote_stop_transaction_req(j)
    } else if action == "ReserveNow"@ {
        valid_reserve_now_req(j)
    } else if action == "Reset"@ {
        valid_reset_req(j)
    } else if action == "SendLocalList"@ {
        valid_send_local_list_req(j)
    } else if action == "SetChargingProfile"@ {
        valid_set_charging_profile_req(j)
    } else if action == "TriggerMessage"@ {
        valid_trigger_message_req(j)
    } else if action == "UnlockConnector"@ {
        valid_unlock_connector_req(j)
    } else if action == "UpdateFirmware"@ {
        valid_update_firmware_req(j)
    } else if action == "CertificateSigned"@ {
        valid_certificate_signed_req(j)
    } else if action == "DeleteCertificate"@ {
        valid_delete_certificate_req(j)
    } else if action == "ExtendedTriggerMessage"@ {
        valid_extended_trigger_message_req(j)
    } else if action == "GetInstalledCertificateIds"@ {
        valid_get_installed_certificate_ids_req(j)
    } else if action == "GetLog"@ {
        valid_get_log_req(j)
    } else if action == "InstallCertificate"@ {
        valid_install_certificate_req(j)
    } else if action == "SignCertificate"@ {
        valid_sign_certificate_resp(j)
    } else if action == "SignedUpdateFirmware"@ {
        valid_signed_update_firmware_req(j)
    } else if action == "StartTransaction"@ {
        valid_start_transaction_resp(j)
    } else if action == "StopTransaction"@ {
        valid_stop_transaction_resp(j)
    } else {
        false
    }
}

/// Holds an operator-issued payload against the schema of its action.
pub fn check_operator_payload(action: &str, j: &Json) -> (r: bool)
    ensures
        r == operator_payload_ok(action@, *j),
{
    if str_eq(action, "Authorize") {
        check_authorize_resp(j)
    } else if str_eq(action, "CancelReservation") {
        check_cancel_reservation_req(j)
    } else if str_eq(action, "ChangeAvailability") {
        check_change_availability_req(j)
    } else if str_eq(action, "ChangeConfiguration") {
        check_change_configuration_req(j)
    } else if str_eq(action, "ClearCache") {
        matches!(j, Json::Obj(_))
    } else if str_eq(action, "ClearChargingProfile") {
        check_clear_charging_profile_req(j)
    } else if str_eq(action, "DataTransfer") {
        check_data_transfer_req(j) || check_data_transfer_resp(j)
    } else if str_eq(action, "GetCompositeSchedule") {
        check_get_composite_schedule_req(j)
    } else if str_eq(action, "GetConfiguration") {
        check_get_configuration_req(j)
    } else if str_eq(action, "GetDiagnostics") {
        check_get_diagnostics_req(j)
    } else if str_eq(action, "GetLocalListVersion") {
        matches!(j, Json::Obj(_))
    } else if str_eq(action, "RemoteStartTransaction") {
        check_remote_start_transaction_req(j)
    } else if str_eq(action, "RemoteStopTransaction") {
        check_remote_stop_transaction_req(j)
    } else if str_eq(action, "ReserveNow") {
        check_reserve_now_req(j)
    } else if str_eq(action, "Reset") {
        check_reset_req(j)
    } else if str_eq(action, "SendLocalList") {
        check_send_local_list_req(j)
    } else if str_eq(action, "SetChargingProfile") {
        check_set_charging_profile_req(j)
    } else if str_eq(action, "TriggerMessage") {
        check_trigger_message_req(j)
    } else if str_eq(action, "UnlockConnector") {
        check_unlock_connector_req(j)
    } else if str_eq(action, "UpdateFirmware") {
        check_update_firmware_req(j)
    } else if str_eq(action, "CertificateSigned") {
        check_certificate_signed_req(j)
    } else if str_eq(action, "DeleteCertificate") {
        check_delete_certificate_req(j)
    } else if str_eq(action, "ExtendedTriggerMessage") {
        check_extended_trigger_message_req(j)
    } else if str_eq(action, "GetInstalledCertificateIds") {
        check_get_installed_certificate_ids_req(j)
    } else if str_eq(action, "GetLog") {
        check_get_log_req(j)
    } else if str_eq(action, "InstallCertificate") {
        check_install_certificate_req(j)
    } else if str_eq(action, "SignCertificate") {
        check_sign_certificate_resp(j)
    } else if str_eq(action, "SignedUpdateFirmware") {
        check_signed_update_firmware_req(j)
    } else if str_eq(action, "StartTransaction") {
        check_start_transaction_resp(j)
    } else if str_eq(action, "StopTransaction") {
        check_stop_transaction_resp(j)
    } else {
        false
    }
}

/// Field-wise correspondence between a typed `IdTagInfo` and the JSON
/// object it was read from.
pub open spec fn id_tag_info_matches_json(t: IdTagInfo, j: Json) -> bool {
    &&& match json_get(j, "expiryDate"@) {
        Some(v) => v matches Json::Str(s) && t.expiry_date matches Some(e) && e@ == s@,
        None => t.expiry_date is None,
    }
    &&& match json_get(j, "parentIdTag"@) {
        Some(v) => v matches Json::Str(s) && t.parent_id_tag matches Some(e) && e@ == s@,
        None => t.parent_id_tag is None,
    }
    &&& match field_string_val(j, "status"@) {
        Some(v) => id_tag_status_text(t.status) == v,
        None => false,
    }
}

/// Reads an `idTagInfo` object into its typed form; `None` exactly when
/// the object fails the `IdTagInfo` shape.
pub fn json_to_id_tag_info(j: &Json) -> (r: Option<IdTagInfo>)
    ensures
        (r is Some) <==> valid_id_tag_info(*j),
        r matches Some(t) ==> id_tag_info_matches_json(t, *j),
{
    let status = match get_string_field(j, "status") {
        Some(s) => {
            if str_eq(s.as_str(), "Accepted") {
                IdTagInfoStatus::Accepted
            } else if str_eq(s.as_str(), "Blocked") {
                IdTagInfoStatus::Blocked
            } else if str_eq(s.as_str(), "ConcurrentTx") {
                IdTagInfoStatus::ConcurrentTx
            } else if str_eq(s.as_str(), "Expired") {
                IdTagInfoStatus::Expired
            } else if str_eq(s.as_str(), "Invalid") {
                IdTagInfoStatus::Invalid
            } else {
                return None;
            }
        },
        None => {
            return None;
        },
    };
    let expiry_date = match get_field(j, "expiryDate") {
        Some(v) => match v.as_string() {
            Some(s) => Some(s.clone()),
            None => {
                return None;
            },
        },
        None => None,
    };
    let parent_id_tag = match get_field(j, "parentIdTag") {
        Some(v) => match v.as_string() {
            Some(s) => Some(s.clone()),
            None => {
                return None;
            },
        },
        None => None,
    };
    Some(IdTagInfo { expiry_date, parent_id_tag, status })
}

pub open spec fn authorize_response_matches_json(r: AuthorizeResponse, j: Json) -> bool {
    match json_get(j, "idTagInfo"@) {
        Some(tj) => id_tag_info_matches_json(r.id_tag_info, tj),
        None => false,
    }
}

/// Reads an Authorize response payload into its typed form.
pub fn json_to_authorize_response(j: &Json) -> (r: Option<AuthorizeResponse>)
    ensures
        (r is Some) <==> valid_authorize_resp(*j),
        r matches Some(a) ==> authorize_response_matches_json(a, *j),
{
    match get_field(j, "idTagInfo") {
        Some(tj) => match json_to_id_tag_info(tj) {
            Some(t) => Some(AuthorizeResponse { id_tag_info: t }),
            None => None,
        },
        None => None,
    }
}

pub open spec fn data_transfer_status_of(v: Seq<char>) -> Option<DataTransferStatus> {
    if v == "Accepted"@ {
        Some(DataTransferStatus::Accepted)
    } else if v == "Rejected"@ {
        Some(DataTransferStatus::Rejected)
    } else if v == "UnknownMessageId"@ {
        Some(DataTransferStatus::UnknownMessageId)
    } else if v == "UnknownVendorId"@ {
        Some(DataTransferStatus::UnknownVendorId)
    } else {
        None
    }
}

pub open spec fn data_transfer_response_matches_json(r: DataTransferResponse, j: Json) -> bool {
    &&& match field_string_val(j, "status"@) {
        Some(v) => data_transfer_status_of(v) == Some(r.status),
        None => false,
    }
    &&& match json_get(j, "data"@) {
        Some(v) => v matches Json::Str(s) && r.data matches Some(e) && e@ == s@,
        None => r.data is None,
    }
}

/// Reads a DataTransfer response payload into its typed form.
pub fn json_to_data_transfer_response(j: &Json) -> (r: Option<DataTransferResponse>)
    ensures
        (r is Some) <==> valid_data_transfer_resp(*j),
        r matches Some(a) ==> data_transfer_response_matches_json(a, *j),
{
    let status = match get_string_field(j, "status") {
        Some(s) => {
            if str_eq(s.as_str(), "Accepted") {
                DataTransferStatus::Accepted
            } else if str_eq(s.as_str(), "Rejected") {
                DataTransferStatus::Rejected
            } else if str_eq(s.as_str(), "UnknownMessageId") {
                DataTransferStatus::UnknownMessageId
            } else if str_eq(s.as_str(), "UnknownVendorId") {
                DataTransferStatus::UnknownVendorId
            } else {
                return None;
            }
        },
        None => {
            return None;
        },
    };
    let data = match get_field(j, "data") {
        Some(v) => match v.as_string() {
            Some(s) => Some(s.clone()),
            None => {
                return None;
            },
        },
        None => None,
    };
    Some(DataTransferResponse { data, status })
}

pub open spec fn sign_certificate_response_matches_json(
    r: SignCertificateResponse,
    j: Json,
) -> bool {
    match field_string_val(j, "status"@) {
        Some(v) => (v == "Accepted"@ && r.status == GenericStatusEnumType::Accepted) || (v
            == "Rejected"@ && r.status == GenericStatusEnumType::Rejected),
        None => false,
    }
}

/// Reads a SignCertificate response payload into its typed form.
pub fn json_to_sign_certificate_response(j: &Json) -> (r: Option<SignCertificateResponse>)
    ensures
        (r is Some) <==> valid_sign_certificate_resp(*j),
        r matches Some(a) ==> sign_certificate_response_matches_json(a, *j),
{
    match get_string_field(j, "status") {
        Some(s) => {
            if str_eq(s.as_str(), "Accepted") {
                Some(SignCertificateResponse { status: GenericStatusEnumType::Accepted })
            } else if str_eq(s.as_str(), "Rejected") {
                Some(SignCertificateResponse { status: GenericStatusEnumType::Rejected })
            } else {
                None
            }
        },
        None => None,
    }
}

pub open spec fn start_transaction_response_matches_json(
    r: StartTransactionResponse,
    j: Json,
) -> bool {
    &&& match json_get(j, "idTagInfo"@) {
        Some(tj) => id_tag_info_matches_json(r.id_tag_info, tj),
        None => false,
    }
    &&& json_get(j, "transactionId"@) == Some(Json::Int(r.transaction_id))
}

/// Reads a StartTransaction response payload into its typed form. The
/// transaction id must be a plain integer literal; a fractional or
/// exponent form is refused even where the shape check admits it.
pub fn json_to_start_transaction_response(j: &Json) -> (r: Option<StartTransactionResponse>)
    ensures
        (r is Some) <==> (valid_start_transaction_resp(*j) && (json_get(*j, "transactionId"@)
            matches Some(v) && v is Int)),
        r matches Some(a) ==> start_transaction_response_matches_json(a, *j),
{
    let tag = match get_field(j, "idTagInfo") {
        Some(tj) => match json_to_id_tag_info(tj) {
            Some(t) => t,
            None => {
                return None;
            },
        },
        None => {
            return None;
        },
    };
    match get_field(j, "transactionId") {
        Some(v) => match v {
            Json::Int(n) => Some(
                StartTransactionResponse { id_tag_info: tag, transaction_id: *n },
            ),
            _ => None,
        },
        None => None,
    }
}

pub open spec fn stop_transaction_response_matches_json(
    r: StopTransactionResponse,
    j: Json,
) -> bool {
    match json_get(j, "idTagInfo"@) {
        Some(tj) => r.id_tag_info matches Some(t) && id_tag_info_matches_json(t, tj),
        None => r.id_tag_info is None,
    }
}

/// Reads a StopTransaction response payload into its typed form.
pub fn json_to_stop_transaction_response(j: &Json) -> (r: Option<StopTransactionResponse>)
    ensures
        (r is Some) <==> valid_stop_transaction_resp(*j),
        r matches Some(a) ==> stop_transaction_response_matches_json(a, *j),
{
    match get_field(j, "idTagInfo") {
        Some(tj) => match json_to_id_tag_info(tj) {
            Some(t) => Some(StopTransactionResponse { id_tag_info: Some(t) }),
            None => None,
        },
        None => Some(StopTransactionResponse { id_tag_info: None }),
    }
}

/// The field holds an array whose every element satisfies `p`.
pub open spec fn array_field_all(j: Json, key: Seq<char>, p: spec_fn(Json) -> bool) -> bool {
    match json_get(j, key) {
        Some(v) => match v {
            Json::Arr(items) => forall|k: int| 0 <= k < items@.len() ==> p(#[trigger] items@[k]),
            _ => false,
        },
        None => false,
    }
}

/// The field, when present, holds an array whose every element
/// satisfies `p`.
pub open spec fn opt_array_field_all(j: Json, key: Seq<char>, p: spec_fn(Json) -> bool) -> bool {
    match json_get(j, key) {
        Some(v) => match v {
            Json::Arr(items) => forall|k: int| 0 <= k < items@.len() ==> p(#[trigger] items@[k]),
            _ => false,
        },
        None => true,
    }
}

/// One entry of a `sampledValue` list: a reading with its value text.
pub open spec fn valid_sampled_value_item(j: Json) -> bool {
    req_string_field(j, "value"@)
}

fn check_sampled_value_item(j: &Json) -> (r: bool)
    ensures
        r == valid_sampled_value_item(*j),
{
    check_req_string(j, "value")
}

/// One entry of a `meterValue` or `transactionData` list: a timestamped
/// batch of readings.
pub open spec fn valid_meter_value_item(j: Json) -> bool {
    &&& array_field_all(j, "sampledValue"@, |x: Json| valid_sampled_value_item(x))
    &&& req_string_field(j, "timestamp"@)
}

#[verifier::loop_isolation(false)]
fn check_meter_value_item(j: &Json) -> (r: bool)
    ensures
        r == valid_meter_value_item(*j),
{
    let batch_ok = match get_field(j, "sampledValue") {
        Some(v) => match v {
            Json::Arr(items) => {
                proof {
                    assert(*v == Json::Arr(*items));
                }
                let mut k: usize = 0;
                while k < items.len()
                    invariant
                        0 <= k <= items@.len(),
                        forall|m: int| 0 <= m < k ==> valid_sampled_value_item(
                            #[trigger] items@[m],
                        ),
                    decreases items@.len() - k,
                {
                    if !check_sampled_value_item(&items[k]) {
                        proof {
                            assert(!valid_sampled_value_item(items@[k as int]));
                        }
                        return false;
                    }
                    k += 1;
                }
                true
            },
            _ => false,
        },
        None => false,
    };
    batch_ok && check_req_string(j, "timestamp")
}

#[verifier::loop_isolation(false)]
fn check_array_field_meter_values(j: &Json, key: &str) -> (r: bool)
    ensures
        r == array_field_all(*j, key@, |x: Json| valid_meter_value_item(x)),
{
    match get_field(j, key) {
        Some(v) => match v {
            Json::Arr(items) => {
                proof {
                    assert(*v == Json::Arr(*items));
                }
                let mut k: usize = 0;
                while k < items.len()
                    invariant
                        0 <= k <= items@.len(),
                        forall|m: int| 0 <= m < k ==> valid_meter_value_item(#[trigger] items@[m]),
                    decreases items@.len() - k,
                {
                    if !check_meter_value_item(&items[k]) {
                        proof {
                            assert(!valid_meter_value_item(items@[k as int]));
                        }
                        return false;
                    }
                    k += 1;
                }
                true
            },
            _ => false,
        },
        None => false,
    }
}

/// One entry of a `chargingSchedulePeriod` list.
pub open spec fn valid_charging_schedule_period_item(j: Json) -> bool {
    &&& req_number_field(j, "limit"@)
    &&& req_number_field(j, "startPeriod"@)
    &&& opt_number_field(j, "numberPhases"@)
}

fn check_charging_schedule_period_item(j: &Json) -> (r: bool)
    ensures
        r == valid_charging_schedule_period_item(*j),
{
    check_req_number(j, "limit") && check_req_number(j, "startPeriod") && check_opt_number(
        j,
        "numberPhases",
    )
}

/// The `chargingSchedule` object of a charging profile.
pub open spec fn valid_charging_schedule_obj(j: Json) -> bool {
    &&& match field_string_val(j, "chargingRateUnit"@) {
        Some(v) => v == "A"@ || v == "W"@,
        None => false,
    }
    &&& array_field_all(j, "chargingSchedulePeriod"@, |x: Json| valid_charging_schedule_period_item(
        x,
    ))
    &&& opt_number_field(j, "duration"@)
    &&& opt_number_field(j, "minChargingRate"@)
    &&& opt_string_field(j, "startSchedule"@)
}

#[verifier::loop_isolation(false)]
fn check_charging_schedule_obj(j: &Json) -> (r: bool)
    ensures
        r == valid_charging_schedule_obj(*j),
{
    let unit_ok = match get_string_field(j, "chargingRateUnit") {
        Some(s) => str_eq(s.as_str(), "A") || str_eq(s.as_str(), "W"),
        None => false,
    };
    let periods_ok = match get_field(j, "chargingSchedulePeriod") {
        Some(v) => match v {
            Json::Arr(items) => {
                proof {
                    assert(*v == Json::Arr(*items));
                }
                let mut k: usize = 0;
                while k < items.len()
                    invariant
                        0 <= k <= items@.len(),
                        forall|m: int| 0 <= m < k ==> valid_charging_schedule_period_item(
                            #[trigger] items@[m],
                        ),
                    decreases items@.len() - k,
                {
                    if !check_charging_schedule_period_item(&items[k]) {
                        proof {
                            assert(!valid_charging_schedule_period_item(items@[k as int]));
                        }
                        return false;
                    }
                    k += 1;
                }
                true
            },
            _ => false,
        },
        None => false,
    };
    unit_ok && periods_ok && check_opt_number(j, "duration") && check_opt_number(
        j,
        "minChargingRate",
    ) && check_opt_string(j, "startSchedule")
}

/// A charging profile object, as `SetChargingProfile` and
/// `RemoteStartTransaction` carry it.
pub open spec fn valid_charging_profile_obj(j: Json) -> bool {
    &&& req_number_field(j, "chargingProfileId"@)
    &&& match field_string_val(j, "chargingProfileKind"@) {
        Some(v) => v == "Absolute"@ || v == "Recurring"@ || v == "Relative"@,
        None => false,
    }
    &&& match field_string_val(j, "chargingProfilePurpose"@) {
        Some(v) => v == "ChargePointMaxProfile"@ || v == "TxDefaultProfile"@ || v == "TxProfile"@,
        None => false,
    }
    &&& match json_get(j, "chargingSchedule"@) {
        Some(cs) => valid_charging_schedule_obj(cs),
        None => false,
    }
    &&& req_number_field(j, "stackLevel"@)
    &&& opt_number_field(j, "transactionId"@)
    &&& match json_get(j, "recurrencyKind"@) {
        Some(v) => match v {
            Json::Str(s) => s@ == "Daily"@ || s@ == "Weekly"@,
            _ => false,
        },
        None => true,
    }
    &&& opt_string_field(j, "validFrom"@)
    &&& opt_string_field(j, "validTo"@)
}

fn check_charging_profile_obj(j: &Json) -> (r: bool)
    ensures
        r == valid_charging_profile_obj(*j),
{
    let kind_ok = match get_string_field(j, "chargingProfileKind") {
        Some(s) => str_eq(s.as_str(), "Absolute") || str_eq(s.as_str(), "Recurring") || str_eq(
            s.as_str(),
            "Relative",
        ),
        None => false,
    };
    let purpose_ok = match get_string_field(j, "chargingProfilePurpose") {
        Some(s) => str_eq(s.as_str(), "ChargePointMaxProfile") || str_eq(
            s.as_str(),
            "TxDefaultProfile",
        ) || str_eq(s.as_str(), "TxProfile"),
        None => false,
    };
    let schedule_ok = match get_field(j, "chargingSchedule") {
        Some(cs) => check_charging_schedule_obj(cs),
        None => false,
    };
    let recurrency_ok = match get_field(j, "recurrencyKind") {
        Some(v) => match v.as_string() {
            Some(s) => str_eq(s.as_str(), "Daily") || str_eq(s.as_str(), "Weekly"),
            None => false,
        },
        None => true,
    };
    check_req_number(j, "chargingProfileId") && kind_ok && purpose_ok && schedule_ok
        && check_req_number(j, "stackLevel") && check_opt_number(j, "transactionId")
        && recurrency_ok && check_opt_string(j, "validFrom") && check_opt_string(j, "validTo")
}

/// One entry of a `localAuthorizationList`.
pub open spec fn valid_local_authorization_item(j: Json) -> bool {
    &&& req_string_field(j, "idTag"@)
    &&& match json_get(j, "idTagInfo"@) {
        Some(t) => valid_id_tag_info(t),
        None => true,
    }
}

fn check_local_authorization_item(j: &Json) -> (r: bool)
    ensures
        r == valid_local_authorization_item(*j),
{
    let info_ok = match get_field(j, "idTagInfo") {
        Some(t) => check_id_tag_info(t),
        None => true,
    };
    check_req_string(j, "idTag") && info_ok
}

#[verifier::loop_isolation(false)]
fn check_opt_array_field_meter_values(j: &Json, key: &str) -> (r: bool)
    ensures
        r == opt_array_field_all(*j, key@, |x: Json| valid_meter_value_item(x)),
{
    match get_field(j, key) {
        Some(v) => match v {
            Json::Arr(items) => {
                proof {
                    assert(*v == Json::Arr(*items));
                }
                let mut k: usize = 0;
                while k < items.len()
                    invariant
                        0 <= k <= items@.len(),
                        forall|m: int| 0 <= m < k ==> valid_meter_value_item(#[trigger] items@[m]),
                    decreases items@.len() - k,
                {
                    if !check_meter_value_item(&items[k]) {
                        proof {
                            assert(!valid_meter_value_item(items@[k as int]));
                        }
                        return false;
                    }
                    k += 1;
                }
                true
            },
            _ => false,
        },
        None => true,
    }
}

#[verifier::loop_isolation(false)]
fn check_opt_array_field_local_auth(j: &Json, key: &str) -> (r: bool)
    ensures
        r == opt_array_field_all(*j, key@, |x: Json| valid_local_authorization_item(x)),
{
    match get_field(j, key) {
        Some(v) => match v {
            Json::Arr(items) => {
                proof {
                    assert(*v == Json::Arr(*items));
                }
                let mut k: usize = 0;
                while k < items.len()
                    invariant
                        0 <= k <= items@.len(),
                        forall|m: int| 0 <= m < k ==> valid_local_authorization_item(
                            #[trigger] items@[m],
                        ),
                    decreases items@.len() - k,
                {
                    if !check_local_authorization_item(&items[k]) {
                        proof {
                            assert(!valid_local_authorization_item(items@[k as int]));
                        }
                        return false;
                    }
                    k += 1;
                }
                true
            },
            _ => false,
        },
        None => true,
    }
}

#[verifier::loop_isolation(false)]
fn check_opt_array_field_strings(j: &Json, key: &str) -> (r: bool)
    ensures
        r == opt_array_field_all(*j, key@, |x: Json| is_string(x)),
{
    match get_field(j, key) {
        Some(v) => match v {
            Json::Arr(items) => {
                proof {
                    assert(*v == Json::Arr(*items));
                }
                let mut k: usize = 0;
                while k < items.len()
                    invariant
                        0 <= k <= items@.len(),
                        forall|m: int| 0 <= m < k ==> is_string(#[trigger] items@[m]),
                    decreases items@.len() - k,
                {
                    if !(matches!(&items[k], Json::Str(_))) {
                        proof {
                            assert(!is_string(items@[k as int]));
                        }
                        return false;
                    }
                    k += 1;
                }
                true
            },
            _ => false,
        },
        None => true,
    }
}

/// A `certificateHashData` object of the security extension.
pub open spec fn valid_certificate_hash_data(j: Json) -> bool {
    &&& match field_string_val(j, "hashAlgorithm"@) {
        Some(v) => v == "SHA256"@ || v == "SHA384"@ || v == "SHA512"@,
        None => false,
    }
    &&& req_string_field(j, "issuerNameHash"@)
    &&& req_string_field(j, "issuerKeyHash"@)
    &&& req_string_field(j, "serialNumber"@)
}

fn check_certificate_hash_data(j: &Json) -> (r: bool)
    ensures
        r == valid_certificate_hash_data(*j),
{
    let algo_ok = match get_string_field(j, "hashAlgorithm") {
        Some(s) => str_eq(s.as_str(), "SHA256") || str_eq(s.as_str(), "SHA384") || str_eq(
            s.as_str(),
            "SHA512",
        ),
        None => false,
    };
    algo_ok && check_req_string(j, "issuerNameHash") && check_req_string(j, "issuerKeyHash")
        && check_req_string(j, "serialNumber")
}

/// The `log` parameters object of a `GetLog` request.
pub open spec fn valid_log_parameters(j: Json) -> bool {
    &&& req_string_field(j, "remoteLocation"@)
    &&& opt_string_field(j, "oldestTimestamp"@)
    &&& opt_string_field(j, "latestTimestamp"@)
}

fn check_log_parameters(j: &Json) -> (r: bool)
    ensures
        r == valid_log_parameters(*j),
{
    check_req_string(j, "remoteLocation") && check_opt_string(j, "oldestTimestamp")
        && check_opt_string(j, "latestTimestamp")
}

/// The `firmware` object of a `SignedUpdateFirmware` request.
pub open spec fn valid_firmware_obj(j: Json) -> bool {
    &&& req_string_field(j, "location"@)
    &&& (req_string_field(j, "retrieveDateTime"@) || req_string_field(j, "retrieveDate"@))
    &&& req_string_field(j, "signingCertificate"@)
    &&& req_string_field(j, "signature"@)
}

fn check_firmware_obj(j: &Json) -> (r: bool)
    ensures
        r == valid_firmware_obj(*j),
{
    check_req_string(j, "location") && (check_req_string(j, "retrieveDateTime")
        || check_req_string(j, "retrieveDate")) && check_req_string(j, "signingCertificate")
        && check_req_string(j, "signature")
}

} // verus!
