use vstd::prelude::*;

verus! {

// The OCPP 1.6 request payload shapes, plus the security extension set.
// Field names follow the snake_case form of the wire keys; the wire
// spelling of each key is recorded in `crate::schema`, which checks raw
// payload text against these shapes.

#[derive(Clone, Debug)]
pub struct AuthorizeRequest {
    pub id_tag: String,
}

#[derive(Clone, Debug)]
pub struct BootNotificationRequest {
    pub charge_box_serial_number: Option<String>,
    pub charge_point_model: String,
    pub charge_point_serial_number: Option<String>,
    pub charge_point_vendor: String,
    pub firmware_version: Option<String>,
    pub iccid: Option<String>,
    pub imsi: Option<String>,
    pub meter_serial_number: Option<String>,
    pub meter_type: Option<String>,
}

#[derive(Clone, Debug)]
pub struct UpdateFirmwareRequest {
    pub location: String,
    pub retries: Option<i64>,
    pub retrieve_date: String,
    pub retry_interval: Option<i64>,
}

#[derive(Clone, Debug)]
pub struct UnlockConnectorRequest {
    pub connector_id: i64,
}

#[derive(Clone, Debug)]
pub struct CancelReservationRequest {
    pub reservation_id: i64,
}

#[derive(Clone, Debug)]
pub struct ChangeAvailabilityRequest {
    pub connector_id: i64,
    pub change_availability_request_type: Type,
}

#[derive(Clone, Copy, Debug, PartialEq, Eq, Structural)]
pub enum Type {
    Inoperative,
    Operative,
}

#[derive(Clone, Debug)]
pub struct ChangeConfigurationRequest {
    pub key: String,
    pub value: String,
}

#[derive(Clone, Debug)]
pub struct ClearCacheRequest {}

#[derive(Clone, Debug)]
pub struct ClearChargingProfileRequest {
    pub charging_profile_purpose: Option<ChargingProfilePurpose>,
    pub connector_id: Option<i64>,
    pub id: Option<i64>,
    pub stack_level: Option<i64>,
}

#[derive(Clone, Copy, Debug, PartialEq, Eq, Structural)]
pub enum ChargingProfilePurpose {
    ChargePointMaxProfile,
    TxDefaultProfile,
    TxProfile,
}

#[derive(Clone, Debug)]
pub struct DataTransferRequest {
    pub data: Option<String>,
    pub message_id: Option<String>,
    pub vendor_id: String,
}

#[derive(Clone, Debug)]
pub struct DiagnosticsStatusNotificationRequest {
    pub status: DiagnosticsStatus,
}

#[derive(Clone, Copy, Debug, PartialEq, Eq, Structural)]
pub enum DiagnosticsStatus {
    Idle,
    UploadFailed,
    Uploaded,
    Uploading,
}

#[derive(Clone, Debug)]
pub struct FirmwareStatusNotificationRequest {
    pub status: FirmwareStatus,
}

#[derive(Clone, Copy, Debug, PartialEq, Eq, Structural)]
pub enum FirmwareStatus {
    DownloadFailed,
    Downloaded,
    Downloading,
    Idle,
    InstallationFailed,
    Installed,
    Installing,
}

#[derive(Clone, Debug)]
pub struct GetCompositeScheduleRequest {
    pub charging_rate_unit: Option<ChargingRateUnit>,
    pub connector_id: i64,
    pub duration: i64,
}

#[derive(Clone, Copy, Debug, PartialEq, Eq, Structural)]
pub enum ChargingRateUnit {
    A,
    W,
}

#[derive(Clone, Debug)]
pub struct GetConfigurationRequest {
    pub key: Option<Vec<String>>,
}

#[derive(Clone, Debug)]
pub struct GetDiagnosticsRequest {
    pub location: String,
    pub retries: Option<i64>,
    pub retry_interval: Option<i64>,
    pub start_time: Option<String>,
    pub stop_time: Option<String>,
}

#[derive(Clone, Debug)]
pub struct GetLocalListVersionRequest {}

#[derive(Clone, Debug)]
pub struct HeartbeatRequest {}

#[derive(Clone, Debug)]
pub struct MeterValuesRequest {
    pub connector_id: i64,
    pub meter_value: Vec<MeterValue>,
    pub transaction_id: Option<i64>,
}

#[derive(Clone, Debug)]
pub struct MeterValue {
    pub sampled_value: Vec<SampledValue>,
    pub timestamp: String,
}

#[derive(Clone, Debug)]
pub struct SampledValue {
    pub context: Option<Context>,
    pub format: Option<Format>,
    pub location: Option<Location>,
    pub measurand: Option<Measurand>,
    pub phase: Option<Phase>,
    pub unit: Option<Unit>,
    pub value: String,
}

#[derive(Clone, Copy, Debug, PartialEq, Eq, Structural)]
pub enum Context {
    InterruptionBegin,
    InterruptionEnd,
    Other,
    SampleClock,
    SamplePeriodic,
    TransactionBegin,
    TransactionEnd,
    Trigger,
}

#[derive(Clone, Copy, Debug, PartialEq, Eq, Structural)]
pub enum Format {
    Raw,
    SignedData,
}

#[derive(Clone, Copy, Debug, PartialEq, Eq, Structural)]
pub enum Location {
    Body,
    Cable,
    Ev,
    Inlet,
    Outlet,
}

#[derive(Clone, Copy, Debug, PartialEq, Eq, Structural)]
pub enum Measurand {
    CurrentExport,
    CurrentImport,
    CurrentOffered,
    EnergyActiveExportInterval,
    EnergyActiveExportRegister,
    EnergyActiveImportInterval,
    EnergyActiveImportRegister,
    EnergyReactiveExportInterval,
    EnergyReactiveExportRegister,
    EnergyReactiveImportInterval,
    EnergyReactiveImportRegister,
    Frequency,
    PowerActiveExport,
    PowerActiveImport,
    PowerFactor,
    PowerOffered,
    PowerReactiveExport,
    PowerReactiveImport,
    Rpm,
    SoC,
    Temperature,
    Voltage,
}

#[derive(Clone, Copy, Debug, PartialEq, Eq, Structural)]
pub enum Phase {
    L1,
    L1L2,
    L1N,
    L2,
    L2L3,
    L2N,
    L3,
    L3L1,
    L3N,
    N,
}

#[derive(Clone, Copy, Debug, PartialEq, Eq, Structural)]
pub enum Unit {
    A,
    Celcius,
    Celsius,
    Fahrenheit,
    K,
    KVa,
    KW,
    KWh,
    Kvar,
    Kvarh,
    Percent,
    V,
    Va,
    Var,
    Varh,
    W,
    Wh,
}

#[derive(Clone, Debug)]
pub struct RemoteStopTransactionRequest {
    pub transaction_id: i64,
}

#[derive(Clone, Debug)]
pub struct ReserveNowRequest {
    pub connector_id: i64,
    pub expiry_date: String,
    pub id_tag: String,
    pub parent_id_tag: Option<String>,
    pub reservation_id: i64,
}

#[derive(Clone, Debug)]
pub struct ResetRequest {
    pub reset_request_type: ResetType,
}

#[derive(Clone, Copy, Debug, PartialEq, Eq, Structural)]
pub enum ResetType {
    Hard,
    Soft,
}

#[derive(Clone, Debug)]
pub struct SendLocalListRequest {
    pub list_version: i64,
    pub local_authorization_list: Option<Vec<LocalAuthorizationList>>,
    pub update_type: UpdateType,
}

#[derive(Clone, Debug)]
pub struct LocalAuthorizationList {
    pub id_tag: String,
    pub id_tag_info: Option<IdTagInfo>,
}

#[derive(Clone, Debug)]
pub struct IdTagInfo {
    pub expiry_date: Option<String>,
    pub parent_id_tag: Option<String>,
    pub status: IdTagInfoStatus,
}

#[derive(Clone, Copy, Debug, PartialEq, Eq, Structural)]
pub enum IdTagInfoStatus {
    Accepted,
    Blocked,
    ConcurrentTx,
    Expired,
    Invalid,
}

#[derive(Clone, Copy, Debug, PartialEq, Eq, Structural)]
pub enum UpdateType {
    Differential,
    Full,
}

#[derive(Clone, Debug)]
pub struct StartTransactionRequest {
    pub connector_id: i64,
    pub id_tag: String,
    pub meter_start: i64,
    pub reservation_id: Option<i64>,
    pub timestamp: String,
}

#[derive(Clone, Debug)]
pub struct StatusNotificationRequest {
    pub connector_id: i64,
    pub error_code: ErrorCode,
    pub info: Option<String>,
    pub status: StatusNotificationStatus,
    pub timestamp: Option<String>,
    pub vendor_error_code: Option<String>,
    pub vendor_id: Option<String>,
}

#[derive(Clone, Copy, Debug, PartialEq, Eq, Structural)]
pub enum ErrorCode {
    ConnectorLockFailure,
    EvCommunicationError,
    GroundFailure,
    HighTemperature,
    InternalError,
    LocalListConflict,
    NoError,
    OtherError,
    OverCurrentFailure,
    OverVoltage,
    PowerMeterFailure,
    PowerSwitchFailure,
    ReaderFailure,
    ResetFailure,
    UnderVoltage,
    WeakSignal,
}

#[derive(Clone, Copy, Debug, PartialEq, Eq, Structural)]
pub enum StatusNotificationStatus {
    Available,
    Charging,
    Faulted,
    Finishing,
    Preparing,
    Reserved,
    SuspendedEv,
    SuspendedEvse,
    Unavailable,
}

#[derive(Clone, Debug)]
pub struct StopTransactionRequest {
    pub id_tag: Option<String>,
    pub meter_stop: i64,
    pub reason: Option<Reason>,
    pub timestamp: String,
    pub transaction_data: Option<Vec<TransactionDatum>>,
    pub transaction_id: i64,
}

#[derive(Clone, Debug)]
pub struct TransactionDatum {
    pub sampled_value: Vec<SampledValue>,
    pub timestamp: String,
}

#[derive(Clone, Copy, Debug, PartialEq, Eq, Structural)]
pub enum Reason {
    DeAuthorized,
    EmergencyStop,
    EvDisconnected,
    HardReset,
    Local,
    Other,
    PowerLoss,
    Reboot,
    Remote,
    SoftReset,
    UnlockCommand,
}

#[derive(Clone, Debug)]
pub struct TriggerMessageRequest {
    pub connector_id: Option<i64>,
    pub requested_message: RequestedMessage,
}

#[derive(Clone, Copy, Debug, PartialEq, Eq, Structural)]
pub enum RequestedMessage {
    BootNotification,
    DiagnosticsStatusNotification,
    FirmwareStatusNotification,
    Heartbeat,
    MeterValues,
    StatusNotification,
}

} // verus!
