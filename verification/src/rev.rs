//! REVLib motor controllers: the errors that REVLib reports, as Rust values.

use vstd::prelude::*;

pub mod ffi;
pub mod spark_max;

pub use spark_max::{MotorType, SetPacer};

use ffi::REVLibError;

verus! {

/// A failure reported by REVLib, or a status code that REVLib does not define.
#[derive(Clone, Copy, Debug, PartialEq, Eq, Structural)]
pub enum RevError {
    Error,
    Timeout,
    NotImplemented,
    HALError,
    CantFindFirmware,
    FirmwareTooOld,
    FirmwareTooNew,
    ParamInvalidID,
    ParamMismatchType,
    ParamAccessMode,
    ParamInvalid,
    ParamNotImplementedDeprecated,
    FollowConfigMismatch,
    Invalid,
    SetpointOutOfRange,
    Unknown,
    CANDisconnected,
    DuplicateCANId,
    InvalidCANId,
    SparkMaxDataPortAlreadyConfiguredDifferently,
    InvalidFFIError,
}

/// What a REVLib status means: success, or the error of the same name.
pub open spec fn status_result(e: REVLibError) -> Result<(), RevError> {
    match e {
        REVLibError::kOk => Ok(()),
        REVLibError::kError => Err(RevError::Error),
        REVLibError::kTimeout => Err(RevError::Timeout),
        REVLibError::kNotImplemented => Err(RevError::NotImplemented),
        REVLibError::kHALError => Err(RevError::HALError),
        REVLibError::kCantFindFirmware => Err(RevError::CantFindFirmware),
        REVLibError::kFirmwareTooOld => Err(RevError::FirmwareTooOld),
        REVLibError::kFirmwareTooNew => Err(RevError::FirmwareTooNew),
        REVLibError::kParamInvalidID => Err(RevError::ParamInvalidID),
        REVLibError::kParamMismatchType => Err(RevError::ParamMismatchType),
        REVLibError::kParamAccessMode => Err(RevError::ParamAccessMode),
        REVLibError::kParamInvalid => Err(RevError::ParamInvalid),
        REVLibError::kParamNotImplementedDeprecated => Err(RevError::ParamNotImplementedDeprecated),
        REVLibError::kFollowConfigMismatch => Err(RevError::FollowConfigMismatch),
        REVLibError::kInvalid => Err(RevError::Invalid),
        REVLibError::kSetpointOutOfRange => Err(RevError::SetpointOutOfRange),
        REVLibError::kUnknown => Err(RevError::Unknown),
        REVLibError::kCANDisconnected => Err(RevError::CANDisconnected),
        REVLibError::kDuplicateCANId => Err(RevError::DuplicateCANId),
        REVLibError::kInvalidCANId => Err(RevError::InvalidCANId),
        REVLibError::kSparkMaxDataPortAlreadyConfiguredDifferently => Err(
            RevError::SparkMaxDataPortAlreadyConfiguredDifferently,
        ),
    }
}

/// What a raw status code from the C++ side means: the status it names, or
/// `InvalidFFIError` where it names none.
pub open spec fn code_result(code: u32) -> Result<(), RevError> {
    match REVLibError::from_code(code) {
        Some(e) => status_result(e),
        None => Err(RevError::InvalidFFIError),
    }
}

/// The text that describes an error.
pub open spec fn error_message(e: RevError) -> Seq<char> {
    match e {
        RevError::Error => "REVLib error"@,
        RevError::Timeout => "timeout"@,
        RevError::NotImplemented => "not implemented in REVLib"@,
        RevError::HALError => "hal error"@,
        RevError::CantFindFirmware => "can't find firmware"@,
        RevError::FirmwareTooOld => "firmware version is too old"@,
        RevError::FirmwareTooNew => "firmware version is too new"@,
        RevError::ParamInvalidID => "parameter has invalid id"@,
        RevError::ParamMismatchType => "parameter has mismatched type"@,
        RevError::ParamAccessMode => "parameter access mode"@,
        RevError::ParamInvalid => "invalid parameter"@,
        RevError::ParamNotImplementedDeprecated => "parameter has been removed"@,
        RevError::FollowConfigMismatch => "mismatched follow config"@,
        RevError::Invalid => "invalid"@,
        RevError::SetpointOutOfRange => "setpoint is out of range"@,
        RevError::Unknown => "unknown"@,
        RevError::CANDisconnected => "CAN disconnected"@,
        RevError::DuplicateCANId => "duplicate CAN id"@,
        RevError::InvalidCANId => "invalid CAN id"@,
        RevError::SparkMaxDataPortAlreadyConfiguredDifferently => "SparkMax data port is already configured differently"@,
        RevError::InvalidFFIError => "invalid error code returned from REVLib"@,
    }
}

impl RevError {
    /// Returns the text that describes this error.
    pub fn message(&self) -> (msg: &'static str)
        ensures
            msg@ == error_message(*self),
    {
        match self {
            RevError::Error => "REVLib error",
            RevError::Timeout => "timeout",
            RevError::NotImplemented => "not implemented in REVLib",
            RevError::HALError => "hal error",
            RevError::CantFindFirmware => "can't find firmware",
            RevError::FirmwareTooOld => "firmware version is too old",
            RevError::FirmwareTooNew => "firmware version is too new",
            RevError::ParamInvalidID => "parameter has invalid id",
            RevError::ParamMismatchType => "parameter has mismatched type",
            RevError::ParamAccessMode => "parameter access mode",
            RevError::ParamInvalid => "invalid parameter",
            RevError::ParamNotImplementedDeprecated => "parameter has been removed",
            RevError::FollowConfigMismatch => "mismatched follow config",
            RevError::Invalid => "invalid",
            RevError::SetpointOutOfRange => "setpoint is out of range",
            RevError::Unknown => "unknown",
            RevError::CANDisconnected => "CAN disconnected",
            RevError::DuplicateCANId => "duplicate CAN id",
            RevError::InvalidCANId => "invalid CAN id",
            RevError::SparkMaxDataPortAlreadyConfiguredDifferently => "SparkMax data port is already configured differently",
            RevError::InvalidFFIError => "invalid error code returned from REVLib",
        }
    }
}

impl From<REVLibError> for Result<(), RevError> {
    fn from(value: REVLibError) -> (res: Self) {
        match value {
            REVLibError::kOk => Ok(()),
            REVLibError::kError => Err(RevError::Error),
            REVLibError::kTimeout => Err(RevError::Timeout),
            REVLibError::kNotImplemented => Err(RevError::NotImplemented),
            REVLibError::kHALError => Err(RevError::HALError),
            REVLibError::kCantFindFirmware => Err(RevError::CantFindFirmware),
            REVLibError::kFirmwareTooOld => Err(RevError::FirmwareTooOld),
            REVLibError::kFirmwareTooNew => Err(RevError::FirmwareTooNew),
            REVLibError::kParamInvalidID => Err(RevError::ParamInvalidID),
            REVLibError::kParamMismatchType => Err(RevError::ParamMismatchType),
            REVLibError::kParamAccessMode => Err(RevError::ParamAccessMode),
            REVLibError::kParamInvalid => Err(RevError::ParamInvalid),
            REVLibError::kParamNotImplementedDeprecated => Err(RevError::ParamNotImplementedDeprecated),
            REVLibError::kFollowConfigMismatch => Err(RevError::FollowConfigMismatch),
            REVLibError::kInvalid => Err(RevError::Invalid),
            REVLibError::kSetpointOutOfRange => Err(RevError::SetpointOutOfRange),
            REVLibError::kUnknown => Err(RevError::Unknown),
            REVLibError::kCANDisconnected => Err(RevError::CANDisconnected),
            REVLibError::kDuplicateCANId => Err(RevError::DuplicateCANId),
            REVLibError::kInvalidCANId => Err(RevError::InvalidCANId),
            REVLibError::kSparkMaxDataPortAlreadyConfiguredDifferently => {
                Err(RevError::SparkMaxDataPortAlreadyConfiguredDifferently)
            },
        }
    }
}

impl vstd::std_specs::convert::FromSpecImpl<REVLibError> for Result<(), RevError> {
    open spec fn obeys_from_spec() -> bool {
        true
    }

    open spec fn from_spec(v: REVLibError) -> Self {
        status_result(v)
    }
}

/// Turns a raw status code, as the C++ side returns it, into a Rust result:
/// a code that REVLib does not define gives `InvalidFFIError`.
pub fn check_status_code(code: u32) -> (res: Result<(), RevError>)
    ensures
        res == code_result(code),
        res is Ok <==> code == 0,
        res == Err::<(), RevError>(RevError::InvalidFFIError) <==> code >= ffi::REVLIB_ERROR_COUNT,
{
    match REVLibError::from_repr(code) {
        Some(status) => {
            proof {
                lemma_status_never_invalid_code(status);
                lemma_status_ok_iff_ok(status);
            }
            Result::<(), RevError>::from(status)
        },
        None => Err(RevError::InvalidFFIError),
    }
}

/// A status means success exactly when it is `kOk`.
pub proof fn lemma_status_ok_iff_ok(e: REVLibError)
    ensures
        status_result(e) is Ok <==> e == REVLibError::kOk,
{
}

/// A status that REVLib defines never reads as `InvalidFFIError`.
pub proof fn lemma_status_never_invalid_code(e: REVLibError)
    ensures
        status_result(e) != Err::<(), RevError>(RevError::InvalidFFIError),
{
}

/// Different statuses give different results: no two REVLib statuses are
/// reported as the same error.
pub proof fn lemma_status_result_injective(a: REVLibError, b: REVLibError)
    ensures
        status_result(a) == status_result(b) ==> a == b,
{
}

} // verus!
