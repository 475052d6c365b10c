use frc::rev::ffi::{ArbFFUnits, ControlType, REVLibError, REVLIB_ERROR_COUNT};
use frc::rev::{check_status_code, RevError};

fn check_status(e: REVLibError) -> Result<(), RevError> {
    Result::from(e)
}

const ALL: [REVLibError; 21] = [
    REVLibError::kOk,
    REVLibError::kError,
    REVLibError::kTimeout,
    REVLibError::kNotImplemented,
    REVLibError::kHALError,
    REVLibError::kCantFindFirmware,
    REVLibError::kFirmwareTooOld,
    REVLibError::kFirmwareTooNew,
    REVLibError::kParamInvalidID,
    REVLibError::kParamMismatchType,
    REVLibError::kParamAccessMode,
    REVLibError::kParamInvalid,
    REVLibError::kParamNotImplementedDeprecated,
    REVLibError::kFollowConfigMismatch,
    REVLibError::kInvalid,
    REVLibError::kSetpointOutOfRange,
    REVLibError::kUnknown,
    REVLibError::kCANDisconnected,
    REVLibError::kDuplicateCANId,
    REVLibError::kInvalidCANId,
    REVLibError::kSparkMaxDataPortAlreadyConfiguredDifferently,
];

#[test]
fn ok_status_is_ok() {
    assert_eq!(check_status(REVLibError::kOk), Ok(()));
    let r: Result<(), RevError> = REVLibError::kOk.into();
    assert_eq!(r, Ok(()));
}

#[test]
fn each_status_maps_to_its_error() {
    assert_eq!(check_status(REVLibError::kError), Err(RevError::Error));
    assert_eq!(check_status(REVLibError::kTimeout), Err(RevError::Timeout));
    assert_eq!(check_status(REVLibError::kNotImplemented), Err(RevError::NotImplemented));
    assert_eq!(check_status(REVLibError::kHALError), Err(RevError::HALError));
    assert_eq!(check_status(REVLibError::kCantFindFirmware), Err(RevError::CantFindFirmware));
    assert_eq!(check_status(REVLibError::kFirmwareTooOld), Err(RevError::FirmwareTooOld));
    assert_eq!(check_status(REVLibError::kFirmwareTooNew), Err(RevError::FirmwareTooNew));
    assert_eq!(check_status(REVLibError::kParamInvalidID), Err(RevError::ParamInvalidID));
    assert_eq!(check_status(REVLibError::kParamMismatchType), Err(RevError::ParamMismatchType));
    assert_eq!(check_status(REVLibError::kParamAccessMode), Err(RevError::ParamAccessMode));
    assert_eq!(check_status(REVLibError::kParamInvalid), Err(RevError::ParamInvalid));
    assert_eq!(
        check_status(REVLibError::kParamNotImplementedDeprecated),
        Err(RevError::ParamNotImplementedDeprecated)
    );
    assert_eq!(check_status(REVLibError::kFollowConfigMismatch), Err(RevError::FollowConfigMismatch));
    assert_eq!(check_status(REVLibError::kInvalid), Err(RevError::Invalid));
    assert_eq!(check_status(REVLibError::kSetpointOutOfRange), Err(RevError::SetpointOutOfRange));
    assert_eq!(check_status(REVLibError::kUnknown), Err(RevError::Unknown));
    assert_eq!(check_status(REVLibError::kCANDisconnected), Err(RevError::CANDisconnected));
    assert_eq!(check_status(REVLibError::kDuplicateCANId), Err(RevError::DuplicateCANId));
    assert_eq!(check_status(REVLibError::kInvalidCANId), Err(RevError::InvalidCANId));
    assert_eq!(
        check_status(REVLibError::kSparkMaxDataPortAlreadyConfiguredDifferently),
        Err(RevError::SparkMaxDataPortAlreadyConfiguredDifferently)
    );
}

#[test]
fn distinct_statuses_give_distinct_results() {
    for (i, a) in ALL.iter().enumerate() {
        for (j, b) in ALL.iter().enumerate() {
            assert_eq!(i == j, check_status(*a) == check_status(*b));
        }
    }
}

#[test]
fn codes_are_declaration_order() {
    for (i, e) in ALL.iter().enumerate() {
        assert_eq!(e.to_repr(), i as u32);
        assert_eq!(REVLibError::from_repr(i as u32), Some(*e));
        assert_eq!(check_status_code(i as u32), check_status(*e));
    }
    assert_eq!(REVLibError::kTimeout.to_repr(), 2);
    assert_eq!(REVLibError::from_repr(20), Some(REVLibError::kSparkMaxDataPortAlreadyConfiguredDifferently));
}

#[test]
fn unknown_code_is_invalid_ffi_error() {
    assert_eq!(REVLibError::from_repr(REVLIB_ERROR_COUNT), None);
    assert_eq!(check_status_code(21), Err(RevError::InvalidFFIError));
    assert_eq!(check_status_code(1000), Err(RevError::InvalidFFIError));
    assert_eq!(check_status_code(u32::MAX), Err(RevError::InvalidFFIError));
    assert_eq!(check_status_code(0), Ok(()));
    assert_eq!(check_status_code(17), Err(RevError::CANDisconnected));
}

#[test]
fn error_messages() {
    assert_eq!(RevError::Error.message(), "REVLib error");
    assert_eq!(RevError::Timeout.message(), "timeout");
    assert_eq!(RevError::NotImplemented.message(), "not implemented in REVLib");
    assert_eq!(RevError::HALError.message(), "hal error");
    assert_eq!(RevError::CantFindFirmware.message(), "can't find firmware");
    assert_eq!(RevError::FirmwareTooOld.message(), "firmware version is too old");
    assert_eq!(RevError::FirmwareTooNew.message(), "firmware version is too new");
    assert_eq!(RevError::ParamInvalidID.message(), "parameter has invalid id");
    assert_eq!(RevError::ParamMismatchType.message(), "parameter has mismatched type");
    assert_eq!(RevError::ParamAccessMode.message(), "parameter access mode");
    assert_eq!(RevError::ParamInvalid.message(), "invalid parameter");
    assert_eq!(RevError::ParamNotImplementedDeprecated.message(), "parameter has been removed");
    assert_eq!(RevError::FollowConfigMismatch.message(), "mismatched follow config");
    assert_eq!(RevError::Invalid.message(), "invalid");
    assert_eq!(RevError::SetpointOutOfRange.message(), "setpoint is out of range");
    assert_eq!(RevError::Unknown.message(), "unknown");
    assert_eq!(RevError::CANDisconnected.message(), "CAN disconnected");
    assert_eq!(RevError::DuplicateCANId.message(), "duplicate CAN id");
    assert_eq!(RevError::InvalidCANId.message(), "invalid CAN id");
    assert_eq!(
        RevError::SparkMaxDataPortAlreadyConfiguredDifferently.message(),
        "SparkMax data port is already configured differently"
    );
    assert_eq!(RevError::InvalidFFIError.message(), "invalid error code returned from REVLib");
}

#[test]
fn configuration_enums_are_plain_values() {
    let c = ControlType::kVelocity;
    assert_eq!(c, ControlType::kVelocity);
    assert_ne!(c, ControlType::kSmartVelocity);
    assert_ne!(ArbFFUnits::kVoltage, ArbFFUnits::kPercentOut);
}
