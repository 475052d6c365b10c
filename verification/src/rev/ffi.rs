//! The enumerations shared with REVLib's C++ interface.
//!
//! Across the language boundary each of these is carried as a 32-bit code:
//! the variants are numbered from zero in the order in which they are
//! declared. `to_repr` and `from_repr` convert between a value and its code;
//! a code that names no variant is answered with `None`.
#![allow(non_camel_case_types)]

use vstd::prelude::*;

verus! {

/// The kind of motor attached to a SPARK MAX controller.
#[derive(Clone, Copy, Debug, PartialEq, Eq, Structural)]
pub enum MotorType {
    kBrushed,
    kBrushless,
}

/// The closed-loop quantity that a SPARK MAX setpoint refers to.
#[derive(Clone, Copy, Debug, PartialEq, Eq, Structural)]
pub enum ControlType {
    kDutyCycle,
    kVelocity,
    kVoltage,
    kPosition,
    kSmartMotion,
    kCurrent,
    kSmartVelocity,
}

/// The unit in which an arbitrary feed-forward value is given.
#[derive(Clone, Copy, Debug, PartialEq, Eq, Structural)]
pub enum ArbFFUnits {
    kVoltage,
    kPercentOut,
}

/// The status code that REVLib returns from its calls.
#[derive(Clone, Copy, Debug, PartialEq, Eq, Structural)]
pub enum REVLibError {
    kOk,
    kError,
    kTimeout,
    kNotImplemented,
    kHALError,
    kCantFindFirmware,
    kFirmwareTooOld,
    kFirmwareTooNew,
    kParamInvalidID,
    kParamMismatchType,
    kParamAccessMode,
    kParamInvalid,
    kParamNotImplementedDeprecated,
    kFollowConfigMismatch,
    kInvalid,
    kSetpointOutOfRange,
    kUnknown,
    kCANDisconnected,
    kDuplicateCANId,
    kInvalidCANId,
    kSparkMaxDataPortAlreadyConfiguredDifferently,
}

/// Number of motor types; codes at or above it name no motor type.
pub const MOTOR_TYPE_COUNT: u32 = 2;

/// Number of REVLib status codes; codes at or above it name no status.
pub const REVLIB_ERROR_COUNT: u32 = 21;

impl MotorType {
    /// The code of this motor type on the C++ side.
    pub open spec fn code(self) -> u32 {
        match self {
            MotorType::kBrushed => 0,
            MotorType::kBrushless => 1,
        }
    }

    /// The motor type that a code from the C++ side names, if any.
    pub open spec fn from_code(code: u32) -> Option<MotorType> {
        match code {
            0 => Some(MotorType::kBrushed),
            1 => Some(MotorType::kBrushless),
            _ => None,
        }
    }

    /// Returns the code that stands for `self` on the C++ side.
    pub fn to_repr(self) -> (code: u32)
        ensures
            code == self.code(),
            code < MOTOR_TYPE_COUNT,
    {
        match self {
            MotorType::kBrushed => 0,
            MotorType::kBrushless => 1,
        }
    }

    /// Reads a motor-type code that came from the C++ side.
    pub fn from_repr(code: u32) -> (res: Option<MotorType>)
        ensures
            res == MotorType::from_code(code),
            res is None <==> code >= MOTOR_TYPE_COUNT,
            res matches Some(t) ==> t.code() == code,
    {
        match code {
            0 => Some(MotorType::kBrushed),
            1 => Some(MotorType::kBrushless),
            _ => None,
        }
    }
}

impl REVLibError {
    /// The code of this status on the C++ side.
    pub open spec fn code(self) -> u32 {
        match self {
            REVLibError::kOk => 0,
            REVLibError::kError => 1,
            REVLibError::kTimeout => 2,
            REVLibError::kNotImplemented => 3,
            REVLibError::kHALError => 4,
            REVLibError::kCantFindFirmware => 5,
            REVLibError::kFirmwareTooOld => 6,
            REVLibError::kFirmwareTooNew => 7,
            REVLibError::kParamInvalidID => 8,
            REVLibError::kParamMismatchType => 9,
            REVLibError::kParamAccessMode => 10,
            REVLibError::kParamInvalid => 11,
            REVLibError::kParamNotImplementedDeprecated => 12,
            REVLibError::kFollowConfigMismatch => 13,
            REVLibError::kInvalid => 14,
            REVLibError::kSetpointOutOfRange => 15,
            REVLibError::kUnknown => 16,
            REVLibError::kCANDisconnected => 17,
            REVLibError::kDuplicateCANId => 18,
            REVLibError::kInvalidCANId => 19,
            REVLibError::kSparkMaxDataPortAlreadyConfiguredDifferently => 20,
        }
    }

    /// The status that a code from the C++ side names, if any.
    pub open spec fn from_code(code: u32) -> Option<REVLibError> {
        match code {
            0 => Some(REVLibError::kOk),
            1 => Some(REVLibError::kError),
            2 => Some(REVLibError::kTimeout),
            3 => Some(REVLibError::kNotImplemented),
            4 => Some(REVLibError::kHALError),
            5 => Some(REVLibError::kCantFindFirmware),
            6 => Some(REVLibError::kFirmwareTooOld),
            7 => Some(REVLibError::kFirmwareTooNew),
            8 => Some(REVLibError::kParamInvalidID),
            9 => Some(REVLibError::kParamMismatchType),
            10 => Some(REVLibError::kParamAccessMode),
            11 => Some(REVLibError::kParamInvalid),
            12 => Some(REVLibError::kParamNotImplementedDeprecated),
            13 => Some(REVLibError::kFollowConfigMismatch),
            14 => Some(REVLibError::kInvalid),
            15 => Some(REVLibError::kSetpointOutOfRange),
            16 => Some(REVLibError::kUnknown),
            17 => Some(REVLibError::kCANDisconnected),
            18 => Some(REVLibError::kDuplicateCANId),
            19 => Some(REVLibError::kInvalidCANId),
            20 => Some(REVLibError::kSparkMaxDataPortAlreadyConfiguredDifferently),
            _ => None,
        }
    }

    /// Returns the code that stands for `self` on the C++ side.
    pub fn to_repr(self) -> (code: u32)
        ensures
            code == self.code(),
            code < REVLIB_ERROR_COUNT,
    {
        match self {
            REVLibError::kOk => 0,
            REVLibError::kError => 1,
            REVLibError::kTimeout => 2,
            REVLibError::kNotImplemented => 3,
            REVLibError::kHALError => 4,
            REVLibError::kCantFindFirmware => 5,
            REVLibError::kFirmwareTooOld => 6,
            REVLibError::kFirmwareTooNew => 7,
            REVLibError::kParamInvalidID => 8,
            REVLibError::kParamMismatchType => 9,
            REVLibError::kParamAccessMode => 10,
            REVLibError::kParamInvalid => 11,
            REVLibError::kParamNotImplementedDeprecated => 12,
            REVLibError::kFollowConfigMismatch => 13,
            REVLibError::kInvalid => 14,
            REVLibError::kSetpointOutOfRange => 15,
            REVLibError::kUnknown => 16,
            REVLibError::kCANDisconnected => 17,
            REVLibError::kDuplicateCANId => 18,
            REVLibError::kInvalidCANId => 19,
            REVLibError::kSparkMaxDataPortAlreadyConfiguredDifferently => 20,
        }
    }

    /// Reads a status code that came from the C++ side.
    pub fn from_repr(code: u32) -> (res: Option<REVLibError>)
        ensures
            res == REVLibError::from_code(code),
            res is None <==> code >= REVLIB_ERROR_COUNT,
            res matches Some(e) ==> e.code() == code,
    {
        match code {
            0 => Some(REVLibError::kOk),
            1 => Some(REVLibError::kError),
            2 => Some(REVLibError::kTimeout),
            3 => Some(REVLibError::kNotImplemented),
            4 => Some(REVLibError::kHALError),
            5 => Some(REVLibError::kCantFindFirmware),
            6 => Some(REVLibError::kFirmwareTooOld),
            7 => Some(REVLibError::kFirmwareTooNew),
            8 => Some(REVLibError::kParamInvalidID),
            9 => Some(REVLibError::kParamMismatchType),
            10 => Some(REVLibError::kParamAccessMode),
            11 => Some(REVLibError::kParamInvalid),
            12 => Some(REVLibError::kParamNotImplementedDeprecated),
            13 => Some(REVLibError::kFollowConfigMismatch),
            14 => Some(REVLibError::kInvalid),
            15 => Some(REVLibError::kSetpointOutOfRange),
            16 => Some(REVLibError::kUnknown),
            17 => Some(REVLibError::kCANDisconnected),
            18 => Some(REVLibError::kDuplicateCANId),
            19 => Some(REVLibError::kInvalidCANId),
            20 => Some(REVLibError::kSparkMaxDataPortAlreadyConfiguredDifferently),
            _ => None,
        }
    }
}

/// Reading back the code of a motor type gives that motor type, and a code
/// that names a motor type is that motor type's code.
pub proof fn lemma_motor_type_code_round_trip(t: MotorType, code: u32)
    ensures
        MotorType::from_code(t.code()) == Some(t),
        MotorType::from_code(code) matches Some(u) ==> u.code() == code,
{
}

/// Reading back the code of a status gives that status, and a code that
/// names a status is that status's code.
pub proof fn lemma_revlib_error_code_round_trip(e: REVLibError, code: u32)
    ensures
        REVLibError::from_code(e.code()) == Some(e),
        REVLibError::from_code(code) matches Some(f) ==> f.code() == code,
{
}

} // verus!
