use vstd::prelude::*;
use crate::text::{concat, i32_text, signed_decimal};

verus! {

/// Error codes reported by every file operation.
#[derive(Debug, Clone, Copy, PartialEq, Eq, Structural)]
pub enum ErrorCode {
    Success,
    InvalidParameter,
    WorkspaceNotSet,
    PathNotFound,
    IoError,
    NetworkError,
    JsonError,
    SessionError,
    RequestError,
    ResponseError,
    LogError,
    Unknown,
}

/// The numeric value of each error code.
pub open spec fn code_value(code: ErrorCode) -> i32 {
    match code {
        ErrorCode::Success => 0,
        ErrorCode::InvalidParameter => 1,
        ErrorCode::WorkspaceNotSet => 2,
        ErrorCode::PathNotFound => 3,
        ErrorCode::IoError => 4,
        ErrorCode::NetworkError => 5,
        ErrorCode::JsonError => 6,
        ErrorCode::SessionError => 7,
        ErrorCode::RequestError => 8,
        ErrorCode::ResponseError => 9,
        ErrorCode::LogError => 10,
        ErrorCode::Unknown => 99,
    }
}

/// The error code a number denotes; numbers that denote no code map to `Unknown`.
pub open spec fn code_of_value(value: int) -> ErrorCode {
    if value == 0 {
        ErrorCode::Success
    } else if value == 1 {
        ErrorCode::InvalidParameter
    } else if value == 2 {
        ErrorCode::WorkspaceNotSet
    } else if value == 3 {
        ErrorCode::PathNotFound
    } else if value == 4 {
        ErrorCode::IoError
    } else if value == 5 {
        ErrorCode::NetworkError
    } else if value == 6 {
        ErrorCode::JsonError
    } else if value == 7 {
        ErrorCode::SessionError
    } else if value == 8 {
        ErrorCode::RequestError
    } else if value == 9 {
        ErrorCode::ResponseError
    } else if value == 10 {
        ErrorCode::LogError
    } else {
        ErrorCode::Unknown
    }
}

/// A value that is the number of some error code.
pub open spec fn is_code_value(value: int) -> bool {
    (0 <= value && value <= 10) || value == 99
}

impl ErrorCode {
    pub fn as_i32(self) -> (value: i32)
        ensures
            value == code_value(self),
    {
        match self {
            ErrorCode::Success => 0,
            ErrorCode::InvalidParameter => 1,
            ErrorCode::WorkspaceNotSet => 2,
            ErrorCode::PathNotFound => 3,
            ErrorCode::IoError => 4,
            ErrorCode::NetworkError => 5,
            ErrorCode::JsonError => 6,
            ErrorCode::SessionError => 7,
            ErrorCode::RequestError => 8,
            ErrorCode::ResponseError => 9,
            ErrorCode::LogError => 10,
            ErrorCode::Unknown => 99,
        }
    }

    pub fn from_i32(code: i32) -> (result: ErrorCode)
        ensures
            result == code_of_value(code as int),
    {
        match code {
            0 => ErrorCode::Success,
            1 => ErrorCode::InvalidParameter,
            2 => ErrorCode::WorkspaceNotSet,
            3 => ErrorCode::PathNotFound,
            4 => ErrorCode::IoError,
            5 => ErrorCode::NetworkError,
            6 => ErrorCode::JsonError,
            7 => ErrorCode::SessionError,
            8 => ErrorCode::RequestError,
            9 => ErrorCode::ResponseError,
            10 => ErrorCode::LogError,
            _ => ErrorCode::Unknown,
        }
    }
}

/// Decoding the number of a code gives the code back.
pub proof fn lemma_code_round_trip(code: ErrorCode)
    ensures
        code_of_value(code_value(code) as int) == code,
        is_code_value(code_value(code) as int),
{
}

/// Encoding the code a number denotes gives the number back exactly when the
/// number is the value of some code; every other number becomes `Unknown` (99).
pub proof fn lemma_value_round_trip(value: i32)
    ensures
        is_code_value(value as int) <==> code_value(code_of_value(value as int)) == value,
        !is_code_value(value as int) ==> code_of_value(value as int) == ErrorCode::Unknown,
{
}

/// An error: a code and a human-readable message.
#[derive(Debug, Clone)]
pub struct VfsError {
    pub code: ErrorCode,
    pub message: String,
}

pub type VfsResult<T> = Result<T, VfsError>;

impl VfsError {
    pub fn new(code: ErrorCode, message: &str) -> (e: VfsError)
        ensures
            e.code == code,
            e.message@ == message@,
    {
        VfsError { code, message: message.to_owned() }
    }

    /// The error value that stands for success.
    pub fn success() -> (e: VfsError)
        ensures
            e.code == ErrorCode::Success,
            e.message@ == "Success"@,
    {
        Self::new(ErrorCode::Success, "Success")
    }

    pub fn is_success(&self) -> (b: bool)
        ensures
            b == (self.code == ErrorCode::Success),
    {
        self.code == ErrorCode::Success
    }

    /// The text shown for the error: `VfsError(code=N, message=M)`.
    pub fn display_text(&self) -> (r: String)
        ensures
            r@ == "VfsError(code="@ + signed_decimal(code_value(self.code) as int) + ", message="@ + self.message@
                + ")"@,
    {
        let code = i32_text(self.code.as_i32());
        let a = concat("VfsError(code=", code.as_str());
        let b = concat(a.as_str(), ", message=");
        let c = concat(b.as_str(), self.message.as_str());
        concat(c.as_str(), ")")
    }
}

/// The error type of the absolute-path file system adapter: a message only.
#[derive(Debug)]
pub struct RuntimeError {
    pub message: String,
}

impl RuntimeError {
    pub fn new(message: &str) -> (e: RuntimeError)
        ensures
            e.message@ == message@,
    {
        RuntimeError { message: message.to_owned() }
    }
}

impl From<VfsError> for RuntimeError {
    fn from(e: VfsError) -> (r: RuntimeError) {
        RuntimeError { message: e.message }
    }
}

impl vstd::std_specs::convert::FromSpecImpl<VfsError> for RuntimeError {
    open spec fn obeys_from_spec() -> bool {
        true
    }

    open spec fn from_spec(e: VfsError) -> RuntimeError {
        RuntimeError { message: e.message }
    }
}

} // verus!
