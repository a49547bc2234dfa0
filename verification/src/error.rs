use vstd::prelude::*;
use serde_json::Error as SerdeJsonError;

verus! {

/// Code of an error raised while converting between JSON and Rust values.
/// The numbering of the framework's own errors is this library's choice;
/// RPC application errors carry the code that their handler gave.
pub const JSON_ERROR_CODE: u32 = 10001;

/// Code of the error answered to a call that names no RPC of the module.
pub const UNSUPPORTED_CALL_CODE: u32 = 10002;

/// Errors of the framework. The codes and messages of the framework's own
/// errors (`JsonError`, `TempOnlySupportRPC`) are this library's choice; an
/// RPC application error keeps the code and message of its handler.
#[derive(Debug)]
pub enum Error {
    /// A JSON conversion failed; holds the text that `serde_json` gave.
    JsonError(String),
    /// An RPC handler answered with a non-zero code and a message.
    RPCApplicationError(u32, String),
    /// The call names no RPC method of the module.
    TempOnlySupportRPC,
}

/// The message of the error answered to a call that names no RPC; its
/// wording is this library's choice.
pub open spec fn unsupported_call_message() -> Seq<char> {
    "only RPC calls are supported"@
}

/// The numeric code that an error carries.
pub open spec fn error_code(e: Error) -> u32 {
    match e {
        Error::JsonError(_) => JSON_ERROR_CODE,
        Error::RPCApplicationError(code, _) => code,
        Error::TempOnlySupportRPC => UNSUPPORTED_CALL_CODE,
    }
}

/// The text that an error carries.
pub open spec fn error_message(e: Error) -> Seq<char> {
    match e {
        Error::JsonError(m) => m@,
        Error::RPCApplicationError(_, m) => m@,
        Error::TempOnlySupportRPC => unsupported_call_message(),
    }
}

/// `serde_json::Error`, the failure of a JSON conversion, declared so that it
/// can stand in signatures; nothing inside it is seen.
#[verifier::external_type_specification]
#[verifier::external_body]
pub struct ExSerdeJsonError(SerdeJsonError);

impl Error {
    /// The error that an RPC handler's non-zero answer becomes.
    pub fn new_rpc_error(code: u32, message: String) -> (e: Error)
        ensures
            e == Error::RPCApplicationError(code, message),
    {
        Error::RPCApplicationError(code, message)
    }

    /// The error that a failed JSON conversion becomes: its text is the one
    /// that `serde_json` writes for it.
    pub fn from_json(err: SerdeJsonError) -> (e: Error)
        ensures
            e matches Error::JsonError(m) && vstd::string::to_string_from_display_ensures::<SerdeJsonError>(&err, m),
    {
        Error::JsonError(err.to_string())
    }

    /// The numeric code of the error.
    pub fn code(&self) -> (c: u32)
        ensures
            c == error_code(*self),
    {
        match self {
            Error::JsonError(_) => JSON_ERROR_CODE,
            Error::RPCApplicationError(code, _) => *code,
            Error::TempOnlySupportRPC => UNSUPPORTED_CALL_CODE,
        }
    }

    /// The text of the error.
    pub fn message(&self) -> (m: String)
        ensures
            m@ == error_message(*self),
    {
        match self {
            Error::JsonError(m) => m.clone(),
            Error::RPCApplicationError(_, m) => m.clone(),
            Error::TempOnlySupportRPC => String::from_str("only RPC calls are supported"),
        }
    }
}

} // verus!
