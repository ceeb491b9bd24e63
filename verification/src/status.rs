//! The fixed set of failure categories and the messages that go with them.

use crate::common::{zkVMVendor, Operation};
use vstd::prelude::*;

verus! {

/// The category of a failed request.
#[derive(Debug, Clone, Copy, PartialEq, Eq, Structural)]
pub enum StatusCode {
    /// The request names a program that is not registered.
    NotFound,
    /// The request's payload could not be decoded.
    BadRequest,
    /// The program is registered, but its vendor cannot carry out the
    /// operation that the request asks for.
    UnsupportedOperation,
    /// The engine itself failed while carrying out the operation.
    InternalServerError,
}

impl StatusCode {
    /// Whether the category blames the gateway's side and not the request.
    pub open spec fn server_fault(self) -> bool {
        self == StatusCode::InternalServerError
    }

    /// Decides whether the category blames the gateway's side and not the request.
    pub fn is_server_fault(&self) -> (res: bool)
        ensures
            res == self.server_fault(),
    {
        match self {
            StatusCode::InternalServerError => true,
            _ => false,
        }
    }

    /// The HTTP status that stands for the category: 404, 400, 422 or 500.
    pub open spec fn http_code(self) -> u16 {
        match self {
            StatusCode::NotFound => 404,
            StatusCode::BadRequest => 400,
            StatusCode::UnsupportedOperation => 422,
            StatusCode::InternalServerError => 500,
        }
    }

    /// The HTTP status that stands for the category. A category that blames
    /// the request has a status of the client-error class, the one that
    /// blames the gateway's side a status of the server-error class.
    pub fn http_status(&self) -> (res: u16)
        ensures
            res == self.http_code(),
            self.server_fault() ==> 500 <= res < 600,
            !self.server_fault() ==> 400 <= res < 500,
    {
        match self {
            StatusCode::NotFound => 404,
            StatusCode::BadRequest => 400,
            StatusCode::UnsupportedOperation => 422,
            StatusCode::InternalServerError => 500,
        }
    }
}

/// The message of a request that names an unregistered program.
pub open spec fn not_found_message() -> Seq<char> {
    "Program not found"@
}

/// The message of a request for an operation that the vendor cannot carry out.
pub open spec fn unimplemented_message(op: Operation, vendor: zkVMVendor) -> Seq<char> {
    "Operation "@ + op.name() + " is not implemented for "@ + vendor.name()
}

/// `res` is the failure of a request that names an unregistered program.
pub open spec fn is_not_found<T>(res: Result<T, (StatusCode, String)>) -> bool {
    res matches Err((status, message)) && status == StatusCode::NotFound && message@
        == not_found_message()
}

/// `res` is the failure of a request for `op` on a program of a vendor that
/// cannot carry it out.
pub open spec fn is_unimplemented<T>(op: Operation, vendor: zkVMVendor, res: Result<
    T,
    (StatusCode, String),
>) -> bool {
    res matches Err((status, message)) && status == StatusCode::UnsupportedOperation && message@
        == unimplemented_message(op, vendor)
}

/// `res` is the failure of a request whose engine raised a fault with the
/// message `fault`; `context` says what the engine was doing.
pub open spec fn is_engine_failure<T>(context: Seq<char>, fault: Seq<char>, res: Result<
    T,
    (StatusCode, String),
>) -> bool {
    res matches Err((status, message)) && status == StatusCode::InternalServerError && message@
        == context + fault
}

/// The failure of a request that names an unregistered program.
pub fn not_found() -> (res: (StatusCode, String))
    ensures
        res.0 == StatusCode::NotFound,
        res.1@ == not_found_message(),
{
    (StatusCode::NotFound, "Program not found".to_string())
}

/// The failure of a request for `op` on a program whose vendor cannot carry it out.
pub fn unimplemented(op: Operation, vendor: zkVMVendor) -> (res: (StatusCode, String))
    ensures
        res.0 == StatusCode::UnsupportedOperation,
        res.1@ == unimplemented_message(op, vendor),
{
    let mut message = "Operation ".to_string();
    message.append(op.to_string().as_str());
    message.append(" is not implemented for ");
    message.append(vendor.to_string().as_str());
    (StatusCode::UnsupportedOperation, message)
}

/// The failure of a request whose engine raised a fault with the message
/// `fault` while doing what `context` says.
pub fn engine_failure(context: &str, fault: &str) -> (res: (StatusCode, String))
    ensures
        res.0 == StatusCode::InternalServerError,
        res.1@ == context@ + fault@,
{
    let mut message = context.to_string();
    message.append(fault);
    (StatusCode::InternalServerError, message)
}

} // verus!
