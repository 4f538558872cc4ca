//! The part of CoAP that the handlers decide on: request methods, response
//! codes, and replies made of a code and a payload.
use vstd::prelude::*;
use vstd::string::StrSliceExecFns;

verus! {

/// The method of a request.
#[derive(Clone, Copy, Debug, PartialEq, Eq, Structural)]
pub enum Method {
    Get,
    Post,
    Put,
    Delete,
    /// Any other method, known or unknown.
    Other,
}

/// The response codes that the arbiter and the devices send.
#[derive(Clone, Copy, Debug, PartialEq, Eq, Structural)]
pub enum ResponseCode {
    /// 2.04
    Changed,
    /// 2.05
    Content,
    /// 4.00
    BadRequest,
    /// 4.03
    Forbidden,
    /// 4.04
    NotFound,
    /// 5.00
    InternalServerError,
}

impl ResponseCode {
    /// The class of the code: the digit before the dot.
    pub open spec fn class(self) -> u8 {
        match self {
            ResponseCode::Changed | ResponseCode::Content => 2,
            ResponseCode::BadRequest | ResponseCode::Forbidden | ResponseCode::NotFound => 4,
            ResponseCode::InternalServerError => 5,
        }
    }

    /// The detail of the code: the two digits after the dot.
    pub open spec fn detail(self) -> u8 {
        match self {
            ResponseCode::Changed => 4,
            ResponseCode::Content => 5,
            ResponseCode::BadRequest => 0,
            ResponseCode::Forbidden => 3,
            ResponseCode::NotFound => 4,
            ResponseCode::InternalServerError => 0,
        }
    }

    /// A code reports success when its class is 2.
    pub open spec fn success(self) -> bool {
        self.class() == 2
    }

    /// Class and detail of the code.
    pub fn number(&self) -> (pair: (u8, u8))
        ensures
            pair.0 == self.class(),
            pair.1 == self.detail(),
    {
        match self {
            ResponseCode::Changed => (2, 4),
            ResponseCode::Content => (2, 5),
            ResponseCode::BadRequest => (4, 0),
            ResponseCode::Forbidden => (4, 3),
            ResponseCode::NotFound => (4, 4),
            ResponseCode::InternalServerError => (5, 0),
        }
    }

    /// Decides [`ResponseCode::success`].
    pub fn is_success(&self) -> (ok: bool)
        ensures
            ok == self.success(),
    {
        match self {
            ResponseCode::Changed | ResponseCode::Content => true,
            _ => false,
        }
    }
}

/// A failure to handle a request: the code to answer with and a message for
/// the payload.
#[derive(Debug, Clone)]
pub struct HandlingError {
    pub code: ResponseCode,
    pub message: String,
}

impl HandlingError {
    /// A failure with the given code and message.
    pub fn with_code(code: ResponseCode, message: &str) -> (e: HandlingError)
        ensures
            e.code == code,
            e.message@ == message@,
    {
        HandlingError { code, message: message.to_owned() }
    }

    /// 4.00 with the given message.
    pub fn bad_request(message: &str) -> (e: HandlingError)
        ensures
            e.code == ResponseCode::BadRequest,
            e.message@ == message@,
    {
        HandlingError::with_code(ResponseCode::BadRequest, message)
    }

    /// 4.03 with the given message.
    pub fn forbidden(message: &str) -> (e: HandlingError)
        ensures
            e.code == ResponseCode::Forbidden,
            e.message@ == message@,
    {
        HandlingError::with_code(ResponseCode::Forbidden, message)
    }

    /// 4.04 with the message "Not found".
    pub fn not_found() -> (e: HandlingError)
        ensures
            e.code == ResponseCode::NotFound,
            e.message@ == "Not found"@,
    {
        HandlingError::with_code(ResponseCode::NotFound, "Not found")
    }

    /// 5.00 with the given message.
    pub fn internal(message: &str) -> (e: HandlingError)
        ensures
            e.code == ResponseCode::InternalServerError,
            e.message@ == message@,
    {
        HandlingError::with_code(ResponseCode::InternalServerError, message)
    }

    /// The reply that reports this failure: its code, and its message as the
    /// payload.
    pub fn into_reply(self) -> (reply: Reply)
        ensures
            reply.code == self.code,
            reply.payload@ == vstd::utf8::encode_utf8(self.message@),
    {
        Reply { code: self.code, payload: self.message.as_str().as_bytes_vec() }
    }
}

/// What is sent back for a request.
#[derive(Debug, Clone)]
pub struct Reply {
    pub code: ResponseCode,
    pub payload: Vec<u8>,
}

} // verus!
