use vstd::prelude::*;
use crate::text::{concat, push_str};

verus! {

/// The errors of the transfer library. Errors that come from another library
/// (I/O, TLS, certificate generation, ...) are carried as their message text.
#[derive(Debug)]
pub enum HiveDropError {
    NetworkError(String),
    IoError(String),
    CryptoError(String),
    RsaError(String),
    Pkcs8Error(String),
    SpkiError(String),
    ServiceError(String),
    RcgenError(String),
    TlsError(String),
    TransferRequestError(String),
    FileNotFound(String),
    InvalidPath(String),
    RequestNotFound(String),
    NotFoundError(String),
    TransferStatusError(String),
    EmptyTransferList,
    ValidationError(String),
    HttpBodyError(String),
    GenericError(String),
}

/// The prefix that the message of each kind of error starts with.
pub open spec fn message_prefix(e: HiveDropError) -> Seq<char> {
    match e {
        HiveDropError::NetworkError(_) => "Network error: "@,
        HiveDropError::IoError(_) => "IO error: "@,
        HiveDropError::CryptoError(_) => "Crypto error: "@,
        HiveDropError::RsaError(_) => "RSA error: "@,
        HiveDropError::Pkcs8Error(_) => "PKCS8 error: "@,
        HiveDropError::SpkiError(_) => "SPKI error: "@,
        HiveDropError::ServiceError(_) => "HTTP service error: "@,
        HiveDropError::RcgenError(_) => "Certificate generation error: "@,
        HiveDropError::TlsError(_) => "TLS error: "@,
        HiveDropError::TransferRequestError(_) => "Transfer request error: "@,
        HiveDropError::FileNotFound(_) => "File not found: "@,
        HiveDropError::InvalidPath(_) => "Invalid path: "@,
        HiveDropError::RequestNotFound(_) => "Request not found: "@,
        HiveDropError::NotFoundError(_) => "Resource not found: "@,
        HiveDropError::TransferStatusError(_) => "Transfer status error: "@,
        HiveDropError::EmptyTransferList => "Empty transfer list"@,
        HiveDropError::ValidationError(_) => "Invalid transfer request: "@,
        HiveDropError::HttpBodyError(_) => "HTTP body error: "@,
        HiveDropError::GenericError(_) => Seq::empty(),
    }
}

/// The detail text that an error carries (empty for `EmptyTransferList`).
pub open spec fn message_detail(e: HiveDropError) -> Seq<char> {
    match e {
        HiveDropError::NetworkError(s) => s@,
        HiveDropError::IoError(s) => s@,
        HiveDropError::CryptoError(s) => s@,
        HiveDropError::RsaError(s) => s@,
        HiveDropError::Pkcs8Error(s) => s@,
        HiveDropError::SpkiError(s) => s@,
        HiveDropError::ServiceError(s) => s@,
        HiveDropError::RcgenError(s) => s@,
        HiveDropError::TlsError(s) => s@,
        HiveDropError::TransferRequestError(s) => s@,
        HiveDropError::FileNotFound(s) => s@,
        HiveDropError::InvalidPath(s) => s@,
        HiveDropError::RequestNotFound(s) => s@,
        HiveDropError::NotFoundError(s) => s@,
        HiveDropError::TransferStatusError(s) => s@,
        HiveDropError::EmptyTransferList => Seq::empty(),
        HiveDropError::ValidationError(s) => s@,
        HiveDropError::HttpBodyError(s) => s@,
        HiveDropError::GenericError(s) => s@,
    }
}

/// The display text of an error: its kind's prefix, then its detail.
pub open spec fn error_message(e: HiveDropError) -> Seq<char> {
    message_prefix(e) + message_detail(e)
}

impl HiveDropError {
    /// The display text of the error, such as `"Invalid transfer request: ..."`.
    pub fn to_message(&self) -> (r: String)
        ensures
            r@ == error_message(*self),
    {
        match self {
            HiveDropError::NetworkError(s) => concat("Network error: ", s.as_str()),
            HiveDropError::IoError(s) => concat("IO error: ", s.as_str()),
            HiveDropError::CryptoError(s) => concat("Crypto error: ", s.as_str()),
            HiveDropError::RsaError(s) => concat("RSA error: ", s.as_str()),
            HiveDropError::Pkcs8Error(s) => concat("PKCS8 error: ", s.as_str()),
            HiveDropError::SpkiError(s) => concat("SPKI error: ", s.as_str()),
            HiveDropError::ServiceError(s) => concat("HTTP service error: ", s.as_str()),
            HiveDropError::RcgenError(s) => concat("Certificate generation error: ", s.as_str()),
            HiveDropError::TlsError(s) => concat("TLS error: ", s.as_str()),
            HiveDropError::TransferRequestError(s) => concat("Transfer request error: ", s.as_str()),
            HiveDropError::FileNotFound(s) => concat("File not found: ", s.as_str()),
            HiveDropError::InvalidPath(s) => concat("Invalid path: ", s.as_str()),
            HiveDropError::RequestNotFound(s) => concat("Request not found: ", s.as_str()),
            HiveDropError::NotFoundError(s) => concat("Resource not found: ", s.as_str()),
            HiveDropError::TransferStatusError(s) => concat("Transfer status error: ", s.as_str()),
            HiveDropError::EmptyTransferList => {
                let mut r = String::new();
                push_str(&mut r, "Empty transfer list");
                r
            },
            HiveDropError::ValidationError(s) => concat("Invalid transfer request: ", s.as_str()),
            HiveDropError::HttpBodyError(s) => concat("HTTP body error: ", s.as_str()),
            HiveDropError::GenericError(s) => s.clone(),
        }
    }

    /// A `GenericError` carrying `message` (what converting a `&str` gives).
    pub fn generic(message: &str) -> (r: HiveDropError)
        ensures
            r matches HiveDropError::GenericError(s) && s@ == message@,
    {
        HiveDropError::GenericError(message.to_owned())
    }
}

} // verus!
