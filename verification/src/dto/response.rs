use vstd::prelude::*;
use crate::text::push_str;

verus! {

/// How visible a device is on the network.
#[derive(Clone, Copy, Debug, PartialEq, Eq, Structural)]
pub enum DiscoveryLevel {
    /// Not discoverable.
    Hidden,
    /// Discoverable by everyone nearby.
    AllNearby,
    /// Discoverable only by the user's own devices.
    UserOnly,
}

/// The text a discovery level is displayed as.
pub open spec fn discovery_level_name(l: DiscoveryLevel) -> Seq<char> {
    match l {
        DiscoveryLevel::Hidden => "Hidden"@,
        DiscoveryLevel::AllNearby => "AllNearby"@,
        DiscoveryLevel::UserOnly => "UserOnly"@,
    }
}

impl DiscoveryLevel {
    /// The displayed text of the level: `Hidden`, `AllNearby` or `UserOnly`.
    pub fn display_name(&self) -> (r: String)
        ensures
            r@ == discovery_level_name(*self),
    {
        let mut r = String::new();
        match self {
            DiscoveryLevel::Hidden => push_str(&mut r, "Hidden"),
            DiscoveryLevel::AllNearby => push_str(&mut r, "AllNearby"),
            DiscoveryLevel::UserOnly => push_str(&mut r, "UserOnly"),
        }
        r
    }
}

/// The state of a device, as the status endpoint reports it (`GET /api/status`).
#[derive(Debug)]
pub struct DeviceStatusInfo {
    pub device_id: String,
    pub discovery_level: DiscoveryLevel,
    pub is_online: bool,
    pub version: String,
    pub port: u16,
}

/// The receiver's immediate answer to a transfer request: `status` is `"pending"`.
#[derive(Debug)]
pub struct TransferRequestResponse {
    pub request_id: String,
    pub status: String,
}

/// The answer to a status query on a request
/// (`GET /api/transfer/request/{request_id}/status`).
#[derive(Debug)]
pub struct TransferStatusResponse {
    pub request_id: String,
    pub status: String,
    pub message: Option<String>,
}

/// Metadata of a file offered for download, as the `HEAD` reply carries it.
#[derive(Debug)]
pub struct FileMetadata {
    /// Size in bytes.
    pub content_length: u64,
    /// MIME type.
    pub content_type: String,
    /// File name.
    pub filename: String,
}

/// The body of a JSON reply.
#[derive(Debug)]
pub struct ApiResponse<T> {
    pub success: bool,
    pub data: Option<T>,
    pub message: Option<String>,
}

impl<T> ApiResponse<T> {
    /// A failed reply carrying `message` and no data.
    pub fn error(message: String) -> (r: Self)
        ensures
            !r.success,
            r.data is None,
            r.message == Some(message),
    {
        ApiResponse { success: false, data: None, message: Some(message) }
    }
}

} // verus!
