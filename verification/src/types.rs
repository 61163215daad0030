use vstd::prelude::*;
use crate::dto::request::{FileInfo, FileInfoView, TransferRequest, TransferProgress};
use crate::dto::response::DiscoveryLevel;
use crate::text::push_str;
use crate::utils::gen_id::{generate_unique_id, is_uuid_text};

verus! {

/// A JSON value, carried through the library unread.
#[verifier::external_type_specification]
#[verifier::external_body]
pub struct ExJsonValue(serde_json::Value);

/// Copies a JSON value (`<serde_json::Value as Clone>::clone`).
/// Trusted: the copy is the same value.
#[verifier::external_body]
fn clone_json(v: &serde_json::Value) -> (r: serde_json::Value)
    ensures
        r == *v,
{
    v.clone()
}

/// Events that the service announces to its subscribers.
#[derive(Debug)]
pub enum TransferEvent {
    /// The service has started.
    ServiceStarted,
    /// The service has stopped.
    ServiceStopped,
    /// A new transfer request was received.
    RequestReceived(TransferRequest),
    /// The state of a request changed (for example from pending to accepted).
    RequestStatusChanged { request_id: String, status: String, message: Option<String> },
    /// The progress of a transfer was updated.
    ProgressUpdated(TransferProgress),
    /// A transfer completed.
    TransferCompleted { request_id: String, file_id: String, save_path: Option<String> },
    /// A transfer failed.
    TransferFailed { request_id: String, file_id: String, error: String },
    /// A transfer was cancelled.
    TransferCancelled { request_id: String, reason: String },
    /// The result of verifying a file.
    VerificationResult { request_id: String, file_id: String, is_valid: bool, original_hash: String },
    /// A device went on or off line.
    DeviceStatusChanged { device_id: String, is_online: bool },
    /// The discovery level of a device changed.
    DiscoveryLevelChanged { device_id: String, level: DiscoveryLevel },
    /// A known device was updated.
    DeviceUpdated(DeviceInfo),
    /// A new device was discovered.
    DeviceDiscovered(DeviceInfo),
    /// The extra information of a device changed.
    ExtraInfoChanged { device_id: String, extra_info: Option<serde_json::Value> },
}

/// The state of the transfer of one file.
#[derive(Clone, Copy, Debug, PartialEq, Eq, Structural)]
pub enum TransferStatus {
    Pending,
    Accepted,
    Rejected,
    InProgress,
    Paused,
    Completed,
    Failed,
    Cancelled,
}

/// The name of a status as its `Debug` form writes it.
pub open spec fn status_name(s: TransferStatus) -> Seq<char> {
    match s {
        TransferStatus::Pending => "Pending"@,
        TransferStatus::Accepted => "Accepted"@,
        TransferStatus::Rejected => "Rejected"@,
        TransferStatus::InProgress => "InProgress"@,
        TransferStatus::Paused => "Paused"@,
        TransferStatus::Completed => "Completed"@,
        TransferStatus::Failed => "Failed"@,
        TransferStatus::Cancelled => "Cancelled"@,
    }
}

impl TransferStatus {
    /// The variant's name, as `format!("{:?}", status)` writes it.
    pub fn debug_name(&self) -> (r: String)
        ensures
            r@ == status_name(*self),
    {
        let mut r = String::new();
        match self {
            TransferStatus::Pending => push_str(&mut r, "Pending"),
            TransferStatus::Accepted => push_str(&mut r, "Accepted"),
            TransferStatus::Rejected => push_str(&mut r, "Rejected"),
            TransferStatus::InProgress => push_str(&mut r, "InProgress"),
            TransferStatus::Paused => push_str(&mut r, "Paused"),
            TransferStatus::Completed => push_str(&mut r, "Completed"),
            TransferStatus::Failed => push_str(&mut r, "Failed"),
            TransferStatus::Cancelled => push_str(&mut r, "Cancelled"),
        }
        r
    }
}

/// A device that this one knows of.
#[derive(Debug)]
pub struct DeviceInfo {
    /// Device id.
    pub device_id: String,
    /// Addresses at which the device was seen.
    pub address: Vec<String>,
    /// Port of its service.
    pub port: u16,
    /// Whether it is on line.
    pub is_online: bool,
    /// Version of its application.
    pub version: String,
    /// Extra information about the device.
    pub extra_info: Option<serde_json::Value>,
}

/// The abstract value of a `DeviceInfo`.
pub struct DeviceView {
    pub device_id: Seq<char>,
    pub address: Seq<Seq<char>>,
    pub port: u16,
    pub is_online: bool,
    pub version: Seq<char>,
    pub extra_info: Option<serde_json::Value>,
}

impl View for DeviceInfo {
    type V = DeviceView;

    open spec fn view(&self) -> DeviceView {
        DeviceView {
            device_id: self.device_id@,
            address: crate::text::strings_view(self.address@),
            port: self.port,
            is_online: self.is_online,
            version: self.version@,
            extra_info: self.extra_info,
        }
    }
}

/// A copy of a list of strings.
pub fn duplicate_strings(v: &Vec<String>) -> (r: Vec<String>)
    ensures
        r@ == v@,
{
    let mut r: Vec<String> = Vec::new();
    for i in 0..v.len()
        invariant
            r@ == v@.take(i as int),
    {
        r.push(v[i].clone());
        assert(v@.take(i + 1) == v@.take(i as int).push(v@[i as int]));
    }
    assert(v@.take(v@.len() as int) == v@);
    r
}

impl DeviceInfo {
    /// A field-by-field copy.
    pub fn duplicate(&self) -> (r: DeviceInfo)
        ensures
            r@ == self@,
    {
        DeviceInfo {
            device_id: self.device_id.clone(),
            address: duplicate_strings(&self.address),
            port: self.port,
            is_online: self.is_online,
            version: self.version.clone(),
            extra_info: match &self.extra_info {
                Some(v) => Some(clone_json(v)),
                None => None,
            },
        }
    }
}

/// The kinds of transfer service.
#[derive(Clone, Copy, Debug, PartialEq, Eq, Structural)]
pub enum TransferImplementation {
    Http,
}

/// The version of this package, which a device reports.
pub const PACKAGE_VERSION: &'static str = "0.1.0";

/// Default port of the transfer service.
pub const DEFAULT_SERVER_PORT: u16 = 61314;

/// Configuration of the transfer service.
#[derive(Debug)]
pub struct TransferServiceConfig {
    /// Id of the local device.
    pub device_id: String,
    /// Port the server listens on.
    pub server_port: u16,
    /// Most transfers at the same time.
    pub max_concurrent_transfers: usize,
    /// Size of a download chunk, in bytes.
    pub chunk_size: usize,
    /// Version of the application.
    pub version: String,
    /// Path of an encryption key.
    pub key_path: Option<String>,
    /// Transfer time-out, in seconds.
    pub transfer_timeout: u64,
    /// Connection retries.
    pub retry_attempts: u32,
    /// Pause between retries, in milliseconds.
    pub retry_interval: u64,
    /// Discovery level of the device.
    pub discovery_level: DiscoveryLevel,
}

impl Default for TransferServiceConfig {
    /// A fresh device id, port 61314, 10 concurrent transfers, chunks of 10 MiB,
    /// this package's version, no key, a 300 s time-out, 3 retries 1000 ms apart,
    /// and a hidden device.
    fn default() -> (r: Self)
        ensures
            is_uuid_text(r.device_id@),
            r.server_port == 61314,
            r.max_concurrent_transfers == 10,
            r.chunk_size == 10 * 1024 * 1024,
            r.version@ == PACKAGE_VERSION@,
            r.key_path is None,
            r.transfer_timeout == 300,
            r.retry_attempts == 3,
            r.retry_interval == 1000,
            r.discovery_level == DiscoveryLevel::Hidden,
    {
        let mut version = String::new();
        push_str(&mut version, PACKAGE_VERSION);
        TransferServiceConfig {
            device_id: generate_unique_id(),
            server_port: DEFAULT_SERVER_PORT,
            max_concurrent_transfers: 10,
            chunk_size: 10 * 1024 * 1024,
            version,
            key_path: None,
            transfer_timeout: 300,
            retry_attempts: 3,
            retry_interval: 1000,
            discovery_level: DiscoveryLevel::Hidden,
        }
    }
}

/// A file (or directory) waiting to be sent.
#[derive(Debug)]
pub struct PendingSendFileInfo {
    pub file_id: String,
    pub file_name: String,
    /// Path relative to the transferred root.
    pub file_relative_path: String,
    /// Absolute path on this device.
    pub file_absolute_path: String,
    pub file_size: u64,
    pub mime_type: String,
    pub is_dir: bool,
    /// Bytes transferred so far.
    pub progress: u64,
}

/// The abstract value of a `PendingSendFileInfo`.
pub struct SendFileView {
    pub file_id: Seq<char>,
    pub file_name: Seq<char>,
    pub file_relative_path: Seq<char>,
    pub file_absolute_path: Seq<char>,
    pub file_size: u64,
    pub mime_type: Seq<char>,
    pub is_dir: bool,
    pub progress: u64,
}

impl View for PendingSendFileInfo {
    type V = SendFileView;

    open spec fn view(&self) -> SendFileView {
        SendFileView {
            file_id: self.file_id@,
            file_name: self.file_name@,
            file_relative_path: self.file_relative_path@,
            file_absolute_path: self.file_absolute_path@,
            file_size: self.file_size,
            mime_type: self.mime_type@,
            is_dir: self.is_dir,
            progress: self.progress,
        }
    }
}

/// The description of a file to send that a transfer request carries.
pub open spec fn file_info_of(f: SendFileView) -> FileInfoView {
    FileInfoView {
        file_id: f.file_id,
        file_name: f.file_name,
        file_path: f.file_relative_path,
        file_size: f.file_size,
        mime_type: f.mime_type,
        is_dir: f.is_dir,
    }
}

impl PendingSendFileInfo {
    /// The description of this file that a transfer request carries.
    pub fn to_file_info(&self) -> (r: FileInfo)
        ensures
            r@ == file_info_of(self@),
    {
        FileInfo {
            file_id: self.file_id.clone(),
            file_name: self.file_name.clone(),
            file_path: self.file_relative_path.clone(),
            file_size: self.file_size,
            mime_type: self.mime_type.clone(),
            is_dir: self.is_dir,
        }
    }

    /// A field-by-field copy.
    pub fn duplicate(&self) -> (r: PendingSendFileInfo)
        ensures
            r == *self,
    {
        PendingSendFileInfo {
            file_id: self.file_id.clone(),
            file_name: self.file_name.clone(),
            file_relative_path: self.file_relative_path.clone(),
            file_absolute_path: self.file_absolute_path.clone(),
            file_size: self.file_size,
            mime_type: self.mime_type.clone(),
            is_dir: self.is_dir,
            progress: self.progress,
        }
    }
}

/// A file (or directory) waiting to be received.
#[derive(Debug)]
pub struct PendingReceiveFileInfo {
    /// The request it belongs to.
    pub request_id: String,
    /// Device id of the sender.
    pub device_id: String,
    pub file_id: String,
    pub file_name: String,
    pub file_relative_path: String,
    /// Where it is saved on this device.
    pub file_absolute_path: String,
    pub file_size: u64,
    pub mime_type: String,
    pub is_dir: bool,
    /// Bytes received so far.
    pub progress: u64,
    pub status: TransferStatus,
}

/// The abstract value of a `PendingReceiveFileInfo`.
pub struct ReceiveFileView {
    pub request_id: Seq<char>,
    pub device_id: Seq<char>,
    pub file_id: Seq<char>,
    pub file_name: Seq<char>,
    pub file_relative_path: Seq<char>,
    pub file_absolute_path: Seq<char>,
    pub file_size: u64,
    pub mime_type: Seq<char>,
    pub is_dir: bool,
    pub progress: u64,
    pub status: TransferStatus,
}

impl View for PendingReceiveFileInfo {
    type V = ReceiveFileView;

    open spec fn view(&self) -> ReceiveFileView {
        ReceiveFileView {
            request_id: self.request_id@,
            device_id: self.device_id@,
            file_id: self.file_id@,
            file_name: self.file_name@,
            file_relative_path: self.file_relative_path@,
            file_absolute_path: self.file_absolute_path@,
            file_size: self.file_size,
            mime_type: self.mime_type@,
            is_dir: self.is_dir,
            progress: self.progress,
            status: self.status,
        }
    }
}

impl PendingReceiveFileInfo {
    /// A field-by-field copy.
    pub fn duplicate(&self) -> (r: PendingReceiveFileInfo)
        ensures
            r == *self,
    {
        PendingReceiveFileInfo {
            request_id: self.request_id.clone(),
            device_id: self.device_id.clone(),
            file_id: self.file_id.clone(),
            file_name: self.file_name.clone(),
            file_relative_path: self.file_relative_path.clone(),
            file_absolute_path: self.file_absolute_path.clone(),
            file_size: self.file_size,
            mime_type: self.mime_type.clone(),
            is_dir: self.is_dir,
            progress: self.progress,
            status: self.status,
        }
    }
}

} // verus!
