use vstd::prelude::*;
use crate::types::TransferStatus;

verus! {

/// One file (or directory) of a transfer request, as the sender describes it.
#[derive(Debug)]
pub struct FileInfo {
    /// Unique id of the file.
    pub file_id: String,
    /// File name.
    pub file_name: String,
    /// Path relative to the transferred root, with `/` separators.
    pub file_path: String,
    /// Size in bytes.
    pub file_size: u64,
    /// MIME type.
    pub mime_type: String,
    /// Whether the entry is a directory.
    pub is_dir: bool,
}

/// A transfer request that a sender posts to a receiver (`POST /api/transfer/request`).
#[derive(Debug)]
pub struct TransferRequest {
    /// Unique id of the request.
    pub request_id: String,
    /// Device id of the sender.
    pub sender_device_id: String,
    /// Device id of the receiver.
    pub receiver_device_id: String,
    /// The files to transfer.
    pub files: Vec<FileInfo>,
    /// State of the request.
    pub status: String,
}

/// The receiver's answer to a request (`POST /api/transfer/response`):
/// `status` is `"accepted"` or `"rejected"`.
#[derive(Debug)]
pub struct TransferResponse {
    pub request_id: String,
    pub status: String,
    pub receiver_device_id: String,
}

/// Progress of one file, which the receiver reports to the sender
/// (`POST /api/transfer/progress`).
#[derive(Debug)]
pub struct TransferProgress {
    pub request_id: String,
    pub file_id: String,
    /// Bytes received so far.
    pub bytes_received: u64,
    pub status: TransferStatus,
    /// Optional error text.
    pub error_message: Option<String>,
    /// Speed in bytes per second.
    pub speed: u64,
}

/// Cancellation of a transfer by either side (`POST /api/transfer/cancel`):
/// `reason` is `user_cancelled`, `error` or `timeout`.
#[derive(Debug)]
pub struct TransferCancel {
    pub request_id: String,
    pub reason: String,
}

/// The abstract value of a `FileInfo`: its texts as character sequences.
pub struct FileInfoView {
    pub file_id: Seq<char>,
    pub file_name: Seq<char>,
    pub file_path: Seq<char>,
    pub file_size: u64,
    pub mime_type: Seq<char>,
    pub is_dir: bool,
}

impl View for FileInfo {
    type V = FileInfoView;

    open spec fn view(&self) -> FileInfoView {
        FileInfoView {
            file_id: self.file_id@,
            file_name: self.file_name@,
            file_path: self.file_path@,
            file_size: self.file_size,
            mime_type: self.mime_type@,
            is_dir: self.is_dir,
        }
    }
}

/// The views of a list of file descriptions.
pub open spec fn files_view(v: Seq<FileInfo>) -> Seq<FileInfoView> {
    v.map_values(|f: FileInfo| f@)
}

impl FileInfo {
    /// A field-by-field copy.
    pub fn duplicate(&self) -> (r: FileInfo)
        ensures
            r == *self,
    {
        FileInfo {
            file_id: self.file_id.clone(),
            file_name: self.file_name.clone(),
            file_path: self.file_path.clone(),
            file_size: self.file_size,
            mime_type: self.mime_type.clone(),
            is_dir: self.is_dir,
        }
    }
}

/// A copy of a list of file descriptions.
pub fn duplicate_files(v: &Vec<FileInfo>) -> (r: Vec<FileInfo>)
    ensures
        r@ == v@,
{
    let mut r: Vec<FileInfo> = Vec::new();
    for i in 0..v.len()
        invariant
            r@ == v@.take(i as int),
    {
        r.push(v[i].duplicate());
        assert(v@.take(i + 1) == v@.take(i as int).push(v@[i as int]));
    }
    assert(v@.take(v@.len() as int) == v@);
    r
}

/// The abstract value of a `TransferRequest`.
pub struct RequestView {
    pub request_id: Seq<char>,
    pub sender_device_id: Seq<char>,
    pub receiver_device_id: Seq<char>,
    pub files: Seq<FileInfoView>,
    pub status: Seq<char>,
}

impl View for TransferRequest {
    type V = RequestView;

    open spec fn view(&self) -> RequestView {
        RequestView {
            request_id: self.request_id@,
            sender_device_id: self.sender_device_id@,
            receiver_device_id: self.receiver_device_id@,
            files: files_view(self.files@),
            status: self.status@,
        }
    }
}

impl TransferRequest {
    /// A field-by-field copy.
    pub fn duplicate(&self) -> (r: TransferRequest)
        ensures
            r@ == self@,
    {
        TransferRequest {
            request_id: self.request_id.clone(),
            sender_device_id: self.sender_device_id.clone(),
            receiver_device_id: self.receiver_device_id.clone(),
            files: duplicate_files(&self.files),
            status: self.status.clone(),
        }
    }
}

/// The abstract value of a `TransferProgress`.
pub struct ProgressView {
    pub request_id: Seq<char>,
    pub file_id: Seq<char>,
    pub bytes_received: u64,
    pub status: TransferStatus,
    pub error_message: Option<Seq<char>>,
    pub speed: u64,
}

/// The view of an optional text.
pub open spec fn opt_view(o: Option<String>) -> Option<Seq<char>> {
    match o {
        Some(s) => Some(s@),
        None => None,
    }
}

impl View for TransferProgress {
    type V = ProgressView;

    open spec fn view(&self) -> ProgressView {
        ProgressView {
            request_id: self.request_id@,
            file_id: self.file_id@,
            bytes_received: self.bytes_received,
            status: self.status,
            error_message: opt_view(self.error_message),
            speed: self.speed,
        }
    }
}

impl TransferProgress {
    /// A field-by-field copy.
    pub fn duplicate(&self) -> (r: TransferProgress)
        ensures
            r == *self,
    {
        TransferProgress {
            request_id: self.request_id.clone(),
            file_id: self.file_id.clone(),
            bytes_received: self.bytes_received,
            status: self.status,
            error_message: match &self.error_message {
                Some(m) => Some(m.clone()),
                None => None,
            },
            speed: self.speed,
        }
    }
}

} // verus!
