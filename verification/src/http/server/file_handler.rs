use vstd::prelude::*;
use crate::http::server::{status_reply, Reply};
use crate::http::service::HttpTransferService;
use crate::text::{concat, decimal, push_str, u64_to_decimal};
use crate::types::{PendingSendFileInfo, SendFileView};

verus! {

/// The headers of a reply that serves a file (or its metadata).
#[derive(Debug)]
pub struct FileHeaders {
    /// `Content-Length`.
    pub content_length: String,
    /// `Content-Type`.
    pub content_type: String,
    /// `Content-Disposition`.
    pub content_disposition: String,
    /// `Accept-Ranges`.
    pub accept_ranges: String,
    /// `Content-Range`, for a part of the file.
    pub content_range: Option<String>,
}

/// The `Content-Disposition` value that offers a file named `name` as an attachment.
pub open spec fn disposition_spec(name: Seq<char>) -> Seq<char> {
    "attachment; filename=\""@ + name + "\""@
}

/// The `Content-Disposition` value for a file named `name`:
/// `attachment; filename="{name}"`.
pub fn attachment_disposition(name: &str) -> (r: String)
    ensures
        r@ == disposition_spec(name@),
{
    crate::text::concat3("attachment; filename=\"", name, "\"")
}

/// The headers of the metadata reply for file `f`: its size, type and name, and
/// that ranges of bytes may be asked for.
pub open spec fn metadata_headers_spec(h: FileHeaders, f: SendFileView) -> bool {
    &&& h.content_length@ == decimal(f.file_size as nat)
    &&& h.content_type@ == f.mime_type
    &&& h.content_disposition@ == disposition_spec(f.file_name)
    &&& h.accept_ranges@ == "bytes"@
    &&& h.content_range is None
}

/// Answers a `HEAD` request for file `file_id` among the files offered: its
/// metadata headers, or 404 when it is not offered.
pub fn handle_file_metadata(service: &HttpTransferService, file_id: &str) -> (r: Reply<FileHeaders>)
    ensures
        service.model().send_files.contains_key(file_id@) ==>
            (r matches Reply::Json(h) && metadata_headers_spec(h, service.model().send_files[file_id@])),
        !service.model().send_files.contains_key(file_id@) ==>
            crate::http::server::is_status_reply(r, 404, "文件不存在: "@ + file_id@),
{
    match service.send_file(file_id) {
        Some(f) => {
            let mut accept_ranges = String::new();
            push_str(&mut accept_ranges, "bytes");
            Reply::Json(FileHeaders {
                content_length: u64_to_decimal(f.file_size),
                content_type: f.mime_type.clone(),
                content_disposition: attachment_disposition(f.file_name.as_str()),
                accept_ranges,
                content_range: None,
            })
        },
        None => status_reply(404, concat("文件不存在: ", file_id)),
    }
}

/// The file offered under `file_id`, to be downloaded, or 404 when it is not
/// offered.
pub fn lookup_download(service: &HttpTransferService, file_id: &str) -> (r: Result<PendingSendFileInfo, Reply<()>>)
    ensures
        service.model().send_files.contains_key(file_id@) ==>
            (r matches Ok(f) && f@ == service.model().send_files[file_id@]),
        !service.model().send_files.contains_key(file_id@) ==>
            (r matches Err(e) && crate::http::server::is_status_reply(e, 404, "文件不存在: "@ + file_id@)),
{
    match service.send_file(file_id) {
        Some(f) => Ok(f),
        None => Err(status_reply(404, concat("文件不存在: ", file_id))),
    }
}

/// One end of a range of bytes (`std::ops::Bound<u64>`).
#[derive(Clone, Copy, Debug, PartialEq, Eq, Structural)]
pub enum RangeBound {
    Included(u64),
    Excluded(u64),
    Unbounded,
}

/// The first byte a range starts at.
pub open spec fn range_start_spec(b: RangeBound) -> int {
    match b {
        RangeBound::Included(s) => s as int,
        RangeBound::Excluded(s) => s + 1,
        RangeBound::Unbounded => 0,
    }
}

/// The last byte a range ends at, in a file of `size` bytes.
pub open spec fn range_end_spec(b: RangeBound, size: u64) -> int {
    match b {
        RangeBound::Included(e) => e as int,
        RangeBound::Excluded(e) => e - 1,
        RangeBound::Unbounded => size - 1,
    }
}

/// A range of bytes `start..=end` of a file, and its length.
#[derive(Clone, Copy, Debug)]
pub struct ByteRange {
    pub start: u64,
    pub end: u64,
    pub length: u64,
}

/// Resolves the ranges of a `Range` request, as satisfiable in a file of
/// `file_size` bytes, into the bytes to send: only the first range is served;
/// no range at all is answered with 416. The first range must resolve to a
/// non-empty run of bytes whose length fits in a `u64` (the server cannot
/// serve others).
pub fn resolve_range(ranges: &Vec<(RangeBound, RangeBound)>, file_size: u64) -> (r: Result<ByteRange, Reply<()>>)
    requires
        ranges@.len() > 0 ==> {
            let s = range_start_spec(ranges@[0].0);
            let e = range_end_spec(ranges@[0].1, file_size);
            0 <= s <= e && e - s + 1 <= u64::MAX
        },
    ensures
        ranges@.len() == 0 ==>
            (r matches Err(e) && crate::http::server::is_status_reply(e, 416, "无效的Range请求"@)),
        ranges@.len() > 0 ==> (r matches Ok(b)
            && b.start == range_start_spec(ranges@[0].0)
            && b.end == range_end_spec(ranges@[0].1, file_size)
            && b.length == b.end - b.start + 1),
{
    if ranges.len() == 0 {
        return Err(status_reply(416, "无效的Range请求".to_owned()));
    }
    let (lo, hi) = ranges[0];
    let start = match lo {
        RangeBound::Included(s) => s,
        RangeBound::Excluded(s) => s + 1,
        RangeBound::Unbounded => 0,
    };
    let end = match hi {
        RangeBound::Included(e) => e,
        RangeBound::Excluded(e) => e - 1,
        RangeBound::Unbounded => file_size - 1,
    };
    Ok(ByteRange { start, end, length: end - start + 1 })
}

/// The headers of a reply that serves bytes `range` of file `f` of `file_size`
/// bytes: its type, `bytes {start}-{end}/{size}`, the range's length, that
/// ranges may be asked for, and its name.
pub fn partial_headers(f: &PendingSendFileInfo, range: ByteRange, file_size: u64) -> (r: FileHeaders)
    ensures
        r.content_type@ == f.mime_type@,
        r.content_range matches Some(c) && c@ == "bytes "@ + decimal(range.start as nat) + "-"@
            + decimal(range.end as nat) + "/"@ + decimal(file_size as nat),
        r.content_length@ == decimal(range.length as nat),
        r.accept_ranges@ == "bytes"@,
        r.content_disposition@ == disposition_spec(f.file_name@),
{
    let mut content_range = String::new();
    push_str(&mut content_range, "bytes ");
    let a = u64_to_decimal(range.start);
    push_str(&mut content_range, a.as_str());
    push_str(&mut content_range, "-");
    let b = u64_to_decimal(range.end);
    push_str(&mut content_range, b.as_str());
    push_str(&mut content_range, "/");
    let c = u64_to_decimal(file_size);
    push_str(&mut content_range, c.as_str());
    let mut accept_ranges = String::new();
    push_str(&mut accept_ranges, "bytes");
    FileHeaders {
        content_length: u64_to_decimal(range.length),
        content_type: f.mime_type.clone(),
        content_disposition: attachment_disposition(f.file_name.as_str()),
        accept_ranges,
        content_range: Some(content_range),
    }
}

/// The headers of a reply that serves all `file_size` bytes of file `f`.
pub fn full_headers(f: &PendingSendFileInfo, file_size: u64) -> (r: FileHeaders)
    ensures
        r.content_type@ == f.mime_type@,
        r.content_range is None,
        r.content_length@ == decimal(file_size as nat),
        r.accept_ranges@ == "bytes"@,
        r.content_disposition@ == disposition_spec(f.file_name@),
{
    let mut accept_ranges = String::new();
    push_str(&mut accept_ranges, "bytes");
    FileHeaders {
        content_length: u64_to_decimal(file_size),
        content_type: f.mime_type.clone(),
        content_disposition: attachment_disposition(f.file_name.as_str()),
        accept_ranges,
        content_range: None,
    }
}

/// What can go wrong while serving a file's bytes.
#[derive(Clone, Copy, Debug)]
pub enum DownloadFailure {
    /// The file's metadata could not be read.
    Missing,
    /// The file could not be opened.
    OpenFailed,
    /// Seeking or reading the file failed.
    ReadFailed,
}

/// The reply for a failure while serving a file: 404 when it cannot be found,
/// 500 when it cannot be opened or read.
pub fn download_failure_reply(f: DownloadFailure) -> (r: Reply<()>)
    ensures
        f is Missing ==> crate::http::server::is_status_reply(r, 404, "文件不存在或无法访问"@),
        f is OpenFailed ==> crate::http::server::is_status_reply(r, 500, "文件访问错误"@),
        f is ReadFailed ==> crate::http::server::is_status_reply(r, 500, "文件读取错误"@),
{
    match f {
        DownloadFailure::Missing => status_reply(404, "文件不存在或无法访问".to_owned()),
        DownloadFailure::OpenFailed => status_reply(500, "文件访问错误".to_owned()),
        DownloadFailure::ReadFailed => status_reply(500, "文件读取错误".to_owned()),
    }
}

} // verus!
