use hive_send::dto::request::{FileInfo, TransferCancel, TransferProgress, TransferRequest, TransferResponse};
use hive_send::dto::response::DeviceStatusInfo;
use hive_send::dto::response::DiscoveryLevel;
use hive_send::http::server::file_handler::{
    attachment_disposition, download_failure_reply, full_headers, handle_file_metadata, lookup_download,
    partial_headers, resolve_range, ByteRange, DownloadFailure, RangeBound,
};
use hive_send::http::server::transfer_handler::{
    get_transfer_status, handle_transfer_cancel, handle_transfer_progress, handle_transfer_request,
    handle_transfer_response,
};
use hive_send::http::server::{status_reply, Reply};
use hive_send::http::service::HttpTransferService;
use hive_send::types::{PendingSendFileInfo, TransferEvent, TransferServiceConfig, TransferStatus};

fn service() -> HttpTransferService {
    let mut c = TransferServiceConfig::default();
    c.device_id = "me".to_string();
    HttpTransferService::new(c)
}

fn info(id: &str) -> FileInfo {
    FileInfo {
        file_id: id.to_string(),
        file_name: format!("{}.bin", id),
        file_path: format!("{}.bin", id),
        file_size: 100,
        mime_type: "application/octet-stream".to_string(),
        is_dir: false,
    }
}

fn request(id: &str, files: Vec<FileInfo>, status: &str) -> TransferRequest {
    TransferRequest {
        request_id: id.to_string(),
        sender_device_id: "peer".to_string(),
        receiver_device_id: "me".to_string(),
        files,
        status: status.to_string(),
    }
}

fn send_file(id: &str) -> PendingSendFileInfo {
    PendingSendFileInfo {
        file_id: id.to_string(),
        file_name: "report.pdf".to_string(),
        file_relative_path: "report.pdf".to_string(),
        file_absolute_path: "/data/report.pdf".to_string(),
        file_size: 1234,
        mime_type: "application/pdf".to_string(),
        is_dir: false,
        progress: 0,
    }
}

fn status_of<T>(r: &Reply<T>) -> (u16, String) {
    match r {
        Reply::Status(c, body) => {
            assert!(!body.success);
            assert!(body.data.is_none());
            (*c, body.message.clone().unwrap())
        },
        Reply::Json(_) => (200, String::new()),
        Reply::NoContent => (204, String::new()),
    }
}

/// A service that has sent request `r1` offering files `f1` and `f2`.
fn sender_with_request() -> HttpTransferService {
    let mut s = service();
    s.record_scanned_device("10.0.0.9", 61314, &DeviceStatusInfo {
        device_id: "peer".to_string(),
        discovery_level: DiscoveryLevel::AllNearby,
        is_online: true,
        version: "0.1.0".to_string(),
        port: 61314,
    });
    let out = s.create_transfer_request_by_path(Ok(vec![send_file("f1"), send_file("f2")]), "peer").unwrap();
    let id = out.request.request_id.clone();
    // Re-record it under a fixed id for the handlers.
    s.add_sent_request(request("r1", vec![info("f1"), info("f2")], "pending")).unwrap();
    assert!(s.sent_request(&id).is_some());
    s.take_events();
    s
}

#[test]
fn transfer_request_is_recorded_pending() {
    let mut s = service();
    match handle_transfer_request(&mut s, request("r1", vec![info("f1")], "pending")) {
        Reply::Json(resp) => {
            assert_eq!(resp.request_id, "r1");
            assert_eq!(resp.status, "pending");
        },
        other => panic!("unexpected {:?}", other),
    }
    assert!(s.pending_request("r1").is_some());
    let r = handle_transfer_request(&mut s, request("r1", vec![], "pending"));
    assert_eq!(
        status_of(&r),
        (400, "处理传输请求失败: Invalid transfer request: 传输请求ID已存在".to_string())
    );
    assert_eq!(s.take_events().len(), 1);
}

#[test]
fn transfer_status_of_pending_sent_and_unknown() {
    let mut s = service();
    s.add_pending_request(request("r1", vec![], "pending")).unwrap();
    s.add_sent_request(request("r2", vec![], "Accepted")).unwrap();
    match get_transfer_status(&s, "r1") {
        Reply::Json(st) => {
            assert_eq!(st.request_id, "r1");
            assert_eq!(st.status, "pending");
            assert!(st.message.is_none());
        },
        other => panic!("unexpected {:?}", other),
    }
    match get_transfer_status(&s, "r2") {
        Reply::Json(st) => assert_eq!(st.status, "accepted"),
        other => panic!("unexpected {:?}", other),
    }
    assert_eq!(status_of(&get_transfer_status(&s, "r3")), (404, "找不到传输请求: r3".to_string()));
}

#[test]
fn status_query_follows_the_request_state() {
    let mut s = service();
    s.add_pending_request(request("r1", vec![info("f1")], "pending")).unwrap();
    s.add_pending_request(request("r2", vec![], "pending")).unwrap();
    s.accept_transfer_request("r1", "/save", vec![]).unwrap();
    s.reject_transfer_request("r2", None).unwrap();
    assert_eq!(s.pending_request("r1").unwrap().status, "Accepted");
    match get_transfer_status(&s, "r1") {
        Reply::Json(st) => assert_eq!(st.status, "accepted"),
        other => panic!("unexpected {:?}", other),
    }
    match get_transfer_status(&s, "r2") {
        Reply::Json(st) => assert_eq!(st.status, "rejected"),
        other => panic!("unexpected {:?}", other),
    }
}

#[test]
fn response_accepted_rejected_invalid_unknown() {
    let mut s = sender_with_request();
    let resp = |st: &str, id: &str| TransferResponse {
        request_id: id.to_string(),
        status: st.to_string(),
        receiver_device_id: "peer".to_string(),
    };
    assert_eq!(status_of(&handle_transfer_response(&mut s, &resp("accepted", "r1"))), (200, "传输请求已接受".to_string()));
    assert_eq!(status_of(&handle_transfer_response(&mut s, &resp("maybe", "r1"))), (400, "无效的响应状态".to_string()));
    assert_eq!(status_of(&handle_transfer_response(&mut s, &resp("accepted", "r9"))), (404, "找不到请求ID: r9".to_string()));
    assert!(s.send_file("f1").is_some());
    assert_eq!(status_of(&handle_transfer_response(&mut s, &resp("rejected", "r1"))), (200, "传输请求已被拒绝".to_string()));
    assert!(s.send_file("f1").is_none());
    assert!(s.send_file("f2").is_none());
    let events = s.take_events();
    assert_eq!(events.len(), 2);
    match &events[1] {
        TransferEvent::RequestStatusChanged { request_id, status, message } => {
            assert_eq!(request_id, "r1");
            assert_eq!(status, "rejected");
            assert!(message.is_none());
        },
        other => panic!("unexpected {:?}", other),
    }
}

fn progress(file: &str, st: TransferStatus, msg: Option<&str>) -> TransferProgress {
    TransferProgress {
        request_id: "r1".to_string(),
        file_id: file.to_string(),
        bytes_received: 50,
        status: st,
        error_message: msg.map(|m| m.to_string()),
        speed: 10,
    }
}

#[test]
fn progress_reports_update_the_sender() {
    let mut s = sender_with_request();
    assert!(matches!(handle_transfer_progress(&mut s, progress("f1", TransferStatus::InProgress, None)), Reply::NoContent));
    assert_eq!(s.send_file("f1").unwrap().progress, 50);
    assert!(matches!(handle_transfer_progress(&mut s, progress("f1", TransferStatus::Completed, None)), Reply::NoContent));
    assert!(s.send_file("f1").is_none());
    assert!(matches!(handle_transfer_progress(&mut s, progress("f2", TransferStatus::Failed, None)), Reply::NoContent));
    assert!(matches!(handle_transfer_progress(&mut s, progress("f2", TransferStatus::Cancelled, Some("bye"))), Reply::NoContent));
    let r = handle_transfer_progress(&mut s, progress("f2", TransferStatus::Pending, None));
    assert_eq!(status_of(&r), (400, "无效的传输状态".to_string()));
    let r = handle_transfer_progress(&mut s, progress("f1", TransferStatus::InProgress, None));
    assert_eq!(status_of(&r), (404, "找不到文件ID: f1".to_string()));
    let mut p = progress("f2", TransferStatus::InProgress, None);
    p.request_id = "zz".to_string();
    assert_eq!(status_of(&handle_transfer_progress(&mut s, p)), (404, "找不到请求ID: zz".to_string()));
    let events = s.take_events();
    assert_eq!(events.len(), 4);
    assert!(matches!(events[0], TransferEvent::ProgressUpdated(_)));
    match &events[1] {
        TransferEvent::TransferCompleted { request_id, file_id, save_path } => {
            assert_eq!(request_id, "r1");
            assert_eq!(file_id, "f1");
            assert!(save_path.is_none());
        },
        other => panic!("unexpected {:?}", other),
    }
    match &events[2] {
        TransferEvent::TransferFailed { error, .. } => assert_eq!(error, "未知错误"),
        other => panic!("unexpected {:?}", other),
    }
    match &events[3] {
        TransferEvent::TransferCancelled { reason, .. } => assert_eq!(reason, "bye"),
        other => panic!("unexpected {:?}", other),
    }
}

#[test]
fn cancel_reasons() {
    let mut s = service();
    s.add_pending_request(request("r1", vec![info("f1")], "pending")).unwrap();
    s.accept_transfer_request("r1", "/save", vec![]).unwrap();
    s.take_events();
    let c = |reason: &str, id: &str| TransferCancel { request_id: id.to_string(), reason: reason.to_string() };
    let r = handle_transfer_cancel(&mut s, &c("user_cancelled", "r9"));
    assert_eq!(status_of(&r), (404, "找不到请求ID: r9".to_string()));
    assert!(s.take_events().is_empty());
    let r = handle_transfer_cancel(&mut s, &c("timeout", "r1"));
    assert!(matches!(r, Reply::NoContent));
    assert!(s.pending_request("r1").is_none());
    assert!(s.receive_file("f1").is_none());
    let events = s.take_events();
    match &events[events.len() - 1] {
        TransferEvent::TransferCancelled { request_id, reason } => {
            assert_eq!(request_id, "r1");
            assert_eq!(reason, "timeout");
        },
        other => panic!("unexpected {:?}", other),
    }
}

#[test]
fn cancel_of_sent_request_withdraws_files() {
    let mut s = sender_with_request();
    let r = handle_transfer_cancel(&mut s, &TransferCancel { request_id: "r1".to_string(), reason: "error".to_string() });
    assert!(matches!(r, Reply::NoContent));
    assert!(s.sent_request("r1").is_none());
    assert!(s.send_file("f1").is_none());
    assert!(s.send_file("f2").is_none());
}

#[test]
fn metadata_of_offered_file() {
    let mut s = service();
    s.create_transfer_request_by_path(Ok(vec![send_file("f1")]), "nobody").unwrap_err();
    match handle_file_metadata(&s, "f1") {
        Reply::Json(h) => {
            assert_eq!(h.content_length, "1234");
            assert_eq!(h.content_type, "application/pdf");
            assert_eq!(h.content_disposition, "attachment; filename=\"report.pdf\"");
            assert_eq!(h.accept_ranges, "bytes");
            assert!(h.content_range.is_none());
        },
        other => panic!("unexpected {:?}", other),
    }
    assert_eq!(status_of(&handle_file_metadata(&s, "f9")), (404, "文件不存在: f9".to_string()));
    assert_eq!(lookup_download(&s, "f1").unwrap().file_absolute_path, "/data/report.pdf");
    assert_eq!(status_of(&lookup_download(&s, "f9").unwrap_err()), (404, "文件不存在: f9".to_string()));
}

#[test]
fn ranges_and_their_headers() {
    let f = send_file("f1");
    assert_eq!(status_of(&resolve_range(&vec![], 1234).unwrap_err()), (416, "无效的Range请求".to_string()));
    let b = resolve_range(&vec![(RangeBound::Included(100), RangeBound::Included(199))], 1234).unwrap();
    assert_eq!((b.start, b.end, b.length), (100, 199, 100));
    let b = resolve_range(&vec![(RangeBound::Excluded(9), RangeBound::Excluded(20))], 1234).unwrap();
    assert_eq!((b.start, b.end, b.length), (10, 19, 10));
    let b = resolve_range(&vec![(RangeBound::Unbounded, RangeBound::Unbounded), (RangeBound::Included(0), RangeBound::Included(0))], 1234).unwrap();
    assert_eq!((b.start, b.end, b.length), (0, 1233, 1234));
    let h = partial_headers(&f, ByteRange { start: 100, end: 199, length: 100 }, 1234);
    assert_eq!(h.content_range.as_deref(), Some("bytes 100-199/1234"));
    assert_eq!(h.content_length, "100");
    assert_eq!(h.content_type, "application/pdf");
    let h = full_headers(&f, 1234);
    assert_eq!(h.content_length, "1234");
    assert!(h.content_range.is_none());
    assert_eq!(attachment_disposition("a b.txt"), "attachment; filename=\"a b.txt\"");
}

#[test]
fn download_failures() {
    assert_eq!(status_of(&download_failure_reply(DownloadFailure::Missing)), (404, "文件不存在或无法访问".to_string()));
    assert_eq!(status_of(&download_failure_reply(DownloadFailure::OpenFailed)), (500, "文件访问错误".to_string()));
    assert_eq!(status_of(&download_failure_reply(DownloadFailure::ReadFailed)), (500, "文件读取错误".to_string()));
    let r: Reply<()> = status_reply(418, "teapot".to_string());
    assert_eq!(status_of(&r), (418, "teapot".to_string()));
}
