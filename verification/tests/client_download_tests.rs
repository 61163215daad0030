use hive_send::dto::request::{FileInfo, TransferRequest};
use hive_send::dto::response::{DeviceStatusInfo, DiscoveryLevel};
use hive_send::error::HiveDropError;
use hive_send::http::client::file_client::{check_chunk_length, disposition_filename, metadata_from_headers, range_header};
use hive_send::http::client::{endpoint_url, file_url, status_failure, transfer_status_url};
use hive_send::http::download_manage::{
    chunk_failure, chunk_retry_delay_ms, collect_download_tasks, is_retryable_chunk_error, next_chunk,
    report_retry_delay_ms, report_timeout_error, resolve_start_offset, DownloadManager, ProgressUpdate, SpeedBook,
    MAX_DOWNLOAD_RETRIES,
};
use hive_send::http::server::file_handler::attachment_disposition;
use hive_send::http::service::HttpTransferService;
use hive_send::types::{TransferEvent, TransferServiceConfig, TransferStatus};

#[test]
fn urls_of_peer_endpoints() {
    assert_eq!(endpoint_url("10.0.0.2", 61314, "/api/status"), "https://10.0.0.2:61314/api/status");
    assert_eq!(file_url("10.0.0.2", 8080, "abc"), "https://10.0.0.2:8080/api/file/abc");
    assert_eq!(
        transfer_status_url("host", 1, "r1"),
        "https://host:1/api/transfer/request/r1/status"
    );
    match status_failure("获取文件元数据失败", "404 Not Found") {
        HiveDropError::NetworkError(m) => assert_eq!(m, "获取文件元数据失败，状态码: 404 Not Found"),
        other => panic!("unexpected {:?}", other),
    }
}

#[test]
fn disposition_file_names() {
    assert_eq!(disposition_filename("attachment; filename=\"example.txt\"").as_deref(), Some("example.txt"));
    assert_eq!(disposition_filename("attachment;filename=plain.bin").as_deref(), Some("plain.bin"));
    assert_eq!(disposition_filename("filename=\"x\"; filename=\"y\"").as_deref(), Some("x"));
    assert_eq!(disposition_filename("attachment").as_deref(), None);
    assert_eq!(disposition_filename("").as_deref(), None);
    assert_eq!(disposition_filename("attachment; filename=").as_deref(), Some(""));
}

#[test]
fn disposition_roundtrip() {
    for name in ["report.pdf", "a b.txt", "数据.csv", ""] {
        let header = attachment_disposition(name);
        assert_eq!(disposition_filename(&header).as_deref(), Some(name));
    }
}

#[test]
fn metadata_from_reply_headers() {
    let md = metadata_from_headers(
        Some("1234".to_string()),
        Some("application/pdf".to_string()),
        Some("attachment; filename=\"report.pdf\"".to_string()),
    )
    .unwrap();
    assert_eq!(md.content_length, 1234);
    assert_eq!(md.content_type, "application/pdf");
    assert_eq!(md.filename, "report.pdf");
    let md = metadata_from_headers(Some("5".to_string()), None, Some("attachment; filename=a".to_string())).unwrap();
    assert_eq!(md.content_type, "application/octet-stream");
    match metadata_from_headers(None, None, Some("attachment; filename=a".to_string())) {
        Err(HiveDropError::NetworkError(m)) => assert_eq!(m, "缺少Content-Length头"),
        other => panic!("unexpected {:?}", other),
    }
    match metadata_from_headers(Some("x1".to_string()), None, None) {
        Err(HiveDropError::NetworkError(m)) => assert_eq!(m, "缺少Content-Length头"),
        other => panic!("unexpected {:?}", other),
    }
    match metadata_from_headers(Some("7".to_string()), None, Some("inline".to_string())) {
        Err(HiveDropError::NetworkError(m)) => assert_eq!(m, "无法从Content-Disposition头中提取文件名"),
        other => panic!("unexpected {:?}", other),
    }
}

#[test]
fn range_and_chunk_checks() {
    assert_eq!(range_header(0, 1023), "bytes=0-1023");
    assert_eq!(check_chunk_length(Some("3".to_string()), vec![1, 2, 3]).unwrap(), vec![1, 2, 3]);
    assert_eq!(check_chunk_length(None, vec![1]).unwrap(), vec![1]);
    assert_eq!(check_chunk_length(Some("abc".to_string()), vec![1]).unwrap(), vec![1]);
    match check_chunk_length(Some("4".to_string()), vec![1, 2, 3]) {
        Err(HiveDropError::NetworkError(m)) => assert_eq!(m, "数据长度不匹配: 期望 4 字节，实际接收 3 字节"),
        other => panic!("unexpected {:?}", other),
    }
}

#[test]
fn chunks_follow_each_other() {
    assert_eq!(next_chunk(0, 4, 10), Some((0, 3)));
    assert_eq!(next_chunk(4, 4, 10), Some((4, 7)));
    assert_eq!(next_chunk(8, 4, 10), Some((8, 9)));
    assert_eq!(next_chunk(10, 4, 10), None);
    assert_eq!(next_chunk(0, 4, 0), None);
    let mut covered = Vec::new();
    let mut at = 0u64;
    while let Some((s, e)) = next_chunk(at, 3, 11) {
        assert_eq!(s, at);
        covered.push((s, e));
        at = e + 1;
    }
    assert_eq!(covered, vec![(0, 2), (3, 5), (6, 8), (9, 10)]);
    assert_eq!(resolve_start_offset(5, true), 5);
    assert_eq!(resolve_start_offset(5, false), 0);
    assert_eq!(resolve_start_offset(0, true), 0);
}

#[test]
fn retry_policy() {
    assert!(is_retryable_chunk_error(&HiveDropError::NetworkError("connection reset".to_string())));
    assert!(is_retryable_chunk_error(&HiveDropError::NetworkError("timeout".to_string())));
    assert!(is_retryable_chunk_error(&HiveDropError::GenericError("error decoding response body".to_string())));
    assert!(is_retryable_chunk_error(&HiveDropError::NetworkError("network down".to_string())));
    assert!(!is_retryable_chunk_error(&HiveDropError::NetworkError("x".to_string())));
    assert!(!is_retryable_chunk_error(&HiveDropError::IoError("disk full".to_string())));
    assert_eq!(chunk_retry_delay_ms(0), 1000);
    assert_eq!(chunk_retry_delay_ms(4), 5000);
    assert_eq!(report_retry_delay_ms(1), 500);
    assert_eq!(report_retry_delay_ms(3), 1500);
    match chunk_failure("f1", 0, 99) {
        HiveDropError::NetworkError(m) => assert_eq!(m, "下载分片最终失败: 文件=f1, 范围=0-99, 已重试5次"),
        other => panic!("unexpected {:?}", other),
    }
    match report_timeout_error() {
        HiveDropError::NetworkError(m) => assert_eq!(m, "向发送方报告进度超时"),
        other => panic!("unexpected {:?}", other),
    }
}

#[test]
fn speed_is_the_average_of_whole_seconds() {
    let mut b = SpeedBook::new();
    assert_eq!(b.current_speed("f"), 0);
    b.begin("f");
    b.add_bytes("f", 300);
    assert_eq!(b.current_speed("f"), 300);
    b.tick();
    b.add_bytes("f", 100);
    b.tick();
    assert_eq!(b.current_speed("f"), 200);
    for _ in 0..5 {
        b.add_bytes("f", 50);
        b.tick();
    }
    assert_eq!(b.current_speed("f"), 50);
    b.add_bytes("f", u64::MAX);
    b.add_bytes("f", 10);
    b.tick();
    assert_eq!(b.current_speed("f"), ((u64::MAX as u128 + 200) / 5) as u64);
    b.end("f");
    assert_eq!(b.current_speed("f"), 0);
    b.add_bytes("g", 7);
    assert_eq!(b.current_speed("g"), 0);
}

fn receiving_service() -> HttpTransferService {
    let mut c = TransferServiceConfig::default();
    c.device_id = "me".to_string();
    let mut s = HttpTransferService::new(c);
    let f = |id: &str| FileInfo {
        file_id: id.to_string(),
        file_name: id.to_string(),
        file_path: format!("d/{}", id),
        file_size: 10,
        mime_type: "text/plain".to_string(),
        is_dir: false,
    };
    s.add_pending_request(TransferRequest {
        request_id: "r1".to_string(),
        sender_device_id: "peer".to_string(),
        receiver_device_id: "me".to_string(),
        files: vec![f("f1"), f("f2")],
        status: "pending".to_string(),
    })
    .unwrap();
    s.accept_transfer_request("r1", "/save", vec![]).unwrap();
    s.take_events();
    s
}

#[test]
fn accepted_files_are_handed_out_once() {
    let mut s = receiving_service();
    let mut tasks = collect_download_tasks(&mut s);
    tasks.sort_by(|a, b| a.file_id.cmp(&b.file_id));
    assert_eq!(tasks.len(), 2);
    assert_eq!(tasks[0].file_id, "f1");
    assert_eq!(tasks[0].request_id, "r1");
    assert_eq!(tasks[0].device_id, "peer");
    assert_eq!(tasks[0].save_path, "/save/d/f1");
    assert_eq!(tasks[0].file_size, 10);
    assert_eq!(tasks[0].start_offset, 0);
    assert_eq!(tasks[0].retry_count, 0);
    assert_eq!(s.receive_file("f1").unwrap().status, TransferStatus::InProgress);
    assert!(collect_download_tasks(&mut s).is_empty());
}

#[test]
fn failures_are_retried_then_given_up() {
    let mut s = receiving_service();
    let m = DownloadManager::new();
    assert_eq!(m.max_retries, MAX_DOWNLOAD_RETRIES);
    let mut task = collect_download_tasks(&mut s).pop().unwrap();
    let id = task.file_id.clone();
    assert!(m.on_download_failure(&mut s, &mut task));
    assert_eq!(task.retry_count, 1);
    assert!(m.on_download_failure(&mut s, &mut task));
    assert_eq!(task.retry_count, 2);
    assert_eq!(s.receive_file(&id).unwrap().status, TransferStatus::InProgress);
    assert!(!m.on_download_failure(&mut s, &mut task));
    assert_eq!(task.retry_count, 2);
    assert_eq!(s.receive_file(&id).unwrap().status, TransferStatus::Failed);
    assert_eq!(m.failure_report_message(), "下载失败，已重试2次");
}

#[test]
fn progress_updates_are_recorded_and_announced() {
    let mut s = receiving_service();
    let m = DownloadManager::new();
    let p = ProgressUpdate {
        request_id: "r1".to_string(),
        file_id: "f1".to_string(),
        bytes_received: 6,
        status: TransferStatus::InProgress,
        error_message: None,
        speed: 3,
    };
    m.update_progress(&mut s, &p).unwrap();
    let f = s.receive_file("f1").unwrap();
    assert_eq!(f.progress, 6);
    assert_eq!(f.status, TransferStatus::InProgress);
    match &s.take_events()[0] {
        TransferEvent::ProgressUpdated(q) => {
            assert_eq!(q.file_id, "f1");
            assert_eq!(q.bytes_received, 6);
            assert_eq!(q.speed, 3);
        },
        other => panic!("unexpected {:?}", other),
    }
}

#[test]
fn sender_device_lookup() {
    let mut s = receiving_service();
    let m = DownloadManager::new();
    match m.sender_device(&s, "peer") {
        Err(HiveDropError::NotFoundError(t)) => assert_eq!(t, "设备不存在: peer"),
        other => panic!("unexpected {:?}", other),
    }
    s.record_scanned_device("10.1.1.1", 61314, &DeviceStatusInfo {
        device_id: "peer".to_string(),
        discovery_level: DiscoveryLevel::UserOnly,
        is_online: true,
        version: "0.1.0".to_string(),
        port: 61314,
    });
    assert_eq!(m.sender_device(&s, "peer").unwrap().address[0], "10.1.1.1");
}
