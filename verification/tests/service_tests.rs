use hive_send::dto::request::{FileInfo, TransferProgress, TransferRequest};
use hive_send::dto::response::{DeviceStatusInfo, DiscoveryLevel};
use hive_send::error::HiveDropError;
use hive_send::http::service::{HttpTransferService, PathListing};
use hive_send::types::{
    PendingReceiveFileInfo, PendingSendFileInfo, TransferEvent, TransferServiceConfig, TransferStatus,
};

fn config(device_id: &str) -> TransferServiceConfig {
    let mut c = TransferServiceConfig::default();
    c.device_id = device_id.to_string();
    c
}

fn file(id: &str, path: &str, size: u64) -> FileInfo {
    FileInfo {
        file_id: id.to_string(),
        file_name: path.rsplit('/').next().unwrap().to_string(),
        file_path: path.to_string(),
        file_size: size,
        mime_type: "text/plain".to_string(),
        is_dir: false,
    }
}

fn request(id: &str, files: Vec<FileInfo>) -> TransferRequest {
    TransferRequest {
        request_id: id.to_string(),
        sender_device_id: "sender".to_string(),
        receiver_device_id: "me".to_string(),
        files,
        status: "pending".to_string(),
    }
}

fn send_file(id: &str, name: &str, size: u64) -> PendingSendFileInfo {
    PendingSendFileInfo {
        file_id: id.to_string(),
        file_name: name.to_string(),
        file_relative_path: name.to_string(),
        file_absolute_path: format!("/data/{}", name),
        file_size: size,
        mime_type: "text/plain".to_string(),
        is_dir: false,
        progress: 0,
    }
}

fn status(id: &str, port: u16) -> DeviceStatusInfo {
    DeviceStatusInfo {
        device_id: id.to_string(),
        discovery_level: DiscoveryLevel::AllNearby,
        is_online: true,
        version: "0.2.0".to_string(),
        port,
    }
}

#[test]
fn new_service_is_idle_and_empty() {
    let s = HttpTransferService::new(config("me"));
    assert!(!s.is_service_running());
    assert_eq!(s.get_server_port(), 61314);
    assert_eq!(s.get_config().device_id, "me");
    assert!(s.get_received_requests().unwrap().is_empty());
    assert!(s.get_sent_requests().unwrap().is_empty());
    assert!(s.get_known_devices().unwrap().is_empty());
    assert!(s.get_pending_send_files().unwrap().is_empty());
    assert!(s.get_pending_receive_files().unwrap().is_empty());
    assert_eq!(s.get_discovery_level(), DiscoveryLevel::Hidden);
}

#[test]
fn start_and_stop_are_announced_once() {
    let mut s = HttpTransferService::new(config("me"));
    assert!(s.start());
    assert!(s.is_service_running());
    assert!(!s.start());
    assert!(s.stop());
    assert!(!s.is_service_running());
    assert!(!s.stop());
    let events = s.take_events();
    assert_eq!(events.len(), 2);
    assert!(matches!(events[0], TransferEvent::ServiceStarted));
    assert!(matches!(events[1], TransferEvent::ServiceStopped));
    assert!(s.take_events().is_empty());
}

#[test]
fn device_status_reports_this_device() {
    let mut s = HttpTransferService::new(config("me"));
    s.start();
    let st = s.get_device_status();
    assert_eq!(st.device_id, "me");
    assert!(st.is_online);
    assert_eq!(st.version, "0.1.0");
    assert_eq!(st.port, 61314);
    assert_eq!(st.discovery_level, DiscoveryLevel::Hidden);
}

#[test]
fn pending_request_is_kept_and_duplicate_refused() {
    let mut s = HttpTransferService::new(config("me"));
    assert!(s.add_pending_request(request("r1", vec![file("f1", "a.txt", 3)])).is_ok());
    let again = s.add_pending_request(request("r1", vec![]));
    match again {
        Err(HiveDropError::ValidationError(m)) => assert_eq!(m, "传输请求ID已存在"),
        other => panic!("unexpected {:?}", other),
    }
    let kept = s.pending_request("r1").unwrap();
    assert_eq!(kept.files.len(), 1);
    assert_eq!(s.get_received_requests().unwrap().len(), 1);
    let events = s.take_events();
    assert_eq!(events.len(), 1);
    match &events[0] {
        TransferEvent::RequestReceived(q) => assert_eq!(q.request_id, "r1"),
        other => panic!("unexpected {:?}", other),
    }
}

#[test]
fn sent_request_duplicate_refused() {
    let mut s = HttpTransferService::new(config("me"));
    assert!(s.add_sent_request(request("r1", vec![])).is_ok());
    assert!(matches!(s.add_sent_request(request("r1", vec![])), Err(HiveDropError::ValidationError(_))));
    assert!(s.sent_request("r1").is_some());
    assert!(s.take_events().is_empty());
}

#[test]
fn status_update_needs_a_pending_request() {
    let mut s = HttpTransferService::new(config("me"));
    match s.update_request_status("nope", TransferStatus::Accepted, None) {
        Err(HiveDropError::NotFoundError(m)) => assert_eq!(m, "找不到传输请求: nope"),
        other => panic!("unexpected {:?}", other),
    }
    s.add_pending_request(request("r1", vec![])).unwrap();
    s.take_events();
    s.update_request_status("r1", TransferStatus::InProgress, Some("go".to_string())).unwrap();
    assert_eq!(s.pending_request("r1").unwrap().status, "InProgress");
    match &s.take_events()[0] {
        TransferEvent::RequestStatusChanged { request_id, status, message } => {
            assert_eq!(request_id, "r1");
            assert_eq!(status, "InProgress");
            assert_eq!(message.as_deref(), Some("go"));
        },
        other => panic!("unexpected {:?}", other),
    }
}

#[test]
fn accept_adds_files_except_excluded() {
    let mut s = HttpTransferService::new(config("me"));
    let q = request("r1", vec![file("f1", "a.txt", 3), file("f2", "dir/b.txt", 5), file("f3", "c.txt", 7)]);
    s.add_pending_request(q).unwrap();
    s.accept_transfer_request("r1", "/save", vec!["f2".to_string()]).unwrap();
    let mut files = s.get_pending_receive_files().unwrap();
    files.sort_by(|a, b| a.file_id.cmp(&b.file_id));
    assert_eq!(files.len(), 2);
    assert_eq!(files[0].file_id, "f1");
    assert_eq!(files[0].file_absolute_path, "/save/a.txt");
    assert_eq!(files[0].request_id, "r1");
    assert_eq!(files[0].device_id, "sender");
    assert_eq!(files[0].status, TransferStatus::Accepted);
    assert_eq!(files[0].progress, 0);
    assert_eq!(files[1].file_id, "f3");
    assert_eq!(files[1].file_size, 7);
    let f1 = s.receive_file("f1").unwrap();
    assert_eq!(f1.file_relative_path, "a.txt");
    assert!(s.receive_file("f2").is_none());
    match &s.take_events()[1] {
        TransferEvent::RequestStatusChanged { request_id, status, message } => {
            assert_eq!(request_id, "r1");
            assert_eq!(status, "Accepted");
            assert!(message.is_none());
        },
        other => panic!("unexpected {:?}", other),
    }
}

#[test]
fn accept_of_unknown_request_fails() {
    let mut s = HttpTransferService::new(config("me"));
    match s.accept_transfer_request("zz", "/save", vec![]) {
        Err(HiveDropError::NotFoundError(m)) => assert_eq!(m, "找不到传输请求: zz"),
        other => panic!("unexpected {:?}", other),
    }
    assert!(s.get_pending_receive_files().unwrap().is_empty());
    assert!(s.take_events().is_empty());
}

#[test]
fn reject_announces_reason() {
    let mut s = HttpTransferService::new(config("me"));
    s.add_pending_request(request("r1", vec![file("f1", "a.txt", 3)])).unwrap();
    s.take_events();
    s.reject_transfer_request("r1", Some("busy".to_string())).unwrap();
    match &s.take_events()[0] {
        TransferEvent::RequestStatusChanged { status, message, .. } => {
            assert_eq!(status, "Rejected");
            assert_eq!(message.as_deref(), Some("busy"));
        },
        other => panic!("unexpected {:?}", other),
    }
    assert!(s.get_pending_receive_files().unwrap().is_empty());
    assert!(s.reject_transfer_request("r9", None).is_err());
}

#[test]
fn placeholder_operations_succeed() {
    let mut s = HttpTransferService::new(config("me"));
    assert!(s.cancel_transfer_request("r").is_ok());
    assert!(s.pause_file_download("r", "f").is_ok());
    assert!(s.resume_file_download("r", "f").is_ok());
    assert!(s.cancel_file_send("r", "f").is_ok());
    assert!(s.retry_failed_transfer("r", "f").is_ok());
    assert!(s.take_events().is_empty());
}

#[test]
fn cancel_receiving_is_announced() {
    let mut s = HttpTransferService::new(config("me"));
    s.cancel_file_receiving("r1", "user_cancelled").unwrap();
    match &s.take_events()[0] {
        TransferEvent::TransferCancelled { request_id, reason } => {
            assert_eq!(request_id, "r1");
            assert_eq!(reason, "user_cancelled");
        },
        other => panic!("unexpected {:?}", other),
    }
}

#[test]
fn discovery_level_change_is_announced() {
    let mut s = HttpTransferService::new(config("me"));
    s.set_discovery_level(DiscoveryLevel::AllNearby).unwrap();
    assert_eq!(s.get_discovery_level(), DiscoveryLevel::AllNearby);
    match &s.take_events()[0] {
        TransferEvent::DiscoveryLevelChanged { device_id, level } => {
            assert_eq!(device_id, "me");
            assert_eq!(*level, DiscoveryLevel::AllNearby);
        },
        other => panic!("unexpected {:?}", other),
    }
}

#[test]
fn progress_is_announced_as_given() {
    let mut s = HttpTransferService::new(config("me"));
    let p = TransferProgress {
        request_id: "r1".to_string(),
        file_id: "f1".to_string(),
        bytes_received: 10,
        status: TransferStatus::InProgress,
        error_message: None,
        speed: 4,
    };
    s.update_transfer_progress(p).unwrap();
    match &s.take_events()[0] {
        TransferEvent::ProgressUpdated(p) => {
            assert_eq!(p.bytes_received, 10);
            assert_eq!(p.speed, 4);
        },
        other => panic!("unexpected {:?}", other),
    }
}

#[test]
fn receive_file_duplicate_refused() {
    let mut s = HttpTransferService::new(config("me"));
    let f = PendingReceiveFileInfo {
        request_id: "r1".to_string(),
        device_id: "d".to_string(),
        file_id: "f1".to_string(),
        file_name: "a".to_string(),
        file_relative_path: "a".to_string(),
        file_absolute_path: "/s/a".to_string(),
        file_size: 1,
        mime_type: "text/plain".to_string(),
        is_dir: false,
        progress: 0,
        status: TransferStatus::Accepted,
    };
    assert!(s.add_pending_receive_file(f.duplicate()).is_ok());
    match s.add_pending_receive_file(f) {
        Err(HiveDropError::ValidationError(m)) => assert_eq!(m, "接收文件ID已存在"),
        other => panic!("unexpected {:?}", other),
    }
}

#[test]
fn scan_discovers_then_updates() {
    let mut s = HttpTransferService::new(config("me"));
    let d = s.record_scanned_device("10.0.0.2", 7000, &status("peer", 9000));
    assert_eq!(d.device_id, "peer");
    assert_eq!(d.address, vec!["10.0.0.2".to_string()]);
    assert_eq!(d.port, 7000);
    let d2 = s.record_scanned_device("10.0.0.3", 7001, &status("peer", 9000));
    assert_eq!(d2.address, vec!["10.0.0.2".to_string(), "10.0.0.3".to_string()]);
    assert_eq!(d2.port, 7000);
    let d3 = s.record_scanned_device("10.0.0.2", 7001, &status("peer", 9000));
    assert_eq!(d3.address.len(), 2);
    let events = s.take_events();
    assert!(matches!(events[0], TransferEvent::DeviceDiscovered(_)));
    assert!(matches!(events[1], TransferEvent::DeviceUpdated(_)));
    assert_eq!(s.get_known_devices().unwrap().len(), 1);
    assert_eq!(s.get_device_info("peer").unwrap().version, "0.2.0");
}

#[test]
fn peer_status_records_unknown_peer_only() {
    let mut s = HttpTransferService::new(config("me"));
    let mine = s.check_device_status("192.168.1.5", &status("peer", 9000));
    assert_eq!(mine.device_id, "me");
    let d = s.get_device_info("peer").unwrap();
    assert_eq!(d.address, vec!["192.168.1.5".to_string()]);
    assert_eq!(d.port, 9000);
    assert_eq!(s.take_events().len(), 1);
    s.check_device_status("192.168.1.6", &status("peer", 9001));
    assert_eq!(s.get_device_info("peer").unwrap().port, 9000);
    assert!(s.take_events().is_empty());
}

#[test]
fn shutdown_forgets_devices_and_requests() {
    let mut s = HttpTransferService::new(config("me"));
    s.start();
    s.record_scanned_device("10.0.0.2", 7000, &status("peer", 9000));
    s.add_pending_request(request("r1", vec![])).unwrap();
    s.add_sent_request(request("r2", vec![])).unwrap();
    let listing: PathListing = Ok(vec![send_file("f1", "a.txt", 3)]);
    let _ = s.create_transfer_request_by_path(listing, "peer");
    assert!(s.shutdown());
    assert!(!s.is_service_running());
    assert!(s.get_known_devices().unwrap().is_empty());
    assert!(s.get_received_requests().unwrap().is_empty());
    assert!(s.get_sent_requests().unwrap().is_empty());
    assert_eq!(s.get_pending_send_files().unwrap().len(), 1);
    assert!(!s.shutdown());
}

#[test]
fn outgoing_request_offers_all_listed_files() {
    let mut s = HttpTransferService::new(config("me"));
    s.record_scanned_device("10.0.0.2", 7000, &status("peer", 9000));
    s.take_events();
    let listings: Vec<PathListing> = vec![
        Ok(vec![send_file("f1", "a.txt", 3)]),
        Ok(vec![send_file("f2", "b.txt", 4), send_file("f3", "c.txt", 5)]),
    ];
    let out = s.create_transfer_request_by_paths(listings, "peer").unwrap();
    assert_eq!(out.address, "10.0.0.2");
    assert_eq!(out.port, 7000);
    assert_eq!(out.request.sender_device_id, "me");
    assert_eq!(out.request.receiver_device_id, "peer");
    assert_eq!(out.request.status, "pending");
    let ids: Vec<&str> = out.request.files.iter().map(|f| f.file_id.as_str()).collect();
    assert_eq!(ids, vec!["f1", "f2", "f3"]);
    assert_eq!(out.request.files[2].file_path, "c.txt");
    assert_eq!(out.request.request_id.len(), 36);
    assert!(s.sent_request(&out.request.request_id).is_some());
    assert_eq!(s.get_pending_send_files().unwrap().len(), 3);
    assert!(s.take_events().is_empty());
}

#[test]
fn outgoing_request_errors() {
    let mut s = HttpTransferService::new(config("me"));
    match s.create_transfer_request_by_paths(vec![Ok(vec![])], "peer") {
        Err(HiveDropError::ValidationError(m)) => assert_eq!(m, "没有找到有效文件可发送"),
        other => panic!("unexpected {:?}", other),
    }
    let listings: Vec<PathListing> =
        vec![Ok(vec![send_file("f1", "a.txt", 3)]), Err(HiveDropError::InvalidPath("x".to_string()))];
    match s.create_transfer_request_by_paths(listings, "peer") {
        Err(HiveDropError::InvalidPath(m)) => assert_eq!(m, "x"),
        other => panic!("unexpected {:?}", other),
    }
    assert_eq!(s.get_pending_send_files().unwrap().len(), 1);
    match s.create_transfer_request_by_path(Ok(vec![send_file("f2", "b.txt", 3)]), "peer") {
        Err(HiveDropError::NotFoundError(m)) => assert_eq!(m, "接收方设备未找到"),
        other => panic!("unexpected {:?}", other),
    }
    assert_eq!(s.get_sent_requests().unwrap().len(), 1);
}

#[test]
fn send_file_progress_and_removal() {
    let mut s = HttpTransferService::new(config("me"));
    s.create_transfer_request_by_path(Ok(vec![send_file("f1", "a.txt", 3)]), "peer").unwrap_err();
    s.set_send_file_progress("f1", 2);
    assert_eq!(s.send_file("f1").unwrap().progress, 2);
    s.remove_send_file("f1");
    assert!(s.send_file("f1").is_none());
}
