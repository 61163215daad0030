use hive_send::error::HiveDropError;
use hive_send::text::{contains_str, parse_u64, str_eq, u64_to_decimal};
use hive_send::types::{TransferStatus, TransferServiceConfig, PendingSendFileInfo, PACKAGE_VERSION};
use hive_send::dto::response::{ApiResponse, DiscoveryLevel};
use hive_send::utils::gen_id::{generate_file_id, generate_random_string, generate_unique_id};

#[test]
fn decimal_text_of_numbers() {
    assert_eq!(u64_to_decimal(0), "0");
    assert_eq!(u64_to_decimal(7), "7");
    assert_eq!(u64_to_decimal(61314), "61314");
    assert_eq!(u64_to_decimal(u64::MAX), "18446744073709551615");
}

#[test]
fn parse_accepts_what_std_accepts() {
    assert_eq!(parse_u64("13"), Some(13));
    assert_eq!(parse_u64("+5"), Some(5));
    assert_eq!(parse_u64("007"), Some(7));
    assert_eq!(parse_u64("18446744073709551615"), Some(u64::MAX));
    for s in ["13", "+5", "007", "18446744073709551615", "", "+", "-5", "1a", "18446744073709551616", " 1"] {
        assert_eq!(parse_u64(s), s.parse::<u64>().ok(), "input {:?}", s);
    }
}

#[test]
fn parse_refuses_malformed_numbers() {
    assert_eq!(parse_u64(""), None);
    assert_eq!(parse_u64("+"), None);
    assert_eq!(parse_u64("-5"), None);
    assert_eq!(parse_u64("12x"), None);
    assert_eq!(parse_u64("18446744073709551616"), None);
}

#[test]
fn decimal_roundtrip_on_samples() {
    for n in [0u64, 1, 9, 10, 99, 100, 12345, u64::MAX - 1, u64::MAX] {
        assert_eq!(parse_u64(&u64_to_decimal(n)), Some(n));
    }
}

#[test]
fn substring_search() {
    assert!(contains_str("Network error: connection reset", "connection"));
    assert!(contains_str("abc", ""));
    assert!(!contains_str("abc", "abcd"));
    assert!(!contains_str("timeou", "timeout"));
    assert!(str_eq("accepted", "accepted"));
    assert!(!str_eq("accepted", "rejected"));
    assert_eq!(hive_send::text::concat("a", "bc"), "abc");
}

#[test]
fn error_messages_follow_their_kind() {
    assert_eq!(HiveDropError::NetworkError("x".to_string()).to_message(), "Network error: x");
    assert_eq!(HiveDropError::ValidationError("bad".to_string()).to_message(), "Invalid transfer request: bad");
    assert_eq!(HiveDropError::NotFoundError("r1".to_string()).to_message(), "Resource not found: r1");
    assert_eq!(HiveDropError::RcgenError("e".to_string()).to_message(), "Certificate generation error: e");
    assert_eq!(HiveDropError::EmptyTransferList.to_message(), "Empty transfer list");
    assert_eq!(HiveDropError::GenericError("plain".to_string()).to_message(), "plain");
    match HiveDropError::generic("oops") {
        HiveDropError::GenericError(s) => assert_eq!(s, "oops"),
        other => panic!("unexpected {:?}", other),
    }
}

#[test]
fn status_and_level_names() {
    assert_eq!(TransferStatus::InProgress.debug_name(), "InProgress");
    assert_eq!(TransferStatus::Accepted.debug_name(), "Accepted");
    assert_eq!(TransferStatus::Cancelled.debug_name(), "Cancelled");
    assert_eq!(DiscoveryLevel::Hidden.display_name(), "Hidden");
    assert_eq!(DiscoveryLevel::AllNearby.display_name(), "AllNearby");
    assert_eq!(DiscoveryLevel::UserOnly.display_name(), "UserOnly");
}

fn is_uuid(s: &str) -> bool {
    let b: Vec<char> = s.chars().collect();
    b.len() == 36
        && b.iter().enumerate().all(|(i, c)| {
            if i == 8 || i == 13 || i == 18 || i == 23 { *c == '-' } else { c.is_ascii_hexdigit() && !c.is_ascii_uppercase() }
        })
        && b[14] == '4'
}

#[test]
fn ids_are_random_uuids() {
    let a = generate_unique_id();
    let b = generate_file_id();
    assert!(is_uuid(&a), "{}", a);
    assert!(is_uuid(&b), "{}", b);
    assert_ne!(a, b);
}

#[test]
fn random_strings_have_the_length_and_alphabet() {
    let s = generate_random_string(64);
    assert_eq!(s.chars().count(), 64);
    assert!(s.chars().all(|c| c.is_ascii_alphanumeric()));
    assert_eq!(generate_random_string(0), "");
}

#[test]
fn default_configuration() {
    let c = TransferServiceConfig::default();
    assert!(is_uuid(&c.device_id));
    assert_eq!(c.server_port, 61314);
    assert_eq!(c.max_concurrent_transfers, 10);
    assert_eq!(c.chunk_size, 10 * 1024 * 1024);
    assert_eq!(c.version, PACKAGE_VERSION);
    assert!(c.key_path.is_none());
    assert_eq!(c.transfer_timeout, 300);
    assert_eq!(c.retry_attempts, 3);
    assert_eq!(c.retry_interval, 1000);
    assert_eq!(c.discovery_level, DiscoveryLevel::Hidden);
}

#[test]
fn pending_file_to_file_info() {
    let p = PendingSendFileInfo {
        file_id: "f1".to_string(),
        file_name: "a.txt".to_string(),
        file_relative_path: "dir/a.txt".to_string(),
        file_absolute_path: "/tmp/dir/a.txt".to_string(),
        file_size: 5,
        mime_type: "text/plain".to_string(),
        is_dir: false,
        progress: 3,
    };
    let f = p.to_file_info();
    assert_eq!(f.file_id, "f1");
    assert_eq!(f.file_name, "a.txt");
    assert_eq!(f.file_path, "dir/a.txt");
    assert_eq!(f.file_size, 5);
    assert_eq!(f.mime_type, "text/plain");
    assert!(!f.is_dir);
}

#[test]
fn api_error_response() {
    let r: ApiResponse<()> = ApiResponse::error("boom".to_string());
    assert!(!r.success);
    assert!(r.data.is_none());
    assert_eq!(r.message.as_deref(), Some("boom"));
}
