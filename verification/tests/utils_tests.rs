use hive_send::error::HiveDropError;
use hive_send::utils::file::{
    create_dir_info, create_file_info, path_to_transfer_structure, to_forward_slashes, FsEntry, PathKind,
};
use hive_send::utils::file_entropy::{byte_histogram, random_block_starts, sampling_window};
use hive_send::utils::security::{calculate_cert_fingerprint, generate_self_signed_cert};

fn entry(base: &str, rel: &str, is_dir: bool, size: u64) -> FsEntry {
    let path = if rel.is_empty() { base.to_string() } else { format!("{}/{}", base, rel) };
    let name = path.rsplit('/').next().map(|s| s.to_string());
    FsEntry {
        path: path.clone(),
        file_name: name,
        relative: if rel.is_empty() { None } else { Some(rel.to_string()) },
        absolute: path,
        is_dir,
        size: Ok(size),
    }
}

#[test]
fn test_single_file() {
    let root = FsEntry {
        path: "/tmp/x/test.txt".to_string(),
        file_name: Some("test.txt".to_string()),
        relative: None,
        absolute: "/tmp/x/test.txt".to_string(),
        is_dir: false,
        size: Ok(13),
    };
    let files = path_to_transfer_structure(&root, PathKind::File, &vec![], None).unwrap();
    assert_eq!(files.len(), 1);
    assert_eq!(files[0].file_name, "test.txt");
    assert_eq!(files[0].file_size, 13);
    assert_eq!(files[0].mime_type, "text/plain");
    assert!(!files[0].is_dir);
}

#[test]
fn test_directory() {
    let base = "/tmp/d";
    let root = FsEntry {
        path: base.to_string(),
        file_name: Some("d".to_string()),
        relative: None,
        absolute: base.to_string(),
        is_dir: true,
        size: Ok(4096),
    };
    let entries = vec![
        entry(base, "test1.txt", false, 6),
        entry(base, "test2.txt", false, 6),
        entry(base, "subdir", true, 0),
        entry(base, "subdir/test3.txt", false, 6),
        entry(base, "emptydir", true, 0),
        entry(base, ".DS_Store", false, 13),
    ];
    let exclude_patterns = Some(vec![String::from("*.DS_Store")]);
    let files = path_to_transfer_structure(&root, PathKind::Directory, &entries, exclude_patterns).unwrap();
    assert!(files.len() >= 5);
    assert!(!files.iter().any(|f| f.file_name == ".DS_Store"));
    let has_subdir_file = files.iter().any(|f| f.file_relative_path.contains("subdir"));
    assert!(has_subdir_file);
    let has_empty_dir = files.iter().any(|f| f.is_dir && f.file_name == "emptydir");
    assert!(has_empty_dir, "应该包含空目录");
    assert_eq!(files.len(), 6);
    assert_eq!(files[0].file_name, "d");
    assert_eq!(files[0].file_relative_path, "d");
    assert_eq!(files[0].mime_type, "inode/directory");
    assert_eq!(files[4].file_relative_path, "subdir/test3.txt");
    assert_eq!(files[4].mime_type, "text/plain");
    assert_eq!(files[4].file_size, 6);
    assert_eq!(files[3].mime_type, "inode/directory");
}

#[test]
fn test_empty_directory() {
    let root = FsEntry {
        path: "/tmp/e/emptydir".to_string(),
        file_name: Some("emptydir".to_string()),
        relative: None,
        absolute: "/tmp/e/emptydir".to_string(),
        is_dir: true,
        size: Ok(0),
    };
    let files = path_to_transfer_structure(&root, PathKind::Directory, &vec![], None).unwrap();
    assert!(!files.is_empty(), "应该包含空目录本身");
    assert!(files.iter().any(|f| f.is_dir), "应该标记为目录");
    assert_eq!(files.len(), 1);
    assert_eq!(files[0].file_size, 0);
    assert_eq!(files[0].mime_type, "inode/directory");
}

#[test]
fn test_transfer_request() {
    let root = FsEntry {
        path: "/home/chenzibo/git/hive-send/src".to_string(),
        file_name: Some("src".to_string()),
        relative: None,
        absolute: "/home/chenzibo/git/hive-send/src".to_string(),
        is_dir: true,
        size: Ok(0),
    };
    let files = path_to_transfer_structure(&root, PathKind::Directory, &vec![], None).unwrap();
    println!("{:?}", files);
}

#[test]
fn listing_errors() {
    let mut root = entry("/tmp/f", "", false, 1);
    match path_to_transfer_structure(&root, PathKind::Missing, &vec![], None) {
        Err(HiveDropError::InvalidPath(m)) => assert_eq!(m, "路径不存在: /tmp/f"),
        other => panic!("unexpected {:?}", other),
    }
    match path_to_transfer_structure(&root, PathKind::Other, &vec![], None) {
        Err(HiveDropError::InvalidPath(m)) => assert_eq!(m, "路径不是文件或目录: /tmp/f"),
        other => panic!("unexpected {:?}", other),
    }
    match path_to_transfer_structure(&root, PathKind::File, &vec![], Some(vec!["ok".to_string(), "[".to_string()])) {
        Err(HiveDropError::GenericError(m)) => assert!(m.starts_with("无效的glob模式 '[': "), "{}", m),
        other => panic!("unexpected {:?}", other),
    }
    let excluded = path_to_transfer_structure(&root, PathKind::File, &vec![], Some(vec!["f".to_string()])).unwrap();
    assert!(excluded.is_empty());
    root.size = Err("permission denied".to_string());
    match path_to_transfer_structure(&root, PathKind::File, &vec![], None) {
        Err(HiveDropError::IoError(m)) => assert_eq!(m, "permission denied"),
        other => panic!("unexpected {:?}", other),
    }
}

#[test]
fn directory_listing_errors() {
    let root = entry("/tmp/d", "", true, 0);
    let good = entry("/tmp/d", "a.txt", false, 1);
    let mut unreadable = entry("/tmp/d", "x.bin", false, 1);
    unreadable.size = Err("gone".to_string());
    let mut nameless = entry("/tmp/d", "y", true, 0);
    nameless.file_name = None;
    let entries = vec![good, unreadable, nameless];
    match path_to_transfer_structure(&root, PathKind::Directory, &entries, None) {
        Err(HiveDropError::IoError(m)) => assert_eq!(m, "gone"),
        other => panic!("unexpected {:?}", other),
    }
    match path_to_transfer_structure(&root, PathKind::Directory, &entries, Some(vec!["*.bin".to_string()])) {
        Err(HiveDropError::InvalidPath(m)) => assert_eq!(m, "无法获取目录名: /tmp/d/y"),
        other => panic!("unexpected {:?}", other),
    }
    let mut no_name = entry("/", "", true, 0);
    no_name.file_name = None;
    match path_to_transfer_structure(&no_name, PathKind::Directory, &vec![], None) {
        Err(HiveDropError::InvalidPath(m)) => assert_eq!(m, "无法获取目录名: /"),
        other => panic!("unexpected {:?}", other),
    }
}

#[test]
fn records_of_entries() {
    let mut e = entry("C:\\base", "sub\\x.json", false, 9);
    let f = create_file_info(&e).unwrap();
    assert_eq!(f.file_relative_path, "sub/x.json");
    assert_eq!(f.mime_type, "application/json");
    assert_eq!(f.progress, 0);
    assert_eq!(f.file_id.len(), 36);
    e.file_name = None;
    match create_file_info(&e) {
        Err(HiveDropError::InvalidPath(m)) => assert!(m.starts_with("无法获取文件名: ")),
        other => panic!("unexpected {:?}", other),
    }
    match create_dir_info(&e) {
        Err(HiveDropError::InvalidPath(m)) => assert!(m.starts_with("无法获取目录名: ")),
        other => panic!("unexpected {:?}", other),
    }
    let d = create_dir_info(&entry("/b", "dir", true, 0)).unwrap();
    assert_eq!(d.file_size, 0);
    assert!(d.is_dir);
    assert_eq!(d.mime_type, "inode/directory");
    assert_eq!(to_forward_slashes("a\\b\\c"), "a/b/c");
    let unknown = create_file_info(&entry("/b", "blob.zzzunknown", false, 1)).unwrap();
    assert_eq!(unknown.mime_type, "application/octet-stream");
}

#[test]
fn test_calculate_entropy() {
    let data = b"hello world";
    let counts = byte_histogram(data);
    assert_eq!(counts.len(), 256);
    assert_eq!(counts.iter().sum::<u64>(), 11);
    assert_eq!(counts[b'l' as usize], 3);
    let len = data.len() as f64;
    let entropy: f64 = counts
        .iter()
        .filter(|&&c| c > 0)
        .map(|&c| {
            let p = c as f64 / len;
            -p * p.log2()
        })
        .sum();
    assert!(entropy > 2.8 && entropy < 2.9);
}

#[test]
fn sampling_positions() {
    assert_eq!(sampling_window(1000, 128), Ok(872));
    assert_eq!(sampling_window(128, 128), Ok(0));
    assert_eq!(sampling_window(10, 128), Err("文件大小（10字节）小于块大小（128字节）".to_string()));
    let starts = random_block_starts(872, 32);
    assert_eq!(starts.len(), 32);
    assert!(starts.iter().all(|&s| s <= 872));
    assert_eq!(random_block_starts(0, 3), vec![0, 0, 0]);
}

#[test]
fn fingerprints() {
    assert_eq!(
        calculate_cert_fingerprint(b""),
        "e3:b0:c4:42:98:fc:1c:14:9a:fb:f4:c8:99:6f:b9:24:27:ae:41:e4:64:9b:93:4c:a4:95:99:1b:78:52:b8:55"
    );
    assert_eq!(
        calculate_cert_fingerprint(b"hello"),
        "2c:f2:4d:ba:5f:b0:a3:0e:26:e8:3b:2a:c5:b9:e2:9e:1b:16:1e:5c:1f:a7:42:5e:73:04:33:62:93:8b:98:24"
    );
}

#[test]
fn self_signed_certificate() {
    let (cert, key, fp) = generate_self_signed_cert().unwrap();
    assert!(!cert.is_empty());
    assert!(!key.is_empty());
    assert_eq!(fp.len(), 95);
    assert_eq!(fp, calculate_cert_fingerprint(&cert));
}
