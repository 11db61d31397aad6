use flowstt::log_archive::{
    archive_log_files, default_log_archive_name, is_log_file_name, latest_modified, log_archive_name,
};
use std::io::Read;

#[test]
fn log_file_names() {
    assert!(is_log_file_name("flowstt-app.2024-01-01.log"));
    assert!(is_log_file_name("a.log"));
    assert!(!is_log_file_name(".log"));
    assert!(!is_log_file_name("notes.txt"));
    assert!(!is_log_file_name("log"));
    assert!(!is_log_file_name("a.log.gz"));
}

#[test]
fn archive_names() {
    assert_eq!(log_archive_name("2024-05-06"), "flowstt-logs-2024-05-06.zip");
    let today = default_log_archive_name();
    assert!(today.starts_with("flowstt-logs-"));
    assert!(today.ends_with(".zip"));
    assert_eq!(today.len(), "flowstt-logs-".len() + 10 + ".zip".len());
    let date = &today.as_bytes()["flowstt-logs-".len()..today.len() - 4];
    assert_eq!(date[4], b'-');
    assert_eq!(date[7], b'-');
    assert!(date.iter().enumerate().all(|(i, c)| i == 4 || i == 7 || c.is_ascii_digit()));
}

#[test]
fn empty_log_directory() {
    assert_eq!(archive_log_files(&vec![]), Err("no_logs".to_string()));
}

#[test]
fn archive_holds_each_readable_file() {
    let entries = vec![
        Some(("a.log".to_string(), b"first line\n".to_vec())),
        None,
        Some(("b.log".to_string(), b"second".to_vec())),
    ];
    let bytes = archive_log_files(&entries).unwrap();
    let mut archive = zip::ZipArchive::new(std::io::Cursor::new(bytes)).unwrap();
    assert_eq!(archive.len(), 2);
    let mut text = String::new();
    archive.by_name("a.log").unwrap().read_to_string(&mut text).unwrap();
    assert_eq!(text, "first line\n");
    text.clear();
    archive.by_name("b.log").unwrap().read_to_string(&mut text).unwrap();
    assert_eq!(text, "second");
}

#[test]
fn unreadable_files_still_count() {
    let bytes = archive_log_files(&vec![None]).unwrap();
    let archive = zip::ZipArchive::new(std::io::Cursor::new(bytes)).unwrap();
    assert_eq!(archive.len(), 0);
}

#[test]
fn most_recent_log_file() {
    assert_eq!(latest_modified(&vec![]), None);
    assert_eq!(latest_modified(&vec![5]), Some(0));
    assert_eq!(latest_modified(&vec![3, 9, 1]), Some(1));
    assert_eq!(latest_modified(&vec![9, 2, 9]), Some(2));
}

#[test]
fn a_repeated_name_keeps_the_first_file() {
    let entries = vec![
        Some(("a.log".to_string(), b"first".to_vec())),
        Some(("a.log".to_string(), b"second".to_vec())),
    ];
    let bytes = archive_log_files(&entries).unwrap();
    let mut archive = zip::ZipArchive::new(std::io::Cursor::new(bytes)).unwrap();
    assert_eq!(archive.len(), 1);
    let mut text = String::new();
    archive.by_name("a.log").unwrap().read_to_string(&mut text).unwrap();
    assert_eq!(text, "first");
}
