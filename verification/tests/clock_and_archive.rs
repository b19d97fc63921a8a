use std::io::Read;

use parallel_invocation::archive::{handler_archive, HANDLER_ENTRY};
use parallel_invocation::clock::{
    log_line, timestamp_text, EARLIEST_TIMESTAMP, FIRST_FOUR_DIGIT_YEAR, LAST_FOUR_DIGIT_YEAR,
    LATEST_TIMESTAMP, TIMESTAMP_WIDTH,
};
use parallel_invocation::protocol::{LogEntry, ToolError};

#[test]
fn timestamp_of_known_instant() {
    assert_eq!(timestamp_text(1431648000), "2015-05-15T00:00:00Z");
    assert_eq!(timestamp_text(0), "1970-01-01T00:00:00Z");
    assert_eq!(timestamp_text(253402300799), "9999-12-31T23:59:59Z");
    assert_eq!(timestamp_text(-1), "1969-12-31T23:59:59Z");
    assert_eq!(timestamp_text(-62135596800), "0001-01-01T00:00:00Z");
}

#[test]
fn timestamp_to_the_second() {
    assert_eq!(timestamp_text(1725029869), "2024-08-30T14:57:49Z");
}

#[test]
fn log_line_layout() {
    let e = LogEntry {
        level: "info".to_string(),
        scope: "setup".to_string(),
        message: "実行者: arn".to_string(),
    };
    assert_eq!(log_line(1431648000, &e), "2015-05-15T00:00:00Z [info] setup  実行者: arn");
}

#[test]
fn archive_holds_exactly_the_handler() {
    let source = b"def handler(event, context):\n    return {\"statusCode\": 200}\n".to_vec();
    let bytes = handler_archive(&source).ok().expect("archive");
    assert_ne!(bytes, source);
    assert_eq!(&bytes[0..4], b"PK\x03\x04");
    let mut zip = zip::ZipArchive::new(std::io::Cursor::new(bytes)).expect("readable");
    assert_eq!(zip.len(), 1);
    let mut entry = zip.by_index(0).expect("entry");
    assert_eq!(entry.name(), HANDLER_ENTRY);
    let mut back = Vec::new();
    entry.read_to_end(&mut back).expect("read");
    assert_eq!(back, source);
}

#[test]
fn archive_of_empty_handler() {
    let bytes = handler_archive(&[]).ok().expect("archive");
    let mut zip = zip::ZipArchive::new(std::io::Cursor::new(bytes)).expect("readable");
    let mut entry = zip.by_name("handler.py").expect("entry");
    let mut back = Vec::new();
    entry.read_to_end(&mut back).expect("read");
    assert!(back.is_empty());
}

#[test]
fn archive_is_a_function_of_its_source() {
    let a = handler_archive(b"print(1)\n").ok().unwrap();
    let b = handler_archive(b"print(1)\n").ok().unwrap();
    let c = handler_archive(b"print(2)\n").ok().unwrap();
    assert_eq!(a, b);
    assert_ne!(a, c);
    match handler_archive(b"x") {
        Ok(_) => {}
        Err(ToolError::Zip(_)) | Err(ToolError::Io(_)) => panic!("unexpected failure"),
        Err(_) => panic!("impossible error kind"),
    }
}

#[test]
fn archive_of_a_large_scrambled_handler() {
    let mut x: u32 = 12345;
    let mut source = Vec::with_capacity(1 << 20);
    for _ in 0..(1 << 20) {
        x = x.wrapping_mul(1103515245).wrapping_add(12345);
        source.push((x >> 16) as u8);
    }
    let bytes = handler_archive(&source).ok().expect("archive");
    let mut zip = zip::ZipArchive::new(std::io::Cursor::new(bytes)).expect("readable");
    let mut entry = zip.by_name(HANDLER_ENTRY).expect("entry");
    let mut back = Vec::new();
    entry.read_to_end(&mut back).expect("read");
    assert_eq!(back, source);
}

#[test]
fn timestamps_at_the_ends_of_chrono_range() {
    assert_eq!(timestamp_text(LATEST_TIMESTAMP), "+262142-12-31T23:59:59Z");
    assert_eq!(timestamp_text(EARLIEST_TIMESTAMP), "-262143-01-01T00:00:00Z");
}

#[test]
fn timestamps_of_four_digit_years_have_twenty_characters() {
    assert_eq!(timestamp_text(FIRST_FOUR_DIGIT_YEAR), "0000-01-01T00:00:00Z");
    for secs in [FIRST_FOUR_DIGIT_YEAR, -1, 0, 1725029869, LAST_FOUR_DIGIT_YEAR] {
        assert_eq!(timestamp_text(secs).chars().count(), TIMESTAMP_WIDTH);
    }
}
