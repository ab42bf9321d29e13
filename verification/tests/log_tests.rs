//! Log routing: severity mapping and code-location parsing.

use ors::log::{build_log_record, map_severity, CodeLocation, HostLogLevel, LoggingLevel};

#[test]
fn severity_maps_to_host_levels() {
    assert_eq!(map_severity(0), HostLogLevel::Trace);
    assert_eq!(map_severity(1), HostLogLevel::Debug);
    assert_eq!(map_severity(2), HostLogLevel::Info);
    assert_eq!(map_severity(3), HostLogLevel::Warn);
    assert_eq!(map_severity(4), HostLogLevel::Error);
    // Unknown severities are forwarded at the informational level.
    assert_eq!(map_severity(17), HostLogLevel::Info);
}

#[test]
fn logging_level_tags_match_the_abi() {
    assert_eq!(LoggingLevel::Verbose.to_raw(), 0);
    assert_eq!(LoggingLevel::Info.to_raw(), 1);
    assert_eq!(LoggingLevel::Warning.to_raw(), 2);
    assert_eq!(LoggingLevel::Error.to_raw(), 3);
    assert_eq!(LoggingLevel::Fatal.to_raw(), 4);
}

#[test]
fn code_location_splits_file_line_and_function() {
    let loc = b"model.cc:42 RunGraph".to_vec();
    let parsed = CodeLocation::parse(&loc);
    assert_eq!(parsed.file, b"model.cc".to_vec());
    assert_eq!(parsed.line_number, Some(b"42".to_vec()));
    assert_eq!(parsed.function, Some(b"RunGraph".to_vec()));
}

#[test]
fn code_location_tolerates_missing_parts() {
    let bare = b"model.cc".to_vec();
    let parsed = CodeLocation::parse(&bare);
    assert_eq!(parsed.file, b"model.cc".to_vec());
    assert_eq!(parsed.line_number, None);
    assert_eq!(parsed.function, None);

    let empty: Vec<u8> = Vec::new();
    let parsed = CodeLocation::parse(&empty);
    assert_eq!(parsed.file, Vec::<u8>::new());
    assert_eq!(parsed.line_number, None);
    assert_eq!(parsed.function, None);
}

#[test]
fn code_location_takes_first_segments_only() {
    // Only the first colon split and the first space split count.
    let loc = b"a:b:c d e".to_vec();
    let parsed = CodeLocation::parse(&loc);
    assert_eq!(parsed.file, b"a".to_vec());
    assert_eq!(parsed.line_number, Some(b"b".to_vec()));
    assert_eq!(parsed.function, Some(b"d".to_vec()));
}

#[test]
fn log_record_carries_the_translations() {
    let record = build_log_record(
        4,
        b"runtime".to_vec(),
        b"session-1".to_vec(),
        &b"graph.cc:7 Optimize".to_vec(),
        b"fatal condition".to_vec(),
    );
    assert_eq!(record.level, HostLogLevel::Error);
    assert_eq!(record.category, b"runtime".to_vec());
    assert_eq!(record.logid, b"session-1".to_vec());
    assert_eq!(record.location.file, b"graph.cc".to_vec());
    assert_eq!(record.location.line_number, Some(b"7".to_vec()));
    assert_eq!(record.location.function, Some(b"Optimize".to_vec()));
    assert_eq!(record.message, b"fatal condition".to_vec());
}
