use exoingest::ingest::{export_pairs, IngestError};

#[test]
fn export_keys_rows_by_raw_header() {
    let text = "status,rowid,koi_period\nCONFIRMED,1,3.5\nFP,2,9.1\n";
    let rows = export_pairs(text).ok().unwrap();
    assert_eq!(rows.len(), 2);
    assert_eq!(
        rows[0],
        vec![
            ("status".to_string(), "CONFIRMED".to_string()),
            ("rowid".to_string(), "1".to_string()),
            ("koi_period".to_string(), "3.5".to_string()),
        ]
    );
    assert_eq!(rows[1][2], ("koi_period".to_string(), "9.1".to_string()));
}

#[test]
fn export_skips_rows_with_wrong_column_count() {
    let text = "status,rowid\nCONFIRMED,1\nFP\ncandidate,3\n";
    let rows = export_pairs(text).ok().unwrap();
    assert_eq!(rows.len(), 2);
    assert_eq!(rows[0][1], ("rowid".to_string(), "1".to_string()));
    assert_eq!(rows[1][1], ("rowid".to_string(), "3".to_string()));
}

#[test]
fn export_without_header_is_fatal() {
    assert!(matches!(export_pairs("# comments only\n"), Err(IngestError::MissingHeader)));
}

#[test]
fn export_keeps_comment_lines_out() {
    let text = "# preamble\nstatus\n# middle\nCONFIRMED\n";
    let rows = export_pairs(text).ok().unwrap();
    assert_eq!(rows.len(), 1);
    assert_eq!(rows[0], vec![("status".to_string(), "CONFIRMED".to_string())]);
}
