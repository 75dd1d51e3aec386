use exoingest::aggregate::{call_ai, AggregateError};
use exoingest::alias::standard;
use exoingest::ingest::Diagnostic;

#[test]
fn aggregation_preserves_source_then_row_order() {
    let table = standard().ok().unwrap();
    let a = "status,kepid\nconfirmed,a1\nFP,a2\nconfirmed,a3\n".to_string();
    let b = "status,tic\nCP,b1\n".to_string();
    let c = "status,epic\nKP,c1\nfa,c2\n".to_string();
    let sources = vec![Some(a), Some(b), Some(c)];
    let out = call_ai(&table, &sources).ok().unwrap();
    let confirmed_ids: Vec<String> =
        out.confirmed.iter().map(|r| r.star_id.clone().unwrap()).collect();
    assert_eq!(confirmed_ids, vec!["a1", "a3", "b1", "c1"]);
    let false_ids: Vec<String> =
        out.false_positive.iter().map(|r| r.star_id.clone().unwrap()).collect();
    assert_eq!(false_ids, vec!["a2", "c2"]);
}

#[test]
fn unreadable_source_fails_the_whole_run() {
    let table = standard().ok().unwrap();
    let a = "status,kepid\nconfirmed,1\n".to_string();
    let sources = vec![Some(a), None];
    match call_ai(&table, &sources) {
        Err(AggregateError::SourceUnreadable { index }) => assert_eq!(index, 1),
        other => panic!("expected a fatal run, got {:?}", other.is_ok()),
    }
}

#[test]
fn source_missing_header_fails_the_whole_run() {
    let table = standard().ok().unwrap();
    let a = "status,kepid\nconfirmed,1\n".to_string();
    let b = "# nothing but comments\n".to_string();
    let c = "status,kepid\nFP,2\n".to_string();
    let sources = vec![Some(a), Some(b), Some(c)];
    match call_ai(&table, &sources) {
        Err(AggregateError::MissingHeader { index }) => assert_eq!(index, 1),
        other => panic!("expected a fatal run, got {:?}", other.is_ok()),
    }
}

#[test]
fn earliest_failing_source_decides_the_error() {
    let table = standard().ok().unwrap();
    let sources = vec![None, Some("# no header\n".to_string())];
    match call_ai(&table, &sources) {
        Err(AggregateError::SourceUnreadable { index }) => assert_eq!(index, 0),
        other => panic!("expected a fatal run, got {:?}", other.is_ok()),
    }
}

#[test]
fn aggregate_of_no_sources_is_empty() {
    let table = standard().ok().unwrap();
    let out = call_ai(&table, &vec![]).ok().unwrap();
    assert_eq!(out.confirmed.len(), 0);
    assert_eq!(out.false_positive.len(), 0);
    assert_eq!(out.diagnostics.len(), 0);
}

#[test]
fn diagnostics_carry_source_provenance() {
    let table = standard().ok().unwrap();
    let a = "status,kepid\nconfirmed,1\n".to_string();
    let b = "status,kepid\nmaybe,2\n".to_string();
    let sources = vec![Some(a), Some(b)];
    let out = call_ai(&table, &sources).ok().unwrap();
    assert_eq!(out.diagnostics.len(), 1);
    assert_eq!(out.diagnostics[0].source, 1);
    match &out.diagnostics[0].diagnostic {
        Diagnostic::UnknownStatus { row, status } => {
            assert_eq!(*row, 0);
            assert_eq!(status, "maybe");
        },
        other => panic!("unexpected diagnostic {:?}", other),
    }
}

#[test]
fn candidates_absent_from_merged_partitions() {
    let table = standard().ok().unwrap();
    let a = "status,kepid\ncandidate,1\nconfirmed,2\n".to_string();
    let b = "status,kepid\nPC,3\nAPC,4\nFP,5\n".to_string();
    let sources = vec![Some(a), Some(b)];
    let out = call_ai(&table, &sources).ok().unwrap();
    for r in out.confirmed.iter().chain(out.false_positive.iter()) {
        let s = r.status.trim().to_lowercase();
        assert!(s != "candidate" && s != "pc" && s != "apc" && s != "candidate planet");
    }
    assert_eq!(out.confirmed.len(), 1);
    assert_eq!(out.false_positive.len(), 1);
}
