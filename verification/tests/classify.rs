use exoingest::status::{classify, StatusClass};
use exoingest::fields::TrainingRow;

fn row_with_status(s: &str) -> TrainingRow {
    let mut r = TrainingRow::blank();
    r.set_field(exoingest::fields::Field::Status, s.to_string());
    r
}

#[test]
fn classify_is_case_and_space_insensitive() {
    let a = classify(" Confirmed ");
    let b = classify("confirmed");
    let c = classify("CONFIRMED");
    assert_eq!(a, StatusClass::Confirmed);
    assert_eq!(a, b);
    assert_eq!(b, c);
}

#[test]
fn classify_confirmed_vocabulary() {
    assert_eq!(classify("confirmed"), StatusClass::Confirmed);
    assert_eq!(classify("CP"), StatusClass::Confirmed);
    assert_eq!(classify("kp"), StatusClass::Confirmed);
    assert_eq!(classify("VALIDATED"), StatusClass::Confirmed);
    assert_eq!(classify("\tKp\n"), StatusClass::Confirmed);
}

#[test]
fn classify_false_positive_vocabulary() {
    assert_eq!(classify("false positive"), StatusClass::FalsePositive);
    assert_eq!(classify("FALSE POSITIVE"), StatusClass::FalsePositive);
    assert_eq!(classify("FP"), StatusClass::FalsePositive);
    assert_eq!(classify(" fa "), StatusClass::FalsePositive);
}

#[test]
fn classify_candidate_vocabulary() {
    assert_eq!(classify("candidate"), StatusClass::Candidate);
    assert_eq!(classify("PC"), StatusClass::Candidate);
    assert_eq!(classify("APC"), StatusClass::Candidate);
    assert_eq!(classify("Candidate Planet"), StatusClass::Candidate);
}

#[test]
fn classify_unknown_vocabulary() {
    assert_eq!(classify("maybe"), StatusClass::Unknown);
    assert_eq!(classify(""), StatusClass::Unknown);
    assert_eq!(classify("   "), StatusClass::Unknown);
    assert_eq!(classify("confirmed planet"), StatusClass::Unknown);
    assert_eq!(classify("falsepositive"), StatusClass::Unknown);
}

#[test]
fn row_ok_filters_candidates_only() {
    assert!(!row_with_status("candidate").row_ok());
    assert!(!row_with_status("PC").row_ok());
    assert!(!row_with_status("apc").row_ok());
    assert!(row_with_status("confirmed").row_ok());
    assert!(row_with_status("FP").row_ok());
    assert!(row_with_status("maybe").row_ok());
}
