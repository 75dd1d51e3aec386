use exoingest::alias::{standard, AliasEntry, AliasTable};
use exoingest::fields::Field;

#[test]
fn standard_table_builds() {
    assert!(standard().is_ok());
}

#[test]
fn resolution_is_source_format_transparent() {
    let table = standard().ok().unwrap();
    assert_eq!(table.resolve(&"koi_period".to_string()), Some(Field::OrbitalPeriodDays));
    assert_eq!(table.resolve(&"pl_orbper".to_string()), Some(Field::OrbitalPeriodDays));
    assert_eq!(table.resolve(&"Period".to_string()), Some(Field::OrbitalPeriodDays));
    assert_eq!(table.resolve(&"tfopwg_disp".to_string()), Some(Field::Status));
    assert_eq!(table.resolve(&"koi_disposition".to_string()), Some(Field::Status));
    assert_eq!(table.resolve(&"kepid".to_string()), Some(Field::StarId));
    assert_eq!(table.resolve(&"TIC ID".to_string()), Some(Field::StarId));
}

#[test]
fn resolution_is_case_sensitive() {
    let table = standard().ok().unwrap();
    assert_eq!(table.resolve(&"TIC".to_string()), Some(Field::StarId));
    assert_eq!(table.resolve(&"tic".to_string()), Some(Field::StarId));
    assert_eq!(table.resolve(&"Tic".to_string()), None);
    assert_eq!(table.resolve(&"KOI_PERIOD".to_string()), None);
}

#[test]
fn unrecognized_column_resolves_to_none() {
    let table = standard().ok().unwrap();
    assert_eq!(table.resolve(&"rowid".to_string()), None);
    assert_eq!(table.resolve(&"".to_string()), None);
}

#[test]
fn ambiguous_alias_table_is_rejected() {
    let entries = vec![
        AliasEntry { name: "period".to_string(), field: Field::OrbitalPeriodDays },
        AliasEntry { name: "epoch".to_string(), field: Field::TransitEpochBjd },
        AliasEntry { name: "period".to_string(), field: Field::TransitDurationHr },
    ];
    match AliasTable::new(entries) {
        Ok(_) => panic!("duplicate raw name must be rejected"),
        Err(e) => assert_eq!(e.duplicate, "period"),
    }
}

#[test]
fn unambiguous_alias_table_is_accepted() {
    let entries = vec![
        AliasEntry { name: "period".to_string(), field: Field::OrbitalPeriodDays },
        AliasEntry { name: "epoch".to_string(), field: Field::TransitEpochBjd },
    ];
    let table = AliasTable::new(entries).ok().unwrap();
    assert_eq!(table.resolve(&"period".to_string()), Some(Field::OrbitalPeriodDays));
    assert_eq!(table.resolve(&"epoch".to_string()), Some(Field::TransitEpochBjd));
}
