use exoingest::alias::standard;
use exoingest::ingest::{ingest_source, Diagnostic, IngestError};

#[test]
fn alias_resolution_is_transparent_across_sources() {
    let table = standard().ok().unwrap();
    let koi = "koi_disposition,koi_period\nCONFIRMED,3.5\n";
    let tess = "disposition,pl_orbper\nCONFIRMED,3.5\n";
    let a = ingest_source(&table, koi).ok().unwrap();
    let b = ingest_source(&table, tess).ok().unwrap();
    assert_eq!(a.confirmed.len(), 1);
    assert_eq!(b.confirmed.len(), 1);
    assert_eq!(a.confirmed[0].orbital_period_days, Some("3.5".to_string()));
    assert_eq!(b.confirmed[0].orbital_period_days, Some("3.5".to_string()));
    assert_eq!(a.confirmed[0].status, "CONFIRMED");
}

#[test]
fn candidates_enter_neither_partition() {
    let table = standard().ok().unwrap();
    let text = "status,kepid\ncandidate,1\nPC,2\nAPC,3\nconfirmed,4\nFP,5\n";
    let out = ingest_source(&table, text).ok().unwrap();
    assert_eq!(out.confirmed.len(), 1);
    assert_eq!(out.false_positive.len(), 1);
    assert_eq!(out.confirmed[0].star_id, Some("4".to_string()));
    assert_eq!(out.false_positive[0].star_id, Some("5".to_string()));
    assert_eq!(out.rows_read, 5);
    assert_eq!(out.dropped, 3);
    // candidates are dropped silently: no diagnostic for them
    assert_eq!(out.diagnostics.len(), 0);
}

#[test]
fn unknown_status_is_dropped_with_one_diagnostic() {
    let table = standard().ok().unwrap();
    let text = "status,kepid\nmaybe,1\nconfirmed,2\n";
    let out = ingest_source(&table, text).ok().unwrap();
    assert_eq!(out.confirmed.len(), 1);
    assert_eq!(out.false_positive.len(), 0);
    assert_eq!(out.dropped, 1);
    assert_eq!(out.diagnostics.len(), 1);
    match &out.diagnostics[0] {
        Diagnostic::UnknownStatus { row, status } => {
            assert_eq!(*row, 0);
            assert_eq!(status, "maybe");
        },
        other => panic!("unexpected diagnostic {:?}", other),
    }
    // ingestion of the later row was not aborted
    assert_eq!(out.confirmed[0].star_id, Some("2".to_string()));
}

#[test]
fn unparseable_row_is_skipped_alone() {
    let table = standard().ok().unwrap();
    let text = "status,kepid\nconfirmed,1\nconfirmed,2,extra\nFP,3\n";
    let out = ingest_source(&table, text).ok().unwrap();
    assert_eq!(out.confirmed.len(), 1);
    assert_eq!(out.false_positive.len(), 1);
    assert_eq!(out.rows_read, 3);
    assert_eq!(out.dropped, 1);
    match &out.diagnostics[0] {
        Diagnostic::SkippedRow { row } => assert_eq!(*row, 1),
        other => panic!("unexpected diagnostic {:?}", other),
    }
}

#[test]
fn header_without_status_column_is_fatal() {
    let table = standard().ok().unwrap();
    let text = "kepid,koi_period\n10,3.5\n";
    assert!(matches!(ingest_source(&table, text), Err(IngestError::MissingHeader)));
}

#[test]
fn headerless_data_first_line_is_fatal() {
    let table = standard().ok().unwrap();
    // the first kept line is already a data row, not column names: the
    // source must be rejected, not silently read with that row as header
    let text = "3.5,CONFIRMED\n9.1,FP\n";
    assert!(matches!(ingest_source(&table, text), Err(IngestError::MissingHeader)));
}

#[test]
fn record_without_status_column_does_not_build() {
    let table = standard().ok().unwrap();
    let header = vec!["kepid".to_string(), "koi_period".to_string()];
    let row = vec!["10".to_string(), "3.5".to_string()];
    assert!(exoingest::ingest::build_record(&table, &header, &row).is_none());
    let header2 = vec!["kepid".to_string(), "status".to_string()];
    let row2 = vec!["10".to_string(), "confirmed".to_string()];
    let rec = exoingest::ingest::build_record(&table, &header2, &row2).unwrap();
    assert_eq!(rec.status, "confirmed");
    assert_eq!(rec.star_id, Some("10".to_string()));
}

#[test]
fn missing_header_is_fatal() {
    let table = standard().ok().unwrap();
    assert!(matches!(ingest_source(&table, ""), Err(IngestError::MissingHeader)));
    assert!(matches!(ingest_source(&table, "# only a comment\n"), Err(IngestError::MissingHeader)));
    assert!(matches!(ingest_source(&table, "\n\n# note\n\n"), Err(IngestError::MissingHeader)));
}

#[test]
fn comments_and_blank_lines_are_skipped() {
    let table = standard().ok().unwrap();
    let text = "# exported catalog\n\n# another comment\nstatus,kepid\n# inline comment\nconfirmed,7\n\nFP,8\n";
    let out = ingest_source(&table, text).ok().unwrap();
    assert_eq!(out.confirmed.len(), 1);
    assert_eq!(out.false_positive.len(), 1);
    assert_eq!(out.confirmed[0].star_id, Some("7".to_string()));
    assert_eq!(out.rows_read, 2);
}

#[test]
fn crlf_line_endings_parse_like_lf() {
    let table = standard().ok().unwrap();
    let text = "status,kepid\r\nconfirmed,7\r\nFP,8\r\n";
    let out = ingest_source(&table, text).ok().unwrap();
    assert_eq!(out.confirmed.len(), 1);
    assert_eq!(out.false_positive.len(), 1);
    assert_eq!(out.confirmed[0].star_id, Some("7".to_string()));
    assert_eq!(out.false_positive[0].star_id, Some("8".to_string()));
}

#[test]
fn unrecognized_columns_are_ignored_with_diagnostic() {
    let table = standard().ok().unwrap();
    let text = "status,rowid,kepid\nconfirmed,999,42\n";
    let out = ingest_source(&table, text).ok().unwrap();
    assert_eq!(out.confirmed.len(), 1);
    assert_eq!(out.confirmed[0].star_id, Some("42".to_string()));
    assert_eq!(out.diagnostics.len(), 1);
    match &out.diagnostics[0] {
        Diagnostic::UnrecognizedColumn { name } => assert_eq!(name, "rowid"),
        other => panic!("unexpected diagnostic {:?}", other),
    }
}

#[test]
fn partition_sizes_account_for_every_row() {
    let table = standard().ok().unwrap();
    // three confirmed, two false positives, nothing else
    let text = "status,kepid\nconfirmed,1\nKP,2\nCP,3\nFP,4\nfalse positive,5\n";
    let out = ingest_source(&table, text).ok().unwrap();
    assert_eq!(out.confirmed.len(), 3);
    assert_eq!(out.false_positive.len(), 2);
    assert_eq!(out.dropped, 0);
    assert_eq!(out.rows_read, 5);
    assert_eq!(out.confirmed.len() + out.false_positive.len() + out.dropped, out.rows_read);
}

#[test]
fn archive_style_headers_populate_remaining_fields() {
    let table = standard().ok().unwrap();
    let text = "disposition,pl_name,pl_orbeccen,pl_orbincl,pl_orbsmax,pl_bmasse,pl_bmassj,pl_dens,pl_insol,discoverymethod,disc_year,facility,koi_ror,koi_score\nCONFIRMED,Kepler-22 b,0.72,89.8,0.849,9.1,0.0286,2.1,1.1,Transit,2011,Kepler,0.02,0.9\n";
    let out = ingest_source(&table, text).ok().unwrap();
    assert_eq!(out.confirmed.len(), 1);
    let r = &out.confirmed[0];
    assert_eq!(r.planet_id, Some("Kepler-22 b".to_string()));
    assert_eq!(r.eccentricity, Some("0.72".to_string()));
    assert_eq!(r.inclination_deg, Some("89.8".to_string()));
    assert_eq!(r.semi_major_axis_au, Some("0.849".to_string()));
    assert_eq!(r.planet_mass_me, Some("9.1".to_string()));
    assert_eq!(r.planet_mass_mj, Some("0.0286".to_string()));
    assert_eq!(r.planet_density, Some("2.1".to_string()));
    assert_eq!(r.insolation_flux, Some("1.1".to_string()));
    assert_eq!(r.discovery_method, Some("Transit".to_string()));
    assert_eq!(r.discovery_year, Some("2011".to_string()));
    assert_eq!(r.mission, Some("Kepler".to_string()));
    assert_eq!(r.rp_over_rs, Some("0.02".to_string()));
    assert_eq!(r.vetting_score, Some("0.9".to_string()));
}

#[test]
fn later_column_for_same_field_overwrites() {
    let table = standard().ok().unwrap();
    let text = "status,kepid,tic\nconfirmed,1,2\n";
    let out = ingest_source(&table, text).ok().unwrap();
    assert_eq!(out.confirmed[0].star_id, Some("2".to_string()));
}

#[test]
fn many_canonical_fields_populate() {
    let table = standard().ok().unwrap();
    let text = "status,kepid,kepoi_name,ra,dec,kepmag,koi_period,koi_time0bk,koi_duration,koi_depth,koi_prad,koi_teq,koi_steff,koi_srad,koi_smass,koi_smet,koi_slogg,koi_model_snr,koi_score\nCONFIRMED,10797460,K00752.01,291.93423,48.141651,15.347,9.48803557,170.53875,2.9575,615.8,2.26,793,5455,0.927,0.919,0.14,4.467,35.8,1\n";
    let out = ingest_source(&table, text).ok().unwrap();
    assert_eq!(out.confirmed.len(), 1);
    let r = &out.confirmed[0];
    assert_eq!(r.star_id, Some("10797460".to_string()));
    assert_eq!(r.planet_id, Some("K00752.01".to_string()));
    assert_eq!(r.ra, Some("291.93423".to_string()));
    assert_eq!(r.dec, Some("48.141651".to_string()));
    assert_eq!(r.mag, Some("15.347".to_string()));
    assert_eq!(r.orbital_period_days, Some("9.48803557".to_string()));
    assert_eq!(r.transit_epoch_bjd, Some("170.53875".to_string()));
    assert_eq!(r.transit_duration_hr, Some("2.9575".to_string()));
    assert_eq!(r.transit_depth_ppm, Some("615.8".to_string()));
    assert_eq!(r.planet_radius_re, Some("2.26".to_string()));
    assert_eq!(r.planet_eq_temp_k, Some("793".to_string()));
    assert_eq!(r.stellar_teff_k, Some("5455".to_string()));
    assert_eq!(r.stellar_radius_rs, Some("0.927".to_string()));
    assert_eq!(r.stellar_mass_ms, Some("0.919".to_string()));
    assert_eq!(r.stellar_metallicity, Some("0.14".to_string()));
    assert_eq!(r.stellar_logg, Some("4.467".to_string()));
    assert_eq!(r.detection_snr, Some("35.8".to_string()));
    assert_eq!(r.vetting_score, Some("1".to_string()));
    assert_eq!(r.mission, None);
}
