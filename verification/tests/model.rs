use std::str::FromStr;

use psbt_guard_core::model::{Evidence, EvidenceScope, FindingCode, Severity};

#[test]
fn severity_orders_from_info_to_critical() {
    assert!(Severity::Info < Severity::Warning);
    assert!(Severity::Warning < Severity::Violation);
    assert!(Severity::Violation < Severity::Critical);
}

#[test]
fn only_violation_and_critical_block() {
    assert!(!Severity::Info.is_blocking());
    assert!(!Severity::Warning.is_blocking());
    assert!(Severity::Violation.is_blocking());
    assert!(Severity::Critical.is_blocking());
}

#[test]
fn finding_code_parsing_is_case_insensitive_but_strict() {
    assert_eq!(
        FindingCode::from_str("pg304").expect("known code"),
        FindingCode::Pg304
    );
    assert!(FindingCode::from_str("PG999").is_err());
}

#[test]
fn evidence_constructors_fill_only_their_scope() {
    let evidence = Evidence::output(3, "recipient_amount", "x");
    assert_eq!(evidence.scope, Some(EvidenceScope::Output));
    assert_eq!(evidence.output_index, Some(3));
    assert_eq!(evidence.input_index, None);
    assert_eq!(evidence.field.as_deref(), Some("recipient_amount"));
    assert_eq!(evidence.actual.as_deref(), Some("x"));
}

#[test]
fn finding_code_parsing_trims_white_space_and_keeps_the_input_on_error() {
    assert_eq!(FindingCode::parse("  Pg201\n"), Ok(FindingCode::Pg201));
    let error = FindingCode::parse("PG10").expect_err("too short");
    assert_eq!(error.input(), "PG10");
    assert_eq!(
        error.message(),
        "unknown finding code `PG10`; expected PG101-PG105, PG201 or PG301-PG304"
    );
}

#[test]
fn every_finding_code_round_trips_through_its_text() {
    let codes = [
        FindingCode::Pg101,
        FindingCode::Pg102,
        FindingCode::Pg103,
        FindingCode::Pg104,
        FindingCode::Pg105,
        FindingCode::Pg201,
        FindingCode::Pg301,
        FindingCode::Pg302,
        FindingCode::Pg303,
        FindingCode::Pg304,
    ];
    for code in codes {
        assert_eq!(FindingCode::from_str(code.as_str()), Ok(code));
        assert_eq!(FindingCode::from_str(&code.as_str().to_lowercase()), Ok(code));
    }
    assert_eq!(FindingCode::Pg303.as_str(), "PG303");
}
